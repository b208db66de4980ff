use vstd::prelude::*;
use crate::error::{ContractError, ContractErrorV};
use crate::msg::BlockInfo;
use crate::state::{Store, StoreV};

verus! {

/// When a pending ownership proposal lapses: at a block height, or at a
/// block timestamp. A proposal without an expiry never lapses.
#[derive(Clone, Copy, PartialEq, Eq, Structural, Debug)]
pub enum Expiration {
    AtHeight(u64),
    AtTime(u64),
}

/// One ownership-transfer transition.
#[derive(Debug, PartialEq)]
pub enum Action {
    /// The current owner proposes to hand the relation to `new_owner`.
    TransferOwnership { new_owner: String, expiry: Option<Expiration> },
    /// The proposed new owner takes the relation over.
    AcceptOwnership,
    /// The current owner gives the relation up for good.
    RenounceOwnership,
}

/// The mathematical shape of an [`Action`].
pub enum ActionV {
    TransferOwnership { new_owner: Seq<char>, expiry: Option<Expiration> },
    AcceptOwnership,
    RenounceOwnership,
}

impl View for Action {
    type V = ActionV;

    open spec fn view(&self) -> ActionV {
        match self {
            Action::TransferOwnership { new_owner, expiry } => ActionV::TransferOwnership {
                new_owner: new_owner@,
                expiry: *expiry,
            },
            Action::AcceptOwnership => ActionV::AcceptOwnership,
            Action::RenounceOwnership => ActionV::RenounceOwnership,
        }
    }
}

/// The single ownership record: the current owner, if any, and the pending
/// proposal, if one is open.
#[derive(Debug, PartialEq)]
pub struct Ownership {
    pub owner: Option<String>,
    pub pending_owner: Option<String>,
    pub pending_expiry: Option<Expiration>,
}

/// The mathematical shape of an [`Ownership`] record.
pub struct OwnershipV {
    pub owner: Option<Seq<char>>,
    pub pending_owner: Option<Seq<char>>,
    pub pending_expiry: Option<Expiration>,
}

/// The character sequence behind an optional identity.
pub open spec fn opt_text(o: Option<String>) -> Option<Seq<char>> {
    match o {
        Option::Some(s) => Option::Some(s@),
        Option::None => Option::None,
    }
}

impl View for Ownership {
    type V = OwnershipV;

    open spec fn view(&self) -> OwnershipV {
        OwnershipV {
            owner: opt_text(self.owner),
            pending_owner: opt_text(self.pending_owner),
            pending_expiry: self.pending_expiry,
        }
    }
}

/// The record right after initialization: the given owner, nothing pending.
pub open spec fn spec_init_ownership(owner: Option<Seq<char>>) -> OwnershipV {
    OwnershipV { owner, pending_owner: Option::None, pending_expiry: Option::None }
}

/// Whether a proposal with this expiry has lapsed at the given block.
pub open spec fn spec_expired(e: Option<Expiration>, b: BlockInfo) -> bool {
    match e {
        Option::Some(Expiration::AtHeight(h)) => b.height >= h,
        Option::Some(Expiration::AtTime(t)) => b.time >= t,
        Option::None => false,
    }
}

/// What one ownership-transfer action does to an existing record.
///
/// Only the current owner may propose or renounce; only the proposed new
/// owner may accept, and only while the proposal has not lapsed. Accepting
/// clears the pending fields and makes the acceptor the owner; renouncing
/// clears the whole record. Every refused attempt names the offending caller,
/// except an accept of a lapsed proposal, which fails as expired.
pub open spec fn spec_update_ownership(
    own: OwnershipV,
    b: BlockInfo,
    sender: Seq<char>,
    action: ActionV,
) -> Result<OwnershipV, ContractErrorV> {
    match action {
        ActionV::TransferOwnership { new_owner, expiry } => {
            if own.owner == Option::Some(sender) {
                Result::Ok(
                    OwnershipV {
                        owner: own.owner,
                        pending_owner: Option::Some(new_owner),
                        pending_expiry: expiry,
                    },
                )
            } else {
                Result::Err(ContractErrorV::Unauthorized { sender })
            }
        },
        ActionV::AcceptOwnership => {
            if own.pending_owner == Option::Some(sender) {
                if spec_expired(own.pending_expiry, b) {
                    Result::Err(ContractErrorV::TransferExpired)
                } else {
                    Result::Ok(spec_init_ownership(Option::Some(sender)))
                }
            } else {
                Result::Err(ContractErrorV::Unauthorized { sender })
            }
        },
        ActionV::RenounceOwnership => {
            if own.owner == Option::Some(sender) {
                Result::Ok(spec_init_ownership(Option::None))
            } else {
                Result::Err(ContractErrorV::Unauthorized { sender })
            }
        },
    }
}

fn clone_opt_string(o: &Option<String>) -> (r: Option<String>)
    ensures
        r == *o,
{
    match o {
        Option::Some(s) => Option::Some(s.clone()),
        Option::None => Option::None,
    }
}

fn opt_string_is(o: &Option<String>, s: &String) -> (r: bool)
    ensures
        r == (opt_text(*o) == Option::Some(s@)),
{
    match o {
        Option::Some(t) => t.eq(s),
        Option::None => false,
    }
}

impl Ownership {
    /// An identical copy of the record.
    pub fn duplicate(&self) -> (r: Ownership)
        ensures
            r == *self,
    {
        Ownership {
            owner: clone_opt_string(&self.owner),
            pending_owner: clone_opt_string(&self.pending_owner),
            pending_expiry: self.pending_expiry,
        }
    }
}

/// Unconditionally writes a fresh ownership record naming the given owner,
/// with no pending proposal, and returns the written record.
pub fn initialize_owner(store: &mut Store, owner: Option<String>) -> (r: Ownership)
    ensures
        final(store)@.counter == old(store)@.counter,
        final(store)@.ownership == Option::Some(spec_init_ownership(opt_text(owner))),
        r@ == spec_init_ownership(opt_text(owner)),
{
    let rec = Ownership { owner, pending_owner: Option::None, pending_expiry: Option::None };
    let ret = rec.duplicate();
    store.ownership = Option::Some(rec);
    ret
}

/// Reads the ownership record; fails with a not-found error when ownership
/// was never initialized.
pub fn get_ownership(store: &Store) -> (r: Result<Ownership, ContractError>)
    ensures
        store@.ownership matches Option::Some(own) ==> (r matches Result::Ok(o) && o@ == own),
        store@.ownership is None ==> (r matches Result::Err(e) && e@ == ContractErrorV::NotFound),
{
    match &store.ownership {
        Option::Some(o) => Result::Ok(o.duplicate()),
        Option::None => Result::Err(ContractError::NotFound),
    }
}

/// Applies one ownership-transfer action to the stored record under the
/// protocol's authorization rule; on any failure the store is unchanged.
pub fn update_ownership(
    store: &mut Store,
    block: &BlockInfo,
    sender: &String,
    action: Action,
) -> (r: Result<Ownership, ContractError>)
    ensures
        old(store)@.ownership is None ==> (*final(store) == *old(store) && (r matches Result::Err(
            e,
        ) && e@ == ContractErrorV::NotFound)),
        old(store)@.ownership matches Option::Some(own) ==> match spec_update_ownership(
            own,
            *block,
            sender@,
            action@,
        ) {
            Result::Ok(o2) => final(store)@ == (StoreV {
                counter: old(store)@.counter,
                ownership: Option::Some(o2),
            }) && (r matches Result::Ok(ret) && ret@ == o2),
            Result::Err(ev) => *final(store) == *old(store) && (r matches Result::Err(e) && e@
                == ev),
        },
{
    match &store.ownership {
        Option::None => Result::Err(ContractError::NotFound),
        Option::Some(own) => match action {
            Action::TransferOwnership { new_owner, expiry } => {
                if opt_string_is(&own.owner, sender) {
                    let updated = Ownership {
                        owner: clone_opt_string(&own.owner),
                        pending_owner: Option::Some(new_owner),
                        pending_expiry: expiry,
                    };
                    let ret = updated.duplicate();
                    store.ownership = Option::Some(updated);
                    Result::Ok(ret)
                } else {
                    Result::Err(ContractError::Unauthorized { sender: sender.clone() })
                }
            },
            Action::AcceptOwnership => {
                if opt_string_is(&own.pending_owner, sender) {
                    if expired_now(&own.pending_expiry, block) {
                        Result::Err(ContractError::TransferExpired)
                    } else {
                        let updated = Ownership {
                            owner: Option::Some(sender.clone()),
                            pending_owner: Option::None,
                            pending_expiry: Option::None,
                        };
                        let ret = updated.duplicate();
                        store.ownership = Option::Some(updated);
                        Result::Ok(ret)
                    }
                } else {
                    Result::Err(ContractError::Unauthorized { sender: sender.clone() })
                }
            },
            Action::RenounceOwnership => {
                if opt_string_is(&own.owner, sender) {
                    let updated = Ownership {
                        owner: Option::None,
                        pending_owner: Option::None,
                        pending_expiry: Option::None,
                    };
                    let ret = updated.duplicate();
                    store.ownership = Option::Some(updated);
                    Result::Ok(ret)
                } else {
                    Result::Err(ContractError::Unauthorized { sender: sender.clone() })
                }
            },
        },
    }
}

fn expired_now(e: &Option<Expiration>, b: &BlockInfo) -> (r: bool)
    ensures
        r == spec_expired(*e, *b),
{
    match e {
        Option::Some(Expiration::AtHeight(h)) => b.height >= *h,
        Option::Some(Expiration::AtTime(t)) => b.time >= *t,
        Option::None => false,
    }
}

/// Law: a freshly initialized record reports the given owner and nothing
/// pending.
pub proof fn lemma_initialized_ownership(a: Seq<char>)
    ensures
        spec_init_ownership(Option::Some(a)).owner == Option::Some(a),
        spec_init_ownership(Option::Some(a)).pending_owner is None,
        spec_init_ownership(Option::Some(a)).pending_expiry is None,
{
}

/// Law: a transfer proposal from any caller other than the current owner is
/// refused with an unauthorized error naming that caller, whoever the
/// proposed new owner is, and whatever the block context.
pub proof fn lemma_propose_requires_owner(
    own: OwnershipV,
    b: BlockInfo,
    caller: Seq<char>,
    new_owner: Seq<char>,
    expiry: Option<Expiration>,
)
    requires
        own.owner != Option::Some(caller),
    ensures
        spec_update_ownership(own, b, caller, ActionV::TransferOwnership { new_owner, expiry })
            == Result::<OwnershipV, ContractErrorV>::Err(
            ContractErrorV::Unauthorized { sender: caller },
        ),
{
}

/// Law: a proposal from owner `a` to `other`, accepted by `other` before it
/// lapses, leaves `other` as owner with nothing pending.
pub proof fn lemma_propose_then_accept(
    own: OwnershipV,
    b1: BlockInfo,
    b2: BlockInfo,
    a: Seq<char>,
    other: Seq<char>,
    expiry: Option<Expiration>,
)
    requires
        own.owner == Option::Some(a),
        !spec_expired(expiry, b2),
    ensures
        ({
            let proposed = spec_update_ownership(
                own,
                b1,
                a,
                ActionV::TransferOwnership { new_owner: other, expiry },
            );
            &&& proposed matches Result::Ok(mid)
            &&& spec_update_ownership(mid, b2, other, ActionV::AcceptOwnership)
                == Result::<OwnershipV, ContractErrorV>::Ok(spec_init_ownership(Option::Some(other)))
        }),
{
}

} // verus!
