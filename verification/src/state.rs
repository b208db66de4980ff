use vstd::prelude::*;
use crate::ownership::{Ownership, OwnershipV};

verus! {

/// The counter record kept under the contract's fixed counter key.
#[derive(Clone, Copy, PartialEq, Eq, Structural, Debug)]
pub struct State {
    pub count: i32,
}

/// The contract's persistent region: one slot per fixed key, each holding a
/// record once something was written under that key. A handler receives the
/// region loaded by the host and leaves behind the region to persist.
#[derive(Debug)]
pub struct Store {
    pub counter: Option<State>,
    pub ownership: Option<Ownership>,
}

/// The mathematical shape of a [`Store`].
pub struct StoreV {
    pub counter: Option<State>,
    pub ownership: Option<OwnershipV>,
}

impl View for Store {
    type V = StoreV;

    open spec fn view(&self) -> StoreV {
        StoreV {
            counter: self.counter,
            ownership: match self.ownership {
                Option::Some(o) => Option::Some(o@),
                Option::None => Option::None,
            },
        }
    }
}

impl Store {
    /// A fresh region with nothing written yet.
    pub fn new() -> (s: Store)
        ensures
            s@.counter is None,
            s@.ownership is None,
    {
        Store { counter: Option::None, ownership: Option::None }
    }
}

} // verus!
