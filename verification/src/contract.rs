use vstd::prelude::*;
use vstd::string::StringExecFns;
use crate::error::{ContractError, ContractErrorV};
use crate::msg::{
    Coin, ExecuteMsg, GetCountResp, HelloResp, InstantiateMsg, MessageInfo, QueryMsg, Response,
    BlockInfo,
};
use crate::oracle::{get_price, rate_request_data, OracleRequest};
use crate::ownership::{
    get_ownership, initialize_owner, spec_init_ownership, spec_update_ownership, update_ownership,
    Ownership,
};
use crate::state::{State, Store, StoreV};
use crate::text::{dec_text, int_text, i32_string, u128_string};

verus! {

/// The text of one funds entry: the denomination, a colon, and the amount.
pub open spec fn coin_text(c: Coin) -> Seq<char> {
    c.denom@ + ":"@ + dec_text(c.amount as nat)
}

/// The funds entries joined in order, later entries appended after `", "`.
pub open spec fn joined_funds_text(fs: Seq<Coin>) -> Seq<char>
    decreases fs.len(),
{
    if fs.len() == 0 {
        Seq::empty()
    } else if fs.len() == 1 {
        coin_text(fs[0])
    } else {
        joined_funds_text(fs.drop_last()) + ", "@ + coin_text(fs.last())
    }
}

/// The funds attribute value: the sentinel for an empty list, else the
/// joined entries.
pub open spec fn funds_text(fs: Seq<Coin>) -> Seq<char> {
    if fs.len() == 0 {
        "none"@
    } else {
        joined_funds_text(fs)
    }
}

fn funds_string(funds: &Vec<Coin>) -> (s: String)
    ensures
        s@ == funds_text(funds@),
{
    if funds.len() == 0 {
        return String::from_str("none");
    }
    let mut s = String::new();
    let mut i: usize = 0;
    while i < funds.len()
        invariant
            i <= funds@.len(),
            s@ == joined_funds_text(funds@.take(i as int)),
        decreases funds@.len() - i,
    {
        if i > 0 {
            s.append(", ");
        }
        let entry = &funds[i];
        s.append(entry.denom.as_str());
        s.append(":");
        let amount = u128_string(entry.amount);
        s.append(amount.as_str());
        proof {
            let prefix = funds@.take(i as int + 1);
            assert(prefix.drop_last() =~= funds@.take(i as int));
            assert(prefix.last() == funds@[i as int]);
            if i == 0 {
                assert(s@ =~= coin_text(funds@[0]));
            } else {
                assert(s@ =~= joined_funds_text(funds@.take(i as int)) + ", "@ + coin_text(
                    funds@[i as int],
                ));
            }
        }
        i = i + 1;
    }
    proof {
        assert(funds@.take(funds@.len() as int) =~= funds@);
    }
    s
}

/// The region right after successful initialization by `sender` with initial
/// count `c`: the counter written, the sender owning the contract, nothing
/// pending.
pub open spec fn spec_initialized(sender: Seq<char>, c: i32) -> StoreV {
    StoreV {
        counter: Option::Some(State { count: c }),
        ownership: Option::Some(spec_init_ownership(Option::Some(sender))),
    }
}

/// The region with the counter one higher; a region without a counter is
/// left as it stands.
pub open spec fn spec_incremented(s: StoreV) -> StoreV {
    match s.counter {
        Option::Some(st) => StoreV {
            counter: Option::Some(State { count: (st.count + 1) as i32 }),
            ownership: s.ownership,
        },
        Option::None => s,
    }
}

/// The region with the counter overwritten to `n`, whatever stood before.
pub open spec fn spec_reset(s: StoreV, n: i32) -> StoreV {
    StoreV { counter: Option::Some(State { count: n }), ownership: s.ownership }
}

/// What the counter query returns: the stored count, or a not-found error
/// when nothing was initialized — never a default.
pub open spec fn spec_get_count(s: StoreV) -> Result<GetCountResp, ContractErrorV> {
    match s.counter {
        Option::Some(st) => Result::Ok(GetCountResp { count: st.count }),
        Option::None => Result::Err(ContractErrorV::NotFound),
    }
}

/// Handles the one-time initialization message: writes the counter, makes
/// the sender the owner, and reports the method, owner, funds and count as
/// attributes. A region that already holds a record is refused untouched.
pub fn instantiate(store: &mut Store, info: &MessageInfo, msg: &InstantiateMsg) -> (r: Result<
    Response,
    ContractError,
>)
    ensures
        old(store)@.counter is None && old(store)@.ownership is None ==> final(store)@
            == spec_initialized(info.sender@, msg.count) && (r matches Result::Ok(resp) && resp@
            == seq![
            ("method"@, "instantiate"@),
            ("owner"@, info.sender@),
            ("funds"@, funds_text(info.funds@)),
            ("count"@, int_text(msg.count as int)),
        ]),
        !(old(store)@.counter is None && old(store)@.ownership is None) ==> *final(store) == *old(
            store,
        ) && (r matches Result::Err(e) && e@ == ContractErrorV::AlreadyInitialized),
{
    if store.counter.is_some() || store.ownership.is_some() {
        return Result::Err(ContractError::AlreadyInitialized);
    }
    initialize_owner(store, Option::Some(info.sender.clone()));
    store.counter = Option::Some(State { count: msg.count });
    let funds_attr = funds_string(&info.funds);
    let resp = Response::new().add_attribute(
        "method",
        String::from_str("instantiate"),
    ).add_attribute("owner", info.sender.clone()).add_attribute("funds", funds_attr).add_attribute(
        "count",
        i32_string(msg.count),
    );
    proof {
        assert(resp@ =~= seq![
            ("method"@, "instantiate"@),
            ("owner"@, info.sender@),
            ("funds"@, funds_text(info.funds@)),
            ("count"@, int_text(msg.count as int)),
        ]);
    }
    Result::Ok(resp)
}

/// Raises the stored count by one — any caller may — and reports the method,
/// caller, funds and resulting count as attributes. Fails with a not-found
/// error when the counter was never written.
pub fn increment(store: &mut Store, info: &MessageInfo) -> (r: Result<Response, ContractError>)
    requires
        old(store)@.counter matches Option::Some(st) ==> st.count < i32::MAX,
    ensures
        old(store)@.counter is None ==> *final(store) == *old(store) && (r matches Result::Err(e)
            && e@ == ContractErrorV::NotFound),
        old(store)@.counter matches Option::Some(st) ==> final(store)@ == spec_incremented(
            old(store)@,
        ) && (r matches Result::Ok(resp) && resp@ == seq![
            ("method"@, "increment"@),
            ("owner"@, info.sender@),
            ("funds"@, funds_text(info.funds@)),
            ("count"@, int_text(st.count + 1)),
        ]),
{
    let st = match store.counter {
        Option::Some(st) => st,
        Option::None => {
            return Result::Err(ContractError::NotFound);
        },
    };
    let new_count = st.count + 1;
    store.counter = Option::Some(State { count: new_count });
    let funds_attr = funds_string(&info.funds);
    let resp = Response::new().add_attribute(
        "method",
        String::from_str("increment"),
    ).add_attribute("owner", info.sender.clone()).add_attribute("funds", funds_attr).add_attribute(
        "count",
        i32_string(new_count),
    );
    proof {
        assert(resp@ =~= seq![
            ("method"@, "increment"@),
            ("owner"@, info.sender@),
            ("funds"@, funds_text(info.funds@)),
            ("count"@, int_text(st.count + 1)),
        ]);
    }
    Result::Ok(resp)
}

/// Overwrites the counter with the given count — any caller may, whatever
/// stood before — and reports the method, caller and new count as
/// attributes.
pub fn reset(store: &mut Store, info: &MessageInfo, count: i32) -> (r: Result<
    Response,
    ContractError,
>)
    ensures
        final(store)@ == spec_reset(old(store)@, count),
        r matches Result::Ok(resp) && resp@ == seq![
            ("method"@, "reset"@),
            ("caller"@, info.sender@),
            ("count"@, int_text(count as int)),
        ],
{
    store.counter = Option::Some(State { count });
    let resp = Response::new().add_attribute(
        "method",
        String::from_str("reset"),
    ).add_attribute("caller", info.sender.clone()).add_attribute("count", i32_string(count));
    proof {
        assert(resp@ =~= seq![
            ("method"@, "reset"@),
            ("caller"@, info.sender@),
            ("count"@, int_text(count as int)),
        ]);
    }
    Result::Ok(resp)
}

/// Routes one mutating command to its handler, purely on the command's tag:
/// counter commands to the counter transitions, ownership transitions to the
/// ownership registry. A successful ownership transition answers with an
/// empty attribute list.
pub fn execute(store: &mut Store, block: &BlockInfo, info: &MessageInfo, msg: ExecuteMsg) -> (r:
    Result<Response, ContractError>)
    requires
        msg is Increment ==> (old(store)@.counter matches Option::Some(st) ==> st.count
            < i32::MAX),
    ensures
        msg is Increment ==> (old(store)@.counter is None ==> *final(store) == *old(store) && (
        r matches Result::Err(e) && e@ == ContractErrorV::NotFound)) && (
        old(store)@.counter matches Option::Some(st) ==> final(store)@ == spec_incremented(
            old(store)@,
        ) && (r matches Result::Ok(resp) && resp@ == seq![
            ("method"@, "increment"@),
            ("owner"@, info.sender@),
            ("funds"@, funds_text(info.funds@)),
            ("count"@, int_text(st.count + 1)),
        ])),
        msg matches ExecuteMsg::Reset { count } ==> final(store)@ == spec_reset(
            old(store)@,
            count,
        ) && (r matches Result::Ok(resp) && resp@ == seq![
            ("method"@, "reset"@),
            ("caller"@, info.sender@),
            ("count"@, int_text(count as int)),
        ]),
        msg matches ExecuteMsg::UpdateOwnership(action) ==> (old(store)@.ownership is None ==> *
        final(store) == *old(store) && (r matches Result::Err(e) && e@ == ContractErrorV::NotFound))
            && (old(store)@.ownership matches Option::Some(own) ==> match spec_update_ownership(
            own,
            *block,
            info.sender@,
            action@,
        ) {
            Result::Ok(o2) => final(store)@ == (StoreV {
                counter: old(store)@.counter,
                ownership: Option::Some(o2),
            }) && (r matches Result::Ok(resp) && resp@ == Seq::<(Seq<char>, Seq<char>)>::empty()),
            Result::Err(ev) => *final(store) == *old(store) && (r matches Result::Err(e) && e@
                == ev),
        }),
{
    match msg {
        ExecuteMsg::Increment {} => increment(store, info),
        ExecuteMsg::Reset { count } => reset(store, info, count),
        ExecuteMsg::UpdateOwnership(action) => {
            match update_ownership(store, block, &info.sender, action) {
                Result::Ok(_) => Result::Ok(Response::new()),
                Result::Err(e) => Result::Err(e),
            }
        },
    }
}

/// Answers the greeting query with its constant payload; no state is read.
pub fn hello_world() -> (r: Result<HelloResp, ContractError>)
    ensures
        r matches Result::Ok(h) && h.greeting@ == "Hello Nibiru Developers"@,
{
    Result::Ok(HelloResp { greeting: String::from_str("Hello Nibiru Developers") })
}

/// Answers the counter query from the stored record; fails with a not-found
/// error when nothing was initialized, never with a default count.
pub fn get_count(store: &Store) -> (r: Result<GetCountResp, ContractError>)
    ensures
        match spec_get_count(store@) {
            Result::Ok(c) => (r matches Result::Ok(got) && got == c),
            Result::Err(ev) => (r matches Result::Err(e) && e@ == ev),
        },
{
    match store.counter {
        Option::Some(st) => Result::Ok(GetCountResp { count: st.count }),
        Option::None => Result::Err(ContractError::NotFound),
    }
}

/// The typed payload a read-only request resolves to. An exchange-rate
/// lookup resolves to the prepared oracle request, which the host submits on
/// its cross-system channel.
#[derive(Debug, PartialEq)]
pub enum QueryAnswer {
    Hello(HelloResp),
    Price(OracleRequest),
    Count(GetCountResp),
    Ownership(Ownership),
}

/// Routes one read-only request, purely on its tag. Queries never change the
/// region: the region is only borrowed.
pub fn query(store: &Store, msg: QueryMsg) -> (r: Result<QueryAnswer, ContractError>)
    ensures
        msg is HelloWorld ==> (r matches Result::Ok(QueryAnswer::Hello(h)) && h.greeting@
            == "Hello Nibiru Developers"@),
        msg matches QueryMsg::GetPrice { pair } ==> (r matches Result::Ok(QueryAnswer::Price(q))
            && q.path@ == "/nibiru.oracle.v1.Query/ExchangeRate"@ && q.data@ == rate_request_data(
            pair@,
        )),
        msg is GetCount ==> match spec_get_count(store@) {
            Result::Ok(c) => (r matches Result::Ok(QueryAnswer::Count(got)) && got == c),
            Result::Err(ev) => (r matches Result::Err(e) && e@ == ev),
        },
        msg is Ownership ==> (store@.ownership matches Option::Some(own) ==> (
        r matches Result::Ok(QueryAnswer::Ownership(o)) && o@ == own)) && (store@.ownership is None
            ==> (r matches Result::Err(e) && e@ == ContractErrorV::NotFound)),
{
    match msg {
        QueryMsg::HelloWorld {} => {
            match hello_world() {
                Result::Ok(h) => Result::Ok(QueryAnswer::Hello(h)),
                Result::Err(e) => Result::Err(e),
            }
        },
        QueryMsg::GetPrice { pair } => {
            match get_price(pair) {
                Result::Ok(q) => Result::Ok(QueryAnswer::Price(q)),
                Result::Err(e) => Result::Err(e),
            }
        },
        QueryMsg::GetCount {} => {
            match get_count(store) {
                Result::Ok(c) => Result::Ok(QueryAnswer::Count(c)),
                Result::Err(e) => Result::Err(e),
            }
        },
        QueryMsg::Ownership {} => {
            match get_ownership(store) {
                Result::Ok(o) => Result::Ok(QueryAnswer::Ownership(o)),
                Result::Err(e) => Result::Err(e),
            }
        },
    }
}

/// Law: reading the count right after initialization with initial count `c`
/// yields exactly `c`.
pub proof fn lemma_count_after_instantiate(sender: Seq<char>, c: i32)
    ensures
        spec_get_count(spec_initialized(sender, c)) == Result::<GetCountResp, ContractErrorV>::Ok(
            GetCountResp { count: c },
        ),
{
}

/// Law: reading the count right after a reset to `n` yields exactly `n`,
/// whatever region the reset found; the reset transition takes no caller
/// identity at all.
pub proof fn lemma_count_after_reset(s: StoreV, n: i32)
    ensures
        spec_get_count(spec_reset(s, n)) == Result::<GetCountResp, ContractErrorV>::Ok(
            GetCountResp { count: n },
        ),
{
}

/// The region after a sequence of `n` increments.
pub open spec fn spec_incremented_n(s: StoreV, n: nat) -> StoreV
    decreases n,
{
    if n == 0 {
        s
    } else {
        spec_incremented(spec_incremented_n(s, (n - 1) as nat))
    }
}

/// Law: starting from a region whose counter holds `c0`, a sequence of `n`
/// increments leaves the count at `c0 + n`, as long as that sum stays within
/// the counter's width.
pub proof fn lemma_count_after_increments(s: StoreV, c0: i32, n: nat)
    requires
        s.counter == Option::Some(State { count: c0 }),
        c0 + n <= i32::MAX,
    ensures
        spec_get_count(spec_incremented_n(s, n)) == Result::<GetCountResp, ContractErrorV>::Ok(
            GetCountResp { count: (c0 + n) as i32 },
        ),
    decreases n,
{
    if n == 0 {
    } else {
        lemma_count_after_increments(s, c0, (n - 1) as nat);
        assert(spec_incremented_n(s, n) == spec_incremented(spec_incremented_n(s, (n - 1) as nat)));
    }
}

/// Law: reading the count before anything was initialized fails with the
/// not-found error; it never answers with a default count.
pub proof fn lemma_count_before_instantiate(s: StoreV)
    requires
        s.counter is None,
    ensures
        spec_get_count(s) == Result::<GetCountResp, ContractErrorV>::Err(ContractErrorV::NotFound),
{
}

} // verus!
