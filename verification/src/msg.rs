use vstd::prelude::*;
use vstd::string::StringExecFns;
use crate::ownership::Action;

verus! {

/// One funds entry attached to a message: a denomination and an amount.
#[derive(Debug, PartialEq)]
pub struct Coin {
    pub denom: String,
    pub amount: u128,
}

/// The identity of the caller and the funds attached to the message.
#[derive(Debug)]
pub struct MessageInfo {
    pub sender: String,
    pub funds: Vec<Coin>,
}

/// The block context an invocation runs under.
#[derive(Clone, Copy, PartialEq, Eq, Structural, Debug)]
pub struct BlockInfo {
    pub height: u64,
    pub time: u64,
}

/// Payload of the one-time initialization message.
#[derive(Clone, Copy, PartialEq, Eq, Structural, Debug)]
pub struct InstantiateMsg {
    pub count: i32,
}

/// The mutating commands.
#[derive(Debug, PartialEq)]
pub enum ExecuteMsg {
    Increment {},
    Reset { count: i32 },
    UpdateOwnership(Action),
}

/// The read-only requests.
#[derive(Debug, PartialEq)]
pub enum QueryMsg {
    HelloWorld {},
    GetPrice { pair: String },
    GetCount {},
    Ownership {},
}

/// Answer to the greeting query.
#[derive(Debug, PartialEq)]
pub struct HelloResp {
    pub greeting: String,
}

/// Answer to the exchange-rate query, relayed from the oracle verbatim.
#[derive(Debug, PartialEq)]
pub struct GetPriceResp {
    pub exchange_rate: String,
}

/// Answer to the counter query.
#[derive(Clone, Copy, PartialEq, Eq, Structural, Debug)]
pub struct GetCountResp {
    pub count: i32,
}

/// One key/value attribute of a response envelope.
#[derive(Debug, PartialEq)]
pub struct Attribute {
    pub key: String,
    pub value: String,
}

impl View for Attribute {
    type V = (Seq<char>, Seq<char>);

    open spec fn view(&self) -> (Seq<char>, Seq<char>) {
        (self.key@, self.value@)
    }
}

/// The response envelope of a mutating message: an ordered list of
/// key/value attributes for external observers.
#[derive(Debug, PartialEq)]
pub struct Response {
    pub attributes: Vec<Attribute>,
}

impl View for Response {
    type V = Seq<(Seq<char>, Seq<char>)>;

    open spec fn view(&self) -> Seq<(Seq<char>, Seq<char>)> {
        self.attributes@.map_values(|a: Attribute| a@)
    }
}

impl Response {
    /// An envelope with no attributes yet.
    pub fn new() -> (r: Response)
        ensures
            r@ == Seq::<(Seq<char>, Seq<char>)>::empty(),
    {
        let r = Response { attributes: Vec::new() };
        proof {
            assert(r@ =~= Seq::<(Seq<char>, Seq<char>)>::empty());
        }
        r
    }

    /// The envelope with one more attribute at the end.
    pub fn add_attribute(self, key: &str, value: String) -> (r: Response)
        ensures
            r@ == self@.push((key@, value@)),
    {
        let mut attributes = self.attributes;
        let ghost before = attributes@;
        attributes.push(Attribute { key: String::from_str(key), value });
        let r = Response { attributes };
        proof {
            assert(r@ =~= before.map_values(|a: Attribute| a@).push((key@, value@)));
        }
        r
    }
}

} // verus!
