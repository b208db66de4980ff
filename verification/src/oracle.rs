use vstd::prelude::*;
use nibiru_std::proto::nibiru::oracle::QueryExchangeRateRequest;
use nibiru_std::proto::NibiruStargateQuery;
use crate::error::{ContractError, ContractErrorV};
use crate::msg::GetPriceResp;

verus! {

/// A prepared cross-system query: the service path that routes it and the
/// encoded payload. The host submits it on its query channel and hands the
/// decoded answer back.
#[derive(Debug, PartialEq)]
pub struct OracleRequest {
    pub path: String,
    pub data: Vec<u8>,
}

/// The protobuf encoding of an exchange-rate request for the given pair.
pub uninterp spec fn rate_request_data(pair: Seq<char>) -> Seq<u8>;

/// Relies on nibiru_std's `NibiruStargateQuery::into_stargate_query` for
/// `QueryExchangeRateRequest`: the type url of that request names a query, so
/// the conversion returns `Ok`, carrying the fixed `Query/ExchangeRate`
/// service path and the protobuf encoding of the request, which depends on
/// the pair alone.
#[verifier::external_body]
fn stargate_rate_request(pair: &str) -> (r: Result<OracleRequest, String>)
    ensures
        r is Ok,
        r matches Ok(q) ==> q.path@ == "/nibiru.oracle.v1.Query/ExchangeRate"@ && q.data@
            == rate_request_data(pair@),
{
    let request = QueryExchangeRateRequest { pair: pair.to_string() };
    match request.into_stargate_query() {
        Ok(cosmwasm_std::QueryRequest::Stargate { path, data }) => {
            Ok(OracleRequest { path, data: data.to_vec() })
        },
        Ok(_) => Err("unexpected query request shape".to_string()),
        Err(e) => Err(e.to_string()),
    }
}

/// Prepares the exchange-rate lookup for a trading pair. The lookup touches
/// no contract state; the host submits the returned request on its
/// cross-system channel.
pub fn get_price(pair: String) -> (r: Result<OracleRequest, ContractError>)
    ensures
        r matches Ok(q) && q.path@ == "/nibiru.oracle.v1.Query/ExchangeRate"@ && q.data@
            == rate_request_data(pair@),
{
    match stargate_rate_request(pair.as_str()) {
        Ok(q) => Ok(q),
        Err(message) => Err(ContractError::Oracle { message }),
    }
}

/// What the exchange-rate query answers for each outcome of the oracle
/// channel: a successful answer is relayed verbatim, and a channel failure
/// surfaces as an oracle error — never as a default value.
pub fn price_from_channel(outcome: Result<GetPriceResp, String>) -> (r: Result<
    GetPriceResp,
    ContractError,
>)
    ensures
        outcome matches Ok(p) ==> (r matches Ok(q) && q.exchange_rate@ == p.exchange_rate@),
        outcome matches Err(m) ==> (r matches Err(e) && e@ == ContractErrorV::Oracle {
            message: m@,
        }),
{
    match outcome {
        Ok(p) => Ok(p),
        Err(message) => Err(ContractError::Oracle { message }),
    }
}

} // verus!
