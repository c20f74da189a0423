//! Decoding of event logs against an event of a contract's interface.

use crate::bytes::H256;
use vstd::prelude::*;

verus! {

/// An event of a contract's interface, as `ethers_core` holds it.
#[verifier::external_type_specification]
#[verifier::external_body]
pub struct ExEvent(ethers_core::abi::Event);

/// A decoded argument value, as `ethers_core` holds it.
#[verifier::external_type_specification]
#[verifier::external_body]
pub struct ExToken(ethers_core::abi::Token);

/// Why `ethers_core` could not decode a log.
#[verifier::external_type_specification]
#[verifier::external_body]
pub struct ExAbiError(ethers_core::abi::Error);

/// The named arguments that an event reads from the topics and data of a log,
/// in the order in which the event declares them; `None` where the log does
/// not fit the event.
pub uninterp spec fn parsed_log(
    event: ethers_core::abi::Event,
    topics: Seq<Seq<u8>>,
    data: Seq<u8>,
) -> Option<Seq<(Seq<char>, ethers_core::abi::Token)>>;

/// The names and values of decoded arguments.
pub open spec fn params_view(params: Seq<(String, ethers_core::abi::Token)>) -> Seq<
    (Seq<char>, ethers_core::abi::Token),
> {
    params.map_values(|param: (String, ethers_core::abi::Token)| (param.0@, param.1))
}

/// The bytes of each topic of a list.
pub open spec fn topics_view(topics: Seq<H256>) -> Seq<Seq<u8>> {
    topics.map_values(|topic: H256| topic@)
}

/// The outcome of decoding a log, without the reason of a failure.
pub open spec fn parse_outcome(
    result: Result<Vec<(String, ethers_core::abi::Token)>, ethers_core::abi::Error>,
) -> Option<Seq<(Seq<char>, ethers_core::abi::Token)>> {
    match result {
        Ok(params) => Some(params_view(params@)),
        Err(_) => None,
    }
}

/// Calls `ethers_core::abi::Event::parse_log` on the topics and data of a log.
/// Trusted: the outcome is a function of the event, the topics and the data
/// alone.
#[verifier::external_body]
pub(crate) fn parse_log(event: &ethers_core::abi::Event, topics: &Vec<H256>, data: &Vec<u8>) -> (r:
    Result<Vec<(String, ethers_core::abi::Token)>, ethers_core::abi::Error>)
    ensures
        parse_outcome(r) == parsed_log(*event, topics_view(topics@), data@),
{
    let topics = topics.iter().map(|topic| ethers_core::types::H256(*topic)).collect();
    let log = event.parse_log(ethers_core::abi::RawLog { topics, data: data.clone() })?;
    Ok(log.params.into_iter().map(|param| (param.name, param.value)).collect())
}

/// Decodes the logs of one event.
#[derive(Debug)]
pub struct LogDecoder {
    /// The event as it was written, such as
    /// `event Transfer(address indexed from, address indexed to, uint256 value)`.
    pub raw: String,
    pub event: ethers_core::abi::Event,
}

} // verus!
