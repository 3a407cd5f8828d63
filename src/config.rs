use vstd::prelude::*;
use crate::error::PipelineError;

verus! {

/// Substring that the target peripheral's advertised local name holds.
pub const DEVICE_NAME: &'static str = "ValentineScanner";

/// Canonical text of the characteristic whose notifications are streamed.
pub const CHARACTERISTIC_UUID: &'static str = "beb5483e-36e1-4688-b7f5-ea07361b26a8";

/// The 128-bit value that the identifier parser reads from a text, if the
/// text is an identifier in one of its accepted forms.
pub uninterp spec fn identifier_of(text: Seq<char>) -> Option<u128>;

/// Relies on `uuid::Uuid::parse_str` (read as a big-endian `u128` through
/// `Uuid::as_u128`): the outcome depends on the text alone.
#[verifier::external_body]
fn parse_identifier(text: &str) -> (r: Option<u128>)
    ensures
        r == identifier_of(text@),
{
    uuid::Uuid::parse_str(text).ok().map(|u| u.as_u128())
}

/// Reads a characteristic identifier from its text; a text that is no
/// identifier is refused.
pub fn characteristic_id(text: &str) -> (r: Result<u128, PipelineError>)
    ensures
        match identifier_of(text@) {
            Some(v) => r == Ok::<u128, PipelineError>(v),
            None => r == Err::<u128, PipelineError>(PipelineError::InvalidIdentifier),
        },
{
    match parse_identifier(text) {
        Some(v) => Ok(v),
        None => Err(PipelineError::InvalidIdentifier),
    }
}

} // verus!
