//! Validation of a submitted target URL.

use vstd::prelude::*;
use crate::model::ServiceError;

verus! {

/// What the url crate's parser makes of `candidate`: `None` where it parses
/// as no absolute URL, else the authority of the parsed URL (user
/// information, host and port), which is empty for a URL that has none.
pub uninterp spec fn parsed_authority(candidate: Seq<char>) -> Option<Seq<char>>;

/// Whether a parse result stands for an acceptable target: the text parsed
/// as an absolute URL and its authority is not empty.
pub open spec fn accepts_authority(parsed: Option<Seq<char>>) -> bool {
    parsed matches Some(authority) && authority.len() > 0
}

/// A target is valid iff it parses as an absolute URL with a non-empty
/// authority.
pub open spec fn valid_url(candidate: Seq<char>) -> bool {
    accepts_authority(parsed_authority(candidate))
}

/// Calls `Url::parse` of the url crate and, where it succeeds, copies out
/// `Url::authority` of the parsed value. The parser is deterministic, so the
/// result is named `parsed_authority`; nothing more is claimed of it.
#[verifier::external_body]
fn parse_authority(candidate: &str) -> (parsed: Option<String>)
    ensures
        parsed is Some == parsed_authority(candidate@) is Some,
        parsed matches Some(authority) ==> parsed_authority(candidate@) == Some(authority@),
{
    match url::Url::parse(candidate) {
        Ok(parsed) => Some(parsed.authority().to_string()),
        Err(_) => None,
    }
}

/// Decides on a parse result whether the target is acceptable.
pub fn authority_accepted(parsed: &Option<String>) -> (ok: bool)
    ensures
        ok == (parsed matches Some(authority) && authority@.len() > 0),
{
    match parsed {
        Some(authority) => !authority.as_str().is_empty(),
        None => false,
    }
}

/// Checks that `candidate` is a well-formed absolute URL.
pub fn validate(candidate: &str) -> (checked: Result<(), ServiceError>)
    ensures
        valid_url(candidate@) ==> checked == Ok::<(), ServiceError>(()),
        !valid_url(candidate@) ==> checked == Err::<(), ServiceError>(ServiceError::InvalidInput),
{
    let parsed = parse_authority(candidate);
    if authority_accepted(&parsed) {
        Ok(())
    } else {
        Err(ServiceError::InvalidInput)
    }
}

} // verus!
