//! Per-repository language data: parsing the upstream body into a
//! name-to-byte-count list, and deciding the outcome of one language fetch
//! (transport failure, bad status, unparsable body, or the data itself).

use vstd::prelude::*;
use crate::model::{lang_views, ApiError};
use crate::text::{dec_digits, u64_to_dec};

verus! {

/// What parsing a language body yields: the key-sorted (name, byte count)
/// pairs of a JSON object of unsigned integers, or the parser's error text.
/// Both depend on the body text alone.
pub uninterp spec fn parsed_languages(body: Seq<char>) -> Result<Seq<(Seq<char>, u64)>, Seq<char>>;

/// Relies on serde_json::from_str with a `BTreeMap<String, u64>` target:
/// whether the text is a JSON object of unsigned-integer values, the pairs it
/// holds (handed out in ascending key order), and the error text otherwise
/// are all functions of the text alone.
#[verifier::external_body]
fn parse_languages(body: &str) -> (r: Result<Vec<(String, u64)>, String>)
    ensures
        r is Ok <==> parsed_languages(body@) is Ok,
        r matches Ok(v) ==> lang_views(v@) == parsed_languages(body@)->Ok_0,
        r matches Err(m) ==> m@ == parsed_languages(body@)->Err_0,
{
    match serde_json::from_str::<std::collections::BTreeMap<String, u64>>(body) {
        Ok(m) => Ok(m.into_iter().collect()),
        Err(e) => Err(e.to_string()),
    }
}

/// Whether an HTTP status reports success.
pub open spec fn status_is_success(status: u16) -> bool {
    200 <= status < 300
}

/// The error message for a language fetch that came back with a bad status.
pub open spec fn lang_error_message(status: u16) -> Seq<char> {
    "Error fetching language data. Status code: "@ + dec_digits(status as nat)
}

/// What one language fetch comes to, given the fetch's raw outcome: the
/// transport error text as-is, the status-code message on a non-success
/// status, the parser's error text on an unparsable body, or the pairs.
pub open spec fn spec_language_outcome(fetch: Result<(u16, Seq<char>), Seq<char>>) -> Result<
    Seq<(Seq<char>, u64)>,
    Seq<char>,
> {
    match fetch {
        Err(m) => Err(m),
        Ok(p) => if !status_is_success(p.0) {
            Err(lang_error_message(p.0))
        } else {
            parsed_languages(p.1)
        },
    }
}

/// The mathematical value of one raw fetch outcome: the status and body on
/// success, the transport error text otherwise.
pub open spec fn fetch_view(fetch: Result<(u16, String), String>) -> Result<
    (u16, Seq<char>),
    Seq<char>,
> {
    match fetch {
        Ok(p) => Ok((p.0, p.1@)),
        Err(m) => Err(m@),
    }
}

/// Decides one language fetch: a transport failure or a non-success status
/// or an unparsable body becomes a server error carrying the message that
/// [`spec_language_outcome`] gives; otherwise the parsed pairs come back.
pub fn language_fetch_outcome(fetch: &Result<(u16, String), String>) -> (r: Result<
    Vec<(String, u64)>,
    ApiError,
>)
    ensures
        r is Ok <==> spec_language_outcome(fetch_view(*fetch)) is Ok,
        r matches Ok(v) ==> lang_views(v@) == spec_language_outcome(fetch_view(*fetch))->Ok_0,
        r matches Err(e) ==> e.status == 500 && e.message@ == spec_language_outcome(
            fetch_view(*fetch),
        )->Err_0,
{
    match fetch {
        Err(m) => Err(ApiError { status: 500, message: m.clone() }),
        Ok(p) => {
            let status: u16 = p.0;
            if status < 200 || status >= 300 {
                let mut message = String::from_str("Error fetching language data. Status code: ");
                let digits = u64_to_dec(status as u64);
                message.append(digits.as_str());
                Err(ApiError { status: 500, message })
            } else {
                match parse_languages(p.1.as_str()) {
                    Ok(v) => Ok(v),
                    Err(m) => Err(ApiError { status: 500, message: m }),
                }
            }
        },
    }
}

} // verus!
