//! Input validators used by callers that assemble transactions: a length cap
//! for user-supplied strings, and a URL well-formedness check.

use vstd::prelude::*;
use vstd::string::StringExecFns;
use vstd::string::StringSliceAdditionalSpecFns;

verus! {

/// Whether `url::Url::parse` accepts the string as an absolute URL. The
/// parser is a pure function of the characters.
pub uninterp spec fn url_parse_ok(s: Seq<char>) -> bool;

/// Whether the URL that the string parses to carries a host component;
/// meaningful when `url_parse_ok` holds. A pure function of the characters.
pub uninterp spec fn url_has_host(s: Seq<char>) -> bool;

/// Relies on `url::Url::parse` and `url::Url::has_host`: parses the string
/// as an absolute URL and reports whether it has a host, or returns the
/// parser's error message. Both results depend on the characters alone.
#[verifier::external_body]
fn parse_url_with_host(string: &str) -> (r: Result<bool, String>)
    ensures
        r is Ok <==> url_parse_ok(string@),
        r matches Ok(h) ==> h == url_has_host(string@),
{
    match url::Url::parse(string) {
        Ok(u) => Ok(u.has_host()),
        Err(e) => Err(format!("{}", e)),
    }
}

/// Accepts strings shorter than 256 bytes; rejects the rest with a message
/// naming the offending string.
pub fn is_short(string: &str) -> (r: Result<(), String>)
    ensures
        r matches Ok(()) <==> string.spec_bytes().len() < 256,
        r matches Err(m) ==> m@ == "too long: "@ + string@,
{
    if string.as_bytes().len() >= 256 {
        return Err(String::from_str("too long: ").concat(string));
    }
    Ok(())
}

/// Accepts strings shorter than 256 bytes that parse as an absolute URL
/// with a host; rejects the rest with a message saying what was wrong.
pub fn is_short_url(string: &str) -> (r: Result<(), String>)
    ensures
        r matches Ok(()) <==> url_parse_ok(string@) && url_has_host(string@)
            && string.spec_bytes().len() < 256,
{
    match parse_url_with_host(string) {
        Ok(true) => (),
        Ok(false) => {
            return Err(String::from_str("no host provided"));
        },
        Err(e) => {
            return Err(e);
        },
    }
    match is_short(string) {
        Ok(()) => (),
        Err(e) => {
            return Err(e);
        },
    }
    Ok(())
}

} // verus!
