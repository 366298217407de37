//! URLs as text, read and rebuilt by the `url` crate.

use vstd::prelude::*;

verus! {

#[verifier::external_type_specification]
#[verifier::external_body]
pub struct ExUrlParseError(url::ParseError);

/// Whether `url::Url::parse` accepts a text.
pub uninterp spec fn url_parses(text: Seq<char>) -> bool;

/// The text of the URL that `url::Url::set_port` leaves when it is given a
/// port for the URL of `text`; `None` where the text is no URL or the URL
/// takes no port.
pub uninterp spec fn url_with_port(text: Seq<char>, port: u16) -> Option<Seq<char>>;

/// The text of the URL that `url::Url::set_path` leaves for the URL of
/// `text`; `None` where the text is no URL.
pub uninterp spec fn url_with_path(text: Seq<char>, path: Seq<char>) -> Option<Seq<char>>;

/// The text of the URL that `url::Url::join` resolves a reference to,
/// against the URL of `base`; `None` where either is refused.
pub uninterp spec fn url_joined(base: Seq<char>, reference: Seq<char>) -> Option<Seq<char>>;

/// Calls `url::Url::parse` and drops the URL. Not proved: acceptance is only
/// given its name.
#[verifier::external_body]
fn check_url(text: &str) -> (parsed: Result<(), url::ParseError>)
    ensures
        parsed is Ok == url_parses(text@),
{
    url::Url::parse(text)?;
    Ok(())
}

/// Parses `text`, calls `url::Url::set_port` with `Some(port)`, and writes
/// the URL out. Not proved: the result is only given its name.
#[verifier::external_body]
pub(crate) fn set_url_port(text: &str, port: u16) -> (changed: Option<String>)
    ensures
        match changed {
            Some(t) => url_with_port(text@, port) == Some(t@),
            None => url_with_port(text@, port) is None,
        },
{
    let mut url = url::Url::parse(text).ok()?;
    url.set_port(Some(port)).ok()?;
    Some(url.to_string())
}

/// Parses `text`, calls `url::Url::set_path`, and writes the URL out. Not
/// proved: the result is only given its name.
#[verifier::external_body]
pub(crate) fn set_url_path(text: &str, path: &str) -> (changed: Option<String>)
    ensures
        match changed {
            Some(t) => url_with_path(text@, path@) == Some(t@),
            None => url_with_path(text@, path@) is None,
        },
{
    let mut url = url::Url::parse(text).ok()?;
    url.set_path(path);
    Some(url.to_string())
}

/// Parses `base`, calls `url::Url::join` with the reference, and writes the
/// URL out. Not proved: the result is only given its name.
#[verifier::external_body]
pub(crate) fn join_url(base: &str, reference: &str) -> (joined: Option<String>)
    ensures
        match joined {
            Some(t) => url_joined(base@, reference@) == Some(t@),
            None => url_joined(base@, reference@) is None,
        },
{
    let url = url::Url::parse(base).ok()?;
    Some(url.join(reference).ok()?.to_string())
}

/// Whether a text is a URL.
pub fn is_url(text: &str) -> (accepted: bool)
    ensures
        accepted == url_parses(text@),
{
    match check_url(text) {
        Ok(_) => true,
        Err(_) => false,
    }
}

} // verus!
