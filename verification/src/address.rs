//! Server addresses. The `url` crate parses and changes them; this module
//! says what the client relies on.
//!
//! A URL is known here by its serialization, the text that `Url::as_str`
//! returns. What the crate computes from a URL is taken to depend on that
//! text alone.

use vstd::prelude::*;

verus! {

/// `url::Url`: a parsed URL. Nothing of its inside is seen here.
#[verifier::external_type_specification]
#[verifier::external_body]
pub struct ExUrl(url::Url);

/// `url::ParseError`: why a text is no URL. It is handed on unread.
#[verifier::external_type_specification]
#[verifier::external_body]
pub struct ExParseError(url::ParseError);

/// The serialization of a URL.
pub uninterp spec fn url_text(u: url::Url) -> Seq<char>;

/// The serialization of the URL that `input` parses to, where it is one.
pub uninterp spec fn url_parse(input: Seq<char>) -> Option<Seq<char>>;

/// The serialization of the URL that `reference` gives when it is resolved
/// against the URL `base`, where it gives one.
pub uninterp spec fn url_join(base: Seq<char>, reference: Seq<char>) -> Option<Seq<char>>;

/// The serialization of the URL `url` once its scheme is `scheme`, where the
/// scheme may be changed so.
pub uninterp spec fn url_with_scheme(url: Seq<char>, scheme: Seq<char>) -> Option<Seq<char>>;

/// The host of the URL `url`, where it has one.
pub uninterp spec fn url_host(url: Seq<char>) -> Option<Seq<char>>;

/// The origin of the URL `url` in ASCII: scheme, host and port, or `null`.
pub uninterp spec fn url_origin(url: Seq<char>) -> Seq<char>;

/// What stands in `text` before its first colon.
pub open spec fn scheme_of(text: Seq<char>) -> Seq<char>
    decreases text.len(),
{
    if text.len() == 0 || text[0] == ':' {
        Seq::empty()
    } else {
        seq![text[0]] + scheme_of(text.skip(1))
    }
}

/// `Url::parse` accepts an input or refuses it, and the URL that it makes
/// depends on the input alone.
pub assume_specification[ url::Url::parse ](input: &str) -> (r: Result<url::Url, url::ParseError>)
    ensures
        match url_parse(input@) {
            Some(text) => r matches Ok(u) && url_text(u) == text,
            None => r is Err,
        },
;

/// `Url::join` resolves a reference against a base URL; the outcome depends
/// on the two alone.
pub assume_specification[ url::Url::join ](base: &url::Url, input: &str) -> (r: Result<
    url::Url,
    url::ParseError,
>)
    ensures
        match url_join(url_text(*base), input@) {
            Some(text) => r matches Ok(u) && url_text(u) == text,
            None => r is Err,
        },
;

/// `Url::as_str` returns the serialization.
pub assume_specification<'a>[ url::Url::as_str ](u: &'a url::Url) -> (r: &'a str)
    ensures
        r@ == url_text(*u),
;

/// `Url::scheme` returns the part of the serialization that precedes its
/// first colon.
pub assume_specification<'a>[ url::Url::scheme ](u: &'a url::Url) -> (r: &'a str)
    ensures
        r@ == scheme_of(url_text(*u)),
;

/// `Url::host_str` returns the host, if the URL has one; which host that is
/// depends on the URL alone.
pub assume_specification<'a>[ url::Url::host_str ](u: &'a url::Url) -> (r: Option<&'a str>)
    ensures
        match url_host(url_text(*u)) {
            Some(host) => r matches Some(h) && h@ == host,
            None => r is None,
        },
;

/// `Url::set_scheme` changes the scheme or, where the change is not allowed,
/// fails and leaves the URL as it was.
pub assume_specification[ url::Url::set_scheme ](u: &mut url::Url, scheme: &str) -> (r: Result<
    (),
    (),
>)
    ensures
        match url_with_scheme(url_text(*old(u)), scheme@) {
            Some(text) => r is Ok && url_text(*final(u)) == text,
            None => r is Err && url_text(*final(u)) == url_text(*old(u)),
        },
;

/// `Url::origin` followed by `Origin::ascii_serialization`: the origin as
/// text, which depends on the URL alone.
#[verifier::external_body]
pub(crate) fn origin_text(u: &url::Url) -> (r: String)
    ensures
        r@ == url_origin(url_text(*u)),
{
    u.origin().ascii_serialization()
}

} // verus!
