//! URLs, taken apart and put together by the `url` crate.
use crate::text::opt_text;
use vstd::prelude::*;

verus! {

/// A URL and its parts.
#[derive(Debug)]
pub struct UrlParts {
    /// The URL in its normal form.
    pub text: String,
    /// Scheme, without the colon.
    pub scheme: String,
    /// Host, if there is one.
    pub host: Option<String>,
    /// Path.
    pub path: String,
    /// Query, without the question mark.
    pub query: Option<String>,
    /// Fragment, without the hash sign.
    pub fragment: Option<String>,
}

/// A URL and its parts, as text.
pub struct UrlView {
    /// The URL in its normal form.
    pub text: Seq<char>,
    /// Scheme, without the colon.
    pub scheme: Seq<char>,
    /// Host, if there is one.
    pub host: Option<Seq<char>>,
    /// Path.
    pub path: Seq<char>,
    /// Query, without the question mark.
    pub query: Option<Seq<char>>,
    /// Fragment, without the hash sign.
    pub fragment: Option<Seq<char>>,
}

impl View for UrlParts {
    type V = UrlView;

    open spec fn view(&self) -> UrlView {
        UrlView {
            text: self.text@,
            scheme: self.scheme@,
            host: opt_text(self.host),
            path: self.path@,
            query: opt_text(self.query),
            fragment: opt_text(self.fragment),
        }
    }
}

/// The parts of the URL that a text stands for.
pub open spec fn url_view(parts: Option<UrlParts>) -> Option<UrlView> {
    match parts {
        Some(parts) => Some(parts@),
        None => None,
    }
}

/// What `url::Url::parse` makes of a text: the URL's normal form and its parts,
/// or nothing where the text is no absolute URL.
pub uninterp spec fn parsed_url(text: Seq<char>) -> Option<UrlView>;

/// What `url::Url::join` makes of an input that is resolved against the URL that
/// `base` stands for; nothing where `base` is no URL or the input cannot be
/// resolved.
pub uninterp spec fn joined_url(base: Seq<char>, input: Seq<char>) -> Option<Seq<char>>;

/// Calls `url::Url::parse` and hands out what the accessors of the parsed URL
/// give. Of the result it is only claimed that it depends on the text alone.
#[verifier::external_body]
pub(crate) fn parse_url(text: &str) -> (r: Option<UrlParts>)
    ensures
        url_view(r) == parsed_url(text@),
{
    let url = url::Url::parse(text).ok()?;
    Some(UrlParts {
        text: url.to_string(),
        scheme: url.scheme().to_owned(),
        host: url.host_str().map(str::to_owned),
        path: url.path().to_owned(),
        query: url.query().map(str::to_owned),
        fragment: url.fragment().map(str::to_owned),
    })
}

/// Calls `url::Url::join` on the URL that `base` stands for. Of the result it is
/// only claimed that it depends on the two texts alone.
#[verifier::external_body]
pub(crate) fn join_url(base: &str, input: &str) -> (r: Option<String>)
    ensures
        opt_text(r) == joined_url(base@, input@),
{
    let url = url::Url::parse(base).ok()?.join(input).ok()?;
    Some(url.to_string())
}

/// The normal form of a parsed URL.
pub open spec fn normal_form(view: Option<UrlView>) -> Option<Seq<char>> {
    match view {
        Some(view) => Some(view.text),
        None => None,
    }
}

/// The normal form of the URL that `text` stands for, if it stands for one.
pub fn normalize_url(text: &str) -> (r: Option<String>)
    ensures
        opt_text(r) == normal_form(parsed_url(text@)),
{
    match parse_url(text) {
        Some(parts) => Some(parts.text),
        None => None,
    }
}

} // verus!
