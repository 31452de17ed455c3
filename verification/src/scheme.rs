//! The scheme resolver: from a raw activation string to the subscription
//! that is to be imported, or to the reason why there is none.

use vstd::prelude::*;
use crate::link::{
    last_query_value, last_value, parse_url, percent_decode, percent_decoded, url_parts, LinkParts,
    ParsedLink,
};
use crate::notice::Notice;
use crate::text::{same_text, text_of};

verus! {

/// Why an activation string yields no import.
#[derive(Debug, Clone, Copy, PartialEq, Eq, Structural)]
pub enum ResolveError {
    /// The string is wrapped in list syntax but too short to unwrap.
    MalformedInput,
    /// The string is no absolute URL.
    InvalidUrl,
    /// The link has a recognized scheme but no `url` parameter.
    MissingUrlParameter,
}

/// The text shown for `error`. It is fixed for each kind and holds nothing of
/// the activation string.
pub open spec fn failure_text(error: ResolveError) -> Seq<char> {
    match error {
        ResolveError::MalformedInput => "malformed deep link: too short to unwrap"@,
        ResolveError::InvalidUrl => "failed to parse deep link"@,
        ResolveError::MissingUrlParameter => "failed to get profile url"@,
    }
}

impl ResolveError {
    /// Computes `failure_text`.
    pub fn message(&self) -> (text: String)
        ensures
            text@ == failure_text(*self),
    {
        match self {
            ResolveError::MalformedInput => "malformed deep link: too short to unwrap".to_owned(),
            ResolveError::InvalidUrl => "failed to parse deep link".to_owned(),
            ResolveError::MissingUrlParameter => "failed to get profile url".to_owned(),
        }
    }
}

/// A subscription to import: its address and, where the link gave one, the
/// display name.
#[derive(Debug, Clone, PartialEq, Eq)]
pub struct ImportRequest {
    pub url: String,
    pub name: Option<String>,
}

/// An import request as text.
pub struct ImportRequestView {
    pub url: Seq<char>,
    pub name: Option<Seq<char>>,
}

impl View for ImportRequest {
    type V = ImportRequestView;

    open spec fn view(&self) -> ImportRequestView {
        ImportRequestView { url: self.url@, name: text_of(self.name) }
    }
}

/// Whether `param` is in list syntax: it begins with `[`.
pub open spec fn is_wrapped(param: Seq<char>) -> bool {
    param.len() > 0 && param[0] == '['
}

/// The activation string inside `param`: a wrapped string loses exactly two
/// characters at each end and is malformed where it is too short for that
/// to leave anything; any other string stands for itself.
pub open spec fn unwrapped(param: Seq<char>) -> Result<Seq<char>, ResolveError> {
    if !is_wrapped(param) {
        Ok(param)
    } else if param.len() > 4 {
        Ok(param.subrange(2, param.len() - 2))
    } else {
        Err(ResolveError::MalformedInput)
    }
}

/// Computes `unwrapped`.
pub fn unwrap_list_syntax(param: &str) -> (inner: Result<&str, ResolveError>)
    ensures
        unwrapped(param@) == (match inner {
            Ok(text) => Ok(text@),
            Err(error) => Err(error),
        }),
{
    let n = param.unicode_len();
    if n == 0 || param.get_char(0) != '[' {
        Ok(param)
    } else if n > 4 {
        Ok(param.substring_char(2, n - 2))
    } else {
        Err(ResolveError::MalformedInput)
    }
}

/// Whether `scheme` is one of the schemes that carry an import.
pub open spec fn recognized_scheme(scheme: Seq<char>) -> bool {
    scheme == "clash"@ || scheme == "koala-clash"@ || scheme == "outclash"@
}

/// Computes `recognized_scheme`.
pub fn is_recognized_scheme(scheme: &str) -> (known: bool)
    ensures
        known == recognized_scheme(scheme@),
{
    same_text(scheme, "clash") || same_text(scheme, "koala-clash") || same_text(scheme, "outclash")
}

/// The address and the name that a link gives for an import, as text.
pub type ParametersText = (Seq<char>, Option<Seq<char>>);

/// The parameters that a parsed link selects for import, the address still
/// as the query holds it: nothing for a scheme that is not recognized; else
/// the last `url` and the last `name`, and an error where no `url` stands.
pub open spec fn selected_parameters(link: LinkParts) -> Result<Option<ParametersText>, ResolveError> {
    if !recognized_scheme(link.scheme) {
        Ok(None)
    } else {
        match last_value(link.query, "url"@) {
            Some(address) => Ok(Some((address, last_value(link.query, "name"@)))),
            None => Err(ResolveError::MissingUrlParameter),
        }
    }
}

/// A selection as text.
pub open spec fn selection_text(selected: Result<Option<(String, Option<String>)>, ResolveError>) -> Result<
    Option<ParametersText>,
    ResolveError,
> {
    match selected {
        Ok(Some(pair)) => Ok(Some((pair.0@, text_of(pair.1)))),
        Ok(None) => Ok(None),
        Err(error) => Err(error),
    }
}

/// Computes `selected_parameters`. The address comes back as the first part
/// of the pair, the name as the second.
pub fn select_parameters(link: &ParsedLink) -> (selected: Result<Option<(String, Option<String>)>, ResolveError>)
    ensures
        selection_text(selected) == selected_parameters(link@),
{
    if !is_recognized_scheme(link.scheme.as_str()) {
        return Ok(None);
    }
    let name = last_query_value(link, "name");
    match last_query_value(link, "url") {
        Some(address) => Ok(Some((address, name))),
        None => Err(ResolveError::MissingUrlParameter),
    }
}

/// What the resolver makes of the activation string `param`.
pub open spec fn resolution(param: Seq<char>) -> Result<Option<ImportRequestView>, ResolveError> {
    match unwrapped(param) {
        Err(error) => Err(error),
        Ok(inner) => match url_parts(inner) {
            None => Err(ResolveError::InvalidUrl),
            Some(link) => match selected_parameters(link) {
                Err(error) => Err(error),
                Ok(None) => Ok(None),
                Ok(Some((address, name))) => Ok(
                    Some(ImportRequestView { url: percent_decoded(address), name }),
                ),
            },
        },
    }
}

/// A resolution as text.
pub open spec fn resolution_text(resolved: Result<Option<ImportRequest>, ResolveError>) -> Result<
    Option<ImportRequestView>,
    ResolveError,
> {
    match resolved {
        Ok(Some(request)) => Ok(Some(request@)),
        Ok(None) => Ok(None),
        Err(error) => Err(error),
    }
}

/// Resolves the activation string `param`: unwraps list syntax, parses the
/// URL, and for a recognized scheme reads the `name` and the percent-decoded
/// `url`. `Ok(None)` is a link with another scheme, which asks for nothing.
pub fn resolve_scheme(param: &str) -> (resolved: Result<Option<ImportRequest>, ResolveError>)
    ensures
        resolution_text(resolved) == resolution(param@),
{
    let inner = match unwrap_list_syntax(param) {
        Ok(inner) => inner,
        Err(error) => {
            return Err(error);
        },
    };
    let link = match parse_url(inner) {
        Ok(link) => link,
        Err(_) => {
            return Err(ResolveError::InvalidUrl);
        },
    };
    match select_parameters(&link) {
        Err(error) => Err(error),
        Ok(None) => Ok(None),
        Ok(Some(pair)) => {
            let url = percent_decode(pair.0.as_str());
            Ok(Some(ImportRequest { url, name: pair.1 }))
        },
    }
}

/// The notification for a link that the resolver turned down.
pub fn failure_notice(error: ResolveError) -> (notice: Notice)
    ensures
        notice is ImportSubUrlError,
        notice.text() == failure_text(error),
{
    Notice::ImportSubUrlError(error.message())
}

/// The notification for what the profile store made of an import: the new
/// item's identifier on success, the store's error text otherwise.
pub fn import_notice(stored: Result<String, String>) -> (notice: Notice)
    ensures
        match stored {
            Ok(uid) => notice is ImportSubUrlOk && notice.text() == uid@,
            Err(reason) => notice is ImportSubUrlError && notice.text() == reason@,
        },
{
    match stored {
        Ok(uid) => Notice::ImportSubUrlOk(uid),
        Err(reason) => Notice::ImportSubUrlError(reason),
    }
}

/// A string that does not parse as a URL yields no import request: the
/// resolver fails with `InvalidUrl`, and the text reported for it is the same
/// for every such string.
pub proof fn unparsable_link_requests_nothing(param: Seq<char>)
    requires
        unwrapped(param) matches Ok(inner) && url_parts(inner) is None,
    ensures
        resolution(param) == Err::<Option<ImportRequestView>, ResolveError>(ResolveError::InvalidUrl),
        failure_text(ResolveError::InvalidUrl) == "failed to parse deep link"@,
{
}

/// A link whose scheme is not recognized is accepted and asks for nothing,
/// whatever its parameters.
pub proof fn other_scheme_is_no_error(link: LinkParts)
    requires
        !recognized_scheme(link.scheme),
    ensures
        selected_parameters(link) == Ok::<Option<ParametersText>, ResolveError>(None),
{
}

} // verus!
