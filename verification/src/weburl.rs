//! Web addresses: parsing, and the two addresses that the shell derives from
//! the page the main window has loaded.
//!
//! Addresses are parsed and rewritten by the `url` crate. What that crate
//! returns is named here, not restated: the contracts below say which of its
//! functions are applied to what, in which order. A rewriting works on the
//! address as `url` keeps it, which is more than its text, so the rewritten
//! address is named over the address and its text is taken last.

use url::ParseError;
use url::Url;
use vstd::prelude::*;
use vstd::string::*;

verus! {

/// `url::Url`, a parsed address. Nothing inside it is visible here.
#[verifier::external_type_specification]
#[verifier::external_body]
pub struct ExUrl(url::Url);

/// `url::ParseError`, the reason why a text is no address.
#[verifier::external_type_specification]
#[verifier::external_body]
pub struct ExParseError(url::ParseError);

/// The text of an address: what `Url::as_str` returns for it.
pub uninterp spec fn url_text(url: Url) -> Seq<char>;

/// What `Url::parse` makes of `input`: the text of the address that it reads,
/// or the error with which it refuses.
pub uninterp spec fn parse_outcome(input: Seq<char>) -> Result<Seq<char>, ParseError>;

/// The words in which `url::ParseError` describes itself when displayed.
pub uninterp spec fn parse_error_text(error: ParseError) -> Seq<char>;

/// The address `url` after `Url::set_path` has given it the path `path`.
pub uninterp spec fn with_path(url: Url, path: Seq<char>) -> Url;

/// The address `url` after `Url::set_query` has given it the query `query`,
/// or removed its query for `None`.
pub uninterp spec fn with_query(url: Url, query: Option<Seq<char>>) -> Url;

/// The address `url` after `Url::set_fragment` has given it the fragment
/// `fragment`, or removed its fragment for `None`.
pub uninterp spec fn with_fragment(url: Url, fragment: Option<Seq<char>>) -> Url;

/// The text of the address that `Url::parse` reads from `input`, or `None`
/// where it reads none.
pub open spec fn parsed_text(input: Seq<char>) -> Option<Seq<char>> {
    match parse_outcome(input) {
        Ok(text) => Some(text),
        Err(_) => None,
    }
}

/// What an optional text holds.
pub open spec fn optional_text(text: Option<&str>) -> Option<Seq<char>> {
    match text {
        Some(t) => Some(t@),
        None => None,
    }
}

/// The longest address, in characters, that the shell rewrites. `Url::set_path`
/// cannot hold an address of four gigabytes; below this length the new path
/// always fits.
pub const MAX_URL_LENGTH: usize = 0x0fff_ffff;

/// Whether an address is short enough to be rewritten.
pub open spec fn is_short(url: Url) -> bool {
    url_text(url).len() <= MAX_URL_LENGTH
}

/// Calls `Url::parse`. The result is the address that the `url` crate reads
/// from `input`, or its error; which of the two, and the address's text, are
/// named by `parse_outcome`.
#[verifier::external_body]
pub(crate) fn parse_url(input: &str) -> (parsed: Result<Url, ParseError>)
    ensures
        match parsed {
            Ok(url) => parse_outcome(input@) == Ok::<Seq<char>, ParseError>(url_text(url)),
            Err(error) => parse_outcome(input@) == Err::<Seq<char>, ParseError>(error),
        },
{
    Url::parse(input)
}

/// Calls `Url::as_str`, which hands out the address as text.
#[verifier::external_body]
pub(crate) fn url_as_str(url: &Url) -> (text: &str)
    ensures
        text@ == url_text(*url),
{
    url.as_str()
}

/// `Url::clone`, which `url` derives: the copy is the address copied, part
/// by part.
pub assume_specification[ <Url as Clone>::clone ](url: &Url) -> (copy: Url)
    ensures
        copy == *url,
;

/// Compares two addresses with `==`, which `url` defines as equality of their
/// texts.
#[verifier::external_body]
pub(crate) fn same_url(a: &Url, b: &Url) -> (same: bool)
    ensures
        same == (url_text(*a) == url_text(*b)),
{
    a == b
}

/// Calls `Url::set_path`, which replaces the path of the address. It stops the
/// program where the rewritten address would reach four gigabytes, so long
/// addresses and long paths are kept out.
#[verifier::external_body]
pub(crate) fn set_url_path(url: &mut Url, path: &str)
    requires
        is_short(*old(url)),
        path@.len() <= 0xffff,
    ensures
        *final(url) == with_path(*old(url), path@),
{
    url.set_path(path)
}

/// Calls `Url::set_query`, which replaces the query of the address or, for
/// `None`, removes it. Like `Url::set_path` it stops the program where the
/// rewritten address would reach four gigabytes, so a new query is taken only
/// where the address and the query are short.
#[verifier::external_body]
pub(crate) fn set_url_query(url: &mut Url, query: Option<&str>)
    requires
        query matches Some(q) ==> is_short(*old(url)) && q@.len() <= 0xffff,
    ensures
        *final(url) == with_query(*old(url), optional_text(query)),
{
    url.set_query(query)
}

/// Calls `Url::set_fragment`, which replaces the fragment of the address or,
/// for `None`, removes it. It stops the program where the address without
/// its old fragment has four gigabytes, so a new fragment is taken only where
/// the address and the fragment are short.
#[verifier::external_body]
pub(crate) fn set_url_fragment(url: &mut Url, fragment: Option<&str>)
    requires
        fragment matches Some(f) ==> is_short(*old(url)) && f@.len() <= 0xffff,
    ensures
        *final(url) == with_fragment(*old(url), optional_text(fragment)),
{
    url.set_fragment(fragment)
}

/// Displays a `url::ParseError` as text.
#[verifier::external_body]
pub(crate) fn describe_parse_error(error: &ParseError) -> (text: String)
    ensures
        text@ == parse_error_text(*error),
{
    error.to_string()
}

/// The path of the root page.
pub open spec fn root_path() -> Seq<char> {
    "/"@
}

/// The fragment that marks the settings view.
pub open spec fn settings_fragment() -> Seq<char> {
    "settings"@
}

/// The address that shows the settings view while no page has been loaded.
pub open spec fn settings_placeholder() -> Seq<char> {
    "tauri://localhost/#settings"@
}

/// The address `url` moved to the root page: the path set to the root, then
/// the query removed.
pub open spec fn at_root(url: Url) -> Url {
    with_query(with_path(url, root_path()), None)
}

/// The base address of `loaded`: the address moved to the root page, then
/// the fragment removed.
pub open spec fn base_of(loaded: Url) -> Url {
    with_fragment(at_root(loaded), None)
}

/// The settings address on `base`: the address moved to the root page, then
/// the fragment set to the settings marker.
pub open spec fn settings_on(base: Url) -> Url {
    with_fragment(at_root(base), Some(settings_fragment()))
}

/// Whether the settings address can be made on `base`: the base address is
/// short enough to be rewritten, and so is what it becomes at the root page.
pub open spec fn takes_settings(base: Url) -> bool {
    is_short(base) && is_short(at_root(base))
}

/// The text of the settings address, given the base address if one was
/// captured. Without a base address, or with one too long to rewrite, it is
/// the placeholder as `url` reads it.
pub open spec fn settings_text(base: Option<Url>) -> Option<Seq<char>> {
    match base {
        Some(b) if takes_settings(b) => Some(url_text(settings_on(b))),
        _ => parsed_text(settings_placeholder()),
    }
}

/// Whether an address is short enough to be rewritten.
pub fn can_rewrite(url: &Url) -> (short: bool)
    ensures
        short == is_short(*url),
{
    url_as_str(url).unicode_len() <= MAX_URL_LENGTH
}

/// The base address of the page that the main window has loaded: the same
/// origin, at the root path, without query and fragment.
pub fn derive_base_url(loaded: Url) -> (base: Url)
    requires
        is_short(loaded),
    ensures
        base == base_of(loaded),
{
    let mut base = loaded;
    proof {
        reveal_strlit("/");
    }
    set_url_path(&mut base, "/");
    set_url_query(&mut base, None);
    set_url_fragment(&mut base, None);
    base
}

/// The base address that is captured from `loaded`: its base address, and
/// none for an address too long to rewrite.
pub open spec fn captured_base(loaded: Url) -> Option<Url> {
    if is_short(loaded) {
        Some(base_of(loaded))
    } else {
        None
    }
}

/// The base address of `loaded`, or `None` for an address too long to
/// rewrite.
pub fn checked_base_url(loaded: Url) -> (base: Option<Url>)
    ensures
        base == captured_base(loaded),
{
    if can_rewrite(&loaded) {
        Some(derive_base_url(loaded))
    } else {
        None
    }
}

/// What an optional address holds.
pub open spec fn optional_url_text(url: Option<Url>) -> Option<Seq<char>> {
    match url {
        Some(u) => Some(url_text(u)),
        None => None,
    }
}

/// The address of the settings view: on the base address where one was
/// captured, else the placeholder. `None` only where the `url` crate does not
/// read the placeholder as an address.
pub fn settings_url(base: &Option<Url>) -> (settings: Option<Url>)
    ensures
        optional_url_text(settings) == settings_text(*base),
{
    if let Some(b) = base {
        if can_rewrite(b) {
            let mut settings = b.clone();
            proof {
                reveal_strlit("/");
                reveal_strlit("settings");
            }
            set_url_path(&mut settings, "/");
            set_url_query(&mut settings, None);
            if can_rewrite(&settings) {
                set_url_fragment(&mut settings, Some("settings"));
                return Some(settings);
            }
        }
    }
    match parse_url("tauri://localhost/#settings") {
        Ok(url) => Some(url),
        Err(_) => None,
    }
}

} // verus!
