//! URL handling. Parsing, inspection and reference resolution follow the
//! WHATWG rules as the `url` crate implements them; each call into that
//! crate sits behind one trusted wrapper whose result is named, since both
//! depend on the argument strings alone. The base-URL validation and the
//! per-article link construction on top of them are verified.

use vstd::prelude::*;
use crate::FeedError;
use crate::paths::base_name;
use crate::paths::base_name_str;
use crate::paths::dir_part;
use crate::text::str_eq;

verus! {

/// Whether `url::Url::parse` accepts `s` as an absolute URL.
pub uninterp spec fn url_ok(s: Seq<char>) -> bool;

/// The message `url::Url::parse`'s error displays for `s`.
pub uninterp spec fn url_error_text(s: Seq<char>) -> Seq<char>;

/// The scheme of the URL `s` parses to.
pub uninterp spec fn url_scheme_of(s: Seq<char>) -> Seq<char>;

/// The username of the URL `s` parses to; empty when none is embedded.
pub uninterp spec fn url_username_of(s: Seq<char>) -> Seq<char>;

/// The password of the URL `s` parses to, when one is embedded.
pub uninterp spec fn url_password_of(s: Seq<char>) -> Option<Seq<char>>;

/// What resolving the reference `rel` against the URL `base` parses to
/// yields, serialized; nothing when `base` does not parse or the
/// resolution fails.
pub uninterp spec fn url_join_of(base: Seq<char>, rel: Seq<char>) -> Option<Seq<char>>;

/// The text of an optional string.
pub open spec fn opt_text(o: Option<String>) -> Option<Seq<char>> {
    match o {
        Some(s) => Some(s@),
        None => None,
    }
}

/// Relies on url::Url::parse: `None` exactly when `s` parses as an
/// absolute URL, otherwise the parse error's display text.
#[verifier::external_body]
fn url_parse_error(s: &str) -> (r: Option<String>)
    ensures
        (r is None) == url_ok(s@),
        r matches Some(e) ==> e@ == url_error_text(s@),
{
    match url::Url::parse(s) {
        Ok(_) => None,
        Err(e) => Some(format!("{}", e)),
    }
}

/// Relies on url::Url::scheme: the scheme of the parsed URL. The result
/// means nothing when `s` does not parse.
#[verifier::external_body]
fn url_scheme(s: &str) -> (r: String)
    ensures
        url_ok(s@) ==> r@ == url_scheme_of(s@),
{
    match url::Url::parse(s) {
        Ok(u) => u.scheme().to_string(),
        Err(_) => String::new(),
    }
}

/// Relies on url::Url::username: the username of the parsed URL, empty
/// when none is embedded. The result means nothing when `s` does not
/// parse.
#[verifier::external_body]
fn url_username(s: &str) -> (r: String)
    ensures
        url_ok(s@) ==> r@ == url_username_of(s@),
{
    match url::Url::parse(s) {
        Ok(u) => u.username().to_string(),
        Err(_) => String::new(),
    }
}

/// Relies on url::Url::password: the password embedded in the parsed URL,
/// if any. The result means nothing when `s` does not parse.
#[verifier::external_body]
fn url_password(s: &str) -> (r: Option<String>)
    ensures
        url_ok(s@) ==> opt_text(r) == url_password_of(s@),
{
    match url::Url::parse(s) {
        Ok(u) => u.password().map(|p| p.to_string()),
        Err(_) => None,
    }
}

/// Relies on url::Url::join: resolve `rel` against the URL `base` parses
/// to and serialize the outcome, with parsing `base` as the conversion in.
#[verifier::external_body]
fn url_join(base: &str, rel: &str) -> (r: Option<String>)
    ensures
        opt_text(r) == url_join_of(base@, rel@),
{
    match url::Url::parse(base) {
        Ok(b) => match b.join(rel) {
            Ok(u) => Some(u.as_str().to_string()),
            Err(_) => None,
        },
        Err(_) => None,
    }
}

/// Check that a string is a usable base URL: it parses, its scheme is
/// `gemini`, and it embeds no user authentication.
pub fn is_gemini_url(val: &str) -> (r: Result<(), String>)
    ensures
        match r {
            Ok(()) => {
                &&& url_ok(val@)
                &&& url_scheme_of(val@) == "gemini"@
                &&& url_username_of(val@) == Seq::<char>::empty()
                &&& url_password_of(val@) is None
            },
            Err(e) => if !url_ok(val@) {
                e@ == url_error_text(val@)
            } else if url_scheme_of(val@) != "gemini"@ {
                e@ == "Bad url scheme : "@ + url_scheme_of(val@)
            } else {
                &&& (url_username_of(val@) != Seq::<char>::empty() || url_password_of(
                    val@,
                ) is Some)
                &&& e@ == "user authentication not allowed in url "@ + val@
            },
        },
{
    if let Some(e) = url_parse_error(val) {
        return Err(e);
    }
    let scheme = url_scheme(val);
    if !str_eq(scheme.as_str(), "gemini") {
        let mut e = "Bad url scheme : ".to_owned();
        e.append(scheme.as_str());
        return Err(e);
    }
    let username = url_username(val);
    let password = url_password(val);
    if !username.as_str().is_empty() || password.is_some() {
        let mut e = "user authentication not allowed in url ".to_owned();
        e.append(val);
        return Err(e);
    }
    proof {
        assert(url_username_of(val@) =~= Seq::<char>::empty());
    }
    Ok(())
}

/// The reference an article file resolves against the base URL: its bare
/// file name when it sits directly in the site root, its root-relative
/// path (with the leading separator) otherwise.
pub open spec fn entry_rel_path(filepath: Seq<char>, root: Seq<char>) -> Seq<char> {
    if dir_part(filepath) == Some(root) {
        base_name(filepath)
    } else {
        filepath.skip(root.len() as int)
    }
}

/// The canonical URL of an article file, when the base URL absorbs its
/// reference.
pub open spec fn entry_url_of(base: Seq<char>, filepath: Seq<char>, root: Seq<char>) -> Option<
    Seq<char>,
> {
    url_join_of(base, entry_rel_path(filepath, root))
}

/// Resolve an article's canonical URL, which also serves as its entry id.
pub fn entry_url(base_url: &str, filepath: &str, root: &str) -> (r: Result<String, FeedError>)
    requires
        root@.len() <= filepath@.len(),
    ensures
        match r {
            Ok(u) => entry_url_of(base_url@, filepath@, root@) == Some(u@),
            Err(e) => {
                &&& e == FeedError::UrlNotResolvable
                &&& entry_url_of(base_url@, filepath@, root@) is None
            },
        },
{
    let n = filepath.unicode_len();
    let in_root = match crate::paths::rfind(filepath, '/') {
        Some(i) => str_eq(filepath.substring_char(0, i), root),
        None => false,
    };
    let rel: String = if in_root {
        base_name_str(filepath)
    } else {
        let t = filepath.substring_char(root.unicode_len(), n);
        t.to_owned()
    };
    match url_join(base_url, rel.as_str()) {
        Some(u) => Ok(u),
        None => Err(FeedError::UrlNotResolvable),
    }
}

} // verus!
