//! Absolute `http`/`https` URLs, parsed and joined by the `url` crate (through `reqwest`).

use vstd::prelude::*;

use crate::error::{no_causes, spec_app_error, AppError, AppErrorKind, ErrorSource};
use crate::text::{has_prefix, starts_with};

verus! {

/// What `reqwest::Url::parse` (the `url` crate) yields for `input`: the serialization
/// of the parsed URL, or `None` when `input` is not an absolute URL.
pub uninterp spec fn url_serialization(input: Seq<char>) -> Option<Seq<char>>;

/// What `reqwest::Url::join` yields for the URL serialized as `base` and the
/// reference `input`: the serialization of the joined URL, or `None` on a parse error.
pub uninterp spec fn url_join_serialization(base: Seq<char>, input: Seq<char>) -> Option<Seq<char>>;

/// Calls `reqwest::Url::parse` (that is `url::Url::parse`) and returns the
/// serialization of the parsed URL. Claimed: the result is the named result
/// `url_serialization` of the input.
#[verifier::external_body]
fn parse_url_serialization(input: &str) -> (r: Option<String>)
    ensures
        match r {
            Some(v) => url_serialization(input@) == Some(v@),
            None => url_serialization(input@) is None,
        },
{
    match reqwest::Url::parse(input) {
        Ok(url) => Some(String::from(url)),
        Err(_) => None,
    }
}

/// Calls `reqwest::Url::join` on the URL whose serialization is `base` (converted back to
/// a `reqwest::Url` by `reqwest::Url::parse`). Claimed: the result is the named result
/// `url_join_serialization` of the two arguments.
#[verifier::external_body]
fn join_url_serialization(base: &str, input: &str) -> (r: Option<String>)
    ensures
        match r {
            Some(v) => url_join_serialization(base@, input@) == Some(v@),
            None => url_join_serialization(base@, input@) is None,
        },
{
    match reqwest::Url::parse(base).and_then(|b| b.join(input)) {
        Ok(url) => Some(String::from(url)),
        Err(_) => None,
    }
}

/// The serialization names an `http` or `https` URL.
pub open spec fn is_http_serialization(s: Seq<char>) -> bool {
    has_prefix(s, seq!['h', 't', 't', 'p', ':', '/', '/']) || has_prefix(
        s,
        seq!['h', 't', 't', 'p', 's', ':', '/', '/'],
    )
}

/// The directory form of a URL text: the text itself when it ends with `/`, else with `/` added.
pub open spec fn dir_text(s: Seq<char>) -> Seq<char> {
    if s.len() > 0 && s.last() == '/' {
        s
    } else {
        s.push('/')
    }
}

/// Why a text was refused as a substituter URL.
#[derive(Debug, Clone, Copy, PartialEq, Eq, Structural)]
pub enum TryNewUrlError {
    /// The text is not an absolute URL.
    Malformed,
    /// The URL's scheme is neither `http` nor `https`.
    UnsupportedScheme,
}

/// The description of a URL refusal.
pub open spec fn spec_url_error_description(e: TryNewUrlError) -> Seq<char> {
    match e {
        TryNewUrlError::Malformed => "malformed URL"@,
        TryNewUrlError::UnsupportedScheme => "unsupported URL scheme"@,
    }
}

impl TryNewUrlError {
    /// A short description of the refusal.
    pub fn description(&self) -> (r: &'static str)
        ensures
            r@ == spec_url_error_description(*self),
    {
        match self {
            TryNewUrlError::Malformed => "malformed URL",
            TryNewUrlError::UnsupportedScheme => "unsupported URL scheme",
        }
    }

    /// The application error for a refused URL: a rule violation.
    pub fn into_app_error(self) -> (r: AppError)
        ensures
            r@ == spec_app_error(AppErrorKind::Rule, spec_url_error_description(self)),
    {
        AppError::new(AppErrorKind::Rule, self)
    }
}

impl ErrorSource for TryNewUrlError {
    open spec fn spec_describe(&self) -> Seq<char> {
        spec_url_error_description(*self)
    }

    open spec fn spec_causes(&self) -> Seq<Seq<char>> {
        Seq::empty()
    }

    fn causes(&self) -> (r: Vec<String>) {
        no_causes()
    }

    fn describe(&self) -> (r: String) {
        String::from_str(self.description())
    }
}

/// An absolute `http`/`https` URL, kept as its normalized serialization.
#[derive(Debug, Clone)]
pub struct Url {
    value: String,
}

impl View for Url {
    type V = Seq<char>;

    /// The serialization of this URL.
    closed spec fn view(&self) -> Seq<char> {
        self.value@
    }
}

impl Url {
    /// The serialization of this URL.
    pub open spec fn text(&self) -> Seq<char> {
        self@
    }

    /// Parses `input`; it must be an absolute URL with scheme `http` or `https`.
    pub fn new(input: &str) -> (r: Result<Url, TryNewUrlError>)
        ensures
            match url_serialization(input@) {
                None => r == Err::<Url, TryNewUrlError>(TryNewUrlError::Malformed),
                Some(v) => if is_http_serialization(v) {
                    r is Ok && r->Ok_0.text() == v
                } else {
                    r == Err::<Url, TryNewUrlError>(TryNewUrlError::UnsupportedScheme)
                },
            },
    {
        match parse_url_serialization(input) {
            None => Err(TryNewUrlError::Malformed),
            Some(v) => {
                if is_http_text(v.as_str()) {
                    Ok(Url { value: v })
                } else {
                    Err(TryNewUrlError::UnsupportedScheme)
                }
            },
        }
    }

    /// The serialization of this URL.
    pub fn value(&self) -> (r: &str)
        ensures
            r@ == self.text(),
    {
        self.value.as_str()
    }

    /// This URL with a `/` appended, unless its serialization already ends with one.
    pub fn as_dir(&self) -> (r: Url)
        ensures
            r.text() == dir_text(self.text()),
    {
        let n = self.value.as_str().unicode_len();
        if n > 0 && self.value.as_str().get_char(n - 1) == '/' {
            Url { value: self.value.clone() }
        } else {
            let slash = "/";
            proof {
                reveal_strlit("/");
            }
            let v = self.value.clone().concat(slash);
            assert(v@ == self.text().push('/'));
            Url { value: v }
        }
    }

    /// Resolves `input` against this URL, as `url::Url::join` does.
    pub fn join(&self, input: &str) -> (r: Option<Url>)
        ensures
            match url_join_serialization(self.text(), input@) {
                Some(v) => r is Some && r->Some_0.text() == v,
                None => r is None,
            },
    {
        match join_url_serialization(self.value.as_str(), input) {
            Some(v) => Some(Url { value: v }),
            None => None,
        }
    }

    /// A copy of this URL.
    pub fn duplicate(&self) -> (r: Url)
        ensures
            r@ == self@,
    {
        Url { value: self.value.clone() }
    }

    /// Whether the two URLs have the same serialization.
    pub fn same_as(&self, other: &Url) -> (r: bool)
        ensures
            r == (self.text() == other.text()),
    {
        self.value == other.value
    }
}

/// Checks the `http://` / `https://` prefix of a serialization: whether a parsed URL
/// is one this crate accepts.
pub fn is_http_text(s: &str) -> (r: bool)
    ensures
        r == is_http_serialization(s@),
{
    let http = "http://";
    let https = "https://";
    proof {
        reveal_strlit("http://");
        reveal_strlit("https://");
        assert(http@ =~= seq!['h', 't', 't', 'p', ':', '/', '/']);
        assert(https@ =~= seq!['h', 't', 't', 'p', 's', ':', '/', '/']);
    }
    starts_with(s, http) || starts_with(s, https)
}

} // verus!
