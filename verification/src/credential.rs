//! Credentials for substituters, selected by the longest URL prefix.

use vstd::prelude::*;
use vstd::utf8::encode_utf8;

use crate::error::{single_cause, ErrorSource};
use crate::url::{
    is_http_serialization, spec_url_error_description, url_serialization, TryNewUrlError, Url,
};

verus! {

/// A copy of an optional text.
pub fn clone_opt_string(s: &Option<String>) -> (r: Option<String>)
    ensures
        match s {
            Some(v) => r is Some && r->Some_0@ == v@,
            None => r is None,
        },
{
    match s {
        Some(v) => Some(v.clone()),
        None => None,
    }
}

/// One credential entry as written in the credential file.
#[derive(Clone, PartialEq, Eq, Hash)]
pub struct AppRawCredentialEntry {
    pub url: String,
    pub login: String,
    pub secret: Option<String>,
}

/// The credential file as written.
#[derive(Clone, PartialEq, Eq, Hash)]
pub struct AppRawCredential {
    pub credentials: Vec<AppRawCredentialEntry>,
}

/// A login (and optional secret) for the substituter URLs under `url`.
#[derive(Clone)]
pub struct AppCredentialEntry {
    pub url: Url,
    pub login: String,
    pub secret: Option<String>,
}

/// All configured credentials, in file order.
#[derive(Clone)]
pub struct AppCredential {
    pub credentials: Vec<AppCredentialEntry>,
}

/// A credential entry whose URL is refused.
#[derive(Debug, Clone, PartialEq, Eq)]
pub struct InvalidCredentialError {
    /// The URL text as written.
    pub url: String,
    pub reason: TryNewUrlError,
}

/// The description of a refused credential entry.
pub open spec fn spec_invalid_credential_description(url: Seq<char>) -> Seq<char> {
    "invalid substituter URL in `credentials[].url`: `\""@ + url + "\"`"@
}

impl ErrorSource for InvalidCredentialError {
    open spec fn spec_describe(&self) -> Seq<char> {
        spec_invalid_credential_description(self.url@)
    }

    /// The refusal of the URL itself.
    open spec fn spec_causes(&self) -> Seq<Seq<char>> {
        seq![spec_url_error_description(self.reason)]
    }

    fn causes(&self) -> (r: Vec<String>) {
        single_cause(String::from_str(self.reason.description()))
    }

    fn describe(&self) -> (r: String) {
        let head = String::from_str("invalid substituter URL in `credentials[].url`: `\"");
        let middle = head.concat(self.url.as_str());
        middle.concat("\"`")
    }
}

/// `full` lies under `prefix`: `prefix` is a byte prefix of `full` that ends at the end of
/// `full`, ends with `/`, or is followed by `/` in `full`.
pub open spec fn spec_is_prefix_match(full: Seq<u8>, prefix: Seq<u8>) -> bool {
    &&& prefix.len() <= full.len()
    &&& full.subrange(0, prefix.len() as int) == prefix
    &&& (full.len() == prefix.len() || (prefix.len() > 0 && prefix.last() == 47u8)
        || full[prefix.len() as int] == 47u8)
}

/// The UTF-8 bytes of an entry's URL.
pub open spec fn entry_url_bytes(e: AppCredentialEntry) -> Seq<u8> {
    encode_utf8(e.url@)
}

/// The entry applies to the URL whose UTF-8 bytes are `full`.
pub open spec fn entry_matches(full: Seq<u8>, e: AppCredentialEntry) -> bool {
    spec_is_prefix_match(full, entry_url_bytes(e))
}

/// Entry `i` is the one `lookup` selects: it applies, no applying entry has a longer URL,
/// and every later applying entry has a shorter one.
pub open spec fn is_lookup_choice(creds: Seq<AppCredentialEntry>, full: Seq<u8>, i: int) -> bool {
    &&& 0 <= i < creds.len()
    &&& entry_matches(full, creds[i])
    &&& forall|j: int|
        0 <= j < creds.len() && #[trigger] entry_matches(full, creds[j]) ==> entry_url_bytes(
            creds[j],
        ).len() <= entry_url_bytes(creds[i]).len() && (j > i ==> entry_url_bytes(creds[j]).len()
            < entry_url_bytes(creds[i]).len())
}

/// The text is accepted as a substituter URL.
pub open spec fn valid_url_text(t: Seq<char>) -> bool {
    url_serialization(t) matches Some(v) && is_http_serialization(v)
}

/// Checks whether `full` lies under `prefix`.
pub fn is_prefix_match(full: &str, prefix: &str) -> (r: bool)
    ensures
        r == spec_is_prefix_match(encode_utf8(full@), encode_utf8(prefix@)),
{
    let f = full.as_bytes();
    let p = prefix.as_bytes();
    let n = f.len();
    let m = p.len();
    if m > n {
        return false;
    }
    let mut i: usize = 0;
    while i < m
        invariant
            f@ == encode_utf8(full@),
            p@ == encode_utf8(prefix@),
            n == f@.len(),
            m == p@.len(),
            m <= n,
            i <= m,
            forall|k: int| 0 <= k < i ==> f@[k] == p@[k],
        decreases m - i,
    {
        if f[i] != p[i] {
            assert(f@.subrange(0, m as int)[i as int] != p@[i as int]);
            return false;
        }
        i = i + 1;
    }
    assert(f@.subrange(0, m as int) =~= p@);
    if n == m {
        return true;
    }
    (m > 0 && p[m - 1] == 47u8) || f[m] == 47u8
}

impl AppCredential {
    /// No credentials.
    pub fn empty() -> (r: Self)
        ensures
            r.credentials@ == Seq::<AppCredentialEntry>::empty(),
    {
        AppCredential { credentials: Vec::new() }
    }

    /// These credentials with `entry` added last.
    pub fn with(self, entry: AppCredentialEntry) -> (r: Self)
        ensures
            r.credentials@ == self.credentials@.push(entry),
    {
        let mut credentials = self.credentials;
        credentials.push(entry);
        AppCredential { credentials }
    }

    /// The credential for `full_url`: among the entries whose URL is a prefix of it (ending
    /// at a `/` boundary), the one with the longest URL, the last one on a tie.
    pub fn lookup(&self, full_url: &Url) -> (r: Option<&AppCredentialEntry>)
        ensures
            ({
                let full = encode_utf8(full_url@);
                match r {
                    None => forall|j: int|
                        0 <= j < self.credentials@.len() ==> !#[trigger] entry_matches(
                            full,
                            self.credentials@[j],
                        ),
                    Some(e) => exists|i: int|
                        is_lookup_choice(self.credentials@, full, i) && *e
                            == #[trigger] self.credentials@[i],
                }
            }),
    {
        let full = full_url.value();
        let ghost fb = encode_utf8(full_url@);
        let n = self.credentials.len();
        let mut best: Option<usize> = None;
        let mut best_len: usize = 0;
        let mut i: usize = 0;
        while i < n
            invariant
                n == self.credentials@.len(),
                i <= n,
                encode_utf8(full@) == fb,
                fb == encode_utf8(full_url@),
                best is None ==> forall|j: int|
                    0 <= j < i ==> !#[trigger] entry_matches(fb, self.credentials@[j]),
                best is Some ==> {
                    let b = best->Some_0;
                    &&& b < i
                    &&& entry_matches(fb, self.credentials@[b as int])
                    &&& best_len == entry_url_bytes(self.credentials@[b as int]).len()
                    &&& forall|j: int|
                        0 <= j < i && #[trigger] entry_matches(fb, self.credentials@[j])
                            ==> entry_url_bytes(self.credentials@[j]).len() <= best_len && (j
                            > b ==> entry_url_bytes(self.credentials@[j]).len() < best_len)
                },
            decreases n - i,
        {
            let c = &self.credentials[i];
            let u = c.url.value();
            let m = is_prefix_match(full, u);
            if m {
                let len = u.as_bytes().len();
                match best {
                    None => {
                        best = Some(i);
                        best_len = len;
                    },
                    Some(_) => {
                        if len >= best_len {
                            best = Some(i);
                            best_len = len;
                        }
                    },
                }
            }
            i = i + 1;
        }
        match best {
            None => None,
            Some(b) => {
                assert(is_lookup_choice(self.credentials@, fb, b as int));
                Some(&self.credentials[b])
            },
        }
    }

    /// Validates the credential file: every URL must be an `http`/`https` URL; the first
    /// refused entry is reported.
    pub fn try_from_raw(raw: AppRawCredential) -> (r: Result<AppCredential, InvalidCredentialError>)
        ensures
            match r {
                Ok(c) => {
                    &&& c.credentials@.len() == raw.credentials@.len()
                    &&& forall|i: int|
                        0 <= i < raw.credentials@.len() ==> {
                            let e = #[trigger] raw.credentials@[i];
                            &&& valid_url_text(e.url@)
                            &&& Some(c.credentials@[i].url@) == url_serialization(e.url@)
                            &&& c.credentials@[i].login@ == e.login@
                            &&& c.credentials@[i].secret.is_some() == e.secret.is_some()
                            &&& e.secret is Some ==> c.credentials@[i].secret->Some_0@
                                == e.secret->Some_0@
                        }
                },
                Err(err) => exists|i: int|
                    0 <= i < raw.credentials@.len() && !valid_url_text(
                        (#[trigger] raw.credentials@[i]).url@,
                    ) && (forall|j: int|
                        0 <= j < i ==> valid_url_text((#[trigger] raw.credentials@[j]).url@))
                        && err.url@ == raw.credentials@[i].url@ && err.reason == (if url_serialization(
                        raw.credentials@[i].url@,
                    ) is None {
                        TryNewUrlError::Malformed
                    } else {
                        TryNewUrlError::UnsupportedScheme
                    }),
            },
    {
        let n = raw.credentials.len();
        let mut credentials: Vec<AppCredentialEntry> = Vec::new();
        let mut i: usize = 0;
        while i < n
            invariant
                n == raw.credentials@.len(),
                i <= n,
                credentials@.len() == i,
                forall|k: int|
                    0 <= k < i ==> {
                        let e = #[trigger] raw.credentials@[k];
                        &&& valid_url_text(e.url@)
                        &&& Some(credentials@[k].url@) == url_serialization(e.url@)
                        &&& credentials@[k].login@ == e.login@
                        &&& credentials@[k].secret.is_some() == e.secret.is_some()
                        &&& e.secret is Some ==> credentials@[k].secret->Some_0@
                            == e.secret->Some_0@
                    },
            decreases n - i,
        {
            let e = &raw.credentials[i];
            match Url::new(e.url.as_str()) {
                Ok(url) => {
                    credentials.push(
                        AppCredentialEntry {
                            url,
                            login: e.login.clone(),
                            secret: clone_opt_string(&e.secret),
                        },
                    );
                },
                Err(reason) => {
                    return Err(InvalidCredentialError { url: e.url.clone(), reason });
                },
            }
            i = i + 1;
        }
        Ok(AppCredential { credentials })
    }
}

/// The entry `lookup` selects applies to the URL, no applying entry has a longer URL, and
/// no later applying entry has one as long: the longest prefix wins, the last on a tie. At
/// most one entry is so selected.
pub proof fn law_lookup_prefers_longest_then_last(
    creds: Seq<AppCredentialEntry>,
    full: Seq<u8>,
    i: int,
    j: int,
)
    requires
        is_lookup_choice(creds, full, i),
    ensures
        0 <= i < creds.len(),
        spec_is_prefix_match(full, encode_utf8(creds[i].url@)),
        0 <= j < creds.len() && spec_is_prefix_match(full, encode_utf8(creds[j].url@)) ==> encode_utf8(
            creds[j].url@,
        ).len() <= encode_utf8(creds[i].url@).len(),
        i < j < creds.len() && spec_is_prefix_match(full, encode_utf8(creds[j].url@)) ==> encode_utf8(
            creds[j].url@,
        ).len() < encode_utf8(creds[i].url@).len(),
        is_lookup_choice(creds, full, j) ==> i == j,
{
    if 0 <= j < creds.len() {
        assert(entry_matches(full, creds[j]) == spec_is_prefix_match(full, encode_utf8(creds[j].url@)));
    }
}

/// An entry applies to a URL exactly when the entry's URL is a byte prefix of it that ends
/// the URL, ends with `/`, or is followed by `/`: `https://example.org/nix` applies to
/// `https://example.org/nix/x` but not to `https://example.org/nixos`.
pub proof fn law_prefix_match_at_segment_boundary(full: Seq<u8>, prefix: Seq<u8>)
    ensures
        spec_is_prefix_match(full, prefix) ==> prefix.len() <= full.len() && forall|k: int|
            0 <= k < prefix.len() ==> #[trigger] full[k] == prefix[k],
        prefix.len() <= full.len() && (forall|k: int| 0 <= k < prefix.len() ==> #[trigger] full[k]
            == prefix[k]) ==> (spec_is_prefix_match(full, prefix) <==> (full.len() == prefix.len()
            || (prefix.len() > 0 && prefix[prefix.len() - 1] == 47u8) || full[prefix.len() as int]
            == 47u8)),
{
    if prefix.len() <= full.len() {
        if forall|k: int| 0 <= k < prefix.len() ==> #[trigger] full[k] == prefix[k] {
            assert(full.subrange(0, prefix.len() as int) =~= prefix);
        }
        if spec_is_prefix_match(full, prefix) {
            assert forall|k: int| 0 <= k < prefix.len() implies #[trigger] full[k] == prefix[k] by {
                assert(full.subrange(0, prefix.len() as int)[k] == full[k]);
            }
        }
    }
}

} // verus!
