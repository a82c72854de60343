//! Request headers and credential handling.
//!
//! The headers of a request are held as a [`HeaderList`]: entries of a
//! lowercase name and a value, in order, a later entry of a name overriding
//! an earlier one. The bearer credential is applied
//! last, after any caller-supplied `Authorization` header has been dropped,
//! so it can never be overridden.
use vstd::prelude::*;

use crate::text::push_str;

verus! {

/// Whether `c` may appear in a header name as `http::HeaderName` accepts it:
/// a token character (`!#$%&'*+-.^_`|~`, digits, letters).
pub open spec fn is_header_name_char(c: char) -> bool {
    ||| 'a' <= c <= 'z'
    ||| 'A' <= c <= 'Z'
    ||| '0' <= c <= '9'
    ||| c == '!' || c == '#' || c == '$' || c == '%' || c == '&' || c == '\''
    ||| c == '*' || c == '+' || c == '-' || c == '.' || c == '^' || c == '_'
    ||| c == '`' || c == '|' || c == '~'
}

/// Whether `http::HeaderName::from_str` accepts `s`: between 1 and 65535
/// token characters.
pub open spec fn header_name_valid(s: Seq<char>) -> bool {
    &&& 1 <= s.len() <= 65535
    &&& forall|i: int| 0 <= i < s.len() ==> is_header_name_char(s[i])
}

/// `c` with ASCII uppercase letters mapped to lowercase.
pub open spec fn ascii_lower_char(c: char) -> char {
    if 'A' <= c <= 'Z' {
        ((c as u32) + 32) as char
    } else {
        c
    }
}

/// `s` with ASCII uppercase letters mapped to lowercase.
pub open spec fn ascii_lowercase(s: Seq<char>) -> Seq<char> {
    s.map_values(|c: char| ascii_lower_char(c))
}

/// Whether `http::HeaderValue::from_str` accepts `s`: every byte of its UTF-8
/// encoding is a tab, or at least a space and not DEL. Over characters: tabs,
/// visible ASCII, spaces, and every non-ASCII character.
pub open spec fn header_value_valid(s: Seq<char>) -> bool {
    forall|i: int| 0 <= i < s.len() ==> (s[i] == '\t' || ((s[i] as u32) >= 32 && (s[i] as u32)
        != 127))
}

/// `http::HeaderName::from_str`, keeping the parsed name as text
/// (`HeaderName::as_str`). The contract claims what the crate's source shows:
/// the name is accepted exactly when it is 1 to 65535 token characters, and
/// it is normalized to ASCII lowercase.
#[verifier::external_body]
fn parse_header_name(name: &str) -> (r: Option<String>)
    ensures
        r is Some <==> header_name_valid(name@),
        r matches Some(n) ==> n@ == ascii_lowercase(name@),
{
    name.parse::<reqwest::header::HeaderName>().ok().map(|n| n.as_str().to_owned())
}

/// Whether `http::HeaderValue::from_str` accepts `value`. The contract claims
/// what the crate's source shows (`header_value_valid`).
#[verifier::external_body]
fn header_value_ok(value: &str) -> (r: bool)
    ensures
        r == header_value_valid(value@),
{
    reqwest::header::HeaderValue::from_str(value).is_ok()
}

/// One header of a request.
#[derive(Debug)]
pub struct HeaderEntry {
    /// The lowercase header name.
    pub name: String,
    /// The header value.
    pub value: String,
    /// Whether the value is a secret to keep out of logs.
    pub sensitive: bool,
}

impl HeaderEntry {
    /// A copy of this entry.
    pub fn copy(&self) -> (r: HeaderEntry)
        ensures
            r.name@ == self.name@,
            r.value@ == self.value@,
            r.sensitive == self.sensitive,
    {
        HeaderEntry { name: self.name.clone(), value: self.value.clone(), sensitive: self.sensitive }
    }
}

/// The model of a header entry: name, value, and whether it is sensitive.
pub type EntryModel = (Seq<char>, Seq<char>, bool);

/// The models of a sequence of entries.
pub open spec fn entry_views(entries: Seq<HeaderEntry>) -> Seq<EntryModel> {
    entries.map_values(|e: HeaderEntry| (e.name@, e.value@, e.sensitive))
}

/// The value (and sensitivity) that `entries` gives header `name`: that of
/// the last entry with this name, as a header map that receives the entries
/// one after the other keeps it.
pub open spec fn header_lookup(entries: Seq<EntryModel>, name: Seq<char>) -> Option<
    (Seq<char>, bool),
>
    decreases entries.len(),
{
    if entries.len() == 0 {
        None
    } else if entries.last().0 == name {
        Some((entries.last().1, entries.last().2))
    } else {
        header_lookup(entries.drop_last(), name)
    }
}

/// `entries` without the entries named `name`.
pub open spec fn without_name(entries: Seq<EntryModel>, name: Seq<char>) -> Seq<EntryModel>
    decreases entries.len(),
{
    if entries.len() == 0 {
        entries
    } else if entries.last().0 == name {
        without_name(entries.drop_last(), name)
    } else {
        without_name(entries.drop_last(), name).push(entries.last())
    }
}

proof fn lemma_lookup_without(entries: Seq<EntryModel>, name: Seq<char>, n: Seq<char>)
    ensures
        header_lookup(without_name(entries, name), n) == if n == name {
            None
        } else {
            header_lookup(entries, n)
        },
    decreases entries.len(),
{
    if entries.len() > 0 {
        lemma_lookup_without(entries.drop_last(), name, n);
        let w = without_name(entries.drop_last(), name);
        if entries.last().0 != name {
            assert(w.push(entries.last()).drop_last() =~= w);
        }
    }
}

proof fn lemma_without_twice(entries: Seq<EntryModel>, name: Seq<char>)
    ensures
        without_name(without_name(entries, name), name) == without_name(entries, name),
    decreases entries.len(),
{
    if entries.len() > 0 {
        lemma_without_twice(entries.drop_last(), name);
        let w = without_name(entries.drop_last(), name);
        if entries.last().0 != name {
            assert(w.push(entries.last()).drop_last() =~= w);
        }
    }
}

proof fn lemma_lookup_concat(first: Seq<EntryModel>, second: Seq<EntryModel>, n: Seq<char>)
    ensures
        header_lookup(first + second, n) == match header_lookup(second, n) {
            Some(v) => Some(v),
            None => header_lookup(first, n),
        },
    decreases second.len(),
{
    if second.len() == 0 {
        assert(first + second =~= first);
    } else {
        lemma_lookup_concat(first, second.drop_last(), n);
        assert((first + second).drop_last() =~= first + second.drop_last());
    }
}

/// The headers of a request.
#[derive(Debug)]
pub struct HeaderList {
    entries: Vec<HeaderEntry>,
}

impl View for HeaderList {
    type V = Seq<EntryModel>;

    closed spec fn view(&self) -> Seq<EntryModel> {
        entry_views(self.entries@)
    }
}

impl HeaderList {
    /// An empty header list.
    pub fn new() -> (r: HeaderList)
        ensures
            r@ == Seq::<EntryModel>::empty(),
    {
        let r = HeaderList { entries: Vec::new() };
        assert(entry_views(r.entries@) =~= Seq::<EntryModel>::empty());
        r
    }

    /// The value of header `name`.
    pub open spec fn lookup(&self, name: Seq<char>) -> Option<(Seq<char>, bool)> {
        header_lookup(self@, name)
    }

    /// The entries, in order; a later entry overrides an earlier one with the
    /// same name.
    pub fn entries(&self) -> (r: &Vec<HeaderEntry>)
        ensures
            entry_views(r@) == self@,
    {
        &self.entries
    }

    /// Removes header `name` (a lowercase name).
    pub fn remove(&mut self, name: &str)
        ensures
            final(self)@ == without_name(old(self)@, name@),
            forall|n: Seq<char>| #[trigger]
                final(self).lookup(n) == if n == name@ {
                    None
                } else {
                    old(self).lookup(n)
                },
    {
        let ghost old_view = self@;
        let mut kept: Vec<HeaderEntry> = Vec::new();
        let mut i: usize = 0;
        while i < self.entries.len()
            invariant
                i <= self.entries.len(),
                old_view == entry_views(self.entries@),
                entry_views(kept@) == without_name(old_view.take(i as int), name@),
            decreases self.entries.len() - i,
        {
            let ghost before = entry_views(kept@);
            assert(old_view.take(i + 1).drop_last() =~= old_view.take(i as int));
            assert(old_view.take(i + 1).last() == old_view[i as int]);
            if !crate::json::str_eq(self.entries[i].name.as_str(), name) {
                kept.push(self.entries[i].copy());
                assert(entry_views(kept@) =~= before.push(old_view[i as int]));
            }
            i = i + 1;
        }
        assert(old_view.take(old_view.len() as int) =~= old_view);
        self.entries = kept;
        proof {
            assert forall|n: Seq<char>| #[trigger]
                header_lookup(self@, n) == if n == name@ {
                    None
                } else {
                    header_lookup(old_view, n)
                } by {
                lemma_lookup_without(old_view, name@, n);
            }
        }
    }

    /// Sets header `name` (a lowercase name) to `value`, replacing any value
    /// it had.
    pub fn insert(&mut self, name: String, value: String, sensitive: bool)
        ensures
            final(self)@ == old(self)@.push((name@, value@, sensitive)),
            forall|n: Seq<char>| #[trigger]
                final(self).lookup(n) == if n == name@ {
                    Some((value@, sensitive))
                } else {
                    old(self).lookup(n)
                },
    {
        let ghost v0 = self@;
        let ghost e = (name@, value@, sensitive);
        self.entries.push(HeaderEntry { name, value, sensitive });
        assert(self@ =~= v0.push(e));
        assert(self@.drop_last() =~= v0);
    }

    /// Adds a header given as text, as a client's default headers are added:
    /// only when the name is a valid header name and the value a valid header
    /// value; the name is stored lowercase.
    pub fn insert_parsed(&mut self, name: &str, value: &str)
        ensures
            final(self)@ == if header_name_valid(name@) && header_value_valid(value@) {
                old(self)@.push((ascii_lowercase(name@), value@, false))
            } else {
                old(self)@
            },
            forall|n: Seq<char>| #[trigger]
                final(self).lookup(n) == if header_name_valid(name@) && header_value_valid(value@)
                    && n == ascii_lowercase(name@) {
                    Some((value@, false))
                } else {
                    old(self).lookup(n)
                },
    {
        match parse_header_name(name) {
            Some(parsed) => {
                if header_value_ok(value) {
                    let mut v = String::new();
                    push_str(&mut v, value);
                    self.insert(parsed, v, false);
                }
            },
            None => {},
        }
    }

    /// A copy of this list.
    pub fn copy(&self) -> (r: HeaderList)
        ensures
            r@ == self@,
    {
        let mut entries: Vec<HeaderEntry> = Vec::new();
        let mut i: usize = 0;
        while i < self.entries.len()
            invariant
                i <= self.entries.len(),
                entry_views(entries@) == entry_views(self.entries@).take(i as int),
            decreases self.entries.len() - i,
        {
            let ghost before = entry_views(entries@);
            entries.push(self.entries[i].copy());
            assert(entry_views(entries@) =~= before.push(entry_views(self.entries@)[i as int]));
            assert(entry_views(entries@) =~= entry_views(self.entries@).take(i + 1));
            i = i + 1;
        }
        assert(entry_views(self.entries@).take(self.entries@.len() as int) =~= entry_views(
            self.entries@,
        ));
        HeaderList { entries }
    }
}

/// Removes a header by name, case-insensitively: the name is parsed as a
/// header name (and so lowercased) first; an invalid name removes nothing.
pub fn remove_header_ci(headers: &mut HeaderList, name: &str)
    ensures
        final(headers)@ == if header_name_valid(name@) {
            without_name(old(headers)@, ascii_lowercase(name@))
        } else {
            old(headers)@
        },
        forall|n: Seq<char>| #[trigger]
            final(headers).lookup(n) == if header_name_valid(name@) && n == ascii_lowercase(
                name@,
            ) {
                None
            } else {
                old(headers).lookup(n)
            },
{
    if let Some(parsed) = parse_header_name(name) {
        headers.remove(parsed.as_str());
    }
}

/// `authorization`
pub open spec fn authorization_name() -> Seq<char> {
    seq!['a', 'u', 't', 'h', 'o', 'r', 'i', 'z', 'a', 't', 'i', 'o', 'n']
}

/// `Bearer `
pub open spec fn bearer_prefix() -> Seq<char> {
    seq!['B', 'e', 'a', 'r', 'e', 'r', ' ']
}

/// The `Authorization` value for a key: `Bearer <key>`, or just `Bearer` when
/// that is not a valid header value.
pub open spec fn bearer_value(key: Seq<char>) -> Seq<char> {
    if header_value_valid(bearer_prefix() + key) {
        bearer_prefix() + key
    } else {
        bearer_prefix().drop_last()
    }
}

/// `ApiKey(***redacted***)`, the debug rendering of every key.
pub open spec fn redacted_key_text() -> Seq<char> {
    "ApiKey(***redacted***)"@
}

/// A bearer credential.
pub struct ApiKey {
    key: String,
}

impl View for ApiKey {
    type V = Seq<char>;

    closed spec fn view(&self) -> Seq<char> {
        self.key@
    }
}

impl ApiKey {
    /// Wraps a key.
    pub fn new(key: String) -> (r: ApiKey)
        ensures
            r@ == key@,
    {
        ApiKey { key }
    }

    /// The text that stands for the key in debug output, whatever the key:
    /// `ApiKey(***redacted***)`.
    pub fn redacted(&self) -> (r: String)
        ensures
            r@ == redacted_key_text(),
    {
        let mut s = String::new();
        push_str(&mut s, "ApiKey(***redacted***)");
        s
    }

    /// The `Authorization` header value for this key (sent as a sensitive
    /// header).
    pub fn header_value(&self) -> (r: String)
        ensures
            r@ == bearer_value(self@),
    {
        let mut v = String::new();
        push_str(&mut v, "Bearer ");
        push_str(&mut v, self.key.as_str());
        proof {
            reveal_strlit("Bearer ");
        }
        assert(v@ =~= bearer_prefix() + self@);
        if header_value_ok(v.as_str()) {
            v
        } else {
            let mut b = String::new();
            push_str(&mut b, "Bearer");
            proof {
                reveal_strlit("Bearer");
            }
            assert(b@ =~= bearer_prefix().drop_last());
            b
        }
    }
}

/// Applies the bearer credential last, after dropping any caller-supplied
/// `Authorization` header, so it can never be overridden.
pub fn apply_authorization(headers: &mut HeaderList, key: &ApiKey)
    ensures
        final(headers)@ == without_name(old(headers)@, authorization_name()).push(
            (authorization_name(), bearer_value(key@), true),
        ),
        forall|n: Seq<char>| #[trigger]
            final(headers).lookup(n) == if n == authorization_name() {
                Some((bearer_value(key@), true))
            } else {
                old(headers).lookup(n)
            },
{
    proof {
        reveal_strlit("authorization");
    }
    assert("authorization"@ =~= authorization_name());
    headers.remove("authorization");
    let mut name = String::new();
    push_str(&mut name, "authorization");
    headers.insert(name, key.header_value(), true);
}

/// The headers of one request: the client's default headers, overridden by
/// the per-call headers, with any `Authorization` header dropped and the
/// bearer credential applied.
pub fn request_headers(defaults: &HeaderList, per_call: &HeaderList, key: &ApiKey) -> (r:
    HeaderList)
    ensures
        r@ == without_name(defaults@ + per_call@, authorization_name()).push(
            (authorization_name(), bearer_value(key@), true),
        ),
        r.lookup(authorization_name()) == Some((bearer_value(key@), true)),
        forall|n: Seq<char>|
            n != authorization_name() ==> #[trigger] r.lookup(n) == match per_call.lookup(n) {
                Some(v) => Some(v),
                None => defaults.lookup(n),
            },
{
    let mut headers = defaults.copy();
    let entries = per_call.entries();
    let ghost dv = defaults@;
    let ghost pv = per_call@;
    let mut i: usize = 0;
    while i < entries.len()
        invariant
            i <= entries.len(),
            entry_views(entries@) == pv,
            headers@ == dv + pv.take(i as int),
        decreases entries.len() - i,
    {
        let e = &entries[i];
        headers.insert(e.name.clone(), e.value.clone(), e.sensitive);
        assert(dv + pv.take(i + 1) =~= (dv + pv.take(i as int)).push(pv[i as int]));
        i = i + 1;
    }
    assert(pv.take(pv.len() as int) =~= pv);
    let ghost merged = headers@;
    proof {
        reveal_strlit("authorization");
        assert("authorization"@ =~= authorization_name());
        assert(ascii_lowercase(authorization_name()) =~= authorization_name());
        assert(header_name_valid(authorization_name()));
        assert(merged == dv + pv);
        lemma_without_twice(merged, authorization_name());
        assert forall|n: Seq<char>| #[trigger]
            header_lookup(merged, n) == match header_lookup(pv, n) {
                Some(v) => Some(v),
                None => header_lookup(dv, n),
            } by {
            lemma_lookup_concat(dv, pv, n);
        }
    }
    // The bearer token is owned by the SDK; no caller header may shadow it.
    remove_header_ci(&mut headers, "authorization");
    apply_authorization(&mut headers, key);
    headers
}

} // verus!
