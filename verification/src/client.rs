//! Client configuration and the reading of response headers: the API key and
//! base URL a client is built with, the URL of an endpoint, `Retry-After`,
//! and the request id.
use vstd::prelude::*;

use crate::auth::{header_lookup, ApiKey, EntryModel, HeaderList};
use crate::error::{opt_view, SkailarError};
use crate::text::{chars_of, push_char, push_str, string_from_range, trim_bounds, trim_ws};

verus! {

/// The gateway used when no base URL is configured.
pub const DEFAULT_BASE_URL: &'static str = "https://api.skailar.com";

/// The per-attempt request timeout used when none is configured, in seconds.
pub const DEFAULT_TIMEOUT_SECS: u64 = 60;

/// The number of retries used when none is configured.
pub const DEFAULT_MAX_RETRIES: u32 = 2;

/// The serialization of the URL that `url::Url::parse` reads from `input`;
/// `None` where it rejects the input.
pub uninterp spec fn url_parse(input: Seq<char>) -> Option<Seq<char>>;

/// `url::Url::parse`, keeping the parsed URL as its serialization
/// (`Url::as_str`). The contract claims only that the serialization is what
/// `url_parse` names for the input, and that an error comes exactly when
/// `url_parse` has none.
#[verifier::external_body]
fn parse_url(input: &str) -> (r: Result<String, url::ParseError>)
    ensures
        match r {
            Ok(s) => url_parse(input@) == Some(s@),
            Err(_) => url_parse(input@) is None,
        },
{
    url::Url::parse(input).map(|u| u.as_str().to_owned())
}

/// The API key a client uses: the one passed explicitly, or else the one from
/// the environment; `None` when that is absent or empty.
pub open spec fn spec_api_key(explicit: Option<Seq<char>>, from_env: Option<Seq<char>>) -> Option<
    Seq<char>,
> {
    let key = match explicit {
        Some(k) => Some(k),
        None => from_env,
    };
    match key {
        Some(k) => if k.len() > 0 {
            Some(k)
        } else {
            None
        },
        None => None,
    }
}

/// Picks the API key: the explicit one, or else `SKAILAR_API_KEY`'s value as
/// read by the caller. An absent or empty key is [`SkailarError::MissingApiKey`].
pub fn resolve_api_key(explicit: Option<String>, from_env: Option<String>) -> (r: Result<
    String,
    SkailarError,
>)
    ensures
        match r {
            Ok(k) => spec_api_key(opt_view(explicit), opt_view(from_env)) == Some(k@),
            Err(e) => spec_api_key(opt_view(explicit), opt_view(from_env)) is None && e
                is MissingApiKey,
        },
{
    let key = match explicit {
        Some(k) => Some(k),
        None => from_env,
    };
    match key {
        Some(k) => if k.as_str().is_empty() {
            Err(SkailarError::MissingApiKey)
        } else {
            Ok(k)
        },
        None => Err(SkailarError::MissingApiKey),
    }
}

/// `https://api.skailar.com`
pub open spec fn default_base_url() -> Seq<char> {
    seq![
        'h',
        't',
        't',
        'p',
        's',
        ':',
        '/',
        '/',
        'a',
        'p',
        'i',
        '.',
        's',
        'k',
        'a',
        'i',
        'l',
        'a',
        'r',
        '.',
        'c',
        'o',
        'm',
    ]
}

/// The base URL text a client is configured with: the explicit one, or else
/// the one from the environment, unless that is absent or empty, in which
/// case the default gateway.
pub open spec fn spec_base_url_text(explicit: Option<Seq<char>>, from_env: Option<Seq<char>>) -> Seq<
    char,
> {
    let url = match explicit {
        Some(u) => Some(u),
        None => from_env,
    };
    match url {
        Some(u) => if u.len() > 0 {
            u
        } else {
            default_base_url()
        },
        None => default_base_url(),
    }
}

/// Picks and parses the base URL: the explicit one, or else
/// `SKAILAR_BASE_URL`'s value as read by the caller, or else the default
/// gateway. Returns the URL's serialization, or
/// [`SkailarError::InvalidBaseUrl`] when it does not parse.
pub fn resolve_base_url(explicit: Option<String>, from_env: Option<String>) -> (r: Result<
    String,
    SkailarError,
>)
    ensures
        match r {
            Ok(u) => url_parse(spec_base_url_text(opt_view(explicit), opt_view(from_env)))
                == Some(u@),
            Err(e) => url_parse(spec_base_url_text(opt_view(explicit), opt_view(from_env)))
                is None && e is InvalidBaseUrl,
        },
{
    proof {
        reveal_strlit("https://api.skailar.com");
    }
    assert(DEFAULT_BASE_URL@ =~= default_base_url());
    let url = match explicit {
        Some(u) => Some(u),
        None => from_env,
    };
    let text = match url {
        Some(u) => if u.as_str().is_empty() {
            let mut d = String::new();
            push_str(&mut d, DEFAULT_BASE_URL);
            d
        } else {
            u
        },
        None => {
            let mut d = String::new();
            push_str(&mut d, DEFAULT_BASE_URL);
            d
        },
    };
    match parse_url(text.as_str()) {
        Ok(u) => Ok(u),
        Err(e) => Err(SkailarError::InvalidBaseUrl(e)),
    }
}

/// `s` without its trailing `/` characters.
pub open spec fn trim_end_slashes(s: Seq<char>) -> Seq<char>
    decreases s.len(),
{
    if s.len() > 0 && s.last() == '/' {
        trim_end_slashes(s.drop_last())
    } else {
        s
    }
}

/// `s` without its leading `/` characters.
pub open spec fn trim_start_slashes(s: Seq<char>) -> Seq<char>
    decreases s.len(),
{
    if s.len() > 0 && s[0] == '/' {
        trim_start_slashes(s.drop_first())
    } else {
        s
    }
}

/// The text of an endpoint URL: the base without trailing slashes, one `/`,
/// and the path without leading slashes.
pub open spec fn endpoint_text(base: Seq<char>, path: Seq<char>) -> Seq<char> {
    trim_end_slashes(base) + seq!['/'] + trim_start_slashes(path)
}

/// Joins the base URL and an API path with exactly one `/` between them and
/// parses the result. Returns the URL's serialization, or
/// [`SkailarError::InvalidBaseUrl`] when it does not parse.
pub fn endpoint(base: &str, path: &str) -> (r: Result<String, SkailarError>)
    ensures
        match r {
            Ok(u) => url_parse(endpoint_text(base@, path@)) == Some(u@),
            Err(e) => url_parse(endpoint_text(base@, path@)) is None && e is InvalidBaseUrl,
        },
{
    let b = chars_of(base);
    let mut end = b.len();
    assert(b@.subrange(0, end as int) =~= b@);
    while end > 0 && b[end - 1] == '/'
        invariant
            end <= b.len(),
            trim_end_slashes(b@) == trim_end_slashes(b@.subrange(0, end as int)),
        decreases end,
    {
        assert(b@.subrange(0, end as int).drop_last() =~= b@.subrange(0, end - 1));
        end = end - 1;
    }
    let p = chars_of(path);
    let mut start: usize = 0;
    assert(p@.subrange(0, p@.len() as int) =~= p@);
    while start < p.len() && p[start] == '/'
        invariant
            start <= p.len(),
            trim_start_slashes(p@) == trim_start_slashes(p@.subrange(start as int, p@.len() as int)),
        decreases p.len() - start,
    {
        assert(p@.subrange(start as int, p@.len() as int).drop_first() =~= p@.subrange(
            start + 1,
            p@.len() as int,
        ));
        start = start + 1;
    }
    let mut joined = string_from_range(&b, 0, end);
    push_char(&mut joined, '/');
    let tail = string_from_range(&p, start, p.len());
    push_str(&mut joined, tail.as_str());
    assert(joined@ =~= endpoint_text(base@, path@));
    match parse_url(joined.as_str()) {
        Ok(u) => Ok(u),
        Err(e) => Err(SkailarError::InvalidBaseUrl(e)),
    }
}

/// Law: the base URL a client uses is never empty. An explicit non-empty
/// URL is used as given; without one an explicit empty URL means the
/// default gateway, and an absent one falls back to `SKAILAR_BASE_URL` when
/// that is non-empty; in every other case (in particular an empty
/// `SKAILAR_BASE_URL`) the default gateway is used.
pub proof fn law_base_url_choice(explicit: Option<Seq<char>>, from_env: Option<Seq<char>>)
    ensures
        spec_base_url_text(explicit, from_env).len() > 0,
        explicit is Some && explicit->0.len() > 0 ==> spec_base_url_text(explicit, from_env)
            == explicit->0,
        explicit is Some && explicit->0.len() == 0 ==> spec_base_url_text(explicit, from_env)
            == "https://api.skailar.com"@,
        explicit is None && (from_env is Some && from_env->0.len() > 0) ==> spec_base_url_text(
            explicit,
            from_env,
        ) == from_env->0,
        explicit is None && !(from_env is Some && from_env->0.len() > 0) ==> spec_base_url_text(
            explicit,
            from_env,
        ) == "https://api.skailar.com"@,
        spec_base_url_text(None, Some(Seq::empty())) == spec_base_url_text(None, None),
{
    reveal_strlit("https://api.skailar.com");
    assert("https://api.skailar.com"@ =~= default_base_url());
}

/// `trim_end_slashes(s)` keeps `s` up to its last character other than `/`:
/// it is a prefix of `s`, what it drops is all `/`, and it does not end in
/// `/`.
proof fn lemma_trim_end_slashes(s: Seq<char>)
    ensures
        trim_end_slashes(s).len() <= s.len(),
        trim_end_slashes(s) == s.take(trim_end_slashes(s).len() as int),
        forall|i: int| trim_end_slashes(s).len() <= i < s.len() ==> s[i] == '/',
        trim_end_slashes(s).len() == 0 || trim_end_slashes(s).last() != '/',
    decreases s.len(),
{
    if s.len() > 0 && s.last() == '/' {
        lemma_trim_end_slashes(s.drop_last());
        let t = trim_end_slashes(s.drop_last());
        assert(s.drop_last().take(t.len() as int) =~= s.take(t.len() as int));
        assert forall|i: int| t.len() <= i < s.len() implies s[i] == '/' by {
            if i < s.len() - 1 {
                assert(s[i] == s.drop_last()[i]);
            }
        }
    } else {
        assert(s.take(s.len() as int) =~= s);
    }
}

/// `trim_start_slashes(s)` keeps `s` from its first character other than
/// `/`: it is a suffix of `s`, what it drops is all `/`, and it does not
/// start with `/`.
proof fn lemma_trim_start_slashes(s: Seq<char>)
    ensures
        trim_start_slashes(s).len() <= s.len(),
        trim_start_slashes(s) == s.skip(s.len() - trim_start_slashes(s).len()),
        forall|i: int| 0 <= i < s.len() - trim_start_slashes(s).len() ==> s[i] == '/',
        trim_start_slashes(s).len() == 0 || trim_start_slashes(s)[0] != '/',
    decreases s.len(),
{
    if s.len() > 0 && s[0] == '/' {
        lemma_trim_start_slashes(s.drop_first());
        let t = trim_start_slashes(s.drop_first());
        assert(s.drop_first().skip(s.drop_first().len() - t.len()) =~= s.skip(s.len() - t.len()));
        assert forall|i: int| 0 <= i < s.len() - t.len() implies s[i] == '/' by {
            if i > 0 {
                assert(s[i] == s.drop_first()[i - 1]);
            }
        }
    } else {
        assert(s.skip(0) =~= s);
    }
}

/// Law: the URL of an endpoint is the whole base URL with only its trailing
/// `/` removed, then exactly one `/`, then the path with only its leading `/`
/// removed. So a base without a trailing `/` (such as one with a path,
/// `http://a.example/x`) is kept whole in front of the path, and the join
/// never doubles the `/`.
pub proof fn law_endpoint_join(base: Seq<char>, path: Seq<char>)
    ensures
        ({
            let b = trim_end_slashes(base);
            let p = trim_start_slashes(path);
            &&& endpoint_text(base, path) == b + seq!['/'] + p
            &&& b == base.take(b.len() as int)
            &&& forall|i: int| b.len() <= i < base.len() ==> base[i] == '/'
            &&& (b.len() == 0 || b.last() != '/')
            &&& p == path.skip(path.len() - p.len())
            &&& forall|i: int| 0 <= i < path.len() - p.len() ==> path[i] == '/'
            &&& (p.len() == 0 || p[0] != '/')
        }),
        base.len() > 0 && base.last() != '/' ==> endpoint_text(base, path) == base + seq!['/']
            + trim_start_slashes(path),
{
    lemma_trim_end_slashes(base);
    lemma_trim_start_slashes(path);
    if base.len() > 0 && base.last() != '/' {
        assert(trim_end_slashes(base) == base);
    }
}

/// Whether `c` is an ASCII decimal digit.
pub open spec fn is_digit(c: char) -> bool {
    '0' <= c <= '9'
}

/// The value of a sequence of decimal digits.
pub open spec fn digits_value(s: Seq<char>) -> nat
    decreases s.len(),
{
    if s.len() == 0 {
        0
    } else {
        digits_value(s.drop_last()) * 10 + ((s.last() as u32) - ('0' as u32)) as nat
    }
}

/// `u64::from_str`: an optional `+` followed by one or more decimal digits
/// whose value fits in a `u64`.
pub open spec fn spec_parse_u64(s: Seq<char>) -> Option<u64> {
    let d = unsigned_digits(s);
    if d.len() > 0 && (forall|i: int| 0 <= i < d.len() ==> is_digit(d[i])) && digits_value(d)
        <= u64::MAX {
        Some(digits_value(d) as u64)
    } else {
        None
    }
}

/// `s` without one leading `+`.
pub open spec fn unsigned_digits(s: Seq<char>) -> Seq<char> {
    if s.len() > 0 && s[0] == '+' {
        s.drop_first()
    } else {
        s
    }
}

/// The value of a longer run of digits is at least that of its prefix.
proof fn lemma_digits_value_grows(d: Seq<char>, k: int)
    requires
        0 <= k <= d.len(),
        forall|i: int| 0 <= i < d.len() ==> is_digit(d[i]),
    ensures
        digits_value(d.take(k)) <= digits_value(d),
    decreases d.len() - k,
{
    if k < d.len() {
        lemma_digits_value_grows(d, k + 1);
        assert(d.take(k + 1).drop_last() =~= d.take(k));
    } else {
        assert(d.take(k) =~= d);
    }
}

/// Parses a decimal `u64` as `str::parse::<u64>` does.
pub fn parse_u64(s: &str) -> (r: Option<u64>)
    ensures
        r == spec_parse_u64(s@),
{
    let v = chars_of(s);
    let n = v.len();
    let start: usize = if n > 0 && v[0] == '+' {
        1
    } else {
        0
    };
    let ghost d = v@.subrange(start as int, n as int);
    assert(unsigned_digits(s@) =~= d);
    if start == n {
        assert(d.len() == 0);
        return None;
    }
    let mut i = start;
    while i < n
        invariant
            start <= i <= n == v.len(),
            d == v@.subrange(start as int, n as int),
            d == unsigned_digits(s@),
            forall|k: int| 0 <= k < i - start ==> is_digit(d[k]),
        decreases n - i,
    {
        if !(v[i] >= '0' && v[i] <= '9') {
            assert(!is_digit(d[i - start]));
            assert(!(forall|k: int| 0 <= k < d.len() ==> is_digit(d[k])));
            return None;
        }
        i = i + 1;
    }
    let mut acc: u64 = 0;
    let mut i = start;
    assert(d.take(0) =~= Seq::<char>::empty());
    while i < n
        invariant
            start <= i <= n == v.len(),
            d == v@.subrange(start as int, n as int),
            d == unsigned_digits(s@),
            forall|k: int| 0 <= k < d.len() ==> is_digit(d[k]),
            acc == digits_value(d.take(i - start)),
        decreases n - i,
    {
        assert(d[i - start] == v@[i as int]);
        let digit = (v[i] as u32 - '0' as u32) as u64;
        assert(d.take(i - start + 1).drop_last() =~= d.take(i - start));
        assert(d.take(i - start + 1).last() == v@[i as int]);
        match acc.checked_mul(10) {
            None => {
                proof {
                    lemma_digits_value_grows(d, i - start + 1);
                }
                return None;
            },
            Some(m) => match m.checked_add(digit) {
                None => {
                    proof {
                        lemma_digits_value_grows(d, i - start + 1);
                        assert(digits_value(d.take(i - start + 1)) == acc * 10 + digit);
                    }
                    return None;
                },
                Some(a) => {
                    acc = a;
                },
            },
        }
        i = i + 1;
    }
    assert(d.take(n - start) =~= d);
    Some(acc)
}

/// The seconds of a `Retry-After` header value: the value trimmed of
/// whitespace and read as a decimal `u64`.
pub open spec fn spec_retry_after(value: Option<Seq<char>>) -> Option<u64> {
    match value {
        Some(v) => spec_parse_u64(trim_ws(v)),
        None => None,
    }
}

/// Reads `Retry-After` (as text, when the header is present and is visible
/// ASCII) as a number of seconds.
pub fn parse_retry_after(value: Option<&str>) -> (r: Option<u64>)
    ensures
        r == spec_retry_after(
            match value {
                Some(v) => Some(v@),
                None => None,
            },
        ),
{
    match value {
        None => None,
        Some(v) => {
            let chars = chars_of(v);
            let (i, j) = trim_bounds(&chars);
            let trimmed = string_from_range(&chars, i, j);
            parse_u64(trimmed.as_str())
        },
    }
}

/// The request id of a response: the first of `x-request-id`,
/// `x-skailar-request-id` and `request-id` that is present with a textual
/// value.
pub open spec fn spec_request_id(
    x_request_id: Option<Seq<char>>,
    x_skailar_request_id: Option<Seq<char>>,
    request_id: Option<Seq<char>>,
) -> Option<Seq<char>> {
    match x_request_id {
        Some(v) => Some(v),
        None => match x_skailar_request_id {
            Some(v) => Some(v),
            None => request_id,
        },
    }
}

/// The view of an optional string slice.
pub open spec fn opt_str_view(o: Option<&str>) -> Option<Seq<char>> {
    match o {
        Some(s) => Some(s@),
        None => None,
    }
}

/// Picks the request id from the values (as text) of `x-request-id`,
/// `x-skailar-request-id` and `request-id`, in that order of priority.
pub fn extract_request_id(
    x_request_id: Option<&str>,
    x_skailar_request_id: Option<&str>,
    request_id: Option<&str>,
) -> (r: Option<String>)
    ensures
        opt_view(r) == spec_request_id(
            opt_str_view(x_request_id),
            opt_str_view(x_skailar_request_id),
            opt_str_view(request_id),
        ),
{
    let candidates = [x_request_id, x_skailar_request_id, request_id];
    let mut k: usize = 0;
    while k < 3
        invariant
            k <= 3,
            candidates@ == seq![x_request_id, x_skailar_request_id, request_id],
            forall|j: int| 0 <= j < k ==> candidates@[j] is None,
        decreases 3 - k,
    {
        if let Some(text) = candidates[k] {
            let mut owned = String::new();
            push_str(&mut owned, text);
            return Some(owned);
        }
        k = k + 1;
    }
    None
}

/// What a client is configured with before it is built: the settings given
/// explicitly, each absent until set.
pub struct ClientOptions {
    api_key: Option<String>,
    base_url: Option<String>,
    max_retries: Option<u32>,
    timeout: Option<(u64, u32)>,
    default_headers: HeaderList,
}

/// The state of a [`ClientOptions`].
pub struct OptionsModel {
    /// The explicit API key.
    pub api_key: Option<Seq<char>>,
    /// The explicit base URL.
    pub base_url: Option<Seq<char>>,
    /// The explicit retry budget.
    pub max_retries: Option<u32>,
    /// The explicit per-attempt timeout, as whole seconds and the nanoseconds
    /// beyond them.
    pub timeout: Option<(u64, u32)>,
    /// The default headers, in the order they were added.
    pub default_headers: Seq<EntryModel>,
}

impl View for ClientOptions {
    type V = OptionsModel;

    closed spec fn view(&self) -> OptionsModel {
        OptionsModel {
            api_key: opt_view(self.api_key),
            base_url: opt_view(self.base_url),
            max_retries: self.max_retries,
            timeout: self.timeout,
            default_headers: self.default_headers@,
        }
    }
}

/// A client's resolved configuration: everything but the transport.
pub struct ClientConfig {
    /// The bearer credential.
    pub api_key: ApiKey,
    /// The serialization of the parsed base URL.
    pub base_url: String,
    /// Headers sent on every request.
    pub default_headers: HeaderList,
    /// The retry budget.
    pub max_retries: u32,
    /// The per-attempt timeout: whole seconds.
    pub timeout_secs: u64,
    /// The per-attempt timeout: nanoseconds beyond the whole seconds.
    pub timeout_subsec_nanos: u32,
}

impl ClientOptions {
    /// No setting given.
    pub fn new() -> (r: ClientOptions)
        ensures
            r@.api_key is None,
            r@.base_url is None,
            r@.max_retries is None,
            r@.timeout is None,
            r@.default_headers == Seq::<EntryModel>::empty(),
    {
        ClientOptions {
            api_key: None,
            base_url: None,
            max_retries: None,
            timeout: None,
            default_headers: HeaderList::new(),
        }
    }

    /// Whether an API key was given explicitly.
    pub fn has_api_key(&self) -> (r: bool)
        ensures
            r == self@.api_key is Some,
    {
        self.api_key.is_some()
    }

    /// The explicit base URL, if one was given.
    pub fn explicit_base_url(&self) -> (r: Option<&String>)
        ensures
            match r {
                Some(u) => self@.base_url == Some(u@),
                None => self@.base_url is None,
            },
    {
        self.base_url.as_ref()
    }

    /// The explicit retry budget, if one was given.
    pub fn explicit_max_retries(&self) -> (r: Option<u32>)
        ensures
            r == self@.max_retries,
    {
        self.max_retries
    }

    /// The explicit per-attempt timeout, if one was given.
    pub fn explicit_timeout(&self) -> (r: Option<(u64, u32)>)
        ensures
            r == self@.timeout,
    {
        self.timeout
    }

    /// Sets the per-attempt request timeout (default 60 seconds), as whole
    /// seconds and the nanoseconds beyond them.
    pub fn timeout(self, secs: u64, subsec_nanos: u32) -> (r: ClientOptions)
        ensures
            r@.api_key == self@.api_key,
            r@.base_url == self@.base_url,
            r@.max_retries == self@.max_retries,
            r@.timeout == Some((secs, subsec_nanos)),
            r@.default_headers == self@.default_headers,
    {
        ClientOptions { timeout: Some((secs, subsec_nanos)), ..self }
    }

    /// The default headers added so far.
    pub fn default_headers(&self) -> (r: &HeaderList)
        ensures
            r@ == self@.default_headers,
    {
        &self.default_headers
    }

    /// Sets the API key, overriding `SKAILAR_API_KEY`.
    pub fn api_key(self, api_key: String) -> (r: ClientOptions)
        ensures
            r@.api_key == Some(api_key@),
            r@.base_url == self@.base_url,
            r@.max_retries == self@.max_retries,
            r@.timeout == self@.timeout,
            r@.default_headers == self@.default_headers,
    {
        ClientOptions { api_key: Some(api_key), ..self }
    }

    /// Sets the base URL, overriding `SKAILAR_BASE_URL` and the default.
    pub fn base_url(self, base_url: String) -> (r: ClientOptions)
        ensures
            r@.api_key == self@.api_key,
            r@.base_url == Some(base_url@),
            r@.max_retries == self@.max_retries,
            r@.timeout == self@.timeout,
            r@.default_headers == self@.default_headers,
    {
        ClientOptions { base_url: Some(base_url), ..self }
    }

    /// Sets the maximum number of retries (default 2).
    pub fn max_retries(self, max_retries: u32) -> (r: ClientOptions)
        ensures
            r@.api_key == self@.api_key,
            r@.base_url == self@.base_url,
            r@.max_retries == Some(max_retries),
            r@.timeout == self@.timeout,
            r@.default_headers == self@.default_headers,
    {
        ClientOptions { max_retries: Some(max_retries), ..self }
    }

    /// Adds a default header sent on every request; a name or value that is
    /// not a valid header is ignored. An `Authorization` header set here has
    /// no effect on requests: the bearer credential is applied last.
    pub fn default_header(self, name: &str, value: &str) -> (r: ClientOptions)
        ensures
            r@.api_key == self@.api_key,
            r@.base_url == self@.base_url,
            r@.max_retries == self@.max_retries,
            r@.timeout == self@.timeout,
            r@.default_headers == if crate::auth::header_name_valid(name@)
                && crate::auth::header_value_valid(value@) {
                self@.default_headers.push((crate::auth::ascii_lowercase(name@), value@, false))
            } else {
                self@.default_headers
            },
            forall|n: Seq<char>| #[trigger]
                header_lookup(r@.default_headers, n) == if crate::auth::header_name_valid(name@)
                    && crate::auth::header_value_valid(value@) && n
                    == crate::auth::ascii_lowercase(name@) {
                    Some((value@, false))
                } else {
                    header_lookup(self@.default_headers, n)
                },
    {
        let ghost before = self.default_headers;
        let mut headers = self.default_headers;
        headers.insert_parsed(name, value);
        assert forall|n: Seq<char>| #[trigger] header_lookup(headers@, n) == if crate::auth::header_name_valid(
            name@,
        ) && crate::auth::header_value_valid(value@) && n == crate::auth::ascii_lowercase(name@) {
            Some((value@, false))
        } else {
            header_lookup(before@, n)
        } by {
            assert(headers.lookup(n) == header_lookup(headers@, n));
            assert(before.lookup(n) == header_lookup(before@, n));
        }
        ClientOptions { default_headers: headers, ..self }
    }

    /// Resolves the configuration, given the values of `SKAILAR_API_KEY` and
    /// `SKAILAR_BASE_URL` as read by the caller: the key is the explicit one
    /// or else the environment's, and must not be empty
    /// ([`SkailarError::MissingApiKey`]); the base URL is the explicit one,
    /// or else the environment's, or else the default gateway, and must parse
    /// ([`SkailarError::InvalidBaseUrl`]); the retry budget defaults to 2, the
    /// timeout to 60 seconds.
    pub fn resolve(self, env_api_key: Option<String>, env_base_url: Option<String>) -> (r: Result<
        ClientConfig,
        SkailarError,
    >)
        ensures
            match r {
                Ok(c) => {
                    &&& spec_api_key(self@.api_key, opt_view(env_api_key)) == Some(c.api_key@)
                    &&& url_parse(spec_base_url_text(self@.base_url, opt_view(env_base_url)))
                        == Some(c.base_url@)
                    &&& c.default_headers@ == self@.default_headers
                    &&& (c.timeout_secs, c.timeout_subsec_nanos) == match self@.timeout {
                        Some(t) => t,
                        None => (DEFAULT_TIMEOUT_SECS, 0u32),
                    }
                    &&& c.max_retries == match self@.max_retries {
                        Some(n) => n,
                        None => DEFAULT_MAX_RETRIES,
                    }
                },
                Err(e) => {
                    ||| spec_api_key(self@.api_key, opt_view(env_api_key)) is None
                        && e is MissingApiKey
                    ||| spec_api_key(self@.api_key, opt_view(env_api_key)) is Some && url_parse(
                        spec_base_url_text(self@.base_url, opt_view(env_base_url)),
                    ) is None && e is InvalidBaseUrl
                },
            },
    {
        let key = match resolve_api_key(self.api_key, env_api_key) {
            Ok(k) => k,
            Err(e) => return Err(e),
        };
        let base_url = match resolve_base_url(self.base_url, env_base_url) {
            Ok(u) => u,
            Err(e) => return Err(e),
        };
        let (timeout_secs, timeout_subsec_nanos) = match self.timeout {
            Some(t) => t,
            None => (DEFAULT_TIMEOUT_SECS, 0u32),
        };
        let max_retries = match self.max_retries {
            Some(n) => n,
            None => DEFAULT_MAX_RETRIES,
        };
        Ok(
            ClientConfig {
                api_key: ApiKey::new(key),
                base_url,
                default_headers: self.default_headers,
                max_retries,
                timeout_secs,
                timeout_subsec_nanos,
            },
        )
    }
}

} // verus!
