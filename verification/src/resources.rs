//! The request-side logic of the resource handles: the path of a model
//! lookup, and the wire names of upload content types.
use vstd::prelude::*;
use vstd::utf8::{decode_utf8, encode_utf8, encode_utf8_decode_utf8};

use crate::auth::HeaderList;
use crate::retry::{is_too_many_requests, spec_decide, Idempotency, Outcome};
use crate::text::{chars_of, push_char, push_str, string_from_range};
use crate::types::uploads::{FileContentType, ImageContentType, UploadRequest};

verus! {

/// Whether a byte is kept as is in a path segment: ASCII letters, digits,
/// and `-_.~`.
pub open spec fn is_unreserved(b: u8) -> bool {
    ||| 0x41 <= b <= 0x5A
    ||| 0x61 <= b <= 0x7A
    ||| 0x30 <= b <= 0x39
    ||| b == 0x2D || b == 0x5F || b == 0x2E || b == 0x7E
}

/// The uppercase hexadecimal digit for `d < 16`.
pub open spec fn hex_digit(d: nat) -> char {
    if d < 10 {
        (('0' as u32) + d) as char
    } else {
        (('A' as u32) + (d - 10)) as char
    }
}

/// The encoding of one byte: itself when unreserved, else `%XX` with two
/// uppercase hexadecimal digits.
pub open spec fn encode_byte(b: u8) -> Seq<char> {
    if is_unreserved(b) {
        seq![b as char]
    } else {
        seq!['%', hex_digit((b / 16) as nat), hex_digit((b % 16) as nat)]
    }
}

/// The percent-encoding of a byte sequence.
pub open spec fn percent_encode(bytes: Seq<u8>) -> Seq<char>
    decreases bytes.len(),
{
    if bytes.len() == 0 {
        Seq::empty()
    } else {
        percent_encode(bytes.drop_last()) + encode_byte(bytes.last())
    }
}

/// The encoding of one character of a model id: `/` is kept, any other
/// character is percent-encoded byte by byte (its UTF-8 bytes).
pub open spec fn encode_path_char(c: char) -> Seq<char> {
    if c == '/' {
        seq!['/']
    } else {
        percent_encode(encode_utf8(seq![c]))
    }
}

/// The encoding of a model id for use in a URL path: each segment between
/// `/` separators percent-encoded, the separators kept.
pub open spec fn spec_encode_path(id: Seq<char>) -> Seq<char>
    decreases id.len(),
{
    if id.len() == 0 {
        Seq::empty()
    } else {
        spec_encode_path(id.drop_last()) + encode_path_char(id.last())
    }
}

proof fn lemma_percent_encode_concat(a: Seq<u8>, b: Seq<u8>)
    ensures
        percent_encode(a + b) == percent_encode(a) + percent_encode(b),
    decreases b.len(),
{
    if b.len() == 0 {
        assert(a + b =~= a);
        assert(percent_encode(a) + Seq::<char>::empty() =~= percent_encode(a));
    } else {
        lemma_percent_encode_concat(a, b.drop_last());
        assert((a + b).drop_last() =~= a + b.drop_last());
        assert(percent_encode(a) + percent_encode(b.drop_last()) + encode_byte(b.last())
            =~= percent_encode(a) + (percent_encode(b.drop_last()) + encode_byte(b.last())));
    }
}

pub(crate) proof fn lemma_encode_utf8_concat(a: Seq<char>, b: Seq<char>)
    ensures
        encode_utf8(a + b) == encode_utf8(a) + encode_utf8(b),
    decreases a.len(),
{
    if a.len() == 0 {
        assert(a + b =~= b);
        assert(Seq::<u8>::empty() + encode_utf8(b) =~= encode_utf8(b));
    } else {
        lemma_encode_utf8_concat(a.drop_first(), b);
        assert((a + b).drop_first() =~= a.drop_first() + b);
        assert((a + b)[0] == a[0]);
        let h = vstd::utf8::encode_scalar(a[0] as u32);
        assert(h + (encode_utf8(a.drop_first()) + encode_utf8(b)) =~= (h + encode_utf8(
            a.drop_first(),
        )) + encode_utf8(b));
    }
}

proof fn lemma_encode_path_concat(a: Seq<char>, b: Seq<char>)
    ensures
        spec_encode_path(a + b) == spec_encode_path(a) + spec_encode_path(b),
    decreases b.len(),
{
    if b.len() == 0 {
        assert(a + b =~= a);
        assert(spec_encode_path(a) + Seq::<char>::empty() =~= spec_encode_path(a));
    } else {
        lemma_encode_path_concat(a, b.drop_last());
        assert((a + b).drop_last() =~= a + b.drop_last());
        assert(spec_encode_path(a) + spec_encode_path(b.drop_last()) + encode_path_char(b.last())
            =~= spec_encode_path(a) + (spec_encode_path(b.drop_last()) + encode_path_char(
            b.last(),
        )));
    }
}

proof fn lemma_encode_slash()
    ensures
        spec_encode_path(seq!['/']) == seq!['/'],
{
    let s = seq!['/'];
    assert(s.last() == '/');
    assert(s.drop_last() =~= Seq::<char>::empty());
    assert(spec_encode_path(s.drop_last()) == Seq::<char>::empty());
    assert(encode_path_char(s.last()) == seq!['/']);
    assert(Seq::<char>::empty() + seq!['/'] =~= seq!['/']);
}

/// A segment without `/` encodes as its bytes do.
proof fn lemma_segment_encoding(seg: Seq<char>)
    requires
        forall|i: int| 0 <= i < seg.len() ==> seg[i] != '/',
    ensures
        spec_encode_path(seg) == percent_encode(encode_utf8(seg)),
    decreases seg.len(),
{
    if seg.len() > 0 {
        let p = seg.drop_last();
        lemma_segment_encoding(p);
        lemma_encode_utf8_concat(p, seq![seg.last()]);
        assert(p + seq![seg.last()] =~= seg);
        lemma_percent_encode_concat(encode_utf8(p), encode_utf8(seq![seg.last()]));
    }
}

/// The uppercase hexadecimal digit for `d < 16`.
fn hex_char(d: u8) -> (c: char)
    requires
        d < 16,
    ensures
        c == hex_digit(d as nat),
{
    if d < 10 {
        ((0x30u8 + d) as char)
    } else {
        ((0x41u8 + (d - 10)) as char)
    }
}

/// Percent-encodes one path segment byte by byte: ASCII letters, digits and
/// `-_.~` are kept, every other byte becomes `%XX`.
pub fn encode_segment(segment: &str) -> (r: String)
    ensures
        r@ == percent_encode(encode_utf8(segment@)),
{
    let bytes = segment.as_bytes();
    let mut out = String::new();
    let mut i: usize = 0;
    while i < bytes.len()
        invariant
            i <= bytes@.len(),
            bytes@ == encode_utf8(segment@),
            out@ == percent_encode(bytes@.take(i as int)),
        decreases bytes.len() - i,
    {
        let byte = bytes[i];
        assert(bytes@.take(i + 1).drop_last() =~= bytes@.take(i as int));
        assert(bytes@.take(i + 1).last() == byte);
        let ghost before = out@;
        if (0x41u8 <= byte && byte <= 0x5Au8) || (0x61u8 <= byte && byte <= 0x7Au8) || (0x30u8
            <= byte && byte <= 0x39u8) || byte == 0x2Du8 || byte == 0x5Fu8 || byte == 0x2Eu8
            || byte == 0x7Eu8 {
            push_char(&mut out, byte as char);
        } else {
            push_char(&mut out, '%');
            push_char(&mut out, hex_char(byte / 16));
            push_char(&mut out, hex_char(byte % 16));
        }
        assert(out@ =~= before + encode_byte(byte));
        i = i + 1;
    }
    assert(bytes@.take(bytes@.len() as int) =~= bytes@);
    out
}

/// Percent-encodes each segment of an id while keeping `/` separators intact.
pub fn encode_path(id: &str) -> (r: String)
    ensures
        r@ == spec_encode_path(id@),
{
    let v = chars_of(id);
    let mut out = String::new();
    let mut start: usize = 0;
    let mut i: usize = 0;
    assert(v@.take(0) =~= Seq::<char>::empty());
    while i < v.len()
        invariant
            start <= i <= v.len(),
            v@ == id@,
            out@ == spec_encode_path(v@.take(start as int)),
            forall|k: int| start <= k < i ==> v@[k] != '/',
        decreases v.len() - i,
    {
        if v[i] == '/' {
            let seg = string_from_range(&v, start, i);
            let encoded = encode_segment(seg.as_str());
            proof {
                let s = v@.subrange(start as int, i as int);
                lemma_segment_encoding(s);
                assert(v@.take(i + 1) =~= v@.take(start as int) + s + seq!['/']);
                lemma_encode_path_concat(v@.take(start as int), s);
                lemma_encode_path_concat(v@.take(start as int) + s, seq!['/']);
                lemma_encode_slash();
            }
            push_str(&mut out, encoded.as_str());
            push_char(&mut out, '/');
            start = i + 1;
        }
        i = i + 1;
    }
    let seg = string_from_range(&v, start, v.len());
    let encoded = encode_segment(seg.as_str());
    proof {
        let s = v@.subrange(start as int, v@.len() as int);
        lemma_segment_encoding(s);
        assert(v@ =~= v@.take(start as int) + s);
        lemma_encode_path_concat(v@.take(start as int), s);
    }
    push_str(&mut out, encoded.as_str());
    out
}

/// Law: `/` separators survive the encoding, and each character other than
/// `/` is encoded on its own, so the encoding of an id is the encodings of its
/// pieces, joined: `encode(a + b) == encode(a) + encode(b)`, and
/// `encode("/") == "/"`.
pub proof fn law_encode_path_compositional(a: Seq<char>, b: Seq<char>)
    ensures
        spec_encode_path(a + b) == spec_encode_path(a) + spec_encode_path(b),
        spec_encode_path(seq!['/']) == seq!['/'],
{
    lemma_encode_path_concat(a, b);
    lemma_encode_slash();
}

/// Law: a segment without `/` encodes exactly as its UTF-8 bytes are
/// percent-encoded, so [`encode_path`] and [`encode_segment`] agree on it.
pub proof fn law_segment_matches_path(seg: Seq<char>)
    requires
        forall|i: int| 0 <= i < seg.len() ==> seg[i] != '/',
    ensures
        spec_encode_path(seg) == percent_encode(encode_utf8(seg)),
{
    lemma_segment_encoding(seg);
}

/// The wire name of an image content type.
pub open spec fn image_content_type_name(t: ImageContentType) -> Seq<char> {
    match t {
        ImageContentType::Png => seq!['i', 'm', 'a', 'g', 'e', '/', 'p', 'n', 'g'],
        ImageContentType::Jpeg => seq!['i', 'm', 'a', 'g', 'e', '/', 'j', 'p', 'e', 'g'],
        ImageContentType::Gif => seq!['i', 'm', 'a', 'g', 'e', '/', 'g', 'i', 'f'],
        ImageContentType::Webp => seq!['i', 'm', 'a', 'g', 'e', '/', 'w', 'e', 'b', 'p'],
    }
}

/// The wire name of a file content type.
pub open spec fn file_content_type_name(t: FileContentType) -> Seq<char> {
    match t {
        FileContentType::Pdf => seq![
            'a',
            'p',
            'p',
            'l',
            'i',
            'c',
            'a',
            't',
            'i',
            'o',
            'n',
            '/',
            'p',
            'd',
            'f',
        ],
        FileContentType::Text => seq!['t', 'e', 'x', 't', '/', 'p', 'l', 'a', 'i', 'n'],
    }
}

/// Renders an image content type to its wire string.
pub fn image_content_type_str(t: ImageContentType) -> (r: String)
    ensures
        r@ == image_content_type_name(t),
{
    let mut s = String::new();
    match t {
        ImageContentType::Png => {
            push_str(&mut s, "image/png");
            proof {
                reveal_strlit("image/png");
            }
        },
        ImageContentType::Jpeg => {
            push_str(&mut s, "image/jpeg");
            proof {
                reveal_strlit("image/jpeg");
            }
        },
        ImageContentType::Gif => {
            push_str(&mut s, "image/gif");
            proof {
                reveal_strlit("image/gif");
            }
        },
        ImageContentType::Webp => {
            push_str(&mut s, "image/webp");
            proof {
                reveal_strlit("image/webp");
            }
        },
    }
    assert(s@ =~= image_content_type_name(t));
    s
}

/// Renders a file content type to its wire string.
pub fn file_content_type_str(t: FileContentType) -> (r: String)
    ensures
        r@ == file_content_type_name(t),
{
    let mut s = String::new();
    match t {
        FileContentType::Pdf => {
            push_str(&mut s, "application/pdf");
            proof {
                reveal_strlit("application/pdf");
            }
        },
        FileContentType::Text => {
            push_str(&mut s, "text/plain");
            proof {
                reveal_strlit("text/plain");
            }
        },
    }
    assert(s@ =~= file_content_type_name(t));
    s
}

/// `v1/models/`
pub open spec fn models_prefix() -> Seq<char> {
    seq!['v', '1', '/', 'm', 'o', 'd', 'e', 'l', 's', '/']
}

/// The request path of a model lookup: `v1/models/` and the encoded id.
pub fn model_path(id: &str) -> (r: String)
    ensures
        r@ == models_prefix() + spec_encode_path(id@),
{
    let mut path = String::new();
    push_str(&mut path, "v1/models/");
    proof {
        reveal_strlit("v1/models/");
    }
    let encoded = encode_path(id);
    push_str(&mut path, encoded.as_str());
    path
}

/// The body of an image upload: the payload and the wire name of its
/// content type.
pub fn image_upload_request(base64: String, content_type: ImageContentType) -> (r: UploadRequest)
    ensures
        r.base64@ == base64@,
        r.content_type@ == image_content_type_name(content_type),
{
    UploadRequest { base64, content_type: image_content_type_str(content_type) }
}

/// The body of a file upload: the payload and the wire name of its content
/// type.
pub fn file_upload_request(base64: String, content_type: FileContentType) -> (r: UploadRequest)
    ensures
        r.base64@ == base64@,
        r.content_type@ == file_content_type_name(content_type),
{
    UploadRequest { base64, content_type: file_content_type_str(content_type) }
}

/// The HTTP method of an operation.
#[derive(Debug, Clone, Copy, PartialEq, Eq, Structural)]
pub enum HttpMethod {
    /// `GET`
    Get,
    /// `POST`
    Post,
}

/// A call of the API, as the resource handles make it.
#[derive(Debug)]
pub enum Operation {
    /// `GET v1/ping-key`: verify the API key.
    PingKey,
    /// `GET v1/models`: the model catalog.
    ListModels,
    /// `GET v1/models/{id}`: one model's detail card.
    RetrieveModel(String),
    /// `POST v1/chat/completions`, answered with one JSON document.
    ChatCompletion,
    /// `POST v1/chat/completions`, answered with a server-sent event stream.
    ChatCompletionStream,
    /// `POST v1/images/generations`.
    GenerateImage,
    /// `POST v1/audio/transcriptions`.
    Transcribe,
    /// `POST v1/audio/speech`, answered with MP3 bytes.
    Speech,
    /// `POST v1/uploads/images`.
    UploadImage,
    /// `POST v1/uploads/files`.
    UploadFile,
}

/// The method of an operation: the catalog and the key check are read with
/// `GET`, everything else is a `POST`.
pub open spec fn operation_method(op: Operation) -> HttpMethod {
    match op {
        Operation::PingKey | Operation::ListModels | Operation::RetrieveModel(_) => HttpMethod::Get,
        _ => HttpMethod::Post,
    }
}

/// Whether an operation may be replayed: reads may, calls with billable
/// side effects may not.
pub open spec fn operation_idempotency(op: Operation) -> Idempotency {
    match op {
        Operation::PingKey | Operation::ListModels | Operation::RetrieveModel(_) => {
            Idempotency::Idempotent
        },
        _ => Idempotency::SideEffect,
    }
}

/// The request path of an operation, relative to the base URL.
pub open spec fn operation_path(op: Operation) -> Seq<char> {
    match op {
        Operation::PingKey => "v1/ping-key"@,
        Operation::ListModels => "v1/models"@,
        Operation::RetrieveModel(id) => models_prefix() + spec_encode_path(id@),
        Operation::ChatCompletion | Operation::ChatCompletionStream => "v1/chat/completions"@,
        Operation::GenerateImage => "v1/images/generations"@,
        Operation::Transcribe => "v1/audio/transcriptions"@,
        Operation::Speech => "v1/audio/speech"@,
        Operation::UploadImage => "v1/uploads/images"@,
        Operation::UploadFile => "v1/uploads/files"@,
    }
}

/// The `Accept` header an operation sends, for the operations that answer
/// with something other than JSON.
pub open spec fn operation_accept(op: Operation) -> Option<Seq<char>> {
    match op {
        Operation::ChatCompletionStream => Some("text/event-stream"@),
        Operation::Speech => Some("audio/mpeg"@),
        _ => None,
    }
}

/// `accept`
pub open spec fn accept_name() -> Seq<char> {
    seq!['a', 'c', 'c', 'e', 'p', 't']
}

impl Operation {
    /// The HTTP method.
    pub fn method(&self) -> (r: HttpMethod)
        ensures
            r == operation_method(*self),
    {
        match self {
            Operation::PingKey | Operation::ListModels | Operation::RetrieveModel(_) => {
                HttpMethod::Get
            },
            _ => HttpMethod::Post,
        }
    }

    /// Whether the call may be replayed after a `5xx` or a transport failure.
    pub fn idempotency(&self) -> (r: Idempotency)
        ensures
            r == operation_idempotency(*self),
    {
        match self {
            Operation::PingKey | Operation::ListModels | Operation::RetrieveModel(_) => {
                Idempotency::Idempotent
            },
            _ => Idempotency::SideEffect,
        }
    }

    /// The request path, relative to the base URL.
    pub fn path(&self) -> (r: String)
        ensures
            r@ == operation_path(*self),
    {
        let mut p = String::new();
        match self {
            Operation::PingKey => push_str(&mut p, "v1/ping-key"),
            Operation::ListModels => push_str(&mut p, "v1/models"),
            Operation::RetrieveModel(id) => {
                let full = model_path(id.as_str());
                push_str(&mut p, full.as_str());
            },
            Operation::ChatCompletion | Operation::ChatCompletionStream => push_str(
                &mut p,
                "v1/chat/completions",
            ),
            Operation::GenerateImage => push_str(&mut p, "v1/images/generations"),
            Operation::Transcribe => push_str(&mut p, "v1/audio/transcriptions"),
            Operation::Speech => push_str(&mut p, "v1/audio/speech"),
            Operation::UploadImage => push_str(&mut p, "v1/uploads/images"),
            Operation::UploadFile => push_str(&mut p, "v1/uploads/files"),
        }
        assert(p@ =~= operation_path(*self));
        p
    }

    /// The per-call headers: the `Accept` header of the operations that answer
    /// with a stream, and nothing else.
    pub fn per_call_headers(&self) -> (r: HeaderList)
        ensures
            forall|n: Seq<char>| #[trigger]
                r.lookup(n) == if n == accept_name() {
                    match operation_accept(*self) {
                        Some(a) => Some((a, false)),
                        None => None,
                    }
                } else {
                    None
                },
    {
        let mut headers = HeaderList::new();
        let accept = match self {
            Operation::ChatCompletionStream => Some("text/event-stream"),
            Operation::Speech => Some("audio/mpeg"),
            _ => None,
        };
        proof {
            reveal_strlit("accept");
        }
        assert("accept"@ =~= accept_name());
        if let Some(a) = accept {
            let mut name = String::new();
            push_str(&mut name, "accept");
            let mut value = String::new();
            push_str(&mut value, a);
            headers.insert(name, value, false);
        }
        headers
    }
}

/// Law: the calls with billable side effects (every `POST`: chat
/// completions, streamed or not, image generation, transcription, speech and
/// uploads) are never replayed on a `5xx` or after a transport failure; the
/// only retry they get is after a `429`, which the gateway answers before it
/// executes anything. The reads (`GET`) are the idempotent calls.
pub proof fn law_posts_never_replayed(
    op: Operation,
    outcome: Outcome,
    attempt: u32,
    max_attempts: nat,
)
    ensures
        operation_method(op) == HttpMethod::Post <==> operation_idempotency(op)
            == Idempotency::SideEffect,
        operation_method(op) == HttpMethod::Post && spec_decide(
            outcome,
            operation_idempotency(op),
            attempt,
            max_attempts,
        ) is Retry ==> (outcome matches Outcome::Response { status, .. } && is_too_many_requests(
            status,
        )),
{
}

/// The value of an uppercase hexadecimal digit.
pub open spec fn hex_value(c: char) -> nat {
    if '0' <= c <= '9' {
        ((c as u32) - ('0' as u32)) as nat
    } else {
        ((c as u32) - ('A' as u32) + 10) as nat
    }
}

/// Percent-decoding, read from the front: `%XX` is the byte with the
/// hexadecimal digits `XX`, any other character the byte of its code.
pub open spec fn percent_decode(s: Seq<char>) -> Seq<u8>
    decreases s.len(),
{
    if s.len() == 0 {
        Seq::empty()
    } else if s[0] == '%' && s.len() >= 3 {
        seq![(hex_value(s[1]) * 16 + hex_value(s[2])) as u8] + percent_decode(s.skip(3))
    } else {
        seq![(s[0] as u32) as u8] + percent_decode(s.skip(1))
    }
}

proof fn lemma_hex_roundtrip(d: nat)
    requires
        d < 16,
    ensures
        hex_value(hex_digit(d)) == d,
        '0' <= hex_digit(d) <= '9' || 'A' <= hex_digit(d) <= 'F',
{
}

proof fn lemma_decode_byte(b: u8, rest: Seq<char>)
    ensures
        percent_decode(encode_byte(b) + rest) == seq![b] + percent_decode(rest),
{
    let e = encode_byte(b) + rest;
    if is_unreserved(b) {
        assert(e[0] == b as char);
        assert(e.skip(1) =~= rest);
    } else {
        lemma_hex_roundtrip((b / 16) as nat);
        lemma_hex_roundtrip((b % 16) as nat);
        assert(e[0] == '%' && e[1] == hex_digit((b / 16) as nat) && e[2] == hex_digit(
            (b % 16) as nat,
        ));
        assert(e.skip(3) =~= rest);
        assert((b / 16) * 16 + b % 16 == b);
    }
}

proof fn lemma_percent_encode_front(bytes: Seq<u8>)
    requires
        bytes.len() > 0,
    ensures
        percent_encode(bytes) == encode_byte(bytes[0]) + percent_encode(bytes.drop_first()),
{
    let one = seq![bytes[0]];
    assert(one + bytes.drop_first() =~= bytes);
    lemma_percent_encode_concat(one, bytes.drop_first());
    assert(one.drop_last() =~= Seq::<u8>::empty());
    assert(one.last() == bytes[0]);
    assert(percent_encode(one.drop_last()) == Seq::<char>::empty());
    assert(percent_encode(one) == percent_encode(one.drop_last()) + encode_byte(one.last()));
    assert(Seq::<char>::empty() + encode_byte(bytes[0]) =~= encode_byte(bytes[0]));
}

proof fn lemma_decode_encode(bytes: Seq<u8>)
    ensures
        percent_decode(percent_encode(bytes)) == bytes,
    decreases bytes.len(),
{
    if bytes.len() > 0 {
        lemma_percent_encode_front(bytes);
        lemma_decode_byte(bytes[0], percent_encode(bytes.drop_first()));
        lemma_decode_encode(bytes.drop_first());
        assert(seq![bytes[0]] + bytes.drop_first() =~= bytes);
    }
}

/// Whether `c` is an ASCII character other than `/`.
pub open spec fn is_ascii_not_slash(c: char) -> bool {
    (c as u32) < 128 && c != '/'
}

proof fn lemma_encode_ascii(bytes: Seq<u8>)
    ensures
        forall|i: int|
            0 <= i < percent_encode(bytes).len() ==> is_ascii_not_slash(
                #[trigger] percent_encode(bytes)[i],
            ),
    decreases bytes.len(),
{
    if bytes.len() > 0 {
        let b = bytes.last();
        lemma_encode_ascii(bytes.drop_last());
        lemma_hex_roundtrip((b / 16) as nat);
        lemma_hex_roundtrip((b % 16) as nat);
        let p = percent_encode(bytes.drop_last());
        let e = encode_byte(b);
        assert forall|j: int| 0 <= j < e.len() implies is_ascii_not_slash(#[trigger] e[j]) by {}
        assert forall|i: int| 0 <= i < (p + e).len() implies is_ascii_not_slash(
            #[trigger] (p + e)[i],
        ) by {
            if i < p.len() {
                assert((p + e)[i] == p[i]);
            } else {
                assert((p + e)[i] == e[i - p.len()]);
            }
        }
    }
}

/// Law: the encoding of a path segment is ASCII text without `/`, and
/// percent-decoding it gives back the segment's UTF-8 bytes, and so the
/// segment; hence two segments with the same encoding are the same segment.
pub proof fn law_segment_encoding_reversible(a: Seq<char>, b: Seq<char>)
    ensures
        forall|i: int|
            0 <= i < percent_encode(encode_utf8(a)).len() ==> is_ascii_not_slash(
                #[trigger] percent_encode(encode_utf8(a))[i],
            ),
        percent_decode(percent_encode(encode_utf8(a))) == encode_utf8(a),
        decode_utf8(percent_decode(percent_encode(encode_utf8(a)))) == a,
        percent_encode(encode_utf8(a)) == percent_encode(encode_utf8(b)) ==> a == b,
{
    lemma_encode_ascii(encode_utf8(a));
    lemma_decode_encode(encode_utf8(a));
    lemma_decode_encode(encode_utf8(b));
    encode_utf8_decode_utf8(a);
    encode_utf8_decode_utf8(b);
}

} // verus!
