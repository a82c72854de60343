//! Server-Sent Events parsing: splitting the body into lines, picking out
//! `data:` payloads, and the decision core of the chunk stream.
use vstd::prelude::*;

use vstd::string::StrSliceExecFns;

use std::collections::VecDeque;
use vstd::utf8::{
    decode_utf8, decode_utf8_encode_utf8, encode_utf8_decode_utf8, encode_utf8_valid_utf8,
    valid_utf8,
};

use crate::error::{error_fields, key_error, opt_json_view, opt_view, ApiError, SkailarError};
use crate::json::{json_member, json_parse, parse_json, JsonModel, JsonValue};
use crate::text::{chars_of, push_char, push_str, trim_end_space_tab, trim_end_space_tab_len};

verus! {

/// The state of a [`LineBuffer`]: the characters of the unfinished line, and
/// whether the last character seen was a `\r`.
pub type LineState = (Seq<char>, bool);

/// One character fed to the line splitter: the next state, and the line it
/// completes, if any.
///
/// `\r` ends a line; a `\n` ends a line unless it directly follows a `\r`
/// (then the pair `\r\n` is a single terminator); any other character extends
/// the current line.
pub open spec fn line_step(st: LineState, c: char) -> (LineState, Option<Seq<char>>) {
    if c == '\r' {
        ((Seq::empty(), true), Some(st.0))
    } else if c == '\n' {
        if st.1 {
            ((st.0, false), None)
        } else {
            ((Seq::empty(), false), Some(st.0))
        }
    } else {
        ((st.0.push(c), false), None)
    }
}

/// Feeds `text` to the line splitter starting in `st`: the final state and the
/// lines completed, in order.
pub open spec fn line_feed(st: LineState, text: Seq<char>) -> (LineState, Seq<Seq<char>>)
    decreases text.len(),
{
    if text.len() == 0 {
        (st, Seq::empty())
    } else {
        let (mid, lines) = line_feed(st, text.drop_last());
        let (next, emitted) = line_step(mid, text.last());
        match emitted {
            Some(l) => (next, lines.push(l)),
            None => (next, lines),
        }
    }
}

/// The views of a vector of strings.
pub open spec fn string_views(v: Seq<String>) -> Seq<Seq<char>> {
    v.map_values(|s: String| s@)
}

/// Splits a byte stream into SSE lines, tolerating `\n`, `\r\n`, and `\r`.
///
/// A trailing lone `\r` is held back across [`push`](Self::push) calls so a
/// `\r\n` straddling a chunk boundary is treated as one terminator rather than
/// an empty line.
pub struct LineBuffer {
    buf: String,
    pending_cr: bool,
}

impl View for LineBuffer {
    type V = LineState;

    closed spec fn view(&self) -> LineState {
        (self.buf@, self.pending_cr)
    }
}

impl LineBuffer {
    /// An empty buffer.
    pub fn new() -> (r: LineBuffer)
        ensures
            r@ == (Seq::<char>::empty(), false),
    {
        LineBuffer { buf: String::new(), pending_cr: false }
    }

    /// Feeds `text`, appending every line it completes to `out`.
    pub fn push(&mut self, text: &str, out: &mut Vec<String>)
        ensures
            final(self)@ == line_feed(old(self)@, text@).0,
            string_views(final(out)@) == string_views(old(out)@) + line_feed(old(self)@, text@).1,
    {
        let chars = chars_of(text);
        let ghost st0 = self@;
        let ghost out0 = string_views(out@);
        let mut i: usize = 0;
        while i < chars.len()
            invariant
                i <= chars@.len(),
                chars@ == text@,
                self@ == line_feed(st0, chars@.take(i as int)).0,
                string_views(out@) == out0 + line_feed(st0, chars@.take(i as int)).1,
            decreases chars.len() - i,
        {
            let ch = chars[i];
            let ghost before = self@;
            let ghost out_before = string_views(out@);
            assert(chars@.take(i + 1).drop_last() =~= chars@.take(i as int));
            if ch == '\r' {
                self.flush_line(out);
                self.pending_cr = true;
            } else if ch == '\n' {
                if self.pending_cr {
                    // Part of a `\r\n` pair; the line was already flushed.
                    self.pending_cr = false;
                } else {
                    self.flush_line(out);
                }
            } else {
                self.pending_cr = false;
                push_char(&mut self.buf, ch);
            }
            assert(string_views(out@) =~= out0 + line_feed(st0, chars@.take(i + 1)).1);
            i = i + 1;
        }
        assert(chars@.take(chars@.len() as int) =~= chars@);
    }

    /// Moves the unfinished line to `out` and starts a new one.
    fn flush_line(&mut self, out: &mut Vec<String>)
        ensures
            final(self)@ == (Seq::<char>::empty(), old(self)@.1),
            string_views(final(out)@) == string_views(old(out)@).push(old(self)@.0),
    {
        let mut line = String::new();
        std::mem::swap(&mut line, &mut self.buf);
        out.push(line);
        assert(string_views(out@) =~= string_views(old(out)@).push(old(self)@.0));
    }

    /// Takes the unfinished line, if it holds any characters.
    pub fn take_remainder(&mut self) -> (r: Option<String>)
        ensures
            old(self)@.0.len() == 0 ==> r is None && final(self)@ == old(self)@,
            old(self)@.0.len() > 0 ==> (r matches Some(l) && l@ == old(self)@.0),
            old(self)@.0.len() > 0 ==> final(self)@ == (Seq::<char>::empty(), old(self)@.1),
    {
        if self.buf.as_str().is_empty() {
            None
        } else {
            let mut line = String::new();
            std::mem::swap(&mut line, &mut self.buf);
            Some(line)
        }
    }
}

/// The characters `data:` that open an SSE data line.
pub open spec fn data_prefix() -> Seq<char> {
    seq!['d', 'a', 't', 'a', ':']
}

/// The payload of an SSE line: `None` for blank lines, `:` comments and
/// fields other than `data`; otherwise what follows `data:` (and one optional
/// space), once trailing spaces and tabs are dropped from the line.
pub open spec fn spec_data_payload(line: Seq<char>) -> Option<Seq<char>> {
    let t = trim_end_space_tab(line);
    if t.len() == 0 || t[0] == ':' {
        None
    } else if t.len() >= 5 && t.take(5) == data_prefix() {
        let rest = t.skip(5);
        if rest.len() > 0 && rest[0] == ' ' {
            Some(rest.skip(1))
        } else {
            Some(rest)
        }
    } else {
        None
    }
}

/// Extracts the payload of a `data:` line, or `None` for blanks, comments, and
/// other SSE fields.
pub fn data_payload(line: &str) -> (r: Option<&str>)
    ensures
        match r {
            Some(p) => spec_data_payload(line@) == Some(p@),
            None => spec_data_payload(line@) is None,
        },
{
    let v = chars_of(line);
    let j = trim_end_space_tab_len(&v);
    let ghost t = v@.subrange(0, j as int);
    if j == 0 || v[0] == ':' {
        return None;
    }
    if j >= 5 && v[0] == 'd' && v[1] == 'a' && v[2] == 't' && v[3] == 'a' && v[4] == ':' {
        assert(t.take(5) =~= data_prefix());
        if j > 5 && v[5] == ' ' {
            assert(t.skip(5).skip(1) =~= v@.subrange(6, j as int));
            Some(line.substring_char(6, j))
        } else {
            assert(t.skip(5) =~= v@.subrange(5, j as int));
            Some(line.substring_char(5, j))
        }
    } else {
        assert(j >= 5 ==> t.take(5)[0] == v[0] && t.take(5)[1] == v[1] && t.take(5)[2] == v[2]
            && t.take(5)[3] == v[3] && t.take(5)[4] == v[4]);
        None
    }
}

/// The payload that ends a stream.
pub open spec fn done_sentinel() -> Seq<char> {
    seq!['[', 'D', 'O', 'N', 'E', ']']
}

/// `streaming error`, the message of an in-band error frame that carries none.
pub open spec fn default_stream_error_message() -> Seq<char> {
    seq!['s', 't', 'r', 'e', 'a', 'm', 'i', 'n', 'g', ' ', 'e', 'r', 'r', 'o', 'r']
}

/// What a single SSE data line decoded to.
#[derive(Debug)]
pub enum Event {
    /// A chunk, still as a JSON document.
    Chunk(JsonValue),
    /// The `[DONE]` sentinel.
    Done,
}

/// What a payload is, as the decoder classifies it.
pub enum PayloadKind {
    /// The `[DONE]` sentinel.
    Done,
    /// Text that is not JSON.
    Malformed,
    /// A JSON document with an `error` member: an in-band error frame.
    ErrorFrame(JsonModel),
    /// Any other JSON document: a chunk.
    Chunk(JsonModel),
}

/// Classifies a payload.
pub open spec fn payload_kind(payload: Seq<char>) -> PayloadKind {
    if payload == done_sentinel() {
        PayloadKind::Done
    } else {
        match json_parse(payload) {
            None => PayloadKind::Malformed,
            Some(doc) => if json_member(doc, key_error()) is Some {
                PayloadKind::ErrorFrame(doc)
            } else {
                PayloadKind::Chunk(doc)
            },
        }
    }
}

/// Whether `e` is the API error that an in-band error frame `doc` becomes:
/// status 500, code and message read from the frame (message `streaming
/// error` when it has none), the frame kept as the raw body.
pub open spec fn is_frame_error(e: ApiError, doc: JsonModel) -> bool {
    &&& e.status == 500
    &&& opt_view(e.code) == error_fields(doc).0
    &&& e.message@ == match error_fields(doc).1 {
        Some(m) => m,
        None => default_stream_error_message(),
    }
    &&& e.request_id is None
    &&& e.retry_after is None
    &&& opt_json_view(e.raw) == Some(doc)
}

/// Whether `r` is what decoding `payload` gives.
pub open spec fn decodes_to(payload: Seq<char>, r: Result<Option<Event>, SkailarError>) -> bool {
    match payload_kind(payload) {
        PayloadKind::Done => r matches Ok(Some(Event::Done)),
        PayloadKind::Malformed => r matches Err(SkailarError::MalformedStreamEvent(p)) && p@
            == payload,
        PayloadKind::ErrorFrame(doc) => r matches Err(SkailarError::Api(e)) && is_frame_error(
            *e,
            doc,
        ),
        PayloadKind::Chunk(doc) => r matches Ok(Some(Event::Chunk(v))) && v@ == doc,
    }
}

/// Decodes one `data:` payload: the `[DONE]` sentinel, a chunk document, or
/// an in-band error frame (surfaced as an API error rather than a chunk).
pub fn decode_event(payload: &str) -> (r: Result<Option<Event>, SkailarError>)
    ensures
        decodes_to(payload@, r),
{
    proof {
        reveal_strlit("[DONE]");
        reveal_strlit("error");
    }
    assert("[DONE]"@ =~= done_sentinel());
    assert("error"@ =~= key_error());
    if crate::json::str_eq(payload, "[DONE]") {
        return Ok(Some(Event::Done));
    }
    let value = match parse_json(payload) {
        Some(v) => v,
        None => {
            let mut p = String::new();
            push_str(&mut p, payload);
            return Err(SkailarError::MalformedStreamEvent(p));
        },
    };
    // An in-band error frame: surface it as an API error rather than a chunk.
    if value.has_member("error") {
        let (code, message) = crate::error::parse_error_fields(&value);
        let message = match message {
            Some(m) => m,
            None => {
                let mut m = String::new();
                push_str(&mut m, "streaming error");
                proof {
                    reveal_strlit("streaming error");
                }
                assert(m@ =~= default_stream_error_message());
                m
            },
        };
        return Err(
            SkailarError::api(
                ApiError {
                    status: 500,
                    code,
                    message,
                    request_id: None,
                    raw: Some(value),
                    retry_after: None,
                },
            ),
        );
    }
    Ok(Some(Event::Chunk(value)))
}

/// `String::from_utf8_lossy`: the bytes decoded as UTF-8, each invalid
/// sequence replaced by U+FFFD.
pub uninterp spec fn utf8_lossy(bytes: Seq<u8>) -> Seq<char>;

/// `String::from_utf8_lossy(bytes).into_owned()`. The contract claims that the
/// result is what `utf8_lossy` names for the bytes, and, as std documents,
/// that valid UTF-8 is decoded unchanged.
#[verifier::external_body]
fn decode_utf8_lossy(bytes: &[u8]) -> (r: String)
    ensures
        r@ == utf8_lossy(bytes@),
        valid_utf8(bytes@) ==> r@ == decode_utf8(bytes@),
{
    String::from_utf8_lossy(bytes).into_owned()
}

/// The payloads of `lines`, in order, skipping lines that carry none.
pub open spec fn payloads_of(lines: Seq<Seq<char>>) -> Seq<Seq<char>>
    decreases lines.len(),
{
    if lines.len() == 0 {
        Seq::empty()
    } else {
        match spec_data_payload(lines.last()) {
            Some(p) => payloads_of(lines.drop_last()).push(p),
            None => payloads_of(lines.drop_last()),
        }
    }
}

/// The state of a [`StreamCore`].
pub struct StreamModel {
    /// The line splitter's state.
    pub lines: LineState,
    /// Payloads waiting to be decoded, first in front.
    pub queue: Seq<Seq<char>>,
    /// Timeout reported with mid-stream transport failures.
    pub timeout_secs: u64,
    /// Whether the stream has ended.
    pub done: bool,
    /// Whether the response body is still being read.
    pub open: bool,
}

/// A ready chunk: its payload text and its JSON document.
pub type ChunkPayload = (String, JsonValue);

/// What the stream hands out next, when it has something to hand out.
pub type StreamItem = Option<Result<ChunkPayload, SkailarError>>;

/// Whether `r` is the item for the payload `p`, given how it decodes.
pub open spec fn item_for(p: Seq<char>, r: Result<ChunkPayload, SkailarError>) -> bool {
    match payload_kind(p) {
        PayloadKind::Chunk(doc) => r matches Ok(c) && c.0@ == p && c.1@ == doc,
        PayloadKind::Malformed => r matches Err(SkailarError::MalformedStreamEvent(m)) && m@ == p,
        PayloadKind::ErrorFrame(doc) => r matches Err(SkailarError::Api(e)) && is_frame_error(
            *e,
            doc,
        ),
        PayloadKind::Done => false,
    }
}

/// The decision core of a chat-completion stream.
///
/// It holds the line splitter, the queue of payloads not yet decoded, and the
/// stream's flags; the code that owns the response body feeds it bytes and
/// asks it what to hand out.
pub struct StreamCore {
    lines: LineBuffer,
    queued: VecDeque<String>,
    timeout_secs: u64,
    done: bool,
    open: bool,
}

impl View for StreamCore {
    type V = StreamModel;

    closed spec fn view(&self) -> StreamModel {
        StreamModel {
            lines: self.lines@,
            queue: string_views(self.queued@),
            timeout_secs: self.timeout_secs,
            done: self.done,
            open: self.open,
        }
    }
}

/// What the stream does on a poll.
pub enum PollStep {
    /// Hand this out: an item, or the end of the stream.
    Emit(StreamItem),
    /// Read more of the response body first.
    NeedBytes,
}

impl StreamCore {
    /// A stream over a response body that is still open; `timeout_secs` is
    /// the per-attempt timeout reported with a mid-stream timeout.
    pub fn new(timeout_secs: u64) -> (r: StreamCore)
        ensures
            r@.lines == (Seq::<char>::empty(), false),
            r@.queue == Seq::<Seq<char>>::empty(),
            r@.timeout_secs == timeout_secs,
            !r@.done,
            r@.open,
    {
        let r = StreamCore {
            lines: LineBuffer::new(),
            queued: VecDeque::new(),
            timeout_secs,
            done: false,
            open: true,
        };
        assert(string_views(r.queued@) =~= Seq::<Seq<char>>::empty());
        r
    }

    /// Ends the stream: the body is no longer read, and what is still queued
    /// is dropped.
    fn finish(&mut self)
        ensures
            final(self)@.done,
            !final(self)@.open,
            final(self)@.queue == Seq::<Seq<char>>::empty(),
            final(self)@.lines == old(self)@.lines,
            final(self)@.timeout_secs == old(self)@.timeout_secs,
    {
        self.done = true;
        self.open = false;
        self.queued.clear();
        assert(string_views(self.queued@) =~= Seq::<Seq<char>>::empty());
    }

    /// Decodes the payload at the front of the queue.
    ///
    /// A chunk is handed out; `[DONE]` ends the stream and hands out nothing;
    /// an error is handed out and ends the stream. Ending the stream drops
    /// whatever is queued behind.
    pub fn next_ready(&mut self) -> (r: Option<Result<ChunkPayload, SkailarError>>)
        ensures
            ({
                let (o, f) = (old(self)@, final(self)@);
                &&& o.queue.len() == 0 ==> r is None && f == o
                &&& o.queue.len() > 0 ==> {
                    let p = o.queue[0];
                    &&& f.lines == o.lines
                    &&& f.timeout_secs == o.timeout_secs
                    &&& match payload_kind(p) {
                        PayloadKind::Done => r is None && f.done && !f.open && f.queue
                            == Seq::<Seq<char>>::empty(),
                        PayloadKind::Chunk(_) => (r matches Some(x) && item_for(p, x)) && f.queue
                            == o.queue.drop_first() && f.done == o.done && f.open == o.open,
                        _ => (r matches Some(x) && item_for(p, x)) && f.done && !f.open && f.queue
                            == Seq::<Seq<char>>::empty(),
                    }
                }
            }),
    {
        let ghost q0 = string_views(self.queued@);
        match self.queued.pop_front() {
            None => None,
            Some(payload) => {
                assert(string_views(self.queued@) =~= q0.drop_first());
                match decode_event(payload.as_str()) {
                    Ok(Some(Event::Chunk(chunk))) => Some(Ok((payload, chunk))),
                    Ok(Some(Event::Done)) => {
                        self.finish();
                        None
                    },
                    Ok(None) => None,
                    Err(err) => {
                        self.finish();
                        Some(Err(err))
                    },
                }
            },
        }
    }

    /// One step of a poll: once the stream has ended, hand out the end and
    /// change nothing; otherwise hand out what is ready, end the stream when
    /// `[DONE]` comes or the body is closed and drained, or ask for more of
    /// the body.
    pub fn poll_step(&mut self) -> (r: PollStep)
        ensures
            ({
                let (o, f) = (old(self)@, final(self)@);
                &&& o.done ==> (r matches PollStep::Emit(None)) && f == o
                &&& !o.done && o.queue.len() == 0 ==> match r {
                    PollStep::NeedBytes => o.open && f == o,
                    PollStep::Emit(item) => item is None && !o.open && f.done && !f.open
                        && f.queue == o.queue && f.lines == o.lines && f.timeout_secs
                        == o.timeout_secs,
                }
                &&& !o.done && o.queue.len() > 0 ==> {
                    let p = o.queue[0];
                    &&& f.lines == o.lines
                    &&& f.timeout_secs == o.timeout_secs
                    &&& match payload_kind(p) {
                        PayloadKind::Done => (r matches PollStep::Emit(None)) && f.done && !f.open
                            && f.queue == Seq::<Seq<char>>::empty(),
                        PayloadKind::Chunk(_) => (r matches PollStep::Emit(Some(x)) && item_for(
                            p,
                            x,
                        )) && f.queue == o.queue.drop_first() && f.done == o.done && f.open
                            == o.open,
                        _ => (r matches PollStep::Emit(Some(x)) && item_for(p, x)) && f.done
                            && !f.open && f.queue == Seq::<Seq<char>>::empty(),
                    }
                }
            }),
    {
        if self.done {
            return PollStep::Emit(None);
        }
        if let Some(ready) = self.next_ready() {
            return PollStep::Emit(Some(ready));
        }
        if self.done {
            return PollStep::Emit(None);
        }
        if !self.open {
            self.finish();
            return PollStep::Emit(None);
        }
        PollStep::NeedBytes
    }

    /// Feeds a piece of the response body: its lines' payloads join the queue.
    pub fn on_bytes(&mut self, chunk: &[u8])
        ensures
            ({
                let (st, lines) = line_feed(old(self)@.lines, utf8_lossy(chunk@));
                &&& final(self)@.lines == st
                &&& final(self)@.queue == old(self)@.queue + payloads_of(lines)
            }),
            valid_utf8(chunk@) ==> ({
                let (st, lines) = line_feed(old(self)@.lines, decode_utf8(chunk@));
                &&& final(self)@.lines == st
                &&& final(self)@.queue == old(self)@.queue + payloads_of(lines)
            }),
            final(self)@.done == old(self)@.done,
            final(self)@.open == old(self)@.open,
            final(self)@.timeout_secs == old(self)@.timeout_secs,
    {
        let text = decode_utf8_lossy(chunk);
        let mut lines: Vec<String> = Vec::new();
        let ghost st0 = self.lines@;
        self.lines.push(text.as_str(), &mut lines);
        assert(string_views(Seq::<String>::empty()) =~= Seq::<Seq<char>>::empty());
        let ghost all = line_feed(st0, text@).1;
        assert(string_views(lines@) =~= all);
        let ghost q0 = string_views(self.queued@);
        let mut i: usize = 0;
        while i < lines.len()
            invariant
                i <= lines.len(),
                string_views(lines@) == all,
                string_views(self.queued@) == q0 + payloads_of(all.take(i as int)),
                self.lines@ == line_feed(st0, text@).0,
                self.timeout_secs == old(self).timeout_secs,
                self.done == old(self).done,
                self.open == old(self).open,
            decreases lines.len() - i,
        {
            assert(all.take(i + 1).drop_last() =~= all.take(i as int));
            assert(all.take(i + 1).last() == all[i as int]);
            let ghost qb = string_views(self.queued@);
            assert(all[i as int] == lines@[i as int]@);
            if let Some(payload) = data_payload(lines[i].as_str()) {
                let mut owned = String::new();
                push_str(&mut owned, payload);
                self.queued.push_back(owned);
                assert(string_views(self.queued@) =~= qb.push(payload@));
            }
            assert(string_views(self.queued@) =~= q0 + payloads_of(all.take(i + 1)));
            i = i + 1;
        }
        assert(all.take(all.len() as int) =~= all);
    }

    /// A transport failure mid-stream: the stream ends. Returns the timeout to
    /// report with the failure.
    pub fn on_transport_error(&mut self) -> (t: u64)
        ensures
            t == old(self)@.timeout_secs,
            final(self)@.done,
            !final(self)@.open,
            final(self)@.queue == Seq::<Seq<char>>::empty(),
            final(self)@.lines == old(self)@.lines,
            final(self)@.timeout_secs == old(self)@.timeout_secs,
    {
        self.finish();
        self.timeout_secs
    }

    /// The end of the response body: the final unterminated line is flushed
    /// to the queue and the body is closed; the stream hands out what is
    /// queued and then ends. Nothing changes once the stream has ended.
    pub fn on_end(&mut self)
        ensures
            ({
                let (o, f) = (old(self)@, final(self)@);
                let rem = o.lines.0;
                &&& o.done ==> f == o
                &&& !o.done ==> {
                    &&& !f.done
                    &&& !f.open
                    &&& f.lines == (Seq::<char>::empty(), o.lines.1)
                    &&& f.timeout_secs == o.timeout_secs
                    &&& f.queue == if rem.len() > 0 && spec_data_payload(rem) is Some {
                        o.queue.push(spec_data_payload(rem)->0)
                    } else {
                        o.queue
                    }
                }
            }),
    {
        if self.done {
            return;
        }
        let ghost q0 = string_views(self.queued@);
        if let Some(remainder) = self.lines.take_remainder() {
            if let Some(payload) = data_payload(remainder.as_str()) {
                let mut owned = String::new();
                push_str(&mut owned, payload);
                self.queued.push_back(owned);
                assert(string_views(self.queued@) =~= q0.push(payload@));
            }
        }
        self.open = false;
    }

    /// Closes the stream: the body is no longer read and nothing more is
    /// handed out.
    pub fn close(&mut self)
        ensures
            final(self)@.done,
            !final(self)@.open,
            final(self)@.queue == Seq::<Seq<char>>::empty(),
            final(self)@.lines == old(self)@.lines,
            final(self)@.timeout_secs == old(self)@.timeout_secs,
    {
        self.finish();
    }
}

/// `t` with every `\n` written as `\r\n`.
pub open spec fn lf_to_crlf(t: Seq<char>) -> Seq<char>
    decreases t.len(),
{
    if t.len() == 0 {
        t
    } else if t.last() == '\n' {
        lf_to_crlf(t.drop_last()) + seq!['\r', '\n']
    } else {
        lf_to_crlf(t.drop_last()).push(t.last())
    }
}

/// `t` with every `\n` written as `\r`.
pub open spec fn lf_to_cr(t: Seq<char>) -> Seq<char>
    decreases t.len(),
{
    if t.len() == 0 {
        t
    } else if t.last() == '\n' {
        lf_to_cr(t.drop_last()).push('\r')
    } else {
        lf_to_cr(t.drop_last()).push(t.last())
    }
}

/// Whether `s` holds neither `\r` nor `\n`.
pub open spec fn has_no_terminator(s: Seq<char>) -> bool {
    forall|i: int| 0 <= i < s.len() ==> s[i] != '\r' && s[i] != '\n'
}

/// Law: feeding a text in two pieces gives the same lines and the same
/// final state as feeding it in one piece, wherever the text is cut (in
/// particular between the `\r` and the `\n` of a `\r\n`).
pub proof fn law_line_feed_split(st: LineState, a: Seq<char>, b: Seq<char>)
    ensures
        ({
            let (mid, first) = line_feed(st, a);
            let (last, second) = line_feed(mid, b);
            line_feed(st, a + b) == (last, first + second)
        }),
    decreases b.len(),
{
    if b.len() == 0 {
        assert(a + b =~= a);
        assert(line_feed(st, a).1 + Seq::<Seq<char>>::empty() =~= line_feed(st, a).1);
    } else {
        assert((a + b).drop_last() =~= a + b.drop_last());
        assert((a + b).last() == b.last());
        law_line_feed_split(st, a, b.drop_last());
        let (mid, first) = line_feed(st, a);
        let (m2, second) = line_feed(mid, b.drop_last());
        let (next, emitted) = line_step(m2, b.last());
        match emitted {
            Some(l) => {
                assert(first + second.push(l) =~= (first + second).push(l));
            },
            None => {},
        }
    }
}

/// Law: every line the splitter completes is free of `\r` and `\n`, when the
/// unfinished line it starts from is.
pub proof fn law_lines_have_no_terminator(st: LineState, text: Seq<char>)
    requires
        has_no_terminator(st.0),
    ensures
        has_no_terminator(line_feed(st, text).0.0),
        forall|k: int|
            0 <= k < line_feed(st, text).1.len() ==> has_no_terminator(
                #[trigger] line_feed(st, text).1[k],
            ),
    decreases text.len(),
{
    if text.len() > 0 {
        law_lines_have_no_terminator(st, text.drop_last());
        let (mid, lines) = line_feed(st, text.drop_last());
        let c = text.last();
        if c != '\r' && c != '\n' {
            assert(has_no_terminator(mid.0.push(c))) by {
                assert forall|i: int| 0 <= i < mid.0.push(c).len() implies mid.0.push(c)[i]
                    != '\r' && mid.0.push(c)[i] != '\n' by {
                    if i < mid.0.len() {
                        assert(mid.0.push(c)[i] == mid.0[i]);
                    }
                }
            }
        }
        assert(has_no_terminator(Seq::<char>::empty()));
        let (next, emitted) = line_step(mid, c);
        match emitted {
            Some(l) => {
                assert forall|k: int| 0 <= k < lines.push(l).len() implies has_no_terminator(
                    #[trigger] lines.push(l)[k],
                ) by {
                    if k < lines.len() {
                        assert(lines.push(l)[k] == lines[k]);
                    }
                }
            },
            None => {},
        }
    }
}

proof fn lemma_crlf_agrees(st: LineState, t: Seq<char>)
    requires
        !st.1,
        forall|i: int| 0 <= i < t.len() ==> t[i] != '\r',
    ensures
        line_feed(st, lf_to_crlf(t)) == line_feed(st, t),
        !line_feed(st, t).0.1,
    decreases t.len(),
{
    if t.len() > 0 {
        let p = t.drop_last();
        lemma_crlf_agrees(st, p);
        let u = lf_to_crlf(t);
        if t.last() == '\n' {
            assert(u.drop_last() =~= lf_to_crlf(p).push('\r'));
            assert(u.drop_last().drop_last() =~= lf_to_crlf(p));
            let (mid, lines) = line_feed(st, p);
            assert(line_feed(st, u.drop_last()) == ((Seq::<char>::empty(), true), lines.push(
                mid.0,
            )));
            assert(line_feed(st, u) == ((Seq::<char>::empty(), false), lines.push(mid.0)));
        } else {
            assert(u.drop_last() =~= lf_to_crlf(p));
        }
    }
}

proof fn lemma_cr_agrees(b: Seq<char>, q: bool, t: Seq<char>)
    requires
        forall|i: int| 0 <= i < t.len() ==> t[i] != '\r',
    ensures
        line_feed((b, q), lf_to_cr(t)).1 == line_feed((b, false), t).1,
        line_feed((b, q), lf_to_cr(t)).0.0 == line_feed((b, false), t).0.0,
        !line_feed((b, false), t).0.1,
    decreases t.len(),
{
    if t.len() > 0 {
        let p = t.drop_last();
        lemma_cr_agrees(b, q, p);
        assert(lf_to_cr(t).drop_last() =~= lf_to_cr(p));
    }
}

/// Law: the three line terminators are interchangeable. A text whose lines end
/// in `\n` (and that holds no `\r`) splits into the same lines when every
/// `\n` is written `\r\n`, or `\r`, instead; the unfinished line at the end
/// is the same too. This holds from any state that is not just after a `\r`.
pub proof fn law_line_terminators_agree(st: LineState, t: Seq<char>)
    requires
        !st.1,
        forall|i: int| 0 <= i < t.len() ==> t[i] != '\r',
    ensures
        line_feed(st, lf_to_crlf(t)) == line_feed(st, t),
        line_feed(st, lf_to_cr(t)).1 == line_feed(st, t).1,
        line_feed(st, lf_to_cr(t)).0.0 == line_feed(st, t).0.0,
{
    lemma_crlf_agrees(st, t);
    lemma_cr_agrees(st.0, st.1, t);
}

proof fn lemma_payloads_concat(a: Seq<Seq<char>>, b: Seq<Seq<char>>)
    ensures
        payloads_of(a + b) == payloads_of(a) + payloads_of(b),
    decreases b.len(),
{
    if b.len() == 0 {
        assert(a + b =~= a);
        assert(payloads_of(a) + Seq::<Seq<char>>::empty() =~= payloads_of(a));
    } else {
        lemma_payloads_concat(a, b.drop_last());
        assert((a + b).drop_last() =~= a + b.drop_last());
        assert((a + b).last() == b.last());
        match spec_data_payload(b.last()) {
            Some(p) => {
                assert(payloads_of(a) + payloads_of(b.drop_last()).push(p) =~= (payloads_of(a)
                    + payloads_of(b.drop_last())).push(p));
            },
            None => {},
        }
    }
}

proof fn lemma_decode_utf8_concat(a: Seq<u8>, b: Seq<u8>)
    requires
        valid_utf8(a),
        valid_utf8(b),
    ensures
        valid_utf8(a + b),
        decode_utf8(a + b) == decode_utf8(a) + decode_utf8(b),
{
    let (da, db) = (decode_utf8(a), decode_utf8(b));
    decode_utf8_encode_utf8(a);
    decode_utf8_encode_utf8(b);
    crate::resources::lemma_encode_utf8_concat(da, db);
    encode_utf8_valid_utf8(da + db);
    encode_utf8_decode_utf8(da + db);
}

/// Law: the payloads a stream queues do not depend on how the body is cut
/// into pieces, as long as each piece is valid UTF-8: feeding `a` and then
/// `b` leaves the splitter in the state, and queues the payloads, that
/// feeding `a + b` at once does.
pub proof fn law_payloads_independent_of_chunking(st: LineState, a: Seq<u8>, b: Seq<u8>)
    requires
        valid_utf8(a),
        valid_utf8(b),
    ensures
        valid_utf8(a + b),
        ({
            let (mid, first) = line_feed(st, decode_utf8(a));
            let (last, second) = line_feed(mid, decode_utf8(b));
            let (whole_state, whole) = line_feed(st, decode_utf8(a + b));
            whole_state == last && payloads_of(whole) == payloads_of(first) + payloads_of(second)
        }),
{
    lemma_decode_utf8_concat(a, b);
    law_line_feed_split(st, decode_utf8(a), decode_utf8(b));
    let (mid, first) = line_feed(st, decode_utf8(a));
    let (last, second) = line_feed(mid, decode_utf8(b));
    lemma_payloads_concat(first, second);
}

} // verus!
