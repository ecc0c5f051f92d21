//! Message framing: newline-delimited messages over byte streams, and the
//! handling of WebSocket frames.
use vstd::prelude::*;
use crate::errors::{plain_error, ErrorV, JsonRpcError, TRANSPORT_ERROR};
use crate::json::{group_json_view, obj_get, Json, JsonMap, JsonV};

verus! {

/// A source of framed messages.
pub trait MessageReader {
    /// The next message: `None` while no complete message has arrived yet.
    fn read_message(&mut self) -> Option<Result<Vec<u8>, JsonRpcError>>;
}

/// A sink of framed messages.
pub trait MessageWriter {
    /// Frame and queue `msg` for sending.
    fn write_message(&mut self, msg: Vec<u8>) -> Result<(), JsonRpcError>;
}

/// Whether `b` ends a line (line feed or carriage return).
pub open spec fn is_line_end(b: u8) -> bool {
    b == 10u8 || b == 13u8
}

/// `line` without its trailing run of line feeds and carriage returns.
pub open spec fn trim_line_end(line: Seq<u8>) -> Seq<u8>
    decreases line.len(),
{
    if line.len() > 0 && is_line_end(line.last()) {
        trim_line_end(line.drop_last())
    } else {
        line
    }
}

/// The position of the first line feed in `bytes`, if any.
pub open spec fn first_newline(bytes: Seq<u8>) -> Option<int> {
    if exists|i: int| 0 <= i < bytes.len() && bytes[i] == 10u8 {
        Some(choose|i: int| 0 <= i < bytes.len() && bytes[i] == 10u8 && forall|j: int| 0 <= j < i ==> bytes[j] != 10u8)
    } else {
        None
    }
}

/// The error for a stream that ended with no message.
pub open spec fn closed_error() -> ErrorV {
    plain_error(TRANSPORT_ERROR, "connection closed"@)
}

/// Strip the trailing line feeds and carriage returns from a received line.
pub fn trim_line(line: Vec<u8>) -> (r: Vec<u8>)
    ensures
        r@ == trim_line_end(line@),
{
    let ghost orig = line@;
    let mut line = line;
    while line.len() > 0 && (line[line.len() - 1] == 10u8 || line[line.len() - 1] == 13u8)
        invariant
            trim_line_end(line@) == trim_line_end(orig),
        decreases line@.len(),
    {
        line.pop();
    }
    line
}

/// A newline-delimited message reader: the bytes received so far are fed in;
/// each line (without its line ending) is a message. Once the stream has
/// ended, an unfinished last line is still a message, and after it the reader
/// reports the connection closed.
pub struct LineReader {
    buffer: Vec<u8>,
    ended: bool,
}

impl LineReader {
    /// The bytes received and not yet read as messages.
    pub closed spec fn pending(self) -> Seq<u8> {
        self.buffer@
    }

    /// Whether the stream has ended.
    pub closed spec fn has_ended(self) -> bool {
        self.ended
    }

    /// A reader with nothing received.
    pub fn new() -> (r: LineReader)
        ensures
            r.pending() == Seq::<u8>::empty(),
            !r.has_ended(),
    {
        LineReader { buffer: Vec::new(), ended: false }
    }

    /// Receive `bytes`.
    pub fn feed(&mut self, bytes: &[u8])
        ensures
            final(self).pending() == old(self).pending() + bytes@,
            final(self).has_ended() == old(self).has_ended(),
    {
        let mut i: usize = 0;
        while i < bytes.len()
            invariant
                i <= bytes@.len(),
                self.buffer@ == old(self).buffer@ + bytes@.subrange(0, i as int),
                self.ended == old(self).ended,
            decreases bytes@.len() - i,
        {
            self.buffer.push(bytes[i]);
            i = i + 1;
            assert(self.buffer@ =~= old(self).buffer@ + bytes@.subrange(0, i as int));
        }
        assert(bytes@.subrange(0, bytes@.len() as int) =~= bytes@);
    }

    /// Note that the stream has ended.
    pub fn end(&mut self)
        ensures
            final(self).pending() == old(self).pending(),
            final(self).has_ended(),
    {
        self.ended = true;
    }

    /// The next message: the first complete line, trimmed; else, once the
    /// stream has ended, the unfinished last line, trimmed, or the connection
    /// closed error when nothing is left; else `None`.
    pub fn next_message(&mut self) -> (r: Option<Result<Vec<u8>, JsonRpcError>>)
        ensures
            final(self).has_ended() == old(self).has_ended(),
            match first_newline(old(self).pending()) {
                Some(k) => r matches Some(Ok(line)) && line@ == trim_line_end(old(self).pending().subrange(0, k + 1))
                    && final(self).pending() == old(self).pending().subrange(k + 1, old(self).pending().len() as int),
                None => if !old(self).has_ended() {
                    r is None && final(self).pending() == old(self).pending()
                } else if old(self).pending().len() > 0 {
                    r matches Some(Ok(line)) && line@ == trim_line_end(old(self).pending())
                        && final(self).pending() == Seq::<u8>::empty()
                } else {
                    r matches Some(Err(e)) && e@ == closed_error() && final(self).pending() == Seq::<u8>::empty()
                },
            },
    {
        let mut k: usize = 0;
        while k < self.buffer.len() && self.buffer[k] != 10u8
            invariant
                k <= self.buffer@.len(),
                forall|j: int| 0 <= j < k ==> self.buffer@[j] != 10u8,
            decreases self.buffer@.len() - k,
        {
            k = k + 1;
        }
        let ghost all = self.buffer@;
        if k < self.buffer.len() {
            proof {
                let w = choose|i: int| 0 <= i < all.len() && all[i] == 10u8 && forall|j: int| 0 <= j < i ==> all[j] != 10u8;
                assert(w == k) by {
                    if w < k {
                        assert(all[w] != 10u8);
                    }
                    if w > k {
                        assert(all[k as int] == 10u8);
                    }
                }
            }
            let mut line = self.buffer.split_off(k + 1);
            std::mem::swap(&mut line, &mut self.buffer);
            assert(line@ =~= all.subrange(0, k + 1));
            Some(Ok(trim_line(line)))
        } else if !self.ended {
            None
        } else if self.buffer.len() > 0 {
            let mut line = Vec::new();
            std::mem::swap(&mut line, &mut self.buffer);
            Some(Ok(trim_line(line)))
        } else {
            Some(Err(JsonRpcError::transport_error("connection closed")))
        }
    }
}

impl MessageReader for LineReader {
    fn read_message(&mut self) -> (r: Option<Result<Vec<u8>, JsonRpcError>>)
        ensures
            final(self).has_ended() == old(self).has_ended(),
            match first_newline(old(self).pending()) {
                Some(k) => r matches Some(Ok(line)) && line@ == trim_line_end(old(self).pending().subrange(0, k + 1))
                    && final(self).pending() == old(self).pending().subrange(k + 1, old(self).pending().len() as int),
                None => if !old(self).has_ended() {
                    r is None && final(self).pending() == old(self).pending()
                } else if old(self).pending().len() > 0 {
                    r matches Some(Ok(line)) && line@ == trim_line_end(old(self).pending())
                        && final(self).pending() == Seq::<u8>::empty()
                } else {
                    r matches Some(Err(e)) && e@ == closed_error() && final(self).pending() == Seq::<u8>::empty()
                },
            },
    {
        self.next_message()
    }
}

/// A newline-delimited message writer: each message is queued followed by a
/// line feed; the queued bytes are taken out to be sent.
pub struct LineWriter {
    out: Vec<u8>,
}

impl LineWriter {
    /// The bytes queued and not yet taken.
    pub closed spec fn queued(self) -> Seq<u8> {
        self.out@
    }

    pub fn new() -> (w: LineWriter)
        ensures
            w.queued() == Seq::<u8>::empty(),
    {
        LineWriter { out: Vec::new() }
    }

    /// Take the queued bytes.
    pub fn take(&mut self) -> (r: Vec<u8>)
        ensures
            r@ == old(self).queued(),
            final(self).queued() == Seq::<u8>::empty(),
    {
        let mut r = Vec::new();
        std::mem::swap(&mut r, &mut self.out);
        r
    }
}

impl MessageWriter for LineWriter {
    fn write_message(&mut self, msg: Vec<u8>) -> (r: Result<(), JsonRpcError>)
        ensures
            r is Ok,
            final(self).queued() == old(self).queued() + msg@.push(10u8),
    {
        let mut msg = msg;
        msg.push(10u8);
        self.out.append(&mut msg);
        Ok(())
    }
}


/// A message framed by a [`LineWriter`] is read back intact by a
/// [`LineReader`] fed the same bytes, with whatever follows left pending,
/// provided the message holds no line feed and does not end in a carriage
/// return.
pub proof fn lemma_line_frame_roundtrip(msg: Seq<u8>, rest: Seq<u8>)
    requires
        forall|i: int| 0 <= i < msg.len() ==> msg[i] != 10u8,
        msg.len() > 0 ==> msg.last() != 13u8,
    ensures
        first_newline(msg.push(10u8) + rest) == Some(msg.len() as int),
        trim_line_end((msg.push(10u8) + rest).subrange(0, msg.len() as int + 1)) == msg,
        (msg.push(10u8) + rest).subrange(msg.len() as int + 1, (msg.push(10u8) + rest).len() as int) == rest,
{
    let all = msg.push(10u8) + rest;
    let k = msg.len() as int;
    assert(all[k] == 10u8);
    let w = choose|i: int| 0 <= i < all.len() && all[i] == 10u8 && forall|j: int| 0 <= j < i ==> all[j] != 10u8;
    assert(0 <= k < all.len() && all[k] == 10u8 && forall|j: int| 0 <= j < k ==> all[j] != 10u8);
    assert(w == k) by {
        if w < k {
            assert(all[w] == msg[w]);
        }
    }
    let line = all.subrange(0, k + 1);
    assert(line =~= msg.push(10u8));
    assert(line.drop_last() =~= msg);
    assert(trim_line_end(msg) == msg);
    assert(all.subrange(k + 1, all.len() as int) =~= rest);
}


/// A WebSocket message as received: binary data, text (as its UTF-8 bytes),
/// a close, or a control frame (ping, pong, raw frame).
pub enum WsFrame {
    Binary(Vec<u8>),
    Text(Vec<u8>),
    Close,
    Control,
}

/// The error for a failed WebSocket read, from the failure's description.
pub open spec fn ws_read_failed(detail: Seq<char>) -> ErrorV {
    plain_error(TRANSPORT_ERROR, "websocket read failed: "@ + detail)
}

/// What a WebSocket reader makes of the next item of the stream (`None` when
/// the stream has ended, `Err` with a description when reading failed): a
/// message for binary or text data, an error for the end of the stream, a
/// failure or a close, and `None` (keep reading) for a control frame.
pub fn ws_read_step(next: Option<Result<WsFrame, String>>) -> (r: Option<Result<Vec<u8>, JsonRpcError>>)
    ensures
        match next {
            None => r matches Some(Err(e)) && e@ == plain_error(TRANSPORT_ERROR, "websocket stream ended"@),
            Some(Err(detail)) => r matches Some(Err(e)) && e@ == ws_read_failed(detail@),
            Some(Ok(WsFrame::Binary(bytes))) => r matches Some(Ok(m)) && m@ == bytes@,
            Some(Ok(WsFrame::Text(bytes))) => r matches Some(Ok(m)) && m@ == bytes@,
            Some(Ok(WsFrame::Close)) => r matches Some(Err(e)) && e@ == plain_error(TRANSPORT_ERROR, "websocket closed by peer"@),
            Some(Ok(WsFrame::Control)) => r is None,
        },
{
    match next {
        None => Some(Err(JsonRpcError::transport_error("websocket stream ended"))),
        Some(Err(detail)) => {
            let message = String::from_str("websocket read failed: ").concat(detail.as_str());
            Some(Err(JsonRpcError { code: TRANSPORT_ERROR, message, data: None }))
        },
        Some(Ok(WsFrame::Binary(bytes))) => Some(Ok(bytes)),
        Some(Ok(WsFrame::Text(bytes))) => Some(Ok(bytes)),
        Some(Ok(WsFrame::Close)) => Some(Err(JsonRpcError::transport_error("websocket closed by peer"))),
        Some(Ok(WsFrame::Control)) => None,
    }
}

/// The text that `bytes` read as, with each invalid UTF-8 sequence replaced
/// by U+FFFD.
pub uninterp spec fn utf8_lossy(bytes: Seq<u8>) -> Seq<char>;

/// `String::from_utf8_lossy` (std), made owned: the text of `bytes`, with
/// invalid sequences replaced. Claimed: the result is a function of the bytes
/// alone, and is their decoding when they are valid UTF-8.
#[verifier::external_body]
fn from_utf8_lossy(bytes: &[u8]) -> (s: String)
    ensures
        s@ == utf8_lossy(bytes@),
        vstd::utf8::valid_utf8(bytes@) ==> s@ == vstd::utf8::decode_utf8(bytes@),
{
    String::from_utf8_lossy(bytes).into_owned()
}

/// The header object built from the first `n` of `headers`: each name maps to
/// the text of its value; a later value for a name replaces an earlier one.
pub open spec fn headers_upto(headers: Seq<(String, Vec<u8>)>, n: int, k: Seq<char>) -> Option<JsonV>
    decreases n,
{
    if n <= 0 {
        None
    } else if headers[n - 1].0@ == k {
        Some(JsonV::Str(utf8_lossy(headers[n - 1].1@)))
    } else {
        headers_upto(headers, n - 1, k)
    }
}

/// The headers of a WebSocket handshake as a JSON object: each header name
/// maps to its value as text (invalid UTF-8 replaced); when a name occurs more
/// than once, its last value wins.
pub fn header_map_to_value(headers: &Vec<(String, Vec<u8>)>) -> (m: JsonMap)
    ensures
        forall|k: Seq<char>| #[trigger] obj_get(m@, k) == headers_upto(headers@, headers@.len() as int, k),
{
    let mut map = JsonMap::new();
    let mut i: usize = 0;
    while i < headers.len()
        invariant
            i <= headers@.len(),
            forall|k: Seq<char>| #[trigger] obj_get(map@, k) == headers_upto(headers@, i as int, k),
        decreases headers@.len() - i,
    {
        let name = headers[i].0.clone();
        let value = from_utf8_lossy(headers[i].1.as_slice());
        map.insert(name, Json::Str(value));
        i = i + 1;
    }
    map
}

/// The metadata of a TCP connection: `{"address": ...}`, the peer's address
/// or `null` when it is unknown.
pub fn tcp_metadata(address: Option<String>) -> (r: Json)
    ensures
        r@ == JsonV::Object(seq![(
            "address"@,
            match address {
                Some(a) => JsonV::Str(a@),
                None => JsonV::Null,
            },
        )]),
{
    broadcast use group_json_view;
    let ghost expected = match &address {
        Some(a) => JsonV::Str(a@),
        None => JsonV::Null,
    };
    let value = match address {
        Some(a) => Json::Str(a),
        None => Json::Null,
    };
    let mut map = JsonMap::new();
    map.push_new(String::from_str("address"), value);
    assert(map@ =~= seq![("address"@, expected)]);
    Json::Object(map)
}

/// The metadata of a WebSocket connection: `{"address": ..., "headers": ...}`.
pub fn ws_metadata(address: Json, headers: JsonMap) -> (r: Json)
    ensures
        r@ == JsonV::Object(seq![("address"@, address@), ("headers"@, JsonV::Object(headers@))]),
{
    broadcast use group_json_view;
    let mut map = JsonMap::new();
    let ghost a = address@;
    let ghost h = headers@;
    proof {
        reveal_strlit("address");
        reveal_strlit("headers");
        assert("address"@[0] != "headers"@[0]);
    }
    map.push_new(String::from_str("address"), address);
    map.push_new(String::from_str("headers"), Json::Object(headers));
    assert(map@ =~= seq![("address"@, a), ("headers"@, JsonV::Object(h))]);
    Json::Object(map)
}

} // verus!
