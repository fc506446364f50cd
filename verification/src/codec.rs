//! The wire codec of the streaming protocol.
//!
//! Outgoing commands are flat JSON objects with exactly two string fields,
//! `t` and `d`; the encoder is verified character-for-character against
//! [`wire_envelope`].  Inbound text frames are either the literal heartbeat
//! `"0"`, which is a protocol no-op, or a tagged JSON envelope decoded into
//! [`LichessWebsocketEvent`]; the JSON reading itself is done by an outside
//! parser behind trusted wrappers, and the envelope rules (tag dispatch,
//! required fields, unknown tags) are verified logic on what those wrappers
//! hand back.

use vstd::prelude::*;
use vstd::string::StrSliceExecFns;
use crate::types::LichessWebsocketEvent;
use crate::types::GameId;
use crate::types::WsEventView;

verus! {

/// Why an inbound text frame could not be decoded.  Any of these is fatal to
/// the watch loop: a frame that is not the heartbeat must be a known tagged
/// envelope.
#[derive(Debug, Clone, Copy, PartialEq, Eq, Structural)]
pub enum DecodeError {
    /// The frame is not valid JSON at all.
    InvalidJson,
    /// The frame has no string field `t`.
    MissingTag,
    /// The frame has no field `d`.
    MissingPayload,
    /// The tag names no known event.
    UnknownTag,
    /// The payload under `d` lacks a required field or gives it a wrong type.
    BadPayload,
}

/// The hexadecimal digit for one value below sixteen, lower case.
pub open spec fn spec_hex_digit(n: int) -> char {
    if n == 0 { '0' } else if n == 1 { '1' } else if n == 2 { '2' } else if n == 3 { '3' }
    else if n == 4 { '4' } else if n == 5 { '5' } else if n == 6 { '6' } else if n == 7 { '7' }
    else if n == 8 { '8' } else if n == 9 { '9' } else if n == 10 { 'a' } else if n == 11 { 'b' }
    else if n == 12 { 'c' } else if n == 13 { 'd' } else if n == 14 { 'e' } else { 'f' }
}

/// How one character appears inside a JSON string literal: quote and
/// backslash are escaped, control characters get their short escape where
/// one exists and a `\u00..` escape otherwise, and every other character
/// stands for itself.
pub open spec fn escaped_char(c: char) -> Seq<char> {
    if c == '"' { seq!['\\', '"'] }
    else if c == '\\' { seq!['\\', '\\'] }
    else if (c as u32) == 8 { seq!['\\', 'b'] }
    else if (c as u32) == 9 { seq!['\\', 't'] }
    else if (c as u32) == 10 { seq!['\\', 'n'] }
    else if (c as u32) == 12 { seq!['\\', 'f'] }
    else if (c as u32) == 13 { seq!['\\', 'r'] }
    else if (c as u32) < 32 {
        seq!['\\', 'u', '0', '0', spec_hex_digit(((c as u32) as int) / 16), spec_hex_digit(
            ((c as u32) as int) % 16,
        )]
    } else { seq![c] }
}

/// A whole character sequence escaped for use inside a JSON string literal.
pub open spec fn escaped(s: Seq<char>) -> Seq<char>
    decreases s.len(),
{
    if s.len() == 0 {
        Seq::empty()
    } else {
        escaped_char(s[0]) + escaped(s.drop_first())
    }
}

/// A JSON string literal: the escaped contents between two quotes.
pub open spec fn json_string(s: Seq<char>) -> Seq<char> {
    seq!['"'] + escaped(s) + seq!['"']
}

/// The encoding of one outgoing envelope: a JSON object with exactly the two
/// string fields `t` and `d`, in that order, with no interior whitespace.
pub open spec fn wire_envelope(t: Seq<char>, d: Seq<char>) -> Seq<char> {
    seq!['{', '"', 't', '"', ':'] + json_string(t) + seq![',', '"', 'd', '"', ':'] + json_string(d)
        + seq!['}']
}

/// Escaping one more character extends the escaped sequence by that
/// character's escape.
pub proof fn lemma_escaped_push(s: Seq<char>, c: char)
    ensures
        escaped(s.push(c)) == escaped(s) + escaped_char(c),
    decreases s.len(),
{
    if s.len() == 0 {
        assert(escaped(s) == Seq::<char>::empty());
        assert(s.push(c)[0] == c);
        assert(s.push(c).drop_first() =~= s);
        assert(escaped(s.push(c)) == escaped_char(c) + escaped(s));
        assert(escaped(s.push(c)) =~= escaped(s) + escaped_char(c));
    } else {
        lemma_escaped_push(s.drop_first(), c);
        assert(escaped(s.push(c)) == escaped_char(s[0]) + escaped(s.drop_first().push(c))) by {
            assert(s.push(c).len() != 0);
            assert(s.push(c)[0] == s[0]);
            assert(s.push(c).drop_first() =~= s.drop_first().push(c));
        }
        assert(escaped(s) == escaped_char(s[0]) + escaped(s.drop_first()));
        assert(escaped(s.push(c)) =~= escaped(s) + escaped_char(c));
    }
}

/// Relies on `String::push`: appends one character at the end of the string.
#[verifier::external_body]
pub(crate) fn push_char(s: &mut String, c: char)
    ensures
        final(s)@ == old(s)@.push(c),
{
    s.push(c)
}

/// The hexadecimal digit for one value below sixteen, lower case.
fn hex_digit(n: u32) -> (c: char)
    requires
        n < 16,
    ensures
        c == spec_hex_digit(n as int),
{
    if n == 0 { '0' } else if n == 1 { '1' } else if n == 2 { '2' } else if n == 3 { '3' }
    else if n == 4 { '4' } else if n == 5 { '5' } else if n == 6 { '6' } else if n == 7 { '7' }
    else if n == 8 { '8' } else if n == 9 { '9' } else if n == 10 { 'a' } else if n == 11 { 'b' }
    else if n == 12 { 'c' } else if n == 13 { 'd' } else if n == 14 { 'e' } else { 'f' }
}

/// Appends one character's JSON escape to the output.
fn push_escaped_char(out: &mut String, c: char)
    ensures
        final(out)@ == old(out)@ + escaped_char(c),
{
    let code = c as u32;
    if c == '"' {
        push_char(out, '\\');
        push_char(out, '"');
    } else if c == '\\' {
        push_char(out, '\\');
        push_char(out, '\\');
    } else if code == 8 {
        push_char(out, '\\');
        push_char(out, 'b');
    } else if code == 9 {
        push_char(out, '\\');
        push_char(out, 't');
    } else if code == 10 {
        push_char(out, '\\');
        push_char(out, 'n');
    } else if code == 12 {
        push_char(out, '\\');
        push_char(out, 'f');
    } else if code == 13 {
        push_char(out, '\\');
        push_char(out, 'r');
    } else if code < 32 {
        push_char(out, '\\');
        push_char(out, 'u');
        push_char(out, '0');
        push_char(out, '0');
        push_char(out, hex_digit(code / 16));
        push_char(out, hex_digit(code % 16));
    } else {
        push_char(out, c);
    }
    proof {
        assert(out@ =~= old(out)@ + escaped_char(c));
    }
}

/// Appends the JSON escape of a whole string to the output.
fn append_json_escaped(out: &mut String, s: &str)
    ensures
        final(out)@ == old(out)@ + escaped(s@),
{
    let n = s.unicode_len();
    let mut i: usize = 0;
    while i < n
        invariant
            n == s@.len(),
            i <= n,
            out@ == old(out)@ + escaped(s@.take(i as int)),
        decreases n - i,
    {
        let c = s.get_char(i);
        proof {
            assert(s@.take(i as int + 1) =~= s@.take(i as int).push(c));
            lemma_escaped_push(s@.take(i as int), c);
        }
        push_escaped_char(out, c);
        i = i + 1;
    }
    proof {
        assert(s@.take(n as int) =~= s@);
    }
}

/// Appends a JSON string literal holding `s` to the output.
fn append_json_string(out: &mut String, s: &str)
    ensures
        final(out)@ == old(out)@ + json_string(s@),
{
    push_char(out, '"');
    append_json_escaped(out, s);
    push_char(out, '"');
    proof {
        assert(out@ =~= old(out)@ + json_string(s@));
    }
}

/// Encodes one outgoing envelope with tag `t` and payload `d`, exactly as it
/// is sent on the wire.
pub fn encode_envelope(t: &str, d: &str) -> (r: String)
    ensures
        r@ == wire_envelope(t@, d@),
{
    let mut out = String::new();
    push_char(&mut out, '{');
    push_char(&mut out, '"');
    push_char(&mut out, 't');
    push_char(&mut out, '"');
    push_char(&mut out, ':');
    append_json_string(&mut out, t);
    push_char(&mut out, ',');
    push_char(&mut out, '"');
    push_char(&mut out, 'd');
    push_char(&mut out, '"');
    push_char(&mut out, ':');
    append_json_string(&mut out, d);
    push_char(&mut out, '}');
    proof {
        assert(out@ =~= wire_envelope(t@, d@));
    }
    out
}

/// Whether a frame text is a well-formed JSON document.  The reading of a
/// text as JSON is a function of the text alone; it is named here rather
/// than written out, and the trusted wrappers below apply the names.
pub uninterp spec fn json_ok(s: Seq<char>) -> bool;

/// The string under the top-level field `t` of the frame text: present
/// exactly where the text parses to an object whose field `t` is a string.
pub uninterp spec fn json_tag(s: Seq<char>) -> Option<Seq<char>>;

/// Whether the frame text parses to an object with a field `d`.
pub uninterp spec fn json_has_payload(s: Seq<char>) -> bool;

/// The string under field `k` of the frame's payload object `d`: present
/// exactly where the payload is an object whose field `k` is a string.
pub uninterp spec fn json_str_field(s: Seq<char>, k: Seq<char>) -> Option<Seq<char>>;

/// The integer under field `k` of the frame's payload object `d`: present
/// exactly where the payload is an object whose field `k` is a
/// non-negative integer that fits a `u64`.
pub uninterp spec fn json_u64_field(s: Seq<char>, k: Seq<char>) -> Option<u64>;

/// Whether the frame's payload object `d` has a field `k` at all.
pub uninterp spec fn json_field_present(s: Seq<char>, k: Seq<char>) -> bool;

/// Whether field `k` of the frame's payload object `d` is JSON `null`.
pub uninterp spec fn json_field_null(s: Seq<char>, k: Seq<char>) -> bool;

/// Relies on `serde_json::from_str::<serde_json::Value>`: whether the text
/// parses as a JSON document.  The outcome depends on the text alone.
#[verifier::external_body]
fn frame_json_ok(s: &str) -> (b: bool)
    ensures
        b == json_ok(s@),
{
    serde_json::from_str::<serde_json::Value>(s).is_ok()
}

/// Relies on `serde_json::from_str::<serde_json::Value>`, `Value::get` and
/// `Value::as_str`: the string under the top-level field `t`, a function of
/// the text alone.
#[verifier::external_body]
fn frame_tag(s: &str) -> (r: Option<String>)
    ensures
        r.deep_view() == json_tag(s@),
{
    serde_json::from_str::<serde_json::Value>(s)
        .ok()
        .and_then(|v| v.get("t").and_then(|t| t.as_str().map(str::to_owned)))
}

/// Relies on `serde_json::from_str::<serde_json::Value>` and `Value::get`:
/// whether the document has a top-level field `d`, a function of the text
/// alone.
#[verifier::external_body]
fn frame_has_payload(s: &str) -> (b: bool)
    ensures
        b == json_has_payload(s@),
{
    serde_json::from_str::<serde_json::Value>(s)
        .ok()
        .map(|v| v.get("d").is_some())
        .unwrap_or(false)
}

/// Relies on `serde_json::from_str::<serde_json::Value>`, `Value::get` and
/// `Value::as_str`: the string under field `k` of the payload object `d`,
/// a function of the text and the key alone.
#[verifier::external_body]
fn frame_payload_str_field(s: &str, k: &str) -> (r: Option<String>)
    ensures
        r.deep_view() == json_str_field(s@, k@),
{
    serde_json::from_str::<serde_json::Value>(s)
        .ok()
        .and_then(|v| v.get("d").and_then(|d| d.get(k).and_then(|f| f.as_str().map(str::to_owned))))
}

/// Relies on `serde_json::from_str::<serde_json::Value>`, `Value::get` and
/// `Value::as_u64`: the integer under field `k` of the payload object `d`,
/// a function of the text and the key alone.
#[verifier::external_body]
fn frame_payload_u64_field(s: &str, k: &str) -> (r: Option<u64>)
    ensures
        r == json_u64_field(s@, k@),
{
    serde_json::from_str::<serde_json::Value>(s)
        .ok()
        .and_then(|v| v.get("d").and_then(|d| d.get(k).and_then(|f| f.as_u64())))
}

/// Relies on `serde_json::from_str::<serde_json::Value>` and `Value::get`:
/// whether the payload object `d` has a field `k`, a function of the text
/// and the key alone.
#[verifier::external_body]
fn frame_payload_field_present(s: &str, k: &str) -> (b: bool)
    ensures
        b == json_field_present(s@, k@),
{
    serde_json::from_str::<serde_json::Value>(s)
        .ok()
        .and_then(|v| v.get("d").map(|d| d.get(k).is_some()))
        .unwrap_or(false)
}

/// Relies on `serde_json::from_str::<serde_json::Value>`, `Value::get` and
/// `Value::is_null`: whether field `k` of the payload object `d` is `null`,
/// a function of the text and the key alone.
#[verifier::external_body]
fn frame_payload_field_null(s: &str, k: &str) -> (b: bool)
    ensures
        b == json_field_null(s@, k@),
{
    serde_json::from_str::<serde_json::Value>(s)
        .ok()
        .and_then(|v| v.get("d").and_then(|d| d.get(k).map(serde_json::Value::is_null)))
        .unwrap_or(false)
}

/// What the optional result field `win` of a `finish` payload decodes to:
/// an absent or `null` field means no result, a string is the result, and
/// anything else fails the payload.
pub open spec fn decoded_win(s: Seq<char>) -> Result<Option<Seq<char>>, DecodeError> {
    if !json_field_present(s, "win"@) {
        Ok(None)
    } else if json_field_null(s, "win"@) {
        Ok(None)
    } else {
        match json_str_field(s, "win"@) {
            Some(w) => Ok(Some(w)),
            None => Err(DecodeError::BadPayload),
        }
    }
}

/// What a clock field decodes to: a non-negative integer that fits a
/// `u32`; anything else fails the payload.
pub open spec fn decoded_clock(n: Option<u64>) -> Result<u32, DecodeError> {
    match n {
        Some(v) => if v <= u32::MAX {
            Ok(v as u32)
        } else {
            Err(DecodeError::BadPayload)
        },
        None => Err(DecodeError::BadPayload),
    }
}

/// What a `finish` frame's payload decodes to: the ended session's
/// identifier, required, and its optional result.
pub open spec fn decoded_finish(s: Seq<char>) -> Result<Option<WsEventView>, DecodeError> {
    match json_str_field(s, "id"@) {
        None => Err(DecodeError::BadPayload),
        Some(id) => match decoded_win(s) {
            Ok(win) => Ok(Some(WsEventView::Finish { id, win })),
            Err(e) => Err(e),
        },
    }
}

/// What a `fen` frame's payload decodes to: the session's identifier, the
/// last move, the board state, and both clocks, all required.
pub open spec fn decoded_fen(s: Seq<char>) -> Result<Option<WsEventView>, DecodeError> {
    match (json_str_field(s, "id"@), json_str_field(s, "lm"@), json_str_field(s, "fen"@)) {
        (Some(id), Some(lm), Some(fen)) => match (
            decoded_clock(json_u64_field(s, "wc"@)),
            decoded_clock(json_u64_field(s, "bc"@)),
        ) {
            (Ok(wc), Ok(bc)) => Ok(Some(WsEventView::Fen { id, lm, fen, wc, bc })),
            _ => Err(DecodeError::BadPayload),
        },
        _ => Err(DecodeError::BadPayload),
    }
}

/// What one inbound text frame decodes to: the heartbeat `"0"` to no event;
/// any other text must be a JSON document with a string tag `t` and a
/// payload `d`, whose known tags decode per their payload rules, each
/// failure naming its reason.
pub open spec fn decoded(s: Seq<char>) -> Result<Option<WsEventView>, DecodeError> {
    if s == "0"@ {
        Ok(None)
    } else if !json_ok(s) {
        Err(DecodeError::InvalidJson)
    } else if json_tag(s) is None {
        Err(DecodeError::MissingTag)
    } else if !json_has_payload(s) {
        Err(DecodeError::MissingPayload)
    } else if json_tag(s) == Some("finish"@) {
        decoded_finish(s)
    } else if json_tag(s) == Some("fen"@) {
        decoded_fen(s)
    } else {
        Err(DecodeError::UnknownTag)
    }
}

/// Decodes the payload of a `finish` envelope, exactly as [`decoded_finish`]
/// says.
fn decode_finish(t: &str) -> (r: Result<Option<LichessWebsocketEvent>, DecodeError>)
    ensures
        match r {
            Ok(ev) => ev matches Some(e) && decoded_finish(t@) == Ok::<
                Option<WsEventView>,
                DecodeError,
            >(Some(e.deep_view())),
            Err(e) => decoded_finish(t@) == Err::<Option<WsEventView>, DecodeError>(e),
        },
{
    let id = match frame_payload_str_field(t, "id") {
        Some(s) => s,
        None => {
            return Err(DecodeError::BadPayload);
        },
    };
    let win = if !frame_payload_field_present(t, "win") {
        None
    } else if frame_payload_field_null(t, "win") {
        None
    } else {
        match frame_payload_str_field(t, "win") {
            Some(w) => Some(w),
            None => {
                return Err(DecodeError::BadPayload);
            },
        }
    };
    Ok(Some(LichessWebsocketEvent::Finish { id: GameId(id), win }))
}

/// Decodes the payload of a `fen` envelope, exactly as [`decoded_fen`] says.
fn decode_fen(t: &str) -> (r: Result<Option<LichessWebsocketEvent>, DecodeError>)
    ensures
        match r {
            Ok(ev) => ev matches Some(e) && decoded_fen(t@) == Ok::<
                Option<WsEventView>,
                DecodeError,
            >(Some(e.deep_view())),
            Err(e) => decoded_fen(t@) == Err::<Option<WsEventView>, DecodeError>(e),
        },
{
    let id = match frame_payload_str_field(t, "id") {
        Some(s) => s,
        None => {
            return Err(DecodeError::BadPayload);
        },
    };
    let lm = match frame_payload_str_field(t, "lm") {
        Some(s) => s,
        None => {
            return Err(DecodeError::BadPayload);
        },
    };
    let fen = match frame_payload_str_field(t, "fen") {
        Some(s) => s,
        None => {
            return Err(DecodeError::BadPayload);
        },
    };
    let wc = match frame_payload_u64_field(t, "wc") {
        Some(n) => {
            if n <= u32::MAX as u64 {
                n as u32
            } else {
                return Err(DecodeError::BadPayload);
            }
        },
        None => {
            return Err(DecodeError::BadPayload);
        },
    };
    let bc = match frame_payload_u64_field(t, "bc") {
        Some(n) => {
            if n <= u32::MAX as u64 {
                n as u32
            } else {
                return Err(DecodeError::BadPayload);
            }
        },
        None => {
            return Err(DecodeError::BadPayload);
        },
    };
    Ok(Some(LichessWebsocketEvent::Fen { id: GameId(id), lm, fen, wc, bc }))
}

/// Decodes one inbound text frame, exactly as [`decoded`] says: the literal
/// `"0"` is the heartbeat, a protocol no-op that yields no event; anything
/// else must be a tagged JSON envelope whose tag names a known event, else
/// decoding fails with the reason.
pub fn decode_frame(t: &str) -> (r: Result<Option<LichessWebsocketEvent>, DecodeError>)
    ensures
        t@ == "0"@ <==> r == Ok::<Option<LichessWebsocketEvent>, DecodeError>(None),
        match r {
            Ok(ev) => match ev {
                None => decoded(t@) == Ok::<Option<WsEventView>, DecodeError>(None),
                Some(e) => decoded(t@) == Ok::<Option<WsEventView>, DecodeError>(
                    Some(e.deep_view()),
                ),
            },
            Err(e) => decoded(t@) == Err::<Option<WsEventView>, DecodeError>(e),
        },
{
    proof {
        reveal_strlit("0");
    }
    let is_heartbeat = t.unicode_len() == 1 && t.get_char(0) == '0';
    if is_heartbeat {
        proof {
            assert(t@ =~= "0"@);
        }
        return Ok(None);
    }
    if !frame_json_ok(t) {
        return Err(DecodeError::InvalidJson);
    }
    let tag = match frame_tag(t) {
        Some(x) => x,
        None => {
            return Err(DecodeError::MissingTag);
        },
    };
    if !frame_has_payload(t) {
        return Err(DecodeError::MissingPayload);
    }
    if tag == "finish".to_owned() {
        decode_finish(t)
    } else if tag == "fen".to_owned() {
        decode_fen(t)
    } else {
        Err(DecodeError::UnknownTag)
    }
}

} // verus!
