//! The snapshot and the wire message that carries it to clients: one JSON
//! object with the fields `clients_count`, `dateTime` and `is_up`, in that
//! order and without white space.

use crate::clock::{iso8601_text, Timestamp};
use vstd::prelude::*;

verus! {

/// One status value. A snapshot is built once per publish cycle and never
/// changed; a later one supersedes it.
#[derive(Clone, Copy, Debug, PartialEq, Eq, Structural)]
pub struct Snapshot {
    /// How many clients were connected when the snapshot was taken.
    pub connected_clients: u64,
    /// When the snapshot was taken.
    pub timestamp: Timestamp,
    /// Whether the health probe of this cycle completed.
    pub upstream_healthy: bool,
}

/// Why a snapshot has no wire message.
#[derive(Clone, Copy, Debug, PartialEq, Eq, Structural)]
pub enum EncodeError {
    /// The timestamp lies outside the dates that can be written.
    TimestampOutOfRange,
    /// The JSON writer refused the timestamp text. It has no reason to:
    /// this stands for an error that is not expected to occur.
    Serialization,
}

/// The decimal digit `d`, for `d` below ten.
pub open spec fn digit_char(d: nat) -> char {
    if d == 0 {
        '0'
    } else if d == 1 {
        '1'
    } else if d == 2 {
        '2'
    } else if d == 3 {
        '3'
    } else if d == 4 {
        '4'
    } else if d == 5 {
        '5'
    } else if d == 6 {
        '6'
    } else if d == 7 {
        '7'
    } else if d == 8 {
        '8'
    } else {
        '9'
    }
}

/// `n` in decimal, without sign or leading zeros.
pub open spec fn decimal(n: nat) -> Seq<char>
    decreases n,
{
    if n < 10 {
        seq![digit_char(n)]
    } else {
        decimal(n / 10).push(digit_char(n % 10))
    }
}

/// `true` or `false`, as JSON spells them.
pub open spec fn json_bool(flag: bool) -> Seq<char> {
    if flag {
        "true"@
    } else {
        "false"@
    }
}

/// The wire message of a snapshot with `clients` connected clients and health
/// flag `healthy`, whose timestamp is the JSON string `quoted_time`.
pub open spec fn wire_text(clients: nat, quoted_time: Seq<char>, healthy: bool) -> Seq<char> {
    "{\"clients_count\":"@ + decimal(clients) + ",\"dateTime\":"@ + quoted_time + ",\"is_up\":"@
        + json_bool(healthy) + "}"@
}

/// The hexadecimal digit `d` in lower case, for `d` below sixteen.
pub open spec fn hex_char(d: nat) -> char {
    if d < 10 {
        digit_char(d)
    } else if d == 10 {
        'a'
    } else if d == 11 {
        'b'
    } else if d == 12 {
        'c'
    } else if d == 13 {
        'd'
    } else if d == 14 {
        'e'
    } else {
        'f'
    }
}

/// What stands for `c` inside a JSON string: a backslash and a letter for
/// the quote, the backslash and the five control characters that have one,
/// `\u00` and two hexadecimal digits for the other characters below the
/// space, and `c` itself for every other character.
pub open spec fn json_escape(c: char) -> Seq<char> {
    if c == '"' {
        seq!['\\', '"']
    } else if c == '\\' {
        seq!['\\', '\\']
    } else if c == '\u{08}' {
        seq!['\\', 'b']
    } else if c == '\t' {
        seq!['\\', 't']
    } else if c == '\n' {
        seq!['\\', 'n']
    } else if c == '\u{0c}' {
        seq!['\\', 'f']
    } else if c == '\r' {
        seq!['\\', 'r']
    } else if (c as u32) < 0x20 {
        seq!['\\', 'u', '0', '0', hex_char((c as u32 / 16) as nat), hex_char((c as u32 % 16) as nat)]
    } else {
        seq![c]
    }
}

/// `text` with each character as it stands inside a JSON string.
pub open spec fn json_escaped(text: Seq<char>) -> Seq<char>
    decreases text.len(),
{
    if text.len() == 0 {
        Seq::empty()
    } else {
        json_escaped(text.drop_last()) + json_escape(text.last())
    }
}

/// The JSON string literal of `text`: `text`, escaped, between double
/// quotes.
pub open spec fn json_string(text: Seq<char>) -> Seq<char> {
    seq!['"'] + json_escaped(text) + seq!['"']
}

#[verifier::external_type_specification]
#[verifier::external_body]
pub struct ExJsonError(serde_json::Error);

/// Calls `serde_json::to_string` on a string slice. On a string slice the
/// call has no failing path: the slice's `Serialize` only forwards to the
/// serializer's `serialize_str`, which writes into a byte vector. The result
/// is the JSON string literal of `text`, with the escapes of serde_json's
/// compact writer: it escapes the quote, the backslash and the characters
/// below the space, and nothing else.
#[verifier::external_body]
fn json_quote(text: &str) -> (quoted: Result<String, serde_json::Error>)
    ensures
        quoted is Ok,
        quoted matches Ok(literal) ==> literal@ == json_string(text@),
{
    serde_json::to_string(text)
}

fn digit_text(d: u64) -> (text: &'static str)
    requires
        d < 10,
    ensures
        text@ == seq![digit_char(d as nat)],
{
    proof {
        reveal_strlit("0");
        reveal_strlit("1");
        reveal_strlit("2");
        reveal_strlit("3");
        reveal_strlit("4");
        reveal_strlit("5");
        reveal_strlit("6");
        reveal_strlit("7");
        reveal_strlit("8");
        reveal_strlit("9");
    }
    let text = if d == 0 {
        "0"
    } else if d == 1 {
        "1"
    } else if d == 2 {
        "2"
    } else if d == 3 {
        "3"
    } else if d == 4 {
        "4"
    } else if d == 5 {
        "5"
    } else if d == 6 {
        "6"
    } else if d == 7 {
        "7"
    } else if d == 8 {
        "8"
    } else {
        "9"
    };
    assert(text@ =~= seq![digit_char(d as nat)]);
    text
}

/// Writes `n` in decimal.
pub fn decimal_text(n: u64) -> (text: String)
    ensures
        text@ == decimal(n as nat),
    decreases n,
{
    if n < 10 {
        digit_text(n).to_owned()
    } else {
        let mut text = decimal_text(n / 10);
        text.append(digit_text(n % 10));
        assert(text@ =~= decimal(n as nat));
        text
    }
}

/// Frames the three fields of a wire message. `quoted_time` is taken as it
/// is: the caller hands in the timestamp as a finished JSON string.
pub fn frame(clients: u64, quoted_time: &str, healthy: bool) -> (message: String)
    ensures
        message@ == wire_text(clients as nat, quoted_time@, healthy),
{
    let mut message = "{\"clients_count\":".to_owned();
    let count = decimal_text(clients);
    message.append(count.as_str());
    message.append(",\"dateTime\":");
    message.append(quoted_time);
    message.append(",\"is_up\":");
    message.append(if healthy { "true" } else { "false" });
    message.append("}");
    message
}

/// The view of a text or an error in its place.
pub open spec fn message_view(message: Result<String, EncodeError>) -> Result<
    Seq<char>,
    EncodeError,
> {
    match message {
        Ok(text) => Ok(text@),
        Err(error) => Err(error),
    }
}

/// The timestamp `at` as a JSON string: its ISO-8601 text, quoted; the
/// timestamp error for an instant that has no text.
pub open spec fn quoted_time(at: Timestamp) -> Result<Seq<char>, EncodeError> {
    match at.iso8601() {
        None => Err(EncodeError::TimestampOutOfRange),
        Some(written) => Ok(json_string(written)),
    }
}

/// Writes `text` as a JSON string literal.
pub fn quote_text(text: &str) -> (quoted: Result<String, EncodeError>)
    ensures
        message_view(quoted) == Ok::<Seq<char>, EncodeError>(json_string(text@)),
{
    match json_quote(text) {
        Ok(literal) => Ok(literal),
        Err(_) => Err(EncodeError::Serialization),
    }
}

/// Writes `at` as a JSON string. This succeeds for every instant that has a
/// text, among them every instant of the years 1970 to 9999 that is no leap
/// second.
pub fn quote_timestamp(at: &Timestamp) -> (quoted: Result<String, EncodeError>)
    ensures
        message_view(quoted) == quoted_time(*at),
        at.is_plain() ==> quoted is Ok,
{
    match iso8601_text(at.secs, at.nanos) {
        None => Err(EncodeError::TimestampOutOfRange),
        Some(written) => quote_text(written.as_str()),
    }
}

/// The wire message of `snapshot` around the timestamp `quoted_time`, or the
/// error that stands in the timestamp's place.
pub open spec fn encoded(snapshot: Snapshot, quoted_time: Result<Seq<char>, EncodeError>)
    -> Result<Seq<char>, EncodeError> {
    match quoted_time {
        Ok(literal) => Ok(
            wire_text(snapshot.connected_clients as nat, literal, snapshot.upstream_healthy),
        ),
        Err(error) => Err(error),
    }
}

/// Encodes `snapshot`, given its timestamp as a JSON string or the reason
/// why there is none.
pub fn encode_with(snapshot: &Snapshot, quoted_time: Result<String, EncodeError>) -> (message:
    Result<String, EncodeError>)
    ensures
        message_view(message) == encoded(*snapshot, message_view(quoted_time)),
{
    match quoted_time {
        Ok(literal) => Ok(
            frame(snapshot.connected_clients, literal.as_str(), snapshot.upstream_healthy),
        ),
        Err(error) => Err(error),
    }
}

/// The wire message of `snapshot`, or the timestamp error where its instant
/// has no text.
pub open spec fn wire_message(snapshot: Snapshot) -> Result<Seq<char>, EncodeError> {
    encoded(snapshot, quoted_time(snapshot.timestamp))
}

/// Encodes `snapshot` as a wire message. This succeeds for every snapshot
/// whose timestamp has a text, among them every one taken in the years 1970
/// to 9999 outside a leap second.
pub fn encode(snapshot: &Snapshot) -> (message: Result<String, EncodeError>)
    ensures
        message_view(message) == wire_message(*snapshot),
        snapshot.timestamp.is_plain() ==> message is Ok,
{
    let quoted_time = quote_timestamp(&snapshot.timestamp);
    encode_with(snapshot, quoted_time)
}

} // verus!
