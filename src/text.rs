//! Message payloads: bounding a raw read, decoding UTF-8 text, recognising
//! the termination sentinel.
use vstd::prelude::*;
use vstd::utf8::{decode_utf8, valid_utf8};

verus! {

/// The payload that asks a framed session to close instead of replying.
pub const TERMINATE_CONN_COMMAND: &'static str = "TERMINATE_CONN";

/// Read buffer of the raw server that answers with a fixed greeting.
pub const GREETING_SERVER_BUFFER: usize = 100;

/// Read buffer of the raw client that sends a fixed request.
pub const FIXED_CLIENT_BUFFER: usize = 1000;

/// Read buffer of the interactive endpoints, for the network and for operator input.
pub const INTERACTIVE_BUFFER: usize = 3000;

/// The characters of the termination sentinel.
pub open spec fn sentinel_text() -> Seq<char> {
    TERMINATE_CONN_COMMAND@
}

/// What one read with a buffer of `bound` bytes takes from `incoming`.
pub open spec fn bounded(incoming: Seq<u8>, bound: nat) -> Seq<u8> {
    if incoming.len() <= bound {
        incoming
    } else {
        incoming.take(bound as int)
    }
}

/// An operator's line without its line terminator.
pub open spec fn without_newline(line: Seq<u8>) -> Seq<u8> {
    if line.len() > 0 && line.last() == 10u8 {
        line.drop_last()
    } else {
        line
    }
}

/// Relies on `String::from_utf8`: it succeeds exactly on valid UTF-8 and
/// keeps the characters that the bytes encode.
#[verifier::external_body]
fn utf8_string(bytes: Vec<u8>) -> (r: Option<String>)
    ensures
        r is Some <==> valid_utf8(bytes@),
        r matches Some(s) ==> s@ == decode_utf8(bytes@),
{
    String::from_utf8(bytes).ok()
}

/// Decodes a payload as UTF-8 text; `None` exactly when it is not valid UTF-8.
pub fn decode_payload(bytes: Vec<u8>) -> (r: Option<String>)
    ensures
        r is Some <==> valid_utf8(bytes@),
        r matches Some(s) ==> s@ == decode_utf8(bytes@),
{
    utf8_string(bytes)
}

/// Whether a decoded payload is the termination sentinel.
pub fn is_sentinel(text: &String) -> (r: bool)
    ensures
        r == (text@ == sentinel_text()),
{
    let sentinel: String = TERMINATE_CONN_COMMAND.to_owned();
    *text == sentinel
}

/// The message that one read with a buffer of `bound` bytes delivers: all of
/// `incoming` when it fits, else exactly its first `bound` bytes.
pub fn bounded_message(incoming: &Vec<u8>, bound: usize) -> (r: Vec<u8>)
    ensures
        r@ == bounded(incoming@, bound as nat),
        r@.len() <= bound,
{
    let n: usize = if incoming.len() <= bound { incoming.len() } else { bound };
    let mut r: Vec<u8> = Vec::with_capacity(n);
    let mut i: usize = 0;
    while i < n
        invariant
            n <= incoming.len(),
            n <= bound,
            i <= n,
            r@ == incoming@.take(i as int),
        decreases n - i,
    {
        r.push(incoming[i]);
        i = i + 1;
        assert(r@ =~= incoming@.take(i as int));
    }
    assert(r@ =~= bounded(incoming@, bound as nat));
    r
}

/// The payload of an operator's line: the line without one trailing `\n`.
pub fn line_payload(line: &Vec<u8>) -> (r: Vec<u8>)
    ensures
        r@ == without_newline(line@),
{
    let n: usize = if line.len() > 0 && line[line.len() - 1] == 10u8 {
        line.len() - 1
    } else {
        line.len()
    };
    let mut r: Vec<u8> = Vec::with_capacity(n);
    let mut i: usize = 0;
    while i < n
        invariant
            n <= line.len(),
            i <= n,
            r@ == line@.take(i as int),
        decreases n - i,
    {
        r.push(line[i]);
        i = i + 1;
        assert(r@ =~= line@.take(i as int));
    }
    assert(r@ =~= without_newline(line@));
    r
}

} // verus!
