//! The tunnel-chaining handshake.
//!
//! A chained relay node reads one wire record per connection: a 2-byte
//! big-endian length N followed by N bytes of UTF-8 text "host:port", the
//! destination it must connect to before relaying. The HTTP proxy's
//! chaining client writes exactly the record this node expects to read;
//! [`lemma_handshake_round_trip`] proves the two sides agree.

use vstd::prelude::*;
use vstd::utf8::{decode_utf8, encode_utf8, valid_utf8};

use crate::errors::{ProtocolViolation, SessionError};
use crate::text::{bytes_to_string, push_bytes};

verus! {

/// The longest target a handshake record can carry: the length prefix is
/// two bytes.
pub const MAX_TARGET_LEN: usize = 0xFFFF;

/// The handshake record announcing a target of `addr.len()` bytes: the
/// length in big-endian order, then the bytes themselves.
pub open spec fn spec_handshake(addr: Seq<u8>) -> Seq<u8>
    recommends
        addr.len() <= MAX_TARGET_LEN,
{
    seq![(addr.len() / 256) as u8, (addr.len() % 256) as u8] + addr
}

/// Encodes the handshake record for a target given as bytes. A target too
/// long for the 2-byte length prefix cannot be represented and is refused.
pub fn encode_handshake(addr: &Vec<u8>) -> (r: Option<Vec<u8>>)
    ensures
        addr@.len() <= MAX_TARGET_LEN ==> (match r {
            Some(m) => m@ == spec_handshake(addr@),
            None => false,
        }),
        addr@.len() > MAX_TARGET_LEN ==> r is None,
{
    if addr.len() > MAX_TARGET_LEN {
        return None;
    }
    let n: u16 = addr.len() as u16;
    let mut m: Vec<u8> = Vec::new();
    m.push((n / 256) as u8);
    m.push((n % 256) as u8);
    push_bytes(&mut m, addr);
    proof {
        assert(m@ =~= spec_handshake(addr@));
    }
    Some(m)
}

/// Encodes the handshake record for a target given as text ("host:port"),
/// measured in UTF-8 bytes.
pub fn encode_handshake_for(target: &String) -> (r: Option<Vec<u8>>)
    ensures
        encode_utf8(target@).len() <= MAX_TARGET_LEN ==> (match r {
            Some(m) => m@ == spec_handshake(encode_utf8(target@)),
            None => false,
        }),
        encode_utf8(target@).len() > MAX_TARGET_LEN ==> r is None,
{
    let bytes = vstd::slice::slice_to_vec(target.as_str().as_bytes());
    encode_handshake(&bytes)
}

/// The target length announced by the record's first two bytes.
pub fn handshake_len(hi: u8, lo: u8) -> (r: u16)
    ensures
        r == hi as int * 256 + lo as int,
{
    (hi as u16) * 256 + (lo as u16)
}

/// Validates the target bytes that followed the length prefix: they must
/// be UTF-8 text naming the destination; anything else aborts the
/// connection.
pub fn parse_handshake_target(bytes: &Vec<u8>) -> (r: Result<String, SessionError>)
    ensures
        (r is Ok) == valid_utf8(bytes@),
        r matches Ok(s) ==> s@ == decode_utf8(bytes@),
        !valid_utf8(bytes@) ==> r == Err::<String, SessionError>(SessionError::Violation(
            ProtocolViolation::InvalidUtf8,
        )),
{
    match bytes_to_string(bytes) {
        Some(s) => Ok(s),
        None => Err(SessionError::Violation(ProtocolViolation::InvalidUtf8)),
    }
}

/// Writing a handshake record and reading it back yields the target
/// unchanged: the announced length is the target's byte count, and the
/// bytes after the prefix are the target itself.
pub proof fn lemma_handshake_round_trip(addr: Seq<u8>)
    requires
        addr.len() <= MAX_TARGET_LEN,
    ensures
        spec_handshake(addr).len() == 2 + addr.len(),
        (spec_handshake(addr)[0] as int) * 256 + (spec_handshake(addr)[1] as int) == addr.len(),
        spec_handshake(addr).skip(2) == addr,
{
    let m = spec_handshake(addr);
    vstd::arithmetic::div_mod::lemma_fundamental_div_mod(addr.len() as int, 256);
    assert(m.skip(2) =~= addr);
}

/// The round trip through the text layer: a target written as UTF-8 comes
/// back as the same text, because the bytes after the prefix are valid
/// UTF-8 and decode to the original characters.
pub proof fn lemma_handshake_round_trip_utf8(target: Seq<char>)
    requires
        encode_utf8(target).len() <= MAX_TARGET_LEN,
    ensures
        valid_utf8(spec_handshake(encode_utf8(target)).skip(2)),
        decode_utf8(spec_handshake(encode_utf8(target)).skip(2)) == target,
{
    lemma_handshake_round_trip(encode_utf8(target));
    vstd::utf8::encode_utf8_valid_utf8(target);
    vstd::utf8::encode_utf8_decode_utf8(target);
}

} // verus!
