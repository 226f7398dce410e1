//! The message envelope. A raw message is a byte string laid out as
//! version (1 byte), nonce (4), origin domain (4), sender (32),
//! destination domain (4, big-endian), recipient (32), body (rest).
//! The hook reads only the destination domain and the content-addressed
//! message identifier, the Keccak-256 digest of the whole envelope.

use vstd::prelude::*;
use vstd::string::StringExecFns;

use sha3::Digest;

use crate::error::ContractError;

verus! {

/// The number of bytes before the destination domain field.
pub const DEST_DOMAIN_OFFSET: usize = 41;

/// The number of bytes in a message envelope's fixed header.
pub const HEADER_LEN: usize = 77;

/// The value of four bytes read as a big-endian integer.
pub open spec fn spec_u32_be(b: Seq<u8>) -> u32
    recommends
        b.len() == 4,
{
    (b[0] * 0x1000000 + b[1] * 0x10000 + b[2] * 0x100 + b[3]) as u32
}

/// The destination domain carried by a raw message.
pub open spec fn spec_dest_domain(bytes: Seq<u8>) -> u32
    recommends
        bytes.len() >= HEADER_LEN,
{
    spec_u32_be(bytes.subrange(DEST_DOMAIN_OFFSET as int, DEST_DOMAIN_OFFSET + 4))
}

/// The Keccak-256 digest of a byte string.
pub uninterp spec fn keccak256_of(bytes: Seq<u8>) -> Seq<u8>;

/// Relies on sha3::Keccak256: a 32-byte digest determined by the input
/// bytes alone.
#[verifier::external_body]
fn keccak256(bytes: &[u8]) -> (r: Vec<u8>)
    ensures
        r@ == keccak256_of(bytes@),
        r@.len() == 32,
{
    let mut hasher = sha3::Keccak256::new();
    hasher.update(bytes);
    hasher.finalize().to_vec()
}

/// The character for one hexadecimal digit, lowercase.
pub open spec fn hex_digit(n: u8) -> char
    recommends
        n < 16,
{
    if n == 0 {
        '0'
    } else if n == 1 {
        '1'
    } else if n == 2 {
        '2'
    } else if n == 3 {
        '3'
    } else if n == 4 {
        '4'
    } else if n == 5 {
        '5'
    } else if n == 6 {
        '6'
    } else if n == 7 {
        '7'
    } else if n == 8 {
        '8'
    } else if n == 9 {
        '9'
    } else if n == 10 {
        'a'
    } else if n == 11 {
        'b'
    } else if n == 12 {
        'c'
    } else if n == 13 {
        'd'
    } else if n == 14 {
        'e'
    } else {
        'f'
    }
}

/// The lowercase hexadecimal spelling of a byte string, two characters
/// per byte.
pub open spec fn spec_hex(b: Seq<u8>) -> Seq<char>
    decreases b.len(),
{
    if b.len() == 0 {
        Seq::empty()
    } else {
        spec_hex(b.drop_last()) + seq![hex_digit(b.last() / 16), hex_digit(b.last() % 16)]
    }
}

/// The decimal spelling of a non-negative integer.
pub open spec fn spec_dec(n: int) -> Seq<char>
    recommends
        n >= 0,
    decreases n,
{
    if n < 10 {
        seq![hex_digit(n as u8)]
    } else {
        spec_dec(n / 10) + seq![hex_digit((n % 10) as u8)]
    }
}

/// The one-character string for a digit value below sixteen.
fn digit_str(n: u8) -> (r: &'static str)
    requires
        n < 16,
    ensures
        r@ == seq![hex_digit(n)],
{
    proof {
        reveal_strlit("0");
        reveal_strlit("1");
        reveal_strlit("2");
        reveal_strlit("3");
        reveal_strlit("4");
        reveal_strlit("5");
        reveal_strlit("6");
        reveal_strlit("7");
        reveal_strlit("8");
        reveal_strlit("9");
        reveal_strlit("a");
        reveal_strlit("b");
        reveal_strlit("c");
        reveal_strlit("d");
        reveal_strlit("e");
        reveal_strlit("f");
    }
    let r: &'static str = if n == 0 {
        "0"
    } else if n == 1 {
        "1"
    } else if n == 2 {
        "2"
    } else if n == 3 {
        "3"
    } else if n == 4 {
        "4"
    } else if n == 5 {
        "5"
    } else if n == 6 {
        "6"
    } else if n == 7 {
        "7"
    } else if n == 8 {
        "8"
    } else if n == 9 {
        "9"
    } else if n == 10 {
        "a"
    } else if n == 11 {
        "b"
    } else if n == 12 {
        "c"
    } else if n == 13 {
        "d"
    } else if n == 14 {
        "e"
    } else {
        "f"
    };
    assert(r@ =~= seq![hex_digit(n)]);
    r
}

/// Spells a byte string in lowercase hexadecimal.
pub fn hex_string(bytes: &Vec<u8>) -> (r: String)
    ensures
        r@ == spec_hex(bytes@),
{
    let mut out = String::new();
    let n = bytes.len();
    let mut i: usize = 0;
    while i < n
        invariant
            n == bytes@.len(),
            i <= n,
            out@ == spec_hex(bytes@.take(i as int)),
        decreases n - i,
    {
        let b = bytes[i];
        out.append(digit_str(b / 16));
        out.append(digit_str(b % 16));
        proof {
            let t = bytes@.take(i + 1);
            assert(t.drop_last() =~= bytes@.take(i as int));
            assert(t.last() == bytes@[i as int]);
        }
        i = i + 1;
    }
    proof {
        assert(bytes@.take(n as int) =~= bytes@);
    }
    out
}

/// Spells an integer in decimal.
pub fn dec_string(n: u32) -> (r: String)
    ensures
        r@ == spec_dec(n as int),
    decreases n,
{
    if n < 10 {
        String::from_str(digit_str(n as u8))
    } else {
        let mut out = dec_string(n / 10);
        out.append(digit_str((n % 10) as u8));
        out
    }
}

/// The two fields of a decoded message envelope that the hook reads.
#[derive(Debug)]
pub struct DecodedMessage {
    /// The destination domain, read big-endian from the header.
    pub dest_domain: u32,
    /// The Keccak-256 digest of the raw envelope.
    pub id: Vec<u8>,
}

/// Decodes a raw message envelope, accepting exactly the byte strings
/// long enough to hold the fixed header.
pub fn decode_message(bytes: &Vec<u8>) -> (r: Result<DecodedMessage, ContractError>)
    ensures
        r is Ok <==> bytes@.len() >= HEADER_LEN,
        r matches Ok(m) ==> m.dest_domain == spec_dest_domain(bytes@) && m.id@ == keccak256_of(
            bytes@,
        ),
        r matches Err(e) ==> e == ContractError::ValidationError,
{
    if bytes.len() < HEADER_LEN {
        return Err(ContractError::ValidationError);
    }
    let b0 = bytes[DEST_DOMAIN_OFFSET];
    let b1 = bytes[DEST_DOMAIN_OFFSET + 1];
    let b2 = bytes[DEST_DOMAIN_OFFSET + 2];
    let b3 = bytes[DEST_DOMAIN_OFFSET + 3];
    let dest_domain = (b0 as u32) * 0x1000000 + (b1 as u32) * 0x10000 + (b2 as u32) * 0x100 + (
    b3 as u32);
    proof {
        let f = bytes@.subrange(DEST_DOMAIN_OFFSET as int, DEST_DOMAIN_OFFSET + 4);
        assert(f[0] == bytes@[DEST_DOMAIN_OFFSET as int]);
        assert(f[1] == bytes@[DEST_DOMAIN_OFFSET + 1]);
        assert(f[2] == bytes@[DEST_DOMAIN_OFFSET + 2]);
        assert(f[3] == bytes@[DEST_DOMAIN_OFFSET + 3]);
    }
    let id = keccak256(bytes.as_slice());
    Ok(DecodedMessage { dest_domain, id })
}

} // verus!
