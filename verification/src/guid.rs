//! Player profile identity: a 16-byte opaque id.
//!
//! On the wire a guid is 16 raw bytes; internally it is held as the
//! little-endian interpretation of those bytes, so that equality is bytewise
//! and the value can key lookups directly.  The textual form is lower-case hex
//! with dashes after bytes 4, 6, 8 and 10; parsing accepts either case and
//! ignores dashes anywhere, as long as exactly 32 hex digits remain.

use vstd::prelude::*;

verus! {

use crate::packet::EncodingError;
use vstd::bytes::{spec_u128_to_le_bytes, spec_u128_from_le_bytes, u128_from_le_bytes,
    u128_to_le_bytes};
use vstd::string::{StrSliceExecFns, StringSliceAdditionalSpecFns};
use vstd::utf8::{decode_utf8, encode_scalar, encode_utf8, valid_utf8};

/// 16-byte opaque identity of a player profile.  `id` is the little-endian
/// interpretation of the 16 wire bytes; the all-zero guid is the valid
/// "server" sender.
#[derive(Clone, Copy, Debug, PartialEq, Eq, Structural)]
pub struct Guid {
    pub id: u128,
}

// ---------------------------------------------------------------------------
// Hex digits
// ---------------------------------------------------------------------------

/// An ASCII hex digit, either case.
pub open spec fn is_hex_digit(b: u8) -> bool {
    ||| (48 <= b <= 57)  // '0'..'9'
    ||| (65 <= b <= 70)  // 'A'..'F'
    ||| (97 <= b <= 102)  // 'a'..'f'
}

/// The value of an ASCII hex digit.
pub open spec fn spec_hex_val(b: u8) -> u8 {
    if 48 <= b <= 57 {
        (b - 48) as u8
    } else if 65 <= b <= 70 {
        (b - 65 + 10) as u8
    } else if 97 <= b <= 102 {
        (b - 97 + 10) as u8
    } else {
        0
    }
}

/// The lower-case ASCII hex digit of a value below 16.
pub open spec fn spec_hex_digit(n: u8) -> u8 {
    if n < 10 {
        (48 + n) as u8
    } else {
        (87 + n) as u8
    }
}

/// The bytes spelled by an even-length string of hex digits, high nibble
/// first.
pub open spec fn spec_hex_bytes(h: Seq<u8>) -> Seq<u8> {
    Seq::new((h.len() / 2) as nat, |i: int| (spec_hex_val(h[2 * i]) * 16 + spec_hex_val(h[2 * i + 1])) as u8)
}

/// Relies on `hex::decode`: it succeeds exactly on even-length input whose
/// bytes are all ASCII hex digits, and pairs of digits become bytes, high
/// nibble first.
#[verifier::external_body]
fn hex_decode_bytes(v: &Vec<u8>) -> (r: Option<Vec<u8>>)
    ensures
        r is Some <==> (v@.len() % 2 == 0 && (forall|i: int|
            0 <= i < v@.len() ==> is_hex_digit(v@[i]))),
        r is Some ==> r.unwrap()@ == spec_hex_bytes(v@),
{
    hex::decode(v.as_slice()).ok()
}

// ---------------------------------------------------------------------------
// Parsing and formatting
// ---------------------------------------------------------------------------

/// The bytes with every dash (ASCII 45) removed, order kept.
pub open spec fn strip_dashes(bs: Seq<u8>) -> Seq<u8>
    decreases bs.len(),
{
    if bs.len() == 0 {
        Seq::empty()
    } else if bs.last() != 45 {
        strip_dashes(bs.drop_last()).push(bs.last())
    } else {
        strip_dashes(bs.drop_last())
    }
}

/// What parsing the UTF-8 bytes of a guid string yields: drop dashes, require
/// exactly 32 hex digits, read the 16 bytes little-endian.
pub open spec fn spec_guid_parse(bs: Seq<u8>) -> Option<u128> {
    let h = strip_dashes(bs);
    if h.len() == 32 && (forall|i: int| 0 <= i < 32 ==> is_hex_digit(h[i])) {
        Option::Some(spec_u128_from_le_bytes(spec_hex_bytes(h)))
    } else {
        Option::None
    }
}

/// The textual form: two lower-case hex digits per byte, a dash after bytes
/// 4, 6, 8 and 10.
pub open spec fn spec_guid_bytes_string(g: u128) -> Seq<u8> {
    let b = spec_u128_to_le_bytes(g);
    spec_byte_hex(b[0]) + spec_byte_hex(b[1]) + spec_byte_hex(b[2]) + spec_byte_hex(b[3])
        + spec_byte_hex(b[4]) + seq![45u8] + spec_byte_hex(b[5]) + spec_byte_hex(b[6]) + seq![45u8]
        + spec_byte_hex(b[7]) + spec_byte_hex(b[8]) + seq![45u8] + spec_byte_hex(b[9])
        + spec_byte_hex(b[10]) + seq![45u8] + spec_byte_hex(b[11]) + spec_byte_hex(b[12])
        + spec_byte_hex(b[13]) + spec_byte_hex(b[14]) + spec_byte_hex(b[15])
}

/// Two lower-case hex digits of one byte.
pub open spec fn spec_byte_hex(b: u8) -> Seq<u8> {
    seq![spec_hex_digit(b / 16), spec_hex_digit((b % 16) as u8)]
}

impl Guid {
    /// The default/zero guid used by the server as sender.
    pub fn server() -> (r: Guid)
        ensures
            r.id == 0,
    {
        Guid { id: 0 }
    }

    /// The 16 wire bytes of this guid, little-endian.
    pub open spec fn bytes(self) -> Seq<u8> {
        spec_u128_to_le_bytes(self.id)
    }

    /// Parse the textual form: dashes are ignored, exactly 32 hex digits of
    /// either case must remain.
    pub fn from_str(s: &str) -> (r: Result<Guid, EncodingError>)
        ensures
            match spec_guid_parse(s.spec_bytes()) {
                Option::Some(g) => r matches Result::Ok(guid) && guid.id == g,
                Option::None => r == Result::<Guid, EncodingError>::Err(
                    EncodingError::CustomError,
                ),
            },
    {
        let bs = s.as_bytes_vec();
        let mut h: Vec<u8> = Vec::new();
        let mut i: usize = 0;
        while i < bs.len()
            invariant
                0 <= i <= bs@.len(),
                h@ == strip_dashes(bs@.take(i as int)),
            decreases bs@.len() - i,
        {
            proof {
                assert(bs@.take(i + 1).drop_last() =~= bs@.take(i as int));
                assert(bs@.take(i + 1).last() == bs@[i as int]);
            }
            let b = bs[i];
            if b != 45 {
                h.push(b);
            }
            i = i + 1;
        }
        proof {
            assert(bs@.take(bs@.len() as int) =~= bs@);
        }
        match hex_decode_bytes(&h) {
            Some(bytes) => {
                if bytes.len() == 16 {
                    let id = u128_from_le_bytes(bytes.as_slice());
                    proof {
                        assert(bytes@.subrange(0, 16) =~= bytes@);
                    }
                    Result::Ok(Guid { id })
                } else {
                    Result::Err(EncodingError::CustomError)
                }
            },
            None => Result::Err(EncodingError::CustomError),
        }
    }

    /// The textual form of this guid.
    pub fn to_hex_string(&self) -> (r: String)
        ensures
            encode_utf8(r@) == spec_guid_bytes_string(self.id),
    {
        let bytes = u128_to_le_bytes(self.id);
        let mut out: Vec<u8> = Vec::new();
        let mut i: usize = 0;
        while i < 16
            invariant
                0 <= i <= 16,
                bytes@ == spec_u128_to_le_bytes(self.id),
                bytes@.len() == 16,
                out@ =~= spec_guid_prefix(bytes@, i as int),
                forall|j: int| 0 <= j < out@.len() ==> out@[j] < 128,
            decreases 16 - i,
        {
            let b = bytes[i];
            out.push(hex_digit(b / 16));
            out.push(hex_digit(b % 16));
            if i == 4 || i == 6 || i == 8 || i == 10 {
                out.push(45);
            }
            proof {
                assert(out@ =~= spec_guid_prefix(bytes@, i + 1));
            }
            i = i + 1;
        }
        proof {
            lemma_guid_prefix_full(bytes@);
        }
        ascii_bytes_to_string(out)
    }
}

/// The first `i` bytes of a guid rendered as hex with the dashes that fall
/// inside that prefix.
pub open spec fn spec_guid_prefix(b: Seq<u8>, i: int) -> Seq<u8>
    decreases i,
{
    if i <= 0 {
        Seq::empty()
    } else {
        spec_guid_prefix(b, i - 1) + spec_byte_hex(b[i - 1]) + (
        if i - 1 == 4 || i - 1 == 6 || i - 1 == 8 || i - 1 == 10 {
            seq![45u8]
        } else {
            Seq::<u8>::empty()
        })
    }
}

/// The full prefix is the whole textual form.
proof fn lemma_guid_prefix_full(b: Seq<u8>)
    requires
        b.len() == 16,
    ensures
        spec_guid_prefix(b, 16) =~= spec_byte_hex(b[0]) + spec_byte_hex(b[1]) + spec_byte_hex(b[2])
            + spec_byte_hex(b[3]) + spec_byte_hex(b[4]) + seq![45u8] + spec_byte_hex(b[5])
            + spec_byte_hex(b[6]) + seq![45u8] + spec_byte_hex(b[7]) + spec_byte_hex(b[8])
            + seq![45u8] + spec_byte_hex(b[9]) + spec_byte_hex(b[10]) + seq![45u8] + spec_byte_hex(
            b[11],
        ) + spec_byte_hex(b[12]) + spec_byte_hex(b[13]) + spec_byte_hex(b[14]) + spec_byte_hex(
            b[15],
        ),
{
    reveal_with_fuel(spec_guid_prefix, 17);
}

/// The lower-case hex digit byte of a nibble.
fn hex_digit(n: u8) -> (r: u8)
    requires
        n < 16,
    ensures
        r == spec_hex_digit(n),
        r < 128,
{
    if n < 10 {
        48 + n
    } else {
        87 + n
    }
}

/// ASCII bytes (each below 128) become the string of exactly those
/// characters.
fn ascii_bytes_to_string(v: Vec<u8>) -> (r: String)
    requires
        forall|j: int| 0 <= j < v@.len() ==> v@[j] < 128,
    ensures
        encode_utf8(r@) == v@,
{
    proof {
        lemma_ascii_bytes_valid(v@);
        broadcast use vstd::utf8::decode_utf8_encode_utf8;

    }
    match crate::wire::bytes_to_string(v) {
        Some(s) => s,
        None => {
            proof {
                assert(false);
            }
            String::new()
        },
    }
}

/// A sequence of bytes below 128 is valid UTF-8 and decodes to one character
/// per byte.
proof fn lemma_ascii_bytes_valid(bs: Seq<u8>)
    requires
        forall|j: int| 0 <= j < bs.len() ==> bs[j] < 128,
    ensures
        valid_utf8(bs),
        encode_utf8(decode_utf8(bs)) == bs,
    decreases bs.len(),
{
    broadcast use vstd::utf8::decode_utf8_encode_utf8, vstd::utf8::char_u32_cast;

    if bs.len() > 0 {
        let b0 = bs[0];
        assert(b0 < 0x80);
        assert((b0 & 0x7F) == b0) by (bit_vector)
            requires
                b0 < 0x80,
        ;
        assert(vstd::utf8::length_of_first_scalar(bs) == 1);
        assert(vstd::utf8::pop_first_scalar(bs) =~= bs.drop_first());
        lemma_ascii_bytes_valid(bs.drop_first());
        assert(valid_utf8(bs));
        assert(decode_utf8(bs) =~= seq![
            vstd::utf8::decode_first_scalar(bs) as char,
        ] + decode_utf8(bs.drop_first()));
    }
}

} // verus!
