//! Byte-level helpers for the wire codec.
//!
//! Every multi-byte integer on the wire is little-endian.  String fields are
//! fixed-width: the UTF-8 bytes of the string, truncated to the field width or
//! padded with NUL bytes; a reader takes the whole field, checks it is valid
//! UTF-8 and trims the trailing NUL characters.

use vstd::prelude::*;

verus! {

use vstd::bytes::{
    spec_u16_to_le_bytes, spec_u16_from_le_bytes, u16_from_le_bytes, u16_to_le_bytes,
    spec_u32_to_le_bytes, spec_u32_from_le_bytes, u32_from_le_bytes, u32_to_le_bytes,
    spec_u128_to_le_bytes, spec_u128_from_le_bytes, u128_from_le_bytes, u128_to_le_bytes,
};
use vstd::slice::{slice_subrange, slice_to_vec};
use vstd::string::{StrSliceExecFns, StringExecFns};
use vstd::utf8::{valid_utf8, decode_utf8, encode_utf8, encode_scalar};

// ---------------------------------------------------------------------------
// Sequences of NUL bytes / NUL characters
// ---------------------------------------------------------------------------

/// `n` zero bytes.
pub open spec fn zero_bytes(n: int) -> Seq<u8> {
    Seq::new(n as nat, |i: int| 0u8)
}

/// `n` NUL characters.
pub open spec fn nul_chars(n: int) -> Seq<char> {
    Seq::new(n as nat, |i: int| '\0')
}

/// The UTF-8 encoding of `n` NUL characters is `n` zero bytes.
pub proof fn lemma_encode_nul_chars(n: int)
    requires
        n >= 0,
    ensures
        encode_utf8(nul_chars(n)) =~= zero_bytes(n),
    decreases n,
{
    if n > 0 {
        lemma_encode_nul_chars(n - 1);
        assert(('\0' as u32) == 0u32);
        assert((0u32 & 0x7F) == 0u32) by (bit_vector);
        assert(encode_scalar('\0' as u32) =~= seq![0u8]);
        assert(nul_chars(n).drop_first() =~= nul_chars(n - 1));
        assert(encode_utf8(nul_chars(n)) =~= seq![0u8] + zero_bytes(n - 1));
    } else {
        assert(nul_chars(0) =~= Seq::<char>::empty());
    }
}

/// UTF-8 encoding distributes over concatenation of character sequences.
pub proof fn lemma_encode_utf8_concat(a: Seq<char>, b: Seq<char>)
    ensures
        encode_utf8(a + b) =~= encode_utf8(a) + encode_utf8(b),
    decreases a.len(),
{
    if a.len() == 0 {
        assert(a + b =~= b);
    } else {
        lemma_encode_utf8_concat(a.drop_first(), b);
        assert((a + b).drop_first() =~= a.drop_first() + b);
        assert(encode_utf8(a + b) =~= encode_scalar(a[0] as u32) + encode_utf8(
            a.drop_first() + b,
        ));
    }
}

// ---------------------------------------------------------------------------
// Fixed-width fields
// ---------------------------------------------------------------------------

/// A byte string fitted to a field of `n` bytes: truncated if longer,
/// NUL-padded if shorter.
pub open spec fn spec_pad(s: Seq<u8>, n: int) -> Seq<u8> {
    if s.len() >= n {
        s.take(n)
    } else {
        s + zero_bytes(n - s.len())
    }
}

/// The wire form of a string field of width `n`.
pub open spec fn spec_str_field(s: Seq<char>, n: int) -> Seq<u8> {
    spec_pad(encode_utf8(s), n)
}

/// A fitted field always has exactly the declared width.
pub proof fn lemma_pad_len(s: Seq<u8>, n: int)
    requires
        n >= 0,
    ensures
        spec_pad(s, n).len() == n,
{
}

/// Trailing NUL characters dropped: what remains of a fixed-width field once
/// its padding is gone.
pub open spec fn trim_nuls(s: Seq<char>) -> Seq<char>
    decreases s.len(),
{
    if s.len() > 0 && s[s.len() - 1] == '\0' {
        trim_nuls(s.drop_last())
    } else {
        s
    }
}

/// What a reader makes of a string field: the whole field decoded as UTF-8
/// (`None` if it is not valid UTF-8) and trimmed of trailing NUL characters.
pub open spec fn spec_read_str_field(b: Seq<u8>) -> Option<Seq<char>> {
    if valid_utf8(b) {
        Some(trim_nuls(decode_utf8(b)))
    } else {
        None
    }
}

/// If the last `k` characters are NUL and the one before them is not (or the
/// sequence starts there), trimming drops exactly those `k`.
pub proof fn lemma_trim_nuls_at(s: Seq<char>, k: int)
    requires
        0 <= k <= s.len(),
        forall|j: int| s.len() - k <= j < s.len() ==> s[j] == '\0',
        k < s.len() ==> s[s.len() - k - 1] != '\0',
    ensures
        trim_nuls(s) =~= s.take(s.len() - k),
    decreases k,
{
    if k == 0 {
        if s.len() > 0 && s[s.len() - 1] == '\0' {
            assert(false);
        }
        assert(s.take(s.len() as int) =~= s);
    } else {
        lemma_trim_nuls_at(s.drop_last(), k - 1);
        assert(s.drop_last().take(s.len() - k) =~= s.take(s.len() - k));
    }
}

/// A string with no trailing NUL character comes back unchanged from its
/// padded field.
pub proof fn lemma_read_str_field_roundtrip(s: Seq<char>, n: int)
    requires
        encode_utf8(s).len() <= n,
        s.len() > 0 ==> s[s.len() - 1] != '\0',
    ensures
        spec_read_str_field(spec_str_field(s, n)) == Some(s),
{
    broadcast use vstd::utf8::encode_utf8_valid_utf8, vstd::utf8::encode_utf8_decode_utf8;

    let k = n - encode_utf8(s).len();
    lemma_encode_nul_chars(k);
    lemma_encode_utf8_concat(s, nul_chars(k));
    let padded = s + nul_chars(k);
    assert(spec_str_field(s, n) =~= encode_utf8(padded));
    assert(valid_utf8(encode_utf8(padded)));
    assert(decode_utf8(encode_utf8(padded)) == padded);
    // trimming the padding off `s + nuls` gives back `s`
    lemma_trim_nuls_at(padded, k);
    assert(padded.take(s.len() as int) =~= s);
}

// ---------------------------------------------------------------------------
// Little-endian integer reads and writes
// ---------------------------------------------------------------------------

/// Read a little-endian `u16` at `off`.
pub fn read_u16(buf: &[u8], off: usize) -> (x: u16)
    requires
        off + 2 <= buf@.len(),
    ensures
        x == spec_u16_from_le_bytes(buf@.subrange(off as int, off + 2)),
{
    let total: usize = buf.len();
    u16_from_le_bytes(slice_subrange(buf, off, off + 2))
}

/// Read a little-endian `u32` at `off`.
pub fn read_u32(buf: &[u8], off: usize) -> (x: u32)
    requires
        off + 4 <= buf@.len(),
    ensures
        x == spec_u32_from_le_bytes(buf@.subrange(off as int, off + 4)),
{
    let total: usize = buf.len();
    u32_from_le_bytes(slice_subrange(buf, off, off + 4))
}

/// Read a little-endian `u128` at `off`.
pub fn read_u128(buf: &[u8], off: usize) -> (x: u128)
    requires
        off + 16 <= buf@.len(),
    ensures
        x == spec_u128_from_le_bytes(buf@.subrange(off as int, off + 16)),
{
    let total: usize = buf.len();
    u128_from_le_bytes(slice_subrange(buf, off, off + 16))
}

/// Append a `u16` in little-endian order.
pub fn put_u16(buf: &mut Vec<u8>, x: u16)
    ensures
        final(buf)@ =~= old(buf)@ + spec_u16_to_le_bytes(x),
{
    let b = u16_to_le_bytes(x);
    buf.extend_from_slice(b.as_slice());
}

/// Append a `u32` in little-endian order.
pub fn put_u32(buf: &mut Vec<u8>, x: u32)
    ensures
        final(buf)@ =~= old(buf)@ + spec_u32_to_le_bytes(x),
{
    let b = u32_to_le_bytes(x);
    buf.extend_from_slice(b.as_slice());
}

/// Append a `u128` in little-endian order.
pub fn put_u128(buf: &mut Vec<u8>, x: u128)
    ensures
        final(buf)@ =~= old(buf)@ + spec_u128_to_le_bytes(x),
{
    let b = u128_to_le_bytes(x);
    buf.extend_from_slice(b.as_slice());
}

// ---------------------------------------------------------------------------
// String fields
// ---------------------------------------------------------------------------

/// Relies on `String::from_utf8`: it succeeds exactly on valid UTF-8 input
/// and yields the string whose characters are the decoded scalars.
#[verifier::external_body]
pub(crate) fn bytes_to_string(v: Vec<u8>) -> (r: Option<String>)
    ensures
        r is Some <==> valid_utf8(v@),
        r is Some ==> r.unwrap()@ == decode_utf8(v@),
{
    String::from_utf8(v).ok()
}

/// Trailing NUL characters trimmed off a string.
fn trim_nul_string(s: &String) -> (r: String)
    ensures
        r@ == trim_nuls(s@),
{
    let st = s.as_str();
    let len = st.unicode_len();
    let mut hi: usize = len;
    while hi > 0 && st.get_char(hi - 1) == '\0'
        invariant
            0 <= hi <= len,
            len == st@.len(),
            st@ == s@,
            forall|j: int| hi <= j < len ==> st@[j] == '\0',
        decreases hi,
    {
        hi = hi - 1;
    }
    proof {
        lemma_trim_nuls_at(s@, len - hi);
    }
    let sub = st.substring_char(0, hi);
    String::from_str(sub)
}

/// Read `n` bytes at `off` as UTF-8 text, untrimmed.
pub fn read_text(buf: &[u8], off: usize, n: usize) -> (r: Option<String>)
    requires
        off + n <= buf@.len(),
    ensures
        r is Some <==> valid_utf8(buf@.subrange(off as int, off + n)),
        r is Some ==> r.unwrap()@ == decode_utf8(buf@.subrange(off as int, off + n)),
{
    let total: usize = buf.len();
    bytes_to_string(slice_to_vec(slice_subrange(buf, off, off + n)))
}

/// Read a string field of `n` bytes at `off`: the whole field is decoded as
/// UTF-8 and trimmed of NUL characters; invalid UTF-8 is refused.
pub fn read_str_field(buf: &[u8], off: usize, n: usize) -> (r: Option<String>)
    requires
        off + n <= buf@.len(),
    ensures
        match spec_read_str_field(buf@.subrange(off as int, off + n)) {
            Some(s) => r is Some && r.unwrap()@ == s,
            None => r is None,
        },
{
    let total: usize = buf.len();
    let field = slice_to_vec(slice_subrange(buf, off, off + n));
    match bytes_to_string(field) {
        Some(s) => Some(trim_nul_string(&s)),
        None => None,
    }
}

/// Append a string fitted to a field of `n` bytes: its UTF-8 bytes, truncated
/// to `n` or padded with NUL bytes.
pub fn put_str_field(buf: &mut Vec<u8>, s: &str, n: usize)
    ensures
        final(buf)@ =~= old(buf)@ + spec_str_field(s@, n as int),
{
    let bytes = s.as_bytes();
    if bytes.len() >= n {
        buf.extend_from_slice(slice_subrange(bytes, 0, n));
        proof {
            assert(spec_str_field(s@, n as int) =~= bytes@.take(n as int));
        }
    } else {
        buf.extend_from_slice(bytes);
        let mut i: usize = bytes.len();
        while i < n
            invariant
                bytes@.len() <= i <= n,
                bytes@ == encode_utf8(s@),
                buf@ =~= old(buf)@ + bytes@ + zero_bytes(i - bytes@.len()),
            decreases n - i,
        {
            buf.push(0u8);
            proof {
                assert(buf@ =~= old(buf)@ + bytes@ + zero_bytes(i + 1 - bytes@.len()));
            }
            i = i + 1;
        }
        proof {
            assert(buf@ =~= old(buf)@ + spec_str_field(s@, n as int));
        }
    }
}

/// Append raw bytes.
pub fn put_bytes(buf: &mut Vec<u8>, b: &Vec<u8>)
    ensures
        final(buf)@ =~= old(buf)@ + b@,
{
    buf.extend_from_slice(b.as_slice());
}

/// Copy `n` bytes at `off` out into a fresh vector.
pub fn read_bytes_vec(buf: &[u8], off: usize, n: usize) -> (r: Vec<u8>)
    requires
        off + n <= buf@.len(),
    ensures
        r@ == buf@.subrange(off as int, off + n),
{
    let total: usize = buf.len();
    slice_to_vec(slice_subrange(buf, off, off + n))
}

} // verus!
