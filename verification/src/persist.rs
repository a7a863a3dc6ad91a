//! Shine persistence: the server's collected-shine set as a JSON array of
//! integer ids.
//!
//! Serialisation and parsing go through serde_json; writing and reading the
//! file is the caller's business.

use vstd::prelude::*;

verus! {

use crate::lobby::shine_set_insert;

/// The decimal digit character of a value below ten.
pub open spec fn spec_digit_char(d: int) -> char {
    if d == 0 {
        '0'
    } else if d == 1 {
        '1'
    } else if d == 2 {
        '2'
    } else if d == 3 {
        '3'
    } else if d == 4 {
        '4'
    } else if d == 5 {
        '5'
    } else if d == 6 {
        '6'
    } else if d == 7 {
        '7'
    } else if d == 8 {
        '8'
    } else {
        '9'
    }
}

/// The decimal spelling of a non-negative value, no leading zeros.
pub open spec fn spec_nat_decimal(n: int) -> Seq<char>
    decreases n,
{
    if n < 10 {
        seq![spec_digit_char(if n < 0 {
            0
        } else {
            n % 10
        })]
    } else {
        spec_nat_decimal(n / 10).push(spec_digit_char(n % 10))
    }
}

/// The decimal spelling of a signed 32-bit id.
pub open spec fn spec_i32_decimal(v: i32) -> Seq<char> {
    if v >= 0 {
        spec_nat_decimal(v as int)
    } else {
        seq!['-'] + spec_nat_decimal(-(v as int))
    }
}

/// The ids in decimal, comma-separated.
pub open spec fn spec_json_int_items(s: Seq<i32>) -> Seq<char>
    decreases s.len(),
{
    if s.len() == 0 {
        Seq::empty()
    } else if s.len() == 1 {
        spec_i32_decimal(s[0])
    } else {
        spec_i32_decimal(s[0]) + seq![','] + spec_json_int_items(s.drop_first())
    }
}

/// A compact JSON array of the ids, in order.
pub open spec fn spec_json_int_array(s: Seq<i32>) -> Seq<char> {
    seq!['['] + spec_json_int_items(s) + seq![']']
}

/// Relies on `serde_json::to_string` for a vector of `i32`: a compact JSON
/// array of the ids in decimal, in order (serialising plain integers cannot
/// fail).
#[verifier::external_body]
pub fn shine_json(v: &Vec<i32>) -> (r: String)
    ensures
        r@ == spec_json_int_array(v@),
{
    serde_json::to_string(v).expect("serialising a list of plain integers cannot fail")
}

/// What serde_json makes of a text as a list of integer ids; a fixed function
/// of the text alone.
pub uninterp spec fn json_shine_list(s: Seq<char>) -> Option<Seq<i32>>;

/// A parse result that honours the canonical form: whenever the text is
/// exactly the compact array of some id list, the result is that list.
pub open spec fn spec_parses_canonical(s: Seq<char>, r: Option<Vec<i32>>) -> bool {
    forall|l: Seq<i32>|
        s == spec_json_int_array(l) ==> (r matches Option::Some(v) && v@ == l)
}

/// Relies on `serde_json::from_str::<Vec<i32>>`: parses a JSON array of
/// integer ids, refusing anything else; in particular it accepts the compact
/// arrays `serde_json::to_string` writes and yields their ids back.
#[verifier::external_body]
fn parse_shine_json(s: &str) -> (r: Option<Vec<i32>>)
    ensures
        r is Some <==> json_shine_list(s@) is Some,
        r matches Option::Some(v) ==> (json_shine_list(s@) matches Option::Some(l) && v@ == l),
        spec_parses_canonical(s@, r),
{
    serde_json::from_str::<Vec<i32>>(s).ok()
}

/// A shine set loaded from persisted JSON: the parsed ids, each once; `None`
/// when the text does not parse as a list of ids.  A snapshot written by
/// [`shine_json`] loads back as the same set.
pub fn shines_from_json(s: &str) -> (r: Option<Vec<i32>>)
    ensures
        r is Some <==> json_shine_list(s@) is Some,
        r matches Option::Some(v) ==> {
            &&& v@.no_duplicates()
            &&& (json_shine_list(s@) matches Option::Some(l) && v@.to_set() == l.to_set())
        },
        forall|l: Seq<i32>|
            s@ == spec_json_int_array(l) ==> (r matches Option::Some(v) && v@.to_set()
                == l.to_set()),
{
    match parse_shine_json(s) {
        Some(parsed) => {
            let mut out: Vec<i32> = Vec::new();
            let mut i: usize = 0;
            while i < parsed.len()
                invariant
                    0 <= i <= parsed@.len(),
                    out@.no_duplicates(),
                    out@.to_set() == parsed@.take(i as int).to_set(),
                decreases parsed@.len() - i,
            {
                proof {
                    assert(parsed@.take(i + 1).drop_last() =~= parsed@.take(i as int));
                    parsed@.take(i + 1).drop_last().lemma_push_to_set_commute(
                        parsed@.take(i + 1).last(),
                    );
                    assert(parsed@.take(i + 1).drop_last().push(parsed@.take(i + 1).last())
                        =~= parsed@.take(i + 1));
                }
                shine_set_insert(&mut out, parsed[i]);
                i = i + 1;
            }
            proof {
                assert(parsed@.take(parsed@.len() as int) =~= parsed@);
            }
            Some(out)
        },
        None => None,
    }
}

} // verus!
