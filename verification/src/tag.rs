//! Locale-code canonicalization: the resolver accepts codes in the
//! underscore convention (`en_US`) as well as BCP-47 form (`en-US`), turns
//! underscores into hyphens, and pins the calendar by appending the Unicode
//! extension `-u-ca-gregory` before the code is parsed.

use vstd::prelude::*;

verus! {

/// Canonicalize one byte of a locale code: `_` becomes `-`, everything else
/// is kept.
pub open spec fn hyphenate(b: u8) -> u8 {
    if b == 95 {
        45
    } else {
        b
    }
}

/// The bytes of the Unicode extension suffix `-u-ca-gregory` that pins the
/// calendar to Gregorian.
pub open spec fn gregorian_suffix() -> Seq<u8> {
    seq![45u8, 117u8, 45u8, 99u8, 97u8, 45u8, 103u8, 114u8, 101u8, 103u8, 111u8, 114u8, 121u8]
}

/// The canonical locale tag submitted to the parser: the code with
/// underscores hyphenated, followed by `-u-ca-gregory`.
pub open spec fn gregorian_tag(code: Seq<u8>) -> Seq<u8> {
    code.map_values(|b: u8| hyphenate(b)) + gregorian_suffix()
}

/// Build the canonical Gregorian-pinned locale tag for a locale code.
pub fn gregorian_tag_bytes(code: &Vec<u8>) -> (r: Vec<u8>)
    ensures
        r@ == gregorian_tag(code@),
{
    let mut out: Vec<u8> = Vec::new();
    let n = code.len();
    let mut i: usize = 0;
    while i < n
        invariant
            i <= n,
            n == code@.len(),
            out@ == code@.take(i as int).map_values(|b: u8| hyphenate(b)),
        decreases n - i,
    {
        let b = code[i];
        if b == 95 {
            out.push(45);
        } else {
            out.push(b);
        }
        proof {
            assert(out@ =~= code@.take(i + 1).map_values(|b: u8| hyphenate(b)));
        }
        i = i + 1;
    }
    proof {
        assert(code@.take(n as int) =~= code@);
    }
    out.push(45);
    out.push(117);
    out.push(45);
    out.push(99);
    out.push(97);
    out.push(45);
    out.push(103);
    out.push(114);
    out.push(101);
    out.push(103);
    out.push(111);
    out.push(114);
    out.push(121);
    proof {
        assert(out@ =~= gregorian_tag(code@));
    }
    out
}

} // verus!
