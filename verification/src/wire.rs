//! Byte-level building blocks for the wire encodings: ASCII literals and
//! decimal rendering of unsigned numbers.
use vstd::prelude::*;

verus! {

/// The bytes of an ASCII character sequence, one byte per character.
pub open spec fn spec_ascii(s: Seq<char>) -> Seq<u8> {
    Seq::new(s.len(), |i: int| s[i] as u8)
}

/// The bytes of an ASCII string slice.
pub fn ascii_bytes(s: &str) -> (v: Vec<u8>)
    requires
        s.is_ascii(),
    ensures
        v@ == spec_ascii(s@),
{
    proof {
        broadcast use vstd::string::is_ascii_spec_bytes;

    }
    let b: &[u8] = s.as_bytes();
    let v = vstd::slice::slice_to_vec(b);
    proof {
        assert(v@ =~= spec_ascii(s@));
    }
    v
}

/// The byte sequences held by a sequence of byte vectors.
pub open spec fn views_of(s: Seq<Vec<u8>>) -> Seq<Seq<u8>> {
    Seq::new(s.len(), |i: int| s[i]@)
}

/// The ASCII digit for a value below ten.
pub open spec fn spec_digit(d: int) -> u8
    recommends
        0 <= d < 10,
{
    (48 + d) as u8
}

/// The shortest decimal rendering of `n`: no leading zeros, and the single
/// digit `0` for zero.
pub open spec fn spec_decimal(n: int) -> Seq<u8>
    recommends
        n >= 0,
    decreases n,
{
    if n < 10 {
        seq![spec_digit(n)]
    } else {
        spec_decimal(n / 10).push(spec_digit(n % 10))
    }
}

/// Render `n` in decimal.
pub fn u64_to_decimal(n: u64) -> (r: Vec<u8>)
    ensures
        r@ == spec_decimal(n as int),
{
    let mut r: Vec<u8> = Vec::new();
    let mut cur: u64 = n;
    while cur >= 10
        invariant
            spec_decimal(n as int) =~= spec_decimal(cur as int) + r@,
        decreases cur,
    {
        let d: u8 = 48 + (cur % 10) as u8;
        let next: u64 = cur / 10;
        proof {
            assert(spec_decimal(cur as int) == spec_decimal(cur as int / 10).push(
                spec_digit(cur as int % 10),
            ));
            assert(spec_decimal(cur as int / 10).push(d) + r@ =~= spec_decimal(cur as int / 10) + (
            r@.insert(0, d)));
        }
        r.insert(0, d);
        cur = next;
    }
    let d: u8 = 48 + cur as u8;
    proof {
        assert(spec_decimal(cur as int) =~= seq![d]);
        assert(seq![d] + r@ =~= r@.insert(0, d));
    }
    r.insert(0, d);
    r
}

} // verus!
