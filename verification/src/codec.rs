//! Byte-level helpers: decimal rendering of small integers and UTF-8
//! encoding of a single character.

use vstd::prelude::*;
use vstd::string::StrSliceExecFns;

verus! {

/// The ASCII decimal digits of `n`, most significant first.
pub open spec fn spec_dec_digits(n: nat) -> Seq<u8>
    decreases n,
{
    if n < 10 {
        seq![(48 + n) as u8]
    } else {
        spec_dec_digits(n / 10) + seq![(48 + n % 10) as u8]
    }
}

/// Append the ASCII decimal digits of `n` to `out`.
pub fn push_dec_digits(n: u64, out: &mut Vec<u8>)
    ensures
        final(out)@ == old(out)@ + spec_dec_digits(n as nat),
    decreases n,
{
    if n < 10 {
        out.push((48 + n) as u8);
    } else {
        push_dec_digits(n / 10, out);
        out.push((48 + n % 10) as u8);
        assert(out@ =~= old(out)@ + spec_dec_digits(n as nat));
    }
}

/// The UTF-8 encoding of the character `c`, one to four bytes.
pub open spec fn spec_utf8_encode(c: char) -> Seq<u8> {
    let u = c as u32;
    if u < 0x80 {
        seq![u as u8]
    } else if u < 0x800 {
        seq![(0xC0 | (u >> 6)) as u8, (0x80 | (u & 0x3F)) as u8]
    } else if u < 0x10000 {
        seq![
            (0xE0 | (u >> 12)) as u8,
            (0x80 | ((u >> 6) & 0x3F)) as u8,
            (0x80 | (u & 0x3F)) as u8,
        ]
    } else {
        seq![
            (0xF0 | (u >> 18)) as u8,
            (0x80 | ((u >> 12) & 0x3F)) as u8,
            (0x80 | ((u >> 6) & 0x3F)) as u8,
            (0x80 | (u & 0x3F)) as u8,
        ]
    }
}

/// The number of bytes of the UTF-8 encoding of `c`.
pub open spec fn spec_utf8_len(c: char) -> nat {
    spec_utf8_encode(c).len()
}

/// Encode the character `c` as UTF-8 bytes.
pub fn utf8_encode(c: char) -> (r: Vec<u8>)
    ensures
        r@ == spec_utf8_encode(c),
        1 <= r@.len() <= 4,
{
    let u = c as u32;
    let mut out: Vec<u8> = Vec::new();
    if u < 0x80 {
        out.push(u as u8);
        assert(out@ =~= spec_utf8_encode(c));
    } else if u < 0x800 {
        out.push((0xC0 | (u >> 6)) as u8);
        out.push((0x80 | (u & 0x3F)) as u8);
        assert(out@ =~= spec_utf8_encode(c));
    } else if u < 0x10000 {
        out.push((0xE0 | (u >> 12)) as u8);
        out.push((0x80 | ((u >> 6) & 0x3F)) as u8);
        out.push((0x80 | (u & 0x3F)) as u8);
        assert(out@ =~= spec_utf8_encode(c));
    } else {
        out.push((0xF0 | (u >> 18)) as u8);
        out.push((0x80 | ((u >> 12) & 0x3F)) as u8);
        out.push((0x80 | ((u >> 6) & 0x3F)) as u8);
        out.push((0x80 | (u & 0x3F)) as u8);
        assert(out@ =~= spec_utf8_encode(c));
    }
    out
}

/// The UTF-8 encoding of a character sequence: each character's bytes, in
/// order.
pub open spec fn spec_utf8_bytes(chars: Seq<char>) -> Seq<u8>
    decreases chars.len(),
{
    if chars.len() == 0 {
        Seq::empty()
    } else {
        spec_utf8_bytes(chars.drop_last()) + spec_utf8_encode(chars.last())
    }
}

/// Encode a string's characters as UTF-8 bytes.
pub fn utf8_bytes_of_str(s: &str) -> (r: Vec<u8>)
    ensures
        r@ == spec_utf8_bytes(s@),
{
    let n = s.unicode_len();
    let mut out: Vec<u8> = Vec::new();
    let mut i: usize = 0;
    while i < n
        invariant
            i <= n,
            n == s@.len(),
            out@ == spec_utf8_bytes(s@.take(i as int)),
        decreases n - i,
    {
        let c = s.get_char(i);
        let mut enc = utf8_encode(c);
        let ghost before = out@;
        out.append(&mut enc);
        proof {
            assert(s@.take(i + 1).drop_last() =~= s@.take(i as int));
            assert(s@.take(i + 1).last() == s@[i as int]);
            assert(out@ == before + spec_utf8_encode(s@[i as int]));
        }
        i = i + 1;
    }
    proof {
        assert(s@.take(s@.len() as int) =~= s@);
    }
    out
}

/// Copy a list of strings; the copy reads the same.
pub fn clone_strings(v: &Vec<String>) -> (r: Vec<String>)
    ensures
        r.deep_view() == v.deep_view(),
{
    let mut out: Vec<String> = Vec::new();
    let mut i: usize = 0;
    while i < v.len()
        invariant
            i <= v@.len(),
            out@.len() == i,
            forall|j: int| 0 <= j < i ==> #[trigger] out@[j]@ == v@[j]@,
        decreases v@.len() - i,
    {
        out.push(v[i].clone());
        i = i + 1;
    }
    proof {
        assert(out.deep_view() =~= v.deep_view());
    }
    out
}

/// The number of bytes `c` takes in UTF-8.
pub fn utf8_len(c: char) -> (r: usize)
    ensures
        r == spec_utf8_len(c),
{
    let u = c as u32;
    if u < 0x80 {
        1
    } else if u < 0x800 {
        2
    } else if u < 0x10000 {
        3
    } else {
        4
    }
}

} // verus!
