//! Byte-level text building blocks: copying literal text into byte vectors
//! and rendering unsigned integers in decimal, plain or zero-padded.
//!
//! All rendered output in this crate is a `Vec<u8>`, specified against
//! `Seq<u8>` spec functions defined here.

use vstd::prelude::*;
use vstd::string::StrSliceExecFns;
use vstd::string::StringSliceAdditionalSpecFns;

verus! {

/// The decimal digits of `n`, most significant first; `seq![48]` ("0") for 0.
pub open spec fn spec_dec(n: nat) -> Seq<u8>
    decreases n,
{
    if n < 10 {
        seq![(48 + n) as u8]
    } else {
        spec_dec(n / 10) + seq![(48 + n % 10) as u8]
    }
}

/// The low `width` decimal digits of `n`, zero padded to exactly `width`
/// bytes; the whole of `n` when `n < 10^width`.
pub open spec fn spec_dec_pad(n: nat, width: nat) -> Seq<u8>
    decreases width,
{
    if width == 0 {
        Seq::empty()
    } else {
        spec_dec_pad(n / 10, (width - 1) as nat) + seq![(48 + n % 10) as u8]
    }
}

/// The number a digit string denotes: the inverse reading of `spec_dec`.
pub open spec fn spec_dec_val(s: Seq<u8>) -> nat
    decreases s.len(),
{
    if s.len() == 0 {
        0
    } else {
        spec_dec_val(s.drop_last()) * 10 + (if s.last() >= 48 {
            (s.last() - 48) as nat
        } else {
            0
        })
    }
}

/// Reading back the decimal rendering of `n` yields `n`: the rendering is
/// faithful, so a series value carries exactly the raw integer.
pub proof fn lemma_dec_round_trip(n: nat)
    ensures
        spec_dec_val(spec_dec(n)) == n,
    decreases n,
{
    reveal_with_fuel(spec_dec_val, 3);
    if n < 10 {
        assert(spec_dec(n).drop_last() =~= Seq::<u8>::empty());
        assert(spec_dec(n).last() == (48 + n) as u8);
        assert(((48 + n) as u8) as nat == 48 + n);
    } else {
        lemma_dec_round_trip(n / 10);
        assert(spec_dec(n).drop_last() =~= spec_dec(n / 10));
        assert(spec_dec(n).last() == (48 + n % 10) as u8);
        assert(((48 + n % 10) as u8) as nat == 48 + n % 10);
        assert(n == (n / 10) * 10 + n % 10);
    }
}

/// Ten to the `w`.
pub open spec fn pow10(w: nat) -> nat
    decreases w,
{
    if w == 0 {
        1
    } else {
        10 * pow10((w - 1) as nat)
    }
}

/// Reading back the zero-padded rendering of `n < 10^width` yields `n`.
pub proof fn lemma_dec_pad_round_trip(n: nat, width: nat)
    requires
        n < pow10(width),
    ensures
        spec_dec_pad(n, width).len() == width,
        spec_dec_val(spec_dec_pad(n, width)) == n,
    decreases width,
{
    if width == 0 {
    } else {
        lemma_dec_pad_round_trip(n / 10, (width - 1) as nat);
        assert(spec_dec_pad(n, width).drop_last() =~= spec_dec_pad(n / 10, (width - 1) as nat));
    }
}

/// The bytes of a literal, as a fresh vector.
pub fn bytes_of(s: &str) -> (r: Vec<u8>)
    ensures
        r@ == s.spec_bytes(),
{
    s.as_bytes_vec()
}

/// Renders `n` in decimal, matching `spec_dec`.
pub fn dec_bytes(n: u64) -> (r: Vec<u8>)
    ensures
        r@ == spec_dec(n as nat),
    decreases n,
{
    if n < 10 {
        let mut r: Vec<u8> = Vec::new();
        r.push(48 + n as u8);
        proof {
            assert(r@ =~= spec_dec(n as nat));
        }
        r
    } else {
        let mut r = dec_bytes(n / 10);
        r.push(48 + (n % 10) as u8);
        proof {
            assert(r@ =~= spec_dec(n as nat));
        }
        r
    }
}

/// Renders the low `width` digits of `n`, zero padded, matching
/// `spec_dec_pad`.
pub fn dec_pad_bytes(n: u64, width: usize) -> (r: Vec<u8>)
    ensures
        r@ == spec_dec_pad(n as nat, width as nat),
    decreases width,
{
    if width == 0 {
        let r: Vec<u8> = Vec::new();
        proof {
            assert(r@ =~= spec_dec_pad(n as nat, width as nat));
        }
        r
    } else {
        let mut r = dec_pad_bytes(n / 10, width - 1);
        r.push(48 + (n % 10) as u8);
        proof {
            assert(r@ =~= spec_dec_pad(n as nat, width as nat));
        }
        r
    }
}

/// Copies `src` onto the end of `out`.
pub fn push_bytes(out: &mut Vec<u8>, src: &Vec<u8>)
    ensures
        final(out)@ == old(out)@ + src@,
{
    let mut copy = vstd::slice::slice_to_vec(src.as_slice());
    out.append(&mut copy);
}

} // verus!
