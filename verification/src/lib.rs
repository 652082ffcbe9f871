//! Cluster metrics aggregation: point-in-time validator state rendered as
//! labeled metric families in a line-oriented text exposition format.
//!
//! The library models ledger state per commitment level as plain data
//! (`Bank`), joins it with optional validator identity metadata, and emits a
//! fixed sequence of metric families to a caller-supplied sink. Every step —
//! lookup, record resolution, family assembly, text rendering, emission — is
//! specified and verified.

use vstd::prelude::*;
use vstd::std_specs::cmp::PartialEqSpec;

pub mod banks_with_commitments;
pub mod cluster_metrics;
pub mod identity_info;
pub mod laws;
pub mod text;
pub mod utils;

verus! {

/// A balance in the smallest native unit. One whole unit ("sol") is
/// `LAMPORTS_PER_SOL` of these.
#[derive(Clone, Copy, PartialEq, Eq, Structural)]
pub struct Lamports(pub u64);

impl View for Lamports {
    type V = u64;

    open spec fn view(&self) -> u64 {
        self.0
    }
}

/// A public key identifying an account, held as the opaque byte string the
/// embedder uses to display it. Keys are compared and rendered byte for byte.
pub struct Pubkey {
    pub bytes: Vec<u8>,
}

impl View for Pubkey {
    type V = Seq<u8>;

    open spec fn view(&self) -> Seq<u8> {
        self.bytes@
    }
}

impl Pubkey {
    pub fn new(bytes: Vec<u8>) -> (r: Pubkey)
        ensures
            r@ == bytes@,
    {
        Pubkey { bytes }
    }

    /// Byte equality of the two keys.
    pub fn key_eq(&self, other: &Pubkey) -> (r: bool)
        ensures
            r == (self@ == other@),
    {
        let r = self.bytes == other.bytes;
        proof {
            if self.bytes@ =~= other.bytes@ {
                assert(self.bytes.eq_spec(&other.bytes));
            }
            if self.bytes.eq_spec(&other.bytes) {
                assert(self.bytes@ =~= other.bytes@);
            }
        }
        r
    }
}

impl Clone for Pubkey {
    fn clone(&self) -> (r: Self)
        ensures
            r@ == self@,
    {
        Pubkey { bytes: vstd::slice::slice_to_vec(self.bytes.as_slice()) }
    }
}

} // verus!
