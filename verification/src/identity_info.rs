//! Off-chain validator identity metadata: a lookup from a node identity key
//! to an optional display name.

use vstd::prelude::*;

use crate::Pubkey;
use crate::text::push_bytes;

verus! {

/// Descriptive metadata published for a validator identity.
pub struct ValidatorInfo {
    pub name: Vec<u8>,
}

/// Mathematical image of a `ValidatorInfo`.
pub struct ValidatorInfoV {
    pub name: Seq<u8>,
}

impl View for ValidatorInfo {
    type V = ValidatorInfoV;

    open spec fn view(&self) -> ValidatorInfoV {
        ValidatorInfoV { name: self.name@ }
    }
}

impl Clone for ValidatorInfo {
    fn clone(&self) -> (r: Self)
        ensures
            r@ == self@,
    {
        let mut name: Vec<u8> = Vec::new();
        push_bytes(&mut name, &self.name);
        ValidatorInfo { name }
    }
}

/// A read-only map from identity key to metadata; absence of an entry is a
/// normal outcome, not an error.
pub struct IdentityInfoMap {
    pub entries: Vec<(Pubkey, ValidatorInfo)>,
}

/// Mathematical image of an `IdentityInfoMap`.
pub struct IdentityInfoMapV {
    pub entries: Seq<(Seq<u8>, ValidatorInfoV)>,
}

impl View for IdentityInfoMap {
    type V = IdentityInfoMapV;

    open spec fn view(&self) -> IdentityInfoMapV {
        IdentityInfoMapV {
            entries: self.entries@.map_values(|p: (Pubkey, ValidatorInfo)| (p.0@, p.1@)),
        }
    }
}

/// The metadata recorded for `key`, if any: the first matching entry.
pub open spec fn spec_identity_info(info: IdentityInfoMapV, key: Seq<u8>) -> Option<ValidatorInfoV>
    decreases info.entries.len(),
{
    if info.entries.len() == 0 {
        None
    } else if info.entries[0].0 == key {
        Some(info.entries[0].1)
    } else {
        spec_identity_info(IdentityInfoMapV { entries: info.entries.drop_first() }, key)
    }
}

impl IdentityInfoMap {
    /// A map with no entries.
    pub fn new() -> (r: IdentityInfoMap)
        ensures
            r@.entries == Seq::<(Seq<u8>, ValidatorInfoV)>::empty(),
    {
        let r = IdentityInfoMap { entries: Vec::new() };
        proof {
            assert(r@.entries =~= Seq::<(Seq<u8>, ValidatorInfoV)>::empty());
        }
        r
    }

    /// The metadata recorded for `key`, if any.
    pub fn get(&self, key: &Pubkey) -> (r: Option<&ValidatorInfo>)
        ensures
            match r {
                Some(v) => spec_identity_info(self@, key@) == Some(v@),
                None => spec_identity_info(self@, key@) is None,
            },
    {
        let mut i: usize = 0;
        proof {
            assert(self@.entries.subrange(0, self@.entries.len() as int) =~= self@.entries);
        }
        loop
            invariant
                i <= self.entries.len(),
                spec_identity_info(self@, key@) == spec_identity_info(
                    (IdentityInfoMapV {
                        entries: self@.entries.subrange(i as int, self@.entries.len() as int),
                    }),
                    key@,
                ),
            decreases self.entries.len() - i,
        {
            let ghost rest = self@.entries.subrange(i as int, self@.entries.len() as int);
            if i >= self.entries.len() {
                proof {
                    assert(rest.len() == 0);
                }
                return None;
            }
            proof {
                assert(rest[0] == self@.entries[i as int]);
                assert(rest.drop_first() =~= self@.entries.subrange(
                    i + 1,
                    self@.entries.len() as int,
                ));
            }
            if self.entries[i].0.key_eq(key) {
                return Some(&self.entries[i].1);
            }
            i = i + 1;
        }
    }
}

} // verus!
