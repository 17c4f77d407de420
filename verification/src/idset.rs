//! The set of target identifiers: built once from configuration strings at
//! startup, immutable afterwards, queried per notification.

use vstd::prelude::*;
use crate::errors::ConfigError;
use crate::ident::{base58_decoded, Identifier};

verus! {

/// An immutable collection of target identifiers. Built once by
/// [`IdentifierSet::build`]; only read afterwards, so concurrent queries need
/// no synchronization.
#[derive(Debug)]
pub struct IdentifierSet {
    ids: Vec<Identifier>,
}

impl View for IdentifierSet {
    type V = Seq<Seq<u8>>;

    closed spec fn view(&self) -> Seq<Seq<u8>> {
        self.ids@.map_values(|id: Identifier| id@)
    }
}

impl IdentifierSet {
    /// Every held identifier is well-formed.
    pub open spec fn wf(self) -> bool {
        forall|i: int| 0 <= i < self@.len() ==> (#[trigger] self@[i]).len() == 32
    }

    /// Whether `key` is one of the targets.
    pub open spec fn spec_contains(self, key: Seq<u8>) -> bool {
        exists|i: int| 0 <= i < self@.len() && self@[i] == key
    }

    /// Decodes each configured string into an identifier. Fails on the first
    /// string that is not a well-formed key rendering, and then produces no
    /// set at all: a partial target set never exists.
    pub fn build(raw: &Vec<String>) -> (r: Result<IdentifierSet, ConfigError>)
        ensures
            r is Ok <==> (forall|i: int|
                0 <= i < raw@.len() ==> base58_decoded(#[trigger] raw@[i]@) is Some),
            r is Ok ==> r.unwrap().wf(),
            r is Ok ==> r.unwrap()@.len() == raw@.len(),
            r is Ok ==> forall|i: int|
                0 <= i < raw@.len() ==> #[trigger] r.unwrap()@[i] == base58_decoded(
                    raw@[i]@,
                ).unwrap(),
            r is Err ==> r.unwrap_err().index < raw@.len(),
            r is Err ==> base58_decoded(raw@[r.unwrap_err().index as int]@) is None,
            r is Err ==> r.unwrap_err().input@ == raw@[r.unwrap_err().index as int]@,
            r is Err ==> forall|j: int|
                0 <= j < r.unwrap_err().index ==> base58_decoded(#[trigger] raw@[j]@) is Some,
    {
        let mut ids: Vec<Identifier> = Vec::new();
        let mut i: usize = 0;
        while i < raw.len()
            invariant
                i <= raw@.len(),
                ids@.len() == i,
                forall|j: int| 0 <= j < i ==> base58_decoded(#[trigger] raw@[j]@) is Some,
                forall|j: int| 0 <= j < i ==> (#[trigger] ids@[j]).wf(),
                forall|j: int|
                    0 <= j < i ==> (#[trigger] ids@[j])@ == base58_decoded(raw@[j]@).unwrap(),
            decreases raw@.len() - i,
        {
            match Identifier::decode(raw[i].as_str()) {
                Some(id) => {
                    ids.push(id);
                },
                None => {
                    return Err(ConfigError { index: i, input: raw[i].clone() });
                },
            }
            i = i + 1;
        }
        let set = IdentifierSet { ids };
        proof {
            assert(forall|j: int|
                0 <= j < raw@.len() ==> #[trigger] set@[j] == base58_decoded(raw@[j]@).unwrap());
        }
        Ok(set)
    }

    /// Pure membership query; safe for unsynchronized concurrent use because
    /// the set is never mutated after `build`.
    pub fn contains(&self, id: &Identifier) -> (r: bool)
        ensures
            r == self.spec_contains(id@),
    {
        let mut i: usize = 0;
        while i < self.ids.len()
            invariant
                i <= self.ids@.len(),
                forall|j: int| 0 <= j < i ==> self@[j] != id@,
            decreases self.ids@.len() - i,
        {
            if self.ids[i].equals(id) {
                proof {
                    assert(self@[i as int] == id@);
                }
                return true;
            }
            i = i + 1;
        }
        false
    }

    /// How many targets are configured.
    pub fn len(&self) -> (r: usize)
        ensures
            r == self@.len(),
    {
        self.ids.len()
    }
}

} // verus!
