//! Target identifiers: fixed-size binary tokens (program public keys), held
//! as plain bytes and compared byte for byte. The canonical textual form is
//! the domain's base58 rendering, reached through the public-key type of the
//! chain's own library.

use vstd::prelude::*;
use core::str::FromStr;

verus! {

/// What `Pubkey::from_str` returns for a given string: the 32 decoded bytes
/// exactly on well-formed base58 renderings of a key, nothing otherwise.
pub uninterp spec fn base58_decoded(s: Seq<char>) -> Option<Seq<u8>>;

/// The base58 rendering that `Pubkey`'s `Display` gives to 32 key bytes.
pub uninterp spec fn base58_encoded(b: Seq<u8>) -> Seq<char>;

/// Relies on `solana_program::pubkey::Pubkey::from_str`: decodes the base58
/// string form of a 32-byte public key, rejecting any string of the wrong
/// decoded length or with characters outside the base58 alphabet.
#[verifier::external_body]
fn parse_key_bytes(s: &str) -> (r: Option<Vec<u8>>)
    ensures
        r is Some <==> base58_decoded(s@) is Some,
        r is Some ==> r.unwrap()@ == base58_decoded(s@).unwrap(),
        r is Some ==> r.unwrap()@.len() == 32,
{
    match solana_program::pubkey::Pubkey::from_str(s) {
        Ok(key) => Some(key.to_bytes().to_vec()),
        Err(_) => None,
    }
}

/// Relies on `solana_program::pubkey::Pubkey`'s `Display`: the canonical
/// base58 rendering of the 32 key bytes.
#[verifier::external_body]
fn encode_key_bytes(b: &Vec<u8>) -> (r: String)
    requires
        b@.len() == 32,
    ensures
        r@ == base58_encoded(b@),
{
    let mut array = [0u8; 32];
    array.copy_from_slice(b);
    solana_program::pubkey::Pubkey::new_from_array(array).to_string()
}

/// A fixed-size binary identifier. No internal structure is interpreted:
/// it is an opaque, comparable token.
#[derive(Debug, Clone)]
pub struct Identifier {
    bytes: Vec<u8>,
}

impl View for Identifier {
    type V = Seq<u8>;

    closed spec fn view(&self) -> Seq<u8> {
        self.bytes@
    }
}

impl Identifier {
    /// A well-formed identifier holds exactly the fixed number of key bytes.
    pub open spec fn wf(self) -> bool {
        self@.len() == 32
    }

    /// Decodes the canonical base58 string form of an identifier. Returns
    /// `None` for every string that is not a well-formed rendering of a
    /// 32-byte key: an invalid string never yields a silently-wrong value.
    pub fn decode(s: &str) -> (r: Option<Identifier>)
        ensures
            r is Some <==> base58_decoded(s@) is Some,
            r is Some ==> r.unwrap()@ == base58_decoded(s@).unwrap(),
            r is Some ==> r.unwrap().wf(),
    {
        match parse_key_bytes(s) {
            Some(bytes) => Some(Identifier { bytes }),
            None => None,
        }
    }

    /// Renders the identifier in its canonical base58 form.
    pub fn encode(&self) -> (r: String)
        requires
            self.wf(),
        ensures
            r@ == base58_encoded(self@),
    {
        encode_key_bytes(&self.bytes)
    }

    /// Builds an identifier directly from its bytes.
    pub fn from_bytes(bytes: Vec<u8>) -> (r: Option<Identifier>)
        ensures
            r is Some <==> bytes@.len() == 32,
            r is Some ==> r.unwrap()@ == bytes@,
    {
        if bytes.len() == 32 {
            Some(Identifier { bytes })
        } else {
            None
        }
    }

    /// The identifier's bytes.
    pub fn as_bytes(&self) -> (r: &Vec<u8>)
        ensures
            r@ == self@,
    {
        &self.bytes
    }

    /// Byte-for-byte comparison of two identifiers.
    pub fn equals(&self, other: &Identifier) -> (r: bool)
        ensures
            r == (self@ == other@),
    {
        if self.bytes.len() != other.bytes.len() {
            return false;
        }
        let mut i: usize = 0;
        while i < self.bytes.len()
            invariant
                i <= self.bytes@.len(),
                self.bytes@.len() == other.bytes@.len(),
                forall|j: int| 0 <= j < i ==> self.bytes@[j] == other.bytes@[j],
            decreases self.bytes@.len() - i,
        {
            if self.bytes[i] != other.bytes[i] {
                return false;
            }
            i = i + 1;
        }
        proof {
            assert(self@ =~= other@);
        }
        true
    }
}

} // verus!
