//! The registry: an ordered sequence of (public key, proof-of-knowledge)
//! pairs, each bound to its position, loaded from an opaque binary blob and
//! checked entry by entry against the proof-of-knowledge protocol.

use vstd::prelude::*;
use crate::field::in_field;
use crate::group::{G1Point, G2Point};
use crate::pok::{pok_valid, pok_verify};
use crate::Error;
use ark_serialize::CanonicalDeserialize;

verus! {

#[verifier::external_type_specification]
#[verifier::external_body]
pub struct ExSerializationError(ark_serialize::SerializationError);

/// One registry entry: a public key and the proof of knowledge binding it
/// to the entry's index.
pub struct RegistryEntry {
    pub key: G1Point,
    pub proof: G2Point,
}

impl View for RegistryEntry {
    type V = (int, int);

    open spec fn view(&self) -> (int, int) {
        (self.key@, self.proof@)
    }
}

impl RegistryEntry {
    pub open spec fn wf(self) -> bool {
        self.key.wf() && self.proof.wf()
    }

    pub fn new(key: G1Point, proof: G2Point) -> (r: RegistryEntry)
        ensures
            r@ == (key@, proof@),
            key.wf() && proof.wf() ==> r.wf(),
    {
        RegistryEntry { key, proof }
    }
}

/// An ordered registry of entries; an entry's index is its position.
pub struct Registry {
    pub entries: Vec<RegistryEntry>,
}

impl View for Registry {
    type V = Seq<(int, int)>;

    open spec fn view(&self) -> Seq<(int, int)> {
        self.entries@.map_values(|e: RegistryEntry| e@)
    }
}

/// The public-key exponents of a registry, in order.
pub open spec fn registry_keys(reg: Seq<(int, int)>) -> Seq<int> {
    reg.map_values(|e: (int, int)| e.0)
}

/// Entry `index` carries a proof of knowledge valid at its own position.
pub open spec fn entry_pok_valid(seed: u64, index: int, entry: (int, int)) -> bool {
    pok_valid(seed, entry.0, index, entry.1)
}

/// Every entry's proof of knowledge is valid at its own index.
pub open spec fn registry_valid(seed: u64, reg: Seq<(int, int)>) -> bool {
    forall|i: int| 0 <= i < reg.len() ==> entry_pok_valid(seed, i, reg[i])
}

/// What the registry's binary format parses to: `None` where the bytes are
/// malformed or truncated, else the parsed entries' exponents in order.  A
/// function of the bytes alone: parsing is deterministic.
pub uninterp spec fn parsed_registry(bytes: Seq<u8>) -> Option<Seq<(int, int)>>;

/// Relies on `CanonicalDeserialize::deserialize_uncompressed_unchecked`
/// for `Vec<(G1Affine, G2Affine)>`: parses the registry's binary format,
/// deterministically, failing on malformed or truncated input before any
/// entry is accepted; `parsed_registry` names what given bytes parse to.
/// The unchecked variant performs no subgroup validation; per the format
/// contract the blob holds well-formed group elements, each with a
/// canonical exponent.
#[verifier::external_body]
fn deserialize_entries(bytes: &[u8]) -> (r: Result<
    Registry,
    ark_serialize::SerializationError,
>)
    ensures
        r is Ok <==> parsed_registry(bytes@) is Some,
        r matches Ok(reg) ==> reg.wf() && Some(reg@) == parsed_registry(bytes@),
{
    let parsed: Result<Vec<(ark_bls12_381::G1Affine, ark_bls12_381::G2Affine)>, _> =
        CanonicalDeserialize::deserialize_uncompressed_unchecked(bytes);
    parsed.map(|v| Registry {
        entries: v.into_iter().map(
            |(key, proof)| RegistryEntry {
                key: G1Point { point: key },
                proof: G2Point { point: proof },
            },
        ).collect(),
    })
}

impl Registry {
    pub open spec fn wf(self) -> bool {
        forall|i: int| 0 <= i < self@.len() ==> in_field(#[trigger] self@[i].0) && in_field(
            self@[i].1,
        )
    }

    /// A registry made of the given entries, in order.
    pub fn from_entries(entries: Vec<RegistryEntry>) -> (r: Registry)
        ensures
            r@ == entries@.map_values(|e: RegistryEntry| e@),
            (forall|i: int|
                0 <= i < entries@.len() ==> (#[trigger] entries@[i]).wf()) ==> r.wf(),
    {
        Registry { entries }
    }

    /// A registry parsed from its binary form: exactly the entries that
    /// `parsed_registry` gives for the bytes.  Malformed or truncated
    /// bytes are rejected as a whole: no entry of a bad blob is accepted.
    pub fn from_bytes(bytes: &[u8]) -> (r: Result<Registry, Error>)
        ensures
            r is Ok <==> parsed_registry(bytes@) is Some,
            r matches Ok(reg) ==> reg.wf() && Some(reg@) == parsed_registry(bytes@),
            r matches Err(e) ==> e == Error::Deserialization,
    {
        match deserialize_entries(bytes) {
            Ok(reg) => Ok(reg),
            Err(_) => Err(Error::Deserialization),
        }
    }

    pub fn len(&self) -> (n: usize)
        ensures
            n == self@.len(),
    {
        self.entries.len()
    }

    pub fn entry(&self, index: usize) -> (r: &RegistryEntry)
        requires
            index < self@.len(),
        ensures
            r@ == self@[index as int],
    {
        &self.entries[index]
    }

    /// Check every entry's proof of knowledge at its own index.  The first
    /// offending index is reported; a registry is accepted only whole.
    pub fn verify_all(&self, seed: u64) -> (r: Result<(), Error>)
        requires
            self.wf(),
            self@.len() < u64::MAX,
        ensures
            r matches Ok(()) <==> registry_valid(seed, self@),
            r matches Err(e) ==> exists|i: int|
                0 <= i < self@.len() && e == Error::PokVerificationFailure(i as usize)
                    && !entry_pok_valid(seed, i, self@[i]) && (forall|j: int|
                    0 <= j < i ==> entry_pok_valid(seed, j, self@[j])),
    {
        let n = self.len();
        let mut k: usize = 0;
        while k < n
            invariant
                k <= n,
                n == self@.len(),
                self.wf(),
                n < u64::MAX,
                forall|j: int| 0 <= j < k ==> entry_pok_valid(seed, j, self@[j]),
            decreases n - k,
        {
            let e = self.entry(k);
            proof {
                assert(e.key@ == self@[k as int].0 && e.proof@ == self@[k as int].1);
                assert(in_field(self@[k as int].0) && in_field(self@[k as int].1));
            }
            if !pok_verify(&e.key, seed, k, &e.proof) {
                return Err(Error::PokVerificationFailure(k));
            }
            k = k + 1;
        }
        Ok(())
    }
}

} // verus!
