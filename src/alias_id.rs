//! Alias ids, derived from the output id that defines an alias, and the
//! addresses that outputs are unlocked by.
use crate::output_id::{output_id_bytes, OutputId};
use crypto::hashes::blake2b::Blake2b256;
use crypto::hashes::Digest;
use vstd::prelude::*;

verus! {

broadcast use vstd::array::group_array_axioms;

/// What BLAKE2b-256 gives for `data`.
pub uninterp spec fn blake2b_256_of(data: Seq<u8>) -> Seq<u8>;

/// Relies on `Blake2b256` of `iota-crypto` (through `Digest::digest`): the
/// 32-byte BLAKE2b-256 digest of `data`, a function of `data` alone.
#[verifier::external_body]
fn blake2b_256(data: &[u8]) -> (r: [u8; 32])
    ensures
        r@ == blake2b_256_of(data@),
{
    Blake2b256::digest(data).into()
}

/// Whether two byte strings are equal.
pub fn bytes_equal(a: &[u8], b: &[u8]) -> (r: bool)
    ensures
        r == (a@ == b@),
{
    if a.len() != b.len() {
        return false;
    }
    let mut i: usize = 0;
    while i < a.len()
        invariant
            a@.len() == b@.len(),
            0 <= i <= a@.len(),
            forall|j: int| 0 <= j < i ==> a@[j] == b@[j],
        decreases a@.len() - i,
    {
        if a[i] != b[i] {
            return false;
        }
        i = i + 1;
    }
    assert(a@ =~= b@);
    true
}

/// The permanent identity of an alias: 32 bytes, all zero while it is not yet assigned.
#[derive(Clone, Copy, Debug, PartialEq, Eq, Hash)]
pub struct AliasId {
    pub bytes: [u8; 32],
}

/// Whether bytes are all zero.
pub open spec fn is_zero(b: Seq<u8>) -> bool {
    forall|i: int| 0 <= i < b.len() ==> b[i] == 0
}

impl AliasId {
    /// The null id, which an alias carries before its first inclusion.
    pub fn null() -> (r: AliasId)
        ensures
            is_zero(r.bytes@),
    {
        AliasId { bytes: [0u8; 32] }
    }

    /// The id made of `bytes`.
    pub fn new(bytes: [u8; 32]) -> (r: AliasId)
        ensures
            r.bytes == bytes,
    {
        AliasId { bytes }
    }

    /// Whether this is the null id.
    pub fn is_null(&self) -> (r: bool)
        ensures
            r == is_zero(self.bytes@),
    {
        let mut i: usize = 0;
        while i < 32
            invariant
                0 <= i <= 32,
                forall|j: int| 0 <= j < i ==> self.bytes@[j] == 0,
            decreases 32 - i,
        {
            if self.bytes[i] != 0 {
                return false;
            }
            i = i + 1;
        }
        true
    }

    /// Whether two ids are the same.
    pub fn same_as(&self, other: &AliasId) -> (r: bool)
        ensures
            r == (*self == *other),
    {
        let r = bytes_equal(vstd::array::array_as_slice(&self.bytes), vstd::array::array_as_slice(&other.bytes));
        proof {
            if r {
                assert(self.bytes =~= other.bytes);
            }
        }
        r
    }
}

/// The alias id that the output at `id` receives when it defines an alias.
pub open spec fn derived_alias_id(id: (Seq<u8>, u16)) -> Seq<u8> {
    blake2b_256_of(output_id_bytes(id))
}

/// The canonical bytes of an output id: 32 bytes of transaction id, then
/// the index as two bytes, least significant first.
pub fn output_id_to_bytes(id: &OutputId) -> (r: Vec<u8>)
    ensures
        r@ == output_id_bytes(id@),
{
    let mut out: Vec<u8> = Vec::new();
    let mut i: usize = 0;
    while i < 32
        invariant
            0 <= i <= 32,
            out@ == id.transaction_id@.subrange(0, i as int),
        decreases 32 - i,
    {
        out.push(id.transaction_id[i]);
        i = i + 1;
        assert(out@ =~= id.transaction_id@.subrange(0, i as int));
    }
    out.push((id.index % 256) as u8);
    out.push((id.index / 256) as u8);
    assert(out@ =~= output_id_bytes(id@));
    out
}

/// The alias id of the alias that the output at `id` defines: the
/// BLAKE2b-256 digest of the output id's canonical bytes.
pub fn derive_alias_id(id: &OutputId) -> (r: AliasId)
    ensures
        r.bytes@ == derived_alias_id(id@),
{
    let bytes = output_id_to_bytes(id);
    AliasId { bytes: blake2b_256(bytes.as_slice()) }
}

/// The id of an alias as the ledger knows it: the declared one, or, where that
/// is null, the one derived from the output that holds it.
pub open spec fn effective_alias_id(declared: AliasId, id: (Seq<u8>, u16)) -> Seq<u8> {
    if is_zero(declared.bytes@) {
        derived_alias_id(id)
    } else {
        declared.bytes@
    }
}

/// The id of the alias held by the output at `id` that declares `declared`.
pub fn resolve_alias_id(declared: &AliasId, id: &OutputId) -> (r: AliasId)
    ensures
        r.bytes@ == effective_alias_id(*declared, id@),
{
    if declared.is_null() {
        derive_alias_id(id)
    } else {
        *declared
    }
}

/// Equal output ids give equal alias ids, on every call.
pub proof fn lemma_derivation_deterministic(a: OutputId, b: OutputId)
    requires
        a@ == b@,
    ensures
        derived_alias_id(a@) == derived_alias_id(b@),
{
}

/// Who may unlock an output: the holder of an Ed25519 key, by the hash of
/// the public key, or whoever controls the alias with the given id.
#[derive(Clone, Copy, Debug, PartialEq, Eq, Hash)]
pub enum Address {
    Ed25519([u8; 32]),
    Alias(AliasId),
}

impl Address {
    /// Whether two addresses are the same.
    pub fn same_as(&self, other: &Address) -> (r: bool)
        ensures
            r == (*self == *other),
    {
        match (self, other) {
            (Address::Ed25519(a), Address::Ed25519(b)) => {
                let r = bytes_equal(vstd::array::array_as_slice(a), vstd::array::array_as_slice(b));
                proof {
                    if r {
                        assert(*a =~= *b);
                    }
                }
                r
            },
            (Address::Alias(a), Address::Alias(b)) => a.same_as(b),
            _ => false,
        }
    }
}

} // verus!
