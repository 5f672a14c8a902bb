//! The canonical bytes of integers, byte strings and addresses.
use crate::alias_id::Address;
use vstd::prelude::*;

verus! {

/// Bytes of the kind of an Ed25519 address.
pub const ED25519_ADDRESS_KIND: u8 = 0;

/// Bytes of the kind of an alias address.
pub const ALIAS_ADDRESS_KIND: u8 = 8;

/// The `k` least significant bytes of `n`, least significant first.
pub open spec fn le_bytes(n: nat, k: nat) -> Seq<u8>
    decreases k,
{
    if k == 0 {
        Seq::empty()
    } else {
        seq![(n % 256) as u8] + le_bytes(n / 256, (k - 1) as nat)
    }
}

/// `le_bytes` gives `k` bytes.
pub proof fn lemma_le_bytes_len(n: nat, k: nat)
    ensures
        le_bytes(n, k).len() == k,
    decreases k,
{
    if k > 0 {
        lemma_le_bytes_len(n / 256, (k - 1) as nat);
    }
}

/// Appends the `k` least significant bytes of `n`, least significant first.
pub fn push_le(out: &mut Vec<u8>, n: u64, k: usize)
    ensures
        final(out)@ == old(out)@ + le_bytes(n as nat, k as nat),
    decreases k,
{
    if k == 0 {
        assert(old(out)@ + Seq::<u8>::empty() =~= old(out)@);
        return;
    }
    let ghost before = out@;
    out.push((n % 256) as u8);
    push_le(out, n / 256, k - 1);
    assert(final(out)@ =~= before + le_bytes(n as nat, k as nat));
}

/// Appends `data`.
pub fn push_all(out: &mut Vec<u8>, data: &[u8])
    ensures
        final(out)@ == old(out)@ + data@,
{
    let ghost before = out@;
    let mut i: usize = 0;
    while i < data.len()
        invariant
            0 <= i <= data@.len(),
            out@ == before + data@.subrange(0, i as int),
        decreases data@.len() - i,
    {
        out.push(data[i]);
        i = i + 1;
        assert(out@ =~= before + data@.subrange(0, i as int));
    }
    assert(data@.subrange(0, i as int) =~= data@);
}

/// The bytes of an address: its kind, then its 32 bytes.
pub open spec fn address_bytes(a: Address) -> Seq<u8> {
    match a {
        Address::Ed25519(h) => seq![ED25519_ADDRESS_KIND] + h@,
        Address::Alias(id) => seq![ALIAS_ADDRESS_KIND] + id.bytes@,
    }
}

/// Appends the bytes of an address.
pub fn push_address(out: &mut Vec<u8>, a: &Address)
    ensures
        final(out)@ == old(out)@ + address_bytes(*a),
        address_bytes(*a).len() == 33,
{
    let ghost before = out@;
    match a {
        Address::Ed25519(h) => {
            out.push(ED25519_ADDRESS_KIND);
            push_all(out, vstd::array::array_as_slice(h));
        },
        Address::Alias(id) => {
            out.push(ALIAS_ADDRESS_KIND);
            push_all(out, vstd::array::array_as_slice(&id.bytes));
        },
    }
    assert(out@ =~= before + address_bytes(*a));
}

} // verus!
