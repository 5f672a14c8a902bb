//! The alias output, the minimum storage deposit that it must carry, and the
//! builder that puts one together.
use crate::alias_id::{Address, AliasId};
use crate::encoding::{address_bytes, le_bytes, lemma_le_bytes_len, push_address, push_all, push_le};
use crate::feature::{
    copy_bytes, features_bounded, features_bytes, features_len, lemma_features_bytes_len, FeatureSet,
    FeatureSetModel, ADDRESS_LENGTH,
};
use vstd::prelude::*;

verus! {

/// Longest state metadata.
pub const MAX_STATE_METADATA_LENGTH: usize = 8192;

/// Bytes that an output's id adds to its ledger entry, weighted as key bytes.
pub const KEY_OFFSET_BYTES: u64 = 34;

/// Bytes that an output's block id, milestone index and timestamp add to its
/// ledger entry, weighted as data bytes.
pub const DATA_OFFSET_BYTES: u64 = 40;

/// The cost model of ledger storage.
#[derive(Clone, Copy, Debug, PartialEq, Eq, Structural)]
pub struct RentStructure {
    /// Tokens per virtual byte.
    pub byte_cost: u32,
    /// Weight of a key byte.
    pub byte_factor_key: u8,
    /// Weight of a data byte.
    pub byte_factor_data: u8,
}

/// The least amount that an output of `size` encoded bytes must carry.
pub open spec fn minimum_deposit(r: RentStructure, size: nat) -> nat {
    let weighted: nat = r.byte_factor_data as nat * size + r.byte_factor_key as nat * (KEY_OFFSET_BYTES as nat)
        + r.byte_factor_data as nat * (DATA_OFFSET_BYTES as nat);
    r.byte_cost as nat * weighted
}

/// Longest encoded output: state metadata and features at their bounds.
pub const MAX_OUTPUT_LENGTH: u64 = 65536;

/// The minimum deposit for an output of `size` encoded bytes.
pub fn minimum_storage_deposit(rent: &RentStructure, size: u64) -> (r: u64)
    requires
        size <= MAX_OUTPUT_LENGTH,
    ensures
        r == minimum_deposit(*rent, size as nat),
{
    let c = rent.byte_cost as u64;
    let k = rent.byte_factor_key as u64;
    let d = rent.byte_factor_data as u64;
    assert(d * size <= 255 * 65536) by (nonlinear_arith)
        requires
            d <= 255,
            size <= 65536,
    ;
    let weighted = d * size + k * KEY_OFFSET_BYTES + d * DATA_OFFSET_BYTES;
    assert(c * weighted <= 4294967295 * 16787000) by (nonlinear_arith)
        requires
            c <= 4294967295,
            weighted <= 16787000,
    ;
    c * weighted
}

/// An alias output as the ledger sees it.
pub ghost struct AliasOutputModel {
    pub amount: u64,
    pub alias_id: AliasId,
    pub state_index: u32,
    pub state_metadata: Seq<u8>,
    pub foundry_counter: u32,
    pub state_controller: Address,
    pub governor: Address,
    pub features: FeatureSetModel,
    pub immutable_features: FeatureSetModel,
}

/// Encoded length of an output: amount (8), alias id (32), state index (4),
/// the two unlock conditions behind a count byte, the features, the
/// immutable features, state metadata behind a 4-byte length, foundry counter (4).
pub open spec fn output_len(m: AliasOutputModel) -> nat {
    let conditions: nat = (1 + 2 * (1 + ADDRESS_LENGTH)) as nat;
    44 + conditions + features_len(m.features) + features_len(m.immutable_features) + 4
        + m.state_metadata.len() + 4
}

/// Kind bytes of the two unlock conditions.
pub const STATE_CONTROLLER_KIND: u8 = 4;
pub const GOVERNOR_KIND: u8 = 5;

/// The canonical bytes of an output, in the order and widths that
/// `output_len` counts, integers least significant byte first.
pub open spec fn output_bytes(m: AliasOutputModel) -> Seq<u8> {
    le_bytes(m.amount as nat, 8) + m.alias_id.bytes@ + le_bytes(m.state_index as nat, 4) + seq![2u8]
        + (seq![STATE_CONTROLLER_KIND] + address_bytes(m.state_controller)) + (seq![GOVERNOR_KIND]
        + address_bytes(m.governor)) + features_bytes(m.features) + features_bytes(m.immutable_features)
        + le_bytes(m.state_metadata.len(), 4) + m.state_metadata + le_bytes(m.foundry_counter as nat, 4)
}

/// An output's canonical bytes are as many as `output_len` counts.
pub proof fn lemma_output_bytes_len(m: AliasOutputModel)
    ensures
        output_bytes(m).len() == output_len(m),
{
    lemma_le_bytes_len(m.amount as nat, 8);
    lemma_le_bytes_len(m.state_index as nat, 4);
    lemma_le_bytes_len(m.state_metadata.len(), 4);
    lemma_le_bytes_len(m.foundry_counter as nat, 4);
    lemma_features_bytes_len(m.features);
    lemma_features_bytes_len(m.immutable_features);
    assert(address_bytes(m.state_controller).len() == 33);
    assert(address_bytes(m.governor).len() == 33);
}

/// The contents that a finished output must have: bounded data, the kinds of
/// feature that each set admits, and a nonzero amount.
pub open spec fn output_valid(m: AliasOutputModel) -> bool {
    &&& m.state_metadata.len() <= MAX_STATE_METADATA_LENGTH
    &&& features_bounded(m.features)
    &&& features_bounded(m.immutable_features)
    &&& m.features.issuer is None
    &&& m.immutable_features.sender is None
    &&& m.immutable_features.tag is None
    &&& m.amount > 0
}

/// A finished alias output.
#[derive(Debug, PartialEq, Eq)]
pub struct AliasOutput {
    amount: u64,
    alias_id: AliasId,
    state_index: u32,
    state_metadata: Vec<u8>,
    foundry_counter: u32,
    state_controller: Address,
    governor: Address,
    features: FeatureSet,
    immutable_features: FeatureSet,
}

impl View for AliasOutput {
    type V = AliasOutputModel;

    closed spec fn view(&self) -> AliasOutputModel {
        AliasOutputModel {
            amount: self.amount,
            alias_id: self.alias_id,
            state_index: self.state_index,
            state_metadata: self.state_metadata@,
            foundry_counter: self.foundry_counter,
            state_controller: self.state_controller,
            governor: self.governor,
            features: self.features@,
            immutable_features: self.immutable_features@,
        }
    }
}

impl Clone for AliasOutput {
    fn clone(&self) -> (r: AliasOutput)
        ensures
            r@ == self@,
    {
        proof {
            use_type_invariant(self);
        }
        AliasOutput {
            amount: self.amount,
            alias_id: self.alias_id,
            state_index: self.state_index,
            state_metadata: copy_bytes(&self.state_metadata),
            foundry_counter: self.foundry_counter,
            state_controller: self.state_controller,
            governor: self.governor,
            features: self.features.clone(),
            immutable_features: self.immutable_features.clone(),
        }
    }
}

impl AliasOutput {
    /// The output with these contents, which must be valid.
    pub(crate) fn assemble(
        amount: u64,
        alias_id: AliasId,
        state_index: u32,
        state_metadata: Vec<u8>,
        foundry_counter: u32,
        state_controller: Address,
        governor: Address,
        features: FeatureSet,
        immutable_features: FeatureSet,
    ) -> (r: AliasOutput)
        requires
            output_valid(
                AliasOutputModel {
                    amount,
                    alias_id,
                    state_index,
                    state_metadata: state_metadata@,
                    foundry_counter,
                    state_controller,
                    governor,
                    features: features@,
                    immutable_features: immutable_features@,
                },
            ),
        ensures
            r@ == (AliasOutputModel {
                amount,
                alias_id,
                state_index,
                state_metadata: state_metadata@,
                foundry_counter,
                state_controller,
                governor,
                features: features@,
                immutable_features: immutable_features@,
            }),
    {
        AliasOutput {
            amount,
            alias_id,
            state_index,
            state_metadata,
            foundry_counter,
            state_controller,
            governor,
            features,
            immutable_features,
        }
    }

    #[verifier::type_invariant]
    spec fn inv(&self) -> bool {
        output_valid(self@)
    }

    /// Encoded length of this output.
    pub fn packed_len(&self) -> (r: u64)
        ensures
            r == output_len(self@),
            r <= MAX_OUTPUT_LENGTH,
    {
        proof {
            use_type_invariant(self);
        }
        let uc: u64 = 1 + 2 * (1 + ADDRESS_LENGTH);
        8 + 32 + 4 + uc + self.features.packed_len() + self.immutable_features.packed_len() + 4
            + self.state_metadata.len() as u64 + 4
    }

    /// The canonical bytes of this output.
    pub fn pack(&self) -> (r: Vec<u8>)
        ensures
            r@ == output_bytes(self@),
            r@.len() == output_len(self@),
    {
        proof {
            use_type_invariant(self);
        }
        let mut out: Vec<u8> = Vec::new();
        push_le(&mut out, self.amount, 8);
        let ghost head = out@;
        push_all(&mut out, vstd::array::array_as_slice(&self.alias_id.bytes));
        push_le(&mut out, self.state_index as u64, 4);
        out.push(2u8);
        let ghost with_ids = out@;
        out.push(STATE_CONTROLLER_KIND);
        push_address(&mut out, &self.state_controller);
        out.push(GOVERNOR_KIND);
        push_address(&mut out, &self.governor);
        let ghost with_conditions = out@;
        self.features.pack_into(&mut out);
        self.immutable_features.pack_into(&mut out);
        let ghost with_features = out@;
        push_le(&mut out, self.state_metadata.len() as u64, 4);
        push_all(&mut out, self.state_metadata.as_slice());
        push_le(&mut out, self.foundry_counter as u64, 4);
        proof {
            let m = self@;
            lemma_le_bytes_len(m.amount as nat, 8);
            lemma_le_bytes_len(m.state_index as nat, 4);
            lemma_le_bytes_len(m.state_metadata.len(), 4);
            lemma_le_bytes_len(m.foundry_counter as nat, 4);
            assert(with_ids =~= head + m.alias_id.bytes@ + le_bytes(m.state_index as nat, 4) + seq![2u8]);
            assert(with_conditions =~= with_ids + (seq![STATE_CONTROLLER_KIND] + address_bytes(m.state_controller)) + (
            seq![GOVERNOR_KIND] + address_bytes(m.governor)));
            assert(with_features =~= with_conditions + features_bytes(m.features) + features_bytes(m.immutable_features));
            assert(out@ =~= output_bytes(m));
        }
        out
    }

    /// Whether the amount covers the minimum storage deposit under `rent`.
    pub fn covers_storage_deposit(&self, rent: &RentStructure) -> (r: bool)
        ensures
            r == (self@.amount >= minimum_deposit(*rent, output_len(self@))),
    {
        let size = self.packed_len();
        self.amount >= minimum_storage_deposit(rent, size)
    }

    /// The amount of base tokens.
    pub fn amount(&self) -> (r: u64)
        ensures
            r == self@.amount,
    {
        self.amount
    }

    /// The declared alias id.
    pub fn alias_id(&self) -> (r: AliasId)
        ensures
            r == self@.alias_id,
    {
        self.alias_id
    }

    /// The state index.
    pub fn state_index(&self) -> (r: u32)
        ensures
            r == self@.state_index,
    {
        self.state_index
    }

    /// The state metadata.
    pub fn state_metadata(&self) -> (r: &Vec<u8>)
        ensures
            r@ == self@.state_metadata,
    {
        &self.state_metadata
    }

    /// The foundry counter.
    pub fn foundry_counter(&self) -> (r: u32)
        ensures
            r == self@.foundry_counter,
    {
        self.foundry_counter
    }

    /// The address of the state controller.
    pub fn state_controller_address(&self) -> (r: Address)
        ensures
            r == self@.state_controller,
    {
        self.state_controller
    }

    /// The address of the governor.
    pub fn governor_address(&self) -> (r: Address)
        ensures
            r == self@.governor,
    {
        self.governor
    }

    /// The mutable features.
    pub fn features(&self) -> (r: &FeatureSet)
        ensures
            r@ == self@.features,
    {
        &self.features
    }

    /// The immutable features.
    pub fn immutable_features(&self) -> (r: &FeatureSet)
        ensures
            r@ == self@.immutable_features,
    {
        &self.immutable_features
    }
}

} // verus!
