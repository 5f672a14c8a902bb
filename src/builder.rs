//! The builder of alias outputs: fields are set, unlock conditions and
//! features added or replaced, and `finish_output` checks the whole.
use crate::alias_id::{Address, AliasId};
use crate::feature::{
    copy_bytes, empty_features, features_bounded, has_kind, with_feature, Feature, FeatureSet,
    FeatureSetModel, UnlockCondition, ADDRESS_LENGTH,
};
use crate::output::{
    lemma_output_bytes_len, minimum_deposit, minimum_storage_deposit, output_bytes, output_len,
    AliasOutput, AliasOutputModel, RentStructure, MAX_OUTPUT_LENGTH, MAX_STATE_METADATA_LENGTH,
};
use vstd::prelude::*;

verus! {

/// How the amount of an output is chosen.
#[derive(Clone, Copy, Debug, PartialEq, Eq, Structural)]
pub enum OutputAmount {
    /// This amount.
    Amount(u64),
    /// The minimum storage deposit under this cost model, for the output's final size.
    MinimumStorageDeposit(RentStructure),
}

/// Why an unlock condition or a feature could not be added.
#[derive(Clone, Copy, Debug, PartialEq, Eq, Structural)]
pub enum BuilderError {
    /// An unlock condition of that kind is already there.
    DuplicateUnlockCondition,
    /// A feature of that kind is already there.
    DuplicateFeature,
}

/// Why a builder makes no valid output.
#[derive(Clone, Copy, Debug, PartialEq, Eq, Structural)]
pub enum ValidationError {
    /// The state metadata is longer than its bound.
    StateMetadataTooLong,
    /// A metadata or tag feature holds more data than its bound.
    FeatureTooLong,
    /// An issuer feature among the mutable features.
    DisallowedFeature,
    /// A sender or tag feature among the immutable features.
    DisallowedImmutableFeature,
    /// No state controller unlock condition.
    MissingStateController,
    /// No governor unlock condition.
    MissingGovernor,
    /// The amount is zero.
    ZeroAmount,
    /// The amount exceeds the token supply.
    AmountExceedsTokenSupply,
    /// The amount is below the minimum storage deposit.
    InsufficientStorageDeposit,
}

/// What a builder holds.
pub ghost struct BuilderModel {
    pub amount: OutputAmount,
    pub alias_id: AliasId,
    pub state_index: Option<u32>,
    pub state_metadata: Seq<u8>,
    pub foundry_counter: Option<u32>,
    pub state_controller: Option<Address>,
    pub governor: Option<Address>,
    pub features: FeatureSetModel,
    pub immutable_features: FeatureSetModel,
}

/// Builds an alias output step by step.
#[derive(Debug)]
pub struct AliasOutputBuilder {
    amount: OutputAmount,
    alias_id: AliasId,
    state_index: Option<u32>,
    state_metadata: Vec<u8>,
    foundry_counter: Option<u32>,
    state_controller: Option<Address>,
    governor: Option<Address>,
    features: FeatureSet,
    immutable_features: FeatureSet,
}

impl View for AliasOutputBuilder {
    type V = BuilderModel;

    closed spec fn view(&self) -> BuilderModel {
        BuilderModel {
            amount: self.amount,
            alias_id: self.alias_id,
            state_index: self.state_index,
            state_metadata: self.state_metadata@,
            foundry_counter: self.foundry_counter,
            state_controller: self.state_controller,
            governor: self.governor,
            features: self.features@,
            immutable_features: self.immutable_features@,
        }
    }
}

/// A builder with nothing but an amount rule and an alias id.
pub open spec fn fresh_builder(amount: OutputAmount, alias_id: AliasId) -> BuilderModel {
    BuilderModel {
        amount,
        alias_id,
        state_index: None,
        state_metadata: Seq::empty(),
        foundry_counter: None,
        state_controller: None,
        governor: None,
        features: empty_features(),
        immutable_features: empty_features(),
    }
}

/// The output that a builder describes, with `amount` as its amount.
pub open spec fn output_of(b: BuilderModel, amount: u64) -> AliasOutputModel {
    AliasOutputModel {
        amount,
        alias_id: b.alias_id,
        state_index: match b.state_index {
            Some(i) => i,
            None => 0,
        },
        state_metadata: b.state_metadata,
        foundry_counter: match b.foundry_counter {
            Some(c) => c,
            None => 0,
        },
        state_controller: b.state_controller->Some_0,
        governor: b.governor->Some_0,
        features: b.features,
        immutable_features: b.immutable_features,
    }
}

/// The amount that a builder gives its output.
pub open spec fn amount_of(b: BuilderModel) -> u64 {
    match b.amount {
        OutputAmount::Amount(a) => a,
        OutputAmount::MinimumStorageDeposit(r) => minimum_deposit(r, output_len(output_of(b, 0))) as u64,
    }
}

/// What finishing a builder gives, with checks in this order.
pub open spec fn finished(b: BuilderModel, token_supply: u64) -> Result<AliasOutputModel, ValidationError> {
    if b.state_metadata.len() > MAX_STATE_METADATA_LENGTH {
        Err(ValidationError::StateMetadataTooLong)
    } else if !features_bounded(b.features) || !features_bounded(b.immutable_features) {
        Err(ValidationError::FeatureTooLong)
    } else if b.features.issuer is Some {
        Err(ValidationError::DisallowedFeature)
    } else if b.immutable_features.sender is Some || b.immutable_features.tag is Some {
        Err(ValidationError::DisallowedImmutableFeature)
    } else if b.state_controller is None {
        Err(ValidationError::MissingStateController)
    } else if b.governor is None {
        Err(ValidationError::MissingGovernor)
    } else if amount_of(b) == 0 {
        Err(ValidationError::ZeroAmount)
    } else if amount_of(b) > token_supply {
        Err(ValidationError::AmountExceedsTokenSupply)
    } else {
        Ok(output_of(b, amount_of(b)))
    }
}

/// An output built with the minimum storage deposit as its amount carries
/// exactly the minimum deposit for the length of its own canonical bytes.
pub proof fn lemma_minimum_deposit_amount(b: BuilderModel, token_supply: u64)
    requires
        b.amount is MinimumStorageDeposit,
        finished(b, token_supply) is Ok,
    ensures
        finished(b, token_supply)->Ok_0.amount == minimum_deposit(
            b.amount->MinimumStorageDeposit_0,
            output_bytes(finished(b, token_supply)->Ok_0).len(),
        ),
{
    lemma_output_bytes_len(finished(b, token_supply)->Ok_0);
    let rent = b.amount->MinimumStorageDeposit_0;
    let m = output_of(b, 0);
    lemma_bounded_len(m);
    let size = output_len(m);
    assert(rent.byte_factor_data as nat * size <= 255 * 65536) by (nonlinear_arith)
        requires
            rent.byte_factor_data <= 255,
            size <= 65536,
    ;
    let weighted = rent.byte_factor_data as nat * size + rent.byte_factor_key as nat * 34
        + rent.byte_factor_data as nat * 40;
    assert(rent.byte_cost as nat * weighted <= 4294967295 * 16787000) by (nonlinear_arith)
        requires
            rent.byte_cost <= 4294967295,
            weighted <= 16787000,
    ;
    assert(output_len(output_of(b, amount_of(b))) == size);
}

/// Under a cost model that charges for data bytes, longer state metadata
/// asks for a strictly larger minimum deposit, all else being equal.
pub proof fn lemma_longer_state_metadata_costs_more(rent: RentStructure, m1: AliasOutputModel, m2: AliasOutputModel)
    requires
        rent.byte_cost > 0,
        rent.byte_factor_data > 0,
        m1.state_metadata.len() < m2.state_metadata.len(),
        m1.features == m2.features,
        m1.immutable_features == m2.immutable_features,
    ensures
        minimum_deposit(rent, output_bytes(m1).len()) < minimum_deposit(rent, output_bytes(m2).len()),
{
    lemma_output_bytes_len(m1);
    lemma_output_bytes_len(m2);
    let s1 = output_len(m1);
    let s2 = output_len(m2);
    assert(s1 < s2);
    let c = rent.byte_cost as nat;
    let d = rent.byte_factor_data as nat;
    let o = rent.byte_factor_key as nat * 34 + d * 40;
    assert(c * (d * s1 + o) < c * (d * s2 + o)) by (nonlinear_arith)
        requires
            c > 0,
            d > 0,
            s1 < s2,
    ;
}

/// The bounds on data keep an output's encoded length below the maximum.
proof fn lemma_bounded_len(m: AliasOutputModel)
    requires
        m.state_metadata.len() <= MAX_STATE_METADATA_LENGTH,
        features_bounded(m.features),
        features_bounded(m.immutable_features),
    ensures
        output_len(m) <= MAX_OUTPUT_LENGTH,
{
}

impl Clone for AliasOutputBuilder {
    /// An independent copy: the two builders share nothing.
    fn clone(&self) -> (r: Self)
        ensures
            r@ == self@,
    {
        AliasOutputBuilder {
            amount: self.amount,
            alias_id: self.alias_id,
            state_index: self.state_index,
            state_metadata: copy_bytes(&self.state_metadata),
            foundry_counter: self.foundry_counter,
            state_controller: self.state_controller,
            governor: self.governor,
            features: self.features.clone(),
            immutable_features: self.immutable_features.clone(),
        }
    }
}

impl AliasOutputBuilder {
    /// A builder whose output carries `amount`.
    pub fn new_with_amount(amount: u64, alias_id: AliasId) -> (r: Self)
        ensures
            r@ == fresh_builder(OutputAmount::Amount(amount), alias_id),
    {
        Self::new(OutputAmount::Amount(amount), alias_id)
    }

    /// A builder whose output carries the minimum storage deposit under `rent`.
    pub fn new_with_minimum_storage_deposit(rent: RentStructure, alias_id: AliasId) -> (r: Self)
        ensures
            r@ == fresh_builder(OutputAmount::MinimumStorageDeposit(rent), alias_id),
    {
        Self::new(OutputAmount::MinimumStorageDeposit(rent), alias_id)
    }

    fn new(amount: OutputAmount, alias_id: AliasId) -> (r: Self)
        ensures
            r@ == fresh_builder(amount, alias_id),
    {
        AliasOutputBuilder {
            amount,
            alias_id,
            state_index: None,
            state_metadata: Vec::new(),
            foundry_counter: None,
            state_controller: None,
            governor: None,
            features: FeatureSet::new(),
            immutable_features: FeatureSet::new(),
        }
    }

    /// A builder that starts from the contents of `output`, amount included.
    pub fn from_output(output: &AliasOutput) -> (r: Self)
        ensures
            r@ == (BuilderModel {
                amount: OutputAmount::Amount(output@.amount),
                alias_id: output@.alias_id,
                state_index: Some(output@.state_index),
                state_metadata: output@.state_metadata,
                foundry_counter: Some(output@.foundry_counter),
                state_controller: Some(output@.state_controller),
                governor: Some(output@.governor),
                features: output@.features,
                immutable_features: output@.immutable_features,
            }),
    {
        AliasOutputBuilder {
            amount: OutputAmount::Amount(output.amount()),
            alias_id: output.alias_id(),
            state_index: Some(output.state_index()),
            state_metadata: copy_bytes(output.state_metadata()),
            foundry_counter: Some(output.foundry_counter()),
            state_controller: Some(output.state_controller_address()),
            governor: Some(output.governor_address()),
            features: output.features().clone(),
            immutable_features: output.immutable_features().clone(),
        }
    }

    /// Sets the amount.
    pub fn with_amount(self, amount: u64) -> (r: Self)
        ensures
            r@ == (BuilderModel { amount: OutputAmount::Amount(amount), ..self@ }),
    {
        AliasOutputBuilder { amount: OutputAmount::Amount(amount), ..self }
    }

    /// Makes the amount the minimum storage deposit under `rent`, computed
    /// for the output as it stands when it is finished.
    pub fn with_minimum_storage_deposit(self, rent: RentStructure) -> (r: Self)
        ensures
            r@ == (BuilderModel { amount: OutputAmount::MinimumStorageDeposit(rent), ..self@ }),
    {
        AliasOutputBuilder { amount: OutputAmount::MinimumStorageDeposit(rent), ..self }
    }

    /// Sets the alias id.
    pub fn with_alias_id(self, alias_id: AliasId) -> (r: Self)
        ensures
            r@ == (BuilderModel { alias_id, ..self@ }),
    {
        AliasOutputBuilder { alias_id, ..self }
    }

    /// Sets the state index.
    pub fn with_state_index(self, state_index: u32) -> (r: Self)
        ensures
            r@ == (BuilderModel { state_index: Some(state_index), ..self@ }),
    {
        AliasOutputBuilder { state_index: Some(state_index), ..self }
    }

    /// Sets the state metadata.
    pub fn with_state_metadata(self, state_metadata: Vec<u8>) -> (r: Self)
        ensures
            r@ == (BuilderModel { state_metadata: state_metadata@, ..self@ }),
    {
        AliasOutputBuilder { state_metadata, ..self }
    }

    /// Sets the foundry counter.
    pub fn with_foundry_counter(self, foundry_counter: u32) -> (r: Self)
        ensures
            r@ == (BuilderModel { foundry_counter: Some(foundry_counter), ..self@ }),
    {
        AliasOutputBuilder { foundry_counter: Some(foundry_counter), ..self }
    }

    /// Adds an unlock condition; fails if one of its kind is there.
    pub fn add_unlock_condition(self, condition: UnlockCondition) -> (r: Result<Self, BuilderError>)
        ensures
            match condition {
                UnlockCondition::StateControllerAddress(a) => if self@.state_controller is Some {
                    r == Err::<Self, BuilderError>(BuilderError::DuplicateUnlockCondition)
                } else {
                    r is Ok && r->Ok_0@ == (BuilderModel { state_controller: Some(a), ..self@ })
                },
                UnlockCondition::GovernorAddress(a) => if self@.governor is Some {
                    r == Err::<Self, BuilderError>(BuilderError::DuplicateUnlockCondition)
                } else {
                    r is Ok && r->Ok_0@ == (BuilderModel { governor: Some(a), ..self@ })
                },
            },
    {
        let taken = match condition {
            UnlockCondition::StateControllerAddress(_) => self.state_controller.is_some(),
            UnlockCondition::GovernorAddress(_) => self.governor.is_some(),
        };
        if taken {
            Err(BuilderError::DuplicateUnlockCondition)
        } else {
            Ok(self.replace_unlock_condition(condition))
        }
    }

    /// Puts an unlock condition in place of any of its kind.
    pub fn replace_unlock_condition(self, condition: UnlockCondition) -> (r: Self)
        ensures
            r@ == match condition {
                UnlockCondition::StateControllerAddress(a) => BuilderModel { state_controller: Some(a), ..self@ },
                UnlockCondition::GovernorAddress(a) => BuilderModel { governor: Some(a), ..self@ },
            },
    {
        match condition {
            UnlockCondition::StateControllerAddress(a) => AliasOutputBuilder { state_controller: Some(a), ..self },
            UnlockCondition::GovernorAddress(a) => AliasOutputBuilder { governor: Some(a), ..self },
        }
    }

    /// Adds a mutable feature; fails if one of its kind is there.
    pub fn add_feature(self, feature: Feature) -> (r: Result<Self, BuilderError>)
        ensures
            has_kind(self@.features, feature@) ==> r == Err::<Self, BuilderError>(BuilderError::DuplicateFeature),
            !has_kind(self@.features, feature@) ==> r is Ok && r->Ok_0@ == (BuilderModel {
                features: with_feature(self@.features, feature@),
                ..self@
            }),
    {
        if self.features.has_kind_of(&feature) {
            Err(BuilderError::DuplicateFeature)
        } else {
            Ok(self.replace_feature(feature))
        }
    }

    /// Puts a mutable feature in place of any of its kind.
    pub fn replace_feature(self, feature: Feature) -> (r: Self)
        ensures
            r@ == (BuilderModel { features: with_feature(self@.features, feature@), ..self@ }),
    {
        let mut b = self;
        b.features.put(feature);
        b
    }

    /// Adds an immutable feature; fails if one of its kind is there.
    pub fn add_immutable_feature(self, feature: Feature) -> (r: Result<Self, BuilderError>)
        ensures
            has_kind(self@.immutable_features, feature@) ==> r == Err::<Self, BuilderError>(
                BuilderError::DuplicateFeature,
            ),
            !has_kind(self@.immutable_features, feature@) ==> r is Ok && r->Ok_0@ == (BuilderModel {
                immutable_features: with_feature(self@.immutable_features, feature@),
                ..self@
            }),
    {
        if self.immutable_features.has_kind_of(&feature) {
            Err(BuilderError::DuplicateFeature)
        } else {
            Ok(self.replace_immutable_feature(feature))
        }
    }

    /// Puts an immutable feature in place of any of its kind.
    pub fn replace_immutable_feature(self, feature: Feature) -> (r: Self)
        ensures
            r@ == (BuilderModel {
                immutable_features: with_feature(self@.immutable_features, feature@),
                ..self@
            }),
    {
        let mut b = self;
        b.immutable_features.put(feature);
        b
    }

    /// The finished output, or the first check that fails.
    pub fn finish_output(self, token_supply: u64) -> (r: Result<AliasOutput, ValidationError>)
        ensures
            match finished(self@, token_supply) {
                Ok(m) => r is Ok && r->Ok_0@ == m,
                Err(e) => r == Err::<AliasOutput, ValidationError>(e),
            },
    {
        if self.state_metadata.len() > MAX_STATE_METADATA_LENGTH {
            return Err(ValidationError::StateMetadataTooLong);
        }
        if !self.features.is_bounded() || !self.immutable_features.is_bounded() {
            return Err(ValidationError::FeatureTooLong);
        }
        if self.features.issuer().is_some() {
            return Err(ValidationError::DisallowedFeature);
        }
        if self.immutable_features.sender().is_some() || self.immutable_features.tag().is_some() {
            return Err(ValidationError::DisallowedImmutableFeature);
        }
        let state_controller = match self.state_controller {
            Some(a) => a,
            None => {
                return Err(ValidationError::MissingStateController);
            },
        };
        let governor = match self.governor {
            Some(a) => a,
            None => {
                return Err(ValidationError::MissingGovernor);
            },
        };
        let state_index = match self.state_index {
            Some(i) => i,
            None => 0,
        };
        let foundry_counter = match self.foundry_counter {
            Some(c) => c,
            None => 0,
        };
        let amount = match self.amount {
            OutputAmount::Amount(a) => a,
            OutputAmount::MinimumStorageDeposit(rent) => {
                let conditions: u64 = 1 + 2 * (1 + ADDRESS_LENGTH);
                let size: u64 = 44 + conditions + self.features.packed_len()
                    + self.immutable_features.packed_len() + 4 + self.state_metadata.len() as u64 + 4;
                proof {
                    lemma_bounded_len(output_of(self@, 0));
                }
                minimum_storage_deposit(&rent, size)
            },
        };
        if amount == 0 {
            return Err(ValidationError::ZeroAmount);
        }
        if amount > token_supply {
            return Err(ValidationError::AmountExceedsTokenSupply);
        }
        Ok(AliasOutput::assemble(
            amount,
            self.alias_id,
            state_index,
            self.state_metadata,
            foundry_counter,
            state_controller,
            governor,
            self.features,
            self.immutable_features,
        ))
    }
}

/// Checks that an output carries at least the minimum storage deposit under `rent`.
pub fn verify_storage_deposit(output: &AliasOutput, rent: &RentStructure) -> (r: Result<(), ValidationError>)
    ensures
        (r is Ok) == (output@.amount >= minimum_deposit(*rent, output_len(output@))),
        r is Err ==> r == Err::<(), ValidationError>(ValidationError::InsufficientStorageDeposit),
{
    if output.covers_storage_deposit(rent) {
        Ok(())
    } else {
        Err(ValidationError::InsufficientStorageDeposit)
    }
}

} // verus!
