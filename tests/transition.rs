use alias_ledger::alias_id::{derive_alias_id, Address, AliasId};
use alias_ledger::builder::AliasOutputBuilder;
use alias_ledger::feature::{Feature, UnlockCondition};
use alias_ledger::output::{AliasOutput, RentStructure};
use alias_ledger::output_id::OutputId;
use alias_ledger::payload::{new_alias_output_ids, Output, Payload, PayloadError, TransactionPayload};
use alias_ledger::transition::{
    authorize_transition, is_controlled_by, validate_transition, TransitionError, TransitionKind,
};

const SUPPLY: u64 = 1_813_620_509_061_365;

fn key(b: u8) -> Address {
    Address::Ed25519([b; 32])
}

fn rent() -> RentStructure {
    RentStructure { byte_cost: 100, byte_factor_key: 10, byte_factor_data: 1 }
}

fn template(controller: Address, governor: Address) -> AliasOutputBuilder {
    AliasOutputBuilder::new_with_minimum_storage_deposit(rent(), AliasId::null())
        .with_state_metadata(vec![1, 2, 3])
        .add_immutable_feature(Feature::Issuer(key(1)))
        .unwrap()
        .add_unlock_condition(UnlockCondition::StateControllerAddress(controller))
        .unwrap()
        .add_unlock_condition(UnlockCondition::GovernorAddress(governor))
        .unwrap()
}

fn alias(id: AliasId, index: u32, metadata: Vec<u8>) -> AliasOutput {
    template(key(1), key(1))
        .with_alias_id(id)
        .with_state_index(index)
        .with_state_metadata(metadata)
        .finish_output(SUPPLY)
        .unwrap()
}

fn some_id() -> AliasId {
    AliasId::new([5; 32])
}

#[test]
fn state_transition_accepted() {
    let prev = alias(some_id(), 0, vec![1, 2, 3]);
    let next = alias(some_id(), 1, vec![3, 2, 1]);
    assert_eq!(validate_transition(&some_id(), &prev, &next), Ok(TransitionKind::State));
}

#[test]
fn state_index_must_step_by_zero_or_one() {
    let prev = alias(some_id(), 5, vec![1]);
    for index in [0u32, 4, 7, 100] {
        let next = alias(some_id(), index, vec![2]);
        assert_eq!(
            validate_transition(&some_id(), &prev, &next),
            Err(TransitionError::InvalidStateIndexDelta)
        );
    }
}

#[test]
fn immutable_features_never_change() {
    let prev = alias(some_id(), 0, vec![1]);
    for index in [0u32, 1, 2] {
        let next = template(key(1), key(1))
            .with_alias_id(some_id())
            .with_state_index(index)
            .with_state_metadata(vec![1])
            .replace_immutable_feature(Feature::Issuer(key(2)))
            .finish_output(SUPPLY)
            .unwrap();
        assert_eq!(
            validate_transition(&some_id(), &prev, &next),
            Err(TransitionError::ImmutableFeaturesChanged)
        );
    }
}

#[test]
fn governance_transition_cannot_touch_state_metadata() {
    let prev = alias(some_id(), 3, vec![1, 2, 3]);
    let changed = template(key(2), key(2))
        .with_alias_id(some_id())
        .with_state_index(3)
        .with_state_metadata(vec![9, 9, 9])
        .finish_output(SUPPLY)
        .unwrap();
    assert_eq!(
        validate_transition(&some_id(), &prev, &changed),
        Err(TransitionError::GovernanceChangesState)
    );
    let kept = template(key(2), key(2))
        .with_alias_id(some_id())
        .with_state_index(3)
        .finish_output(SUPPLY)
        .unwrap();
    assert_eq!(validate_transition(&some_id(), &prev, &kept), Ok(TransitionKind::Governance));
}

#[test]
fn other_transition_errors() {
    let prev = alias(some_id(), 0, vec![1]);
    let wrong_id = alias(AliasId::new([6; 32]), 1, vec![1]);
    assert_eq!(validate_transition(&some_id(), &prev, &wrong_id), Err(TransitionError::AliasIdMismatch));
    let new_controller = template(key(2), key(1))
        .with_alias_id(some_id())
        .with_state_index(1)
        .finish_output(SUPPLY)
        .unwrap();
    assert_eq!(
        validate_transition(&some_id(), &prev, &new_controller),
        Err(TransitionError::StateTransitionChangesUnlockConditions)
    );
    let counted = template(key(1), key(1))
        .with_alias_id(some_id())
        .with_state_index(0)
        .with_foundry_counter(2)
        .finish_output(SUPPLY)
        .unwrap();
    let fewer = template(key(1), key(1))
        .with_alias_id(some_id())
        .with_state_index(1)
        .with_foundry_counter(1)
        .finish_output(SUPPLY)
        .unwrap();
    assert_eq!(validate_transition(&some_id(), &counted, &fewer), Err(TransitionError::FoundryCounterDecreased));
}

#[test]
fn alias_controls_alias_end_to_end() {
    // Alias A, defined with a null id, gets its id from the output that created it.
    let a_out = template(key(1), key(1)).finish_output(SUPPLY).unwrap();
    let a_id = derive_alias_id(&OutputId { transaction_id: [1; 32], index: 0 });
    let a = alias(a_id, 0, vec![1, 2, 3]);
    assert!(a_out.alias_id().is_null());
    let a_address = Address::Alias(a_id);
    let b_id = AliasId::new([9; 32]);
    let b_prev = template(a_address, a_address).with_alias_id(b_id).finish_output(SUPPLY).unwrap();
    let b_next = template(a_address, a_address)
        .with_alias_id(b_id)
        .with_state_index(1)
        .with_state_metadata(vec![3, 2, 1])
        .finish_output(SUPPLY)
        .unwrap();
    let store = vec![a];
    assert!(is_controlled_by(&store, &a_address, &[1; 32]));
    assert!(!is_controlled_by(&store, &a_address, &[2; 32]));
    assert_eq!(authorize_transition(&store, &b_id, &b_prev, &b_next, &[1; 32]), Ok(TransitionKind::State));
    assert_eq!(
        authorize_transition(&store, &b_id, &b_prev, &b_next, &[2; 32]),
        Err(TransitionError::Unauthorized)
    );
    // Without A's output the chain cannot be followed.
    assert_eq!(
        authorize_transition(&vec![], &b_id, &b_prev, &b_next, &[1; 32]),
        Err(TransitionError::Unauthorized)
    );
}

#[test]
fn governance_needs_the_governor() {
    let prev = template(key(1), key(2)).with_alias_id(some_id()).finish_output(SUPPLY).unwrap();
    let next = template(key(3), key(2)).with_alias_id(some_id()).finish_output(SUPPLY).unwrap();
    assert_eq!(authorize_transition(&vec![], &some_id(), &prev, &next, &[2; 32]), Ok(TransitionKind::Governance));
    assert_eq!(
        authorize_transition(&vec![], &some_id(), &prev, &next, &[1; 32]),
        Err(TransitionError::Unauthorized)
    );
}

#[test]
fn cyclic_control_is_refused() {
    let x = AliasId::new([3; 32]);
    let y = AliasId::new([4; 32]);
    let ox = template(Address::Alias(y), key(1)).with_alias_id(x).finish_output(SUPPLY).unwrap();
    let oy = template(Address::Alias(x), key(1)).with_alias_id(y).finish_output(SUPPLY).unwrap();
    let store = vec![ox, oy];
    assert!(!is_controlled_by(&store, &Address::Alias(x), &[1; 32]));
}

#[test]
fn new_alias_ids_of_a_transaction() {
    let fresh = alias(AliasId::null(), 0, vec![1]);
    let known = alias(some_id(), 0, vec![1]);
    let payload = Payload::Transaction(TransactionPayload {
        id: [7; 32],
        outputs: vec![Output::Alias(fresh.clone()), Output::Other(5), Output::Alias(known), Output::Alias(fresh)],
    });
    let ids = new_alias_output_ids(&payload).unwrap();
    assert_eq!(
        ids,
        vec![OutputId { transaction_id: [7; 32], index: 0 }, OutputId { transaction_id: [7; 32], index: 3 }]
    );
    assert_eq!(new_alias_output_ids(&Payload::Milestone), Err(PayloadError::NotATransaction));
    assert_eq!(new_alias_output_ids(&Payload::TaggedData), Err(PayloadError::NotATransaction));
}
