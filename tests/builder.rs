use alias_ledger::alias_id::{Address, AliasId};
use alias_ledger::builder::{AliasOutputBuilder, BuilderError, ValidationError};
use alias_ledger::feature::{Feature, UnlockCondition};
use alias_ledger::output::{minimum_storage_deposit, RentStructure};
use alias_ledger::builder::verify_storage_deposit;

const SUPPLY: u64 = 1_813_620_509_061_365;

fn key(b: u8) -> Address {
    Address::Ed25519([b; 32])
}

fn rent() -> RentStructure {
    RentStructure { byte_cost: 100, byte_factor_key: 10, byte_factor_data: 1 }
}

fn template(address: Address) -> AliasOutputBuilder {
    AliasOutputBuilder::new_with_minimum_storage_deposit(rent(), AliasId::null())
        .add_feature(Feature::Sender(address))
        .unwrap()
        .with_state_metadata(vec![1, 2, 3])
        .add_immutable_feature(Feature::Issuer(address))
        .unwrap()
        .add_unlock_condition(UnlockCondition::StateControllerAddress(address))
        .unwrap()
        .add_unlock_condition(UnlockCondition::GovernorAddress(address))
        .unwrap()
}

#[test]
fn minimum_deposit_formula() {
    assert_eq!(minimum_storage_deposit(&rent(), 194), 100 * (194 + 340 + 40));
    assert_eq!(minimum_storage_deposit(&rent(), 0), 38000);
    let zero = RentStructure { byte_cost: 0, byte_factor_key: 10, byte_factor_data: 1 };
    assert_eq!(minimum_storage_deposit(&zero, 500), 0);
}

#[test]
fn built_amount_is_the_minimum_deposit() {
    let out = template(key(1)).finish_output(SUPPLY).unwrap();
    assert_eq!(out.packed_len(), 194);
    assert_eq!(out.amount(), 57_400);
    assert_eq!(out.amount(), minimum_storage_deposit(&rent(), out.packed_len()));
    assert_eq!(out.state_index(), 0);
    assert_eq!(out.foundry_counter(), 0);
    assert!(out.alias_id().is_null());
    assert_eq!(verify_storage_deposit(&out, &rent()), Ok(()));
}

#[test]
fn longer_state_metadata_costs_more() {
    let short = template(key(1)).finish_output(SUPPLY).unwrap();
    let long = template(key(1)).with_state_metadata(vec![0; 10]).finish_output(SUPPLY).unwrap();
    assert_eq!(long.amount(), short.amount() + 700);
}

#[test]
fn add_refuses_duplicates() {
    let b = template(key(1));
    assert_eq!(
        b.clone().add_unlock_condition(UnlockCondition::GovernorAddress(key(2))).err(),
        Some(BuilderError::DuplicateUnlockCondition)
    );
    assert_eq!(b.clone().add_feature(Feature::Sender(key(2))).err(), Some(BuilderError::DuplicateFeature));
    assert_eq!(
        b.add_immutable_feature(Feature::Issuer(key(2))).err(),
        Some(BuilderError::DuplicateFeature)
    );
}

#[test]
fn replace_overwrites_or_inserts() {
    let out = template(key(1))
        .replace_unlock_condition(UnlockCondition::StateControllerAddress(key(2)))
        .replace_feature(Feature::Sender(key(3)))
        .replace_feature(Feature::Tag(vec![7]))
        .finish_output(SUPPLY)
        .unwrap();
    assert_eq!(out.state_controller_address(), key(2));
    assert_eq!(out.governor_address(), key(1));
    assert_eq!(out.features().sender(), Some(key(3)));
    assert_eq!(out.features().tag(), Some(&vec![7]));
    assert_eq!(out.immutable_features().issuer(), Some(key(1)));
}

#[test]
fn clones_are_independent() {
    let b = template(key(1));
    let first = b.clone().with_state_index(5).finish_output(SUPPLY).unwrap();
    let second = b.finish_output(SUPPLY).unwrap();
    assert_eq!(first.state_index(), 5);
    assert_eq!(second.state_index(), 0);
}

#[test]
fn builder_from_output_keeps_contents() {
    let out = template(key(1)).with_foundry_counter(3).finish_output(SUPPLY).unwrap();
    let again = AliasOutputBuilder::from_output(&out).finish_output(SUPPLY).unwrap();
    assert_eq!(again, out);
    let next = AliasOutputBuilder::from_output(&out)
        .with_minimum_storage_deposit(rent())
        .with_state_metadata(b"updated state metadata 1".to_vec())
        .with_state_index(out.state_index() + 1)
        .finish_output(SUPPLY)
        .unwrap();
    assert_eq!(next.state_index(), 1);
    assert_eq!(next.amount(), 57_400 + 2100);
}

#[test]
fn finish_errors() {
    let b = || AliasOutputBuilder::new_with_amount(1000, AliasId::null());
    let sc = UnlockCondition::StateControllerAddress(key(1));
    let gov = UnlockCondition::GovernorAddress(key(1));
    let full = || b().add_unlock_condition(sc).unwrap().add_unlock_condition(gov).unwrap();
    assert_eq!(full().finish_output(SUPPLY).map(|o| o.amount()), Ok(1000));
    assert_eq!(
        full().with_state_metadata(vec![0; 8193]).finish_output(SUPPLY).err(),
        Some(ValidationError::StateMetadataTooLong)
    );
    assert!(full().with_state_metadata(vec![0; 8192]).finish_output(SUPPLY).is_ok());
    assert_eq!(
        full().replace_feature(Feature::Tag(vec![0; 65])).finish_output(SUPPLY).err(),
        Some(ValidationError::FeatureTooLong)
    );
    assert_eq!(
        full().replace_immutable_feature(Feature::Metadata(vec![0; 8193])).finish_output(SUPPLY).err(),
        Some(ValidationError::FeatureTooLong)
    );
    assert_eq!(
        full().replace_feature(Feature::Issuer(key(1))).finish_output(SUPPLY).err(),
        Some(ValidationError::DisallowedFeature)
    );
    assert_eq!(
        full().replace_immutable_feature(Feature::Sender(key(1))).finish_output(SUPPLY).err(),
        Some(ValidationError::DisallowedImmutableFeature)
    );
    assert_eq!(
        b().add_unlock_condition(gov).unwrap().finish_output(SUPPLY).err(),
        Some(ValidationError::MissingStateController)
    );
    assert_eq!(
        b().add_unlock_condition(sc).unwrap().finish_output(SUPPLY).err(),
        Some(ValidationError::MissingGovernor)
    );
    assert_eq!(full().with_amount(0).finish_output(SUPPLY).err(), Some(ValidationError::ZeroAmount));
    assert_eq!(full().finish_output(999).err(), Some(ValidationError::AmountExceedsTokenSupply));
    assert!(full().finish_output(1000).is_ok());
}

#[test]
fn fixed_amount_below_deposit_is_reported() {
    let out = AliasOutputBuilder::new_with_amount(1000, AliasId::null())
        .add_unlock_condition(UnlockCondition::StateControllerAddress(key(1)))
        .unwrap()
        .add_unlock_condition(UnlockCondition::GovernorAddress(key(1)))
        .unwrap()
        .finish_output(SUPPLY)
        .unwrap();
    assert_eq!(verify_storage_deposit(&out, &rent()), Err(ValidationError::InsufficientStorageDeposit));
}

#[test]
fn canonical_bytes_of_an_output() {
    let out = AliasOutputBuilder::new_with_amount(1000, AliasId::null())
        .add_unlock_condition(UnlockCondition::StateControllerAddress(key(1)))
        .unwrap()
        .add_unlock_condition(UnlockCondition::GovernorAddress(Address::Alias(AliasId::new([2; 32]))))
        .unwrap()
        .with_state_index(258)
        .with_state_metadata(vec![9, 8])
        .replace_feature(Feature::Tag(vec![7]))
        .finish_output(SUPPLY)
        .unwrap();
    let mut expected: Vec<u8> = vec![232, 3, 0, 0, 0, 0, 0, 0];
    expected.extend_from_slice(&[0; 32]);
    expected.extend_from_slice(&[2, 1, 0, 0]);
    expected.push(2);
    expected.extend_from_slice(&[4, 0]);
    expected.extend_from_slice(&[1; 32]);
    expected.extend_from_slice(&[5, 8]);
    expected.extend_from_slice(&[2; 32]);
    expected.extend_from_slice(&[1, 3, 1, 7]);
    expected.push(0);
    expected.extend_from_slice(&[2, 0, 0, 0, 9, 8]);
    expected.extend_from_slice(&[0, 0, 0, 0]);
    let bytes = out.pack();
    assert_eq!(bytes, expected);
    assert_eq!(bytes.len() as u64, out.packed_len());
}
