use alias_ledger::alias_id::{derive_alias_id, output_id_to_bytes, resolve_alias_id, Address, AliasId};
use alias_ledger::builder::AliasOutputBuilder;
use alias_ledger::feature::UnlockCondition;
use alias_ledger::output::RentStructure;
use alias_ledger::output_id::OutputId;

fn tx(last: u8) -> [u8; 32] {
    let mut t = [0u8; 32];
    t[31] = last;
    t
}

const GOLDEN: [u8; 32] = [
    174, 63, 139, 26, 148, 159, 154, 228, 113, 205, 144, 209, 143, 127, 165, 33, 23, 105, 202, 217,
    86, 189, 1, 49, 64, 142, 238, 178, 180, 174, 146, 202,
];

#[test]
fn canonical_bytes_of_output_id() {
    let b = output_id_to_bytes(&OutputId { transaction_id: tx(1), index: 0x0203 });
    assert_eq!(b.len(), 34);
    assert_eq!(b[31], 1);
    assert_eq!(&b[32..], &[3, 2]);
}

#[test]
fn derived_alias_id_golden_value() {
    let id = derive_alias_id(&OutputId { transaction_id: tx(1), index: 0 });
    assert_eq!(id.bytes, GOLDEN);
}

#[test]
fn derivation_is_deterministic() {
    let a = OutputId { transaction_id: tx(9), index: 4 };
    let b = a;
    assert_eq!(derive_alias_id(&a), derive_alias_id(&b));
    assert_eq!(derive_alias_id(&a), derive_alias_id(&a));
}

#[test]
fn different_output_ids_give_different_alias_ids() {
    let mut seen = std::collections::HashSet::new();
    for last in 0..32u8 {
        for index in 0..16u16 {
            let id = derive_alias_id(&OutputId { transaction_id: tx(last), index });
            assert!(seen.insert(id.bytes));
        }
    }
    assert_eq!(seen.len(), 512);
}

#[test]
fn null_alias_id() {
    assert!(AliasId::null().is_null());
    assert!(!AliasId::new(tx(1)).is_null());
    assert!(AliasId::null().same_as(&AliasId::new([0u8; 32])));
    assert!(!AliasId::null().same_as(&AliasId::new(tx(1))));
}

#[test]
fn resolve_derives_only_for_null() {
    let out = OutputId { transaction_id: tx(1), index: 0 };
    assert_eq!(resolve_alias_id(&AliasId::null(), &out).bytes, GOLDEN);
    let declared = AliasId::new(tx(7));
    assert_eq!(resolve_alias_id(&declared, &out), declared);
}

#[test]
fn address_comparison() {
    let a = Address::Ed25519(tx(1));
    assert!(a.same_as(&Address::Ed25519(tx(1))));
    assert!(!a.same_as(&Address::Ed25519(tx(2))));
    assert!(!a.same_as(&Address::Alias(AliasId::new(tx(1)))));
}

#[test]
fn alias_defined_with_null_id_gets_golden_id() {
    let rent = RentStructure { byte_cost: 100, byte_factor_key: 10, byte_factor_data: 1 };
    let a = AliasOutputBuilder::new_with_minimum_storage_deposit(rent, AliasId::null())
        .add_unlock_condition(UnlockCondition::StateControllerAddress(Address::Ed25519([1; 32])))
        .unwrap()
        .add_unlock_condition(UnlockCondition::GovernorAddress(Address::Ed25519([1; 32])))
        .unwrap()
        .finish_output(1_000_000_000)
        .unwrap();
    assert!(a.alias_id().is_null());
    let created_at = OutputId { transaction_id: tx(1), index: 0 };
    assert_eq!(resolve_alias_id(&a.alias_id(), &created_at).bytes, GOLDEN);
}
