use alias_ledger::address_query::{
    outputs_path, parse_output_ids, total_balance, GetAddressBuilder, OutputType, OutputsOptions,
};
use alias_ledger::output_id::DecodeError;

#[test]
fn output_type_codes() {
    assert_eq!(u16::from(OutputType::SignatureLockedSingle), 0);
    assert_eq!(u16::from(OutputType::SignatureLockedDustAllowance), 1);
}

#[test]
fn query_of_default_options_is_none() {
    assert_eq!(OutputsOptions::default().into_query(), None);
}

#[test]
fn query_with_spent_and_type() {
    let o = OutputsOptions { include_spent: true, output_type: None };
    assert_eq!(o.into_query(), Some("include-spent=true".to_string()));
    let o = OutputsOptions { include_spent: false, output_type: Some(OutputType::SignatureLockedDustAllowance) };
    assert_eq!(o.into_query(), Some("type=1".to_string()));
    let o = OutputsOptions { include_spent: true, output_type: Some(OutputType::SignatureLockedSingle) };
    assert_eq!(o.into_query(), Some("include-spent=true&type=0".to_string()));
}

#[test]
fn path_of_address_outputs() {
    assert_eq!(outputs_path("rms1abc"), "api/plugins/indexer/addresses/rms1abc/outputs");
}

#[test]
fn output_ids_are_read_in_order() {
    let a = format!("{}01{}", "0".repeat(62), "0000");
    let b = format!("{}02{}", "0".repeat(62), "0500");
    let ids = parse_output_ids(&vec![a, b]).unwrap();
    assert_eq!(ids.len(), 2);
    assert_eq!(ids[0].transaction_id[31], 1);
    assert_eq!(ids[1].transaction_id[31], 2);
    assert_eq!(ids[1].index, 5);
    assert_eq!(parse_output_ids(&vec![]), Ok(vec![]));
}

#[test]
fn one_bad_output_id_fails_the_list() {
    let a = format!("{}01{}", "0".repeat(62), "0000");
    assert_eq!(parse_output_ids(&vec![a, "123".to_string()]), Err(DecodeError::InvalidLength));
}

#[test]
fn balance_sums_amounts() {
    assert_eq!(total_balance(&vec![]), Some(0));
    assert_eq!(total_balance(&vec![1, 2, 3]), Some(6));
    assert_eq!(total_balance(&vec![u64::MAX, 0]), Some(u64::MAX));
    assert_eq!(total_balance(&vec![u64::MAX, 1]), None);
}

#[test]
fn builder_keeps_its_client() {
    let client = String::from("node");
    let b = GetAddressBuilder::new(&client);
    assert_eq!(b.get_client(), "node");
}
