//! Alias outputs of a UTXO ledger: output identifiers and their hex text,
//! alias identifiers derived from them, an output builder with the minimum
//! storage deposit rule, and the rules for state and governance transitions.

pub mod hex_text;
pub mod output_id;
pub mod payload;
pub mod address_query;
pub mod alias_id;
pub mod encoding;
pub mod feature;
pub mod output;
pub mod builder;
pub mod transition;
