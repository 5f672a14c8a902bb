//! Payloads of blocks, and the output ids of the aliases that a transaction
//! defines.
use crate::output::AliasOutput;
use crate::output_id::{OutputId, OutputIdModel};
use crate::alias_id::is_zero;
use vstd::prelude::*;

verus! {

broadcast use vstd::array::group_array_axioms;

/// An output of a transaction.
#[derive(Clone, Debug, PartialEq, Eq)]
pub enum Output {
    Alias(AliasOutput),
    /// An output of another kind, carrying this amount.
    Other(u64),
}

/// A transaction: its id and its outputs, in order.
#[derive(Clone, Debug, PartialEq, Eq)]
pub struct TransactionPayload {
    pub id: [u8; 32],
    pub outputs: Vec<Output>,
}

/// What a block carries.
#[derive(Clone, Debug, PartialEq, Eq)]
pub enum Payload {
    Transaction(TransactionPayload),
    Milestone,
    TaggedData,
}

/// Why no output ids could be read from a payload.
#[derive(Clone, Copy, Debug, PartialEq, Eq, Structural)]
pub enum PayloadError {
    /// The payload is no transaction.
    NotATransaction,
    /// The transaction has more outputs than a 16-bit index can count.
    TooManyOutputs,
}

/// Whether an output defines a new alias: an alias output with the null id.
pub open spec fn defines_alias(o: Output) -> bool {
    match o {
        Output::Alias(a) => is_zero(a@.alias_id.bytes@),
        Output::Other(_) => false,
    }
}

/// The ids of the outputs among the first `n` that define a new alias, in order.
pub open spec fn new_alias_ids(tx: Seq<u8>, outputs: Seq<Output>, n: int) -> Seq<OutputIdModel>
    decreases n,
{
    if n <= 0 {
        Seq::empty()
    } else {
        new_alias_ids(tx, outputs, n - 1) + if defines_alias(outputs[n - 1]) {
            seq![(tx, (n - 1) as u16)]
        } else {
            Seq::empty()
        }
    }
}

/// The output ids of the aliases that a transaction payload defines.
pub fn new_alias_output_ids(payload: &Payload) -> (r: Result<Vec<OutputId>, PayloadError>)
    ensures
        match payload {
            Payload::Transaction(t) => if t.outputs@.len() > 65536 {
                r == Err::<Vec<OutputId>, PayloadError>(PayloadError::TooManyOutputs)
            } else {
                r is Ok && r->Ok_0@.map_values(|id: OutputId| id@) == new_alias_ids(
                    t.id@,
                    t.outputs@,
                    t.outputs@.len() as int,
                )
            },
            _ => r == Err::<Vec<OutputId>, PayloadError>(PayloadError::NotATransaction),
        },
{
    let t = match payload {
        Payload::Transaction(t) => t,
        _ => {
            return Err(PayloadError::NotATransaction);
        },
    };
    if t.outputs.len() > 65536 {
        return Err(PayloadError::TooManyOutputs);
    }
    let mut ids: Vec<OutputId> = Vec::new();
    let mut i: usize = 0;
    while i < t.outputs.len()
        invariant
            t.outputs@.len() <= 65536,
            0 <= i <= t.outputs@.len(),
            ids@.map_values(|id: OutputId| id@) == new_alias_ids(t.id@, t.outputs@, i as int),
        decreases t.outputs@.len() - i,
    {
        let ghost before = ids@.map_values(|id: OutputId| id@);
        let fresh = match &t.outputs[i] {
            Output::Alias(a) => a.alias_id().is_null(),
            Output::Other(_) => false,
        };
        if fresh {
            ids.push(OutputId { transaction_id: t.id, index: i as u16 });
            assert(ids@.map_values(|id: OutputId| id@) =~= before + seq![(t.id@, i as u16)]);
        } else {
            assert(before + Seq::<OutputIdModel>::empty() =~= before);
        }
        i = i + 1;
    }
    Ok(ids)
}

} // verus!
