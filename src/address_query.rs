//! Queries of the outputs that an address holds: their options, their path,
//! and what is made of the answer.
use crate::output_id::{decode_output_id, parse_output_id, DecodeError, OutputId, OutputIdModel};
use vstd::prelude::*;
use vstd::string::StringExecFns;
use vstd::utf8::encode_utf8;

verus! {

/// Output type filter.
#[derive(Clone, Copy, Debug, PartialEq, Eq, Structural)]
pub enum OutputType {
    /// Signature locked single output.
    SignatureLockedSingle,
    /// Dust allowance output.
    SignatureLockedDustAllowance,
}

/// The code of an output type on the wire.
pub open spec fn output_type_code(t: OutputType) -> u16 {
    match t {
        OutputType::SignatureLockedSingle => 0,
        OutputType::SignatureLockedDustAllowance => 1,
    }
}

impl From<OutputType> for u16 {
    fn from(value: OutputType) -> (r: u16) {
        match value {
            OutputType::SignatureLockedSingle => 0,
            OutputType::SignatureLockedDustAllowance => 1,
        }
    }
}

impl vstd::std_specs::convert::FromSpecImpl<OutputType> for u16 {
    open spec fn obeys_from_spec() -> bool {
        true
    }

    open spec fn from_spec(v: OutputType) -> u16 {
        output_type_code(v)
    }
}

/// The outputs query options.
#[derive(Clone, Copy, Debug, Default)]
pub struct OutputsOptions {
    /// Whether the query should include spent outputs or not.
    pub include_spent: bool,
    /// The output type filter.
    pub output_type: Option<OutputType>,
}

/// The query parameter of a type filter: `type=` and the decimal code.
pub open spec fn type_param(t: OutputType) -> Seq<char> {
    match t {
        OutputType::SignatureLockedSingle => "type=0"@,
        OutputType::SignatureLockedDustAllowance => "type=1"@,
    }
}

/// The query string of the options: its parameters joined by `&`, or none.
pub open spec fn query_of(include_spent: bool, output_type: Option<OutputType>) -> Option<Seq<char>> {
    match output_type {
        None => if include_spent {
            Some("include-spent=true"@)
        } else {
            None
        },
        Some(t) => if include_spent {
            Some("include-spent=true"@ + "&"@ + type_param(t))
        } else {
            Some(type_param(t))
        },
    }
}

impl OutputsOptions {
    /// The query string of these options, if they ask for anything.
    pub fn into_query(self) -> (r: Option<String>)
        ensures
            match query_of(self.include_spent, self.output_type) {
                None => r is None,
                Some(q) => r is Some && r->Some_0@ == q,
            },
    {
        let mut params = String::new();
        let mut any = false;
        if self.include_spent {
            params.append("include-spent=true");
            any = true;
        }
        if let Some(output_type) = self.output_type {
            if any {
                params.append("&");
            }
            let code = u16::from(output_type);
            if code == 0 {
                params.append("type=0");
            } else {
                params.append("type=1");
            }
        }
        proof {
            reveal_strlit("include-spent=true");
            reveal_strlit("&");
            reveal_strlit("type=0");
            reveal_strlit("type=1");
            assert(Seq::<char>::empty() + "include-spent=true"@ =~= "include-spent=true"@);
            assert(Seq::<char>::empty() + "type=0"@ =~= "type=0"@);
            assert(Seq::<char>::empty() + "type=1"@ =~= "type=1"@);
        }
        if any || self.output_type.is_some() {
            Some(params)
        } else {
            None
        }
    }
}

/// Path of the indexer's query for the outputs of `address`.
pub open spec fn outputs_path_of(address: Seq<char>) -> Seq<char> {
    "api/plugins/indexer/addresses/"@ + address + "/outputs"@
}

/// The path under which a node lists the outputs of `address`.
pub fn outputs_path(address: &str) -> (r: String)
    ensures
        r@ == outputs_path_of(address@),
{
    let mut path = String::from_str("api/plugins/indexer/addresses/");
    path.append(address);
    path.append("/outputs");
    path
}

/// The output ids that a list of texts decodes to, all of them, or the first error.
pub open spec fn decode_all(texts: Seq<Seq<u8>>) -> Result<Seq<OutputIdModel>, DecodeError>
    decreases texts.len(),
{
    if texts.len() == 0 {
        Ok(Seq::empty())
    } else {
        match decode_output_id(texts[0]) {
            Err(e) => Err(e),
            Ok(m) => match decode_all(texts.drop_first()) {
                Err(e) => Err(e),
                Ok(rest) => Ok(seq![m] + rest),
            },
        }
    }
}

/// Reads every output id of a node's answer, in order; the first text that is
/// no output id fails the whole list.
pub fn parse_output_ids(texts: &Vec<String>) -> (r: Result<Vec<OutputId>, DecodeError>)
    ensures
        match decode_all(texts@.map_values(|s: String| encode_utf8(s@))) {
            Ok(ms) => r is Ok && r->Ok_0@.map_values(|id: OutputId| id@) == ms,
            Err(e) => r == Err::<Vec<OutputId>, DecodeError>(e),
        },
{
    let ghost all = texts@.map_values(|s: String| encode_utf8(s@));
    let mut ids: Vec<OutputId> = Vec::new();
    let mut i: usize = 0;
    proof {
        assert(all.subrange(0, all.len() as int) =~= all);
        if let Ok(rest) = decode_all(all) {
            assert(ids@.map_values(|id: OutputId| id@) + rest =~= rest);
        }
    }
    while i < texts.len()
        invariant
            0 <= i <= texts@.len(),
            all == texts@.map_values(|s: String| encode_utf8(s@)),
            decode_all(all) == match decode_all(all.subrange(i as int, all.len() as int)) {
                Err(e) => Err(e),
                Ok(rest) => Ok(ids@.map_values(|id: OutputId| id@) + rest),
            },
        decreases texts@.len() - i,
    {
        let id = match parse_output_id(texts[i].as_str()) {
            Ok(id) => id,
            Err(e) => {
                assert(all.subrange(i as int, all.len() as int)[0] == all[i as int]);
                return Err(e);
            },
        };
        let ghost before = ids@.map_values(|id: OutputId| id@);
        ids.push(id);
        proof {
            let tail = all.subrange(i as int, all.len() as int);
            assert(tail[0] == all[i as int]);
            assert(tail.drop_first() =~= all.subrange(i + 1, all.len() as int));
            assert(ids@.map_values(|id: OutputId| id@) =~= before.push(id@));
            match decode_all(tail.drop_first()) {
                Err(e) => {},
                Ok(rest) => {
                    assert(before + (seq![id@] + rest) =~= before.push(id@) + rest);
                },
            }
        }
        i = i + 1;
    }
    proof {
        assert(all.subrange(i as int, all.len() as int) =~= Seq::<Seq<u8>>::empty());
        assert(ids@.map_values(|id: OutputId| id@) + Seq::<OutputIdModel>::empty() =~= ids@.map_values(|id: OutputId| id@));
    }
    Ok(ids)
}

/// The sum of a sequence of amounts.
pub open spec fn sum_of(amounts: Seq<u64>) -> nat
    decreases amounts.len(),
{
    if amounts.len() == 0 {
        0
    } else {
        sum_of(amounts.drop_last()) + amounts.last() as nat
    }
}

/// The balance that the amounts of an address's outputs add up to, unless it
/// exceeds what a `u64` holds.
pub fn total_balance(amounts: &Vec<u64>) -> (r: Option<u64>)
    ensures
        sum_of(amounts@) <= u64::MAX ==> r == Some(sum_of(amounts@) as u64),
        sum_of(amounts@) > u64::MAX ==> r is None,
{
    let mut total: u64 = 0;
    let mut i: usize = 0;
    while i < amounts.len()
        invariant
            0 <= i <= amounts@.len(),
            total == sum_of(amounts@.subrange(0, i as int)),
        decreases amounts@.len() - i,
    {
        assert(amounts@.subrange(0, i + 1).drop_last() =~= amounts@.subrange(0, i as int));
        match total.checked_add(amounts[i]) {
            Some(t) => {
                total = t;
            },
            None => {
                proof {
                    lemma_sum_prefix_grows(amounts@, i + 1);
                }
                return None;
            },
        }
        i = i + 1;
    }
    assert(amounts@.subrange(0, i as int) =~= amounts@);
    Some(total)
}

/// A sum of amounts is at least the sum of any prefix of them.
pub proof fn lemma_sum_prefix_grows(amounts: Seq<u64>, n: int)
    requires
        0 <= n <= amounts.len(),
    ensures
        sum_of(amounts.subrange(0, n)) <= sum_of(amounts),
    decreases amounts.len(),
{
    if n < amounts.len() {
        lemma_sum_prefix_grows(amounts.drop_last(), n);
        assert(amounts.drop_last().subrange(0, n) =~= amounts.subrange(0, n));
    } else {
        assert(amounts.subrange(0, n) =~= amounts);
    }
}

/// Builder of the queries on an address, over the client that sends them.
pub struct GetAddressBuilder<'a, C> {
    client: &'a C,
}

impl<'a, C> GetAddressBuilder<'a, C> {
    /// Creates the builder over `client`.
    pub fn new(client: &'a C) -> (r: Self)
        ensures
            r.client() == client,
    {
        Self { client }
    }

    /// The client that the queries go through.
    pub closed spec fn client(&self) -> &'a C {
        self.client
    }

    /// The client that the queries go through.
    pub fn get_client(&self) -> (r: &'a C)
        ensures
            r == self.client(),
    {
        self.client
    }
}

} // verus!
