//! Output identifiers: a transaction id and the index of an output in it,
//! written as 68 hex digits.
use crate::hex_text::{ascii_bytes, decode_hex, encode_hex, hex_decoded, hex_encoded, is_hex_text, lemma_hex_round_trip};
use vstd::prelude::*;
use vstd::slice::slice_subrange;
use vstd::string::{StringExecFns, StringSliceAdditionalSpecFns};
use vstd::utf8::{encode_utf8, is_ascii_chars};

verus! {

broadcast use vstd::array::group_array_axioms;

/// Hex digits of an output id.
pub const OUTPUT_ID_LENGTH: usize = 68;

/// Hex digits of its transaction id, which come first.
pub const TRANSACTION_ID_LENGTH: usize = 64;

/// The output at `index` among the outputs of transaction `transaction_id`.
#[derive(Clone, Copy, Debug, PartialEq, Eq, Hash)]
pub struct OutputId {
    pub transaction_id: [u8; 32],
    pub index: u16,
}

/// Why a text is no output id.
#[derive(Clone, Copy, Debug, PartialEq, Eq, Structural)]
pub enum DecodeError {
    /// The text does not hold exactly 68 bytes.
    InvalidLength,
    /// The first 64 bytes are no hex text.
    InvalidTransactionId,
    /// The last 4 bytes are no hex text.
    InvalidIndex,
}

/// An output id as its transaction id's bytes and its index.
pub type OutputIdModel = (Seq<u8>, u16);

impl View for OutputId {
    type V = OutputIdModel;

    open spec fn view(&self) -> OutputIdModel {
        (self.transaction_id@, self.index)
    }
}

/// The two bytes of an index, least significant first.
pub open spec fn index_bytes(i: u16) -> Seq<u8> {
    seq![(i % 256) as u8, (i / 256) as u8]
}

/// The index that two bytes stand for, least significant first.
pub open spec fn index_of_bytes(b: Seq<u8>) -> u16 {
    (b[0] + 256 * b[1]) as u16
}

/// The canonical bytes of an output id: the transaction id, then the index.
pub open spec fn output_id_bytes(id: OutputIdModel) -> Seq<u8> {
    id.0 + index_bytes(id.1)
}

/// The text of an output id.
pub open spec fn output_id_text(id: OutputIdModel) -> Seq<u8> {
    hex_encoded(id.0) + hex_encoded(index_bytes(id.1))
}

/// What a text decodes to.
pub open spec fn decode_output_id(t: Seq<u8>) -> Result<OutputIdModel, DecodeError> {
    if t.len() != OUTPUT_ID_LENGTH {
        Err(DecodeError::InvalidLength)
    } else if !is_hex_text(t.subrange(0, 64)) {
        Err(DecodeError::InvalidTransactionId)
    } else if !is_hex_text(t.subrange(64, 68)) {
        Err(DecodeError::InvalidIndex)
    } else {
        Ok((hex_decoded(t.subrange(0, 64)), index_of_bytes(hex_decoded(t.subrange(64, 68)))))
    }
}

/// Reads an output id from its text.
pub fn parse_output_id(text: &str) -> (r: Result<OutputId, DecodeError>)
    ensures
        match decode_output_id(text.spec_bytes()) {
            Ok(m) => r is Ok && r->Ok_0@ == m,
            Err(e) => r == Err::<OutputId, DecodeError>(e),
        },
{
    let bytes = text.as_bytes();
    if bytes.len() != OUTPUT_ID_LENGTH {
        return Err(DecodeError::InvalidLength);
    }
    let tx = match decode_hex(slice_subrange(bytes, 0, TRANSACTION_ID_LENGTH)) {
        Ok(v) => v,
        Err(_) => {
            return Err(DecodeError::InvalidTransactionId);
        },
    };
    let ix = match decode_hex(slice_subrange(bytes, TRANSACTION_ID_LENGTH, OUTPUT_ID_LENGTH)) {
        Ok(v) => v,
        Err(_) => {
            return Err(DecodeError::InvalidIndex);
        },
    };
    let mut transaction_id = [0u8; 32];
    let mut i: usize = 0;
    while i < 32
        invariant
            tx@.len() == 32,
            0 <= i <= 32,
            forall|j: int| 0 <= j < i ==> transaction_id@[j] == tx@[j],
        decreases 32 - i,
    {
        transaction_id[i] = tx[i];
        i = i + 1;
    }
    assert(transaction_id@ =~= tx@);
    let index: u16 = ix[0] as u16 + 256 * (ix[1] as u16);
    Ok(OutputId { transaction_id, index })
}

/// Writes the text of an output id, in lower-case hex.
pub fn format_output_id(id: &OutputId) -> (r: String)
    ensures
        is_ascii_chars(r@),
        ascii_bytes(r@) == output_id_text(id@),
{
    let mut text = encode_hex(vstd::array::array_as_slice(&id.transaction_id));
    let index = [(id.index % 256) as u8, (id.index / 256) as u8];
    assert(index@ =~= index_bytes(id.index));
    let tail = encode_hex(vstd::array::array_as_slice(&index));
    let ghost head = text@;
    text.append(tail.as_str());
    proof {
        vstd::utf8::is_ascii_chars_concat(text@, head, tail@);
        assert(ascii_bytes(text@) =~= ascii_bytes(head) + ascii_bytes(tail@));
    }
    text
}

/// The bytes of an ASCII text are its characters.
pub proof fn lemma_ascii_text_bytes(s: Seq<char>)
    requires
        is_ascii_chars(s),
    ensures
        encode_utf8(s) == ascii_bytes(s),
{
    vstd::utf8::is_ascii_chars_encode_utf8(s);
    assert(encode_utf8(s) =~= ascii_bytes(s));
}

/// Reading the text that `format_output_id` writes gives the same output id.
pub proof fn lemma_output_id_round_trip(id: OutputId, s: Seq<char>)
    requires
        is_ascii_chars(s),
        ascii_bytes(s) == output_id_text(id@),
    ensures
        decode_output_id(encode_utf8(s)) == Ok::<OutputIdModel, DecodeError>(id@),
{
    lemma_ascii_text_bytes(s);
    let t = output_id_text(id@);
    lemma_hex_round_trip(id.transaction_id@);
    lemma_hex_round_trip(index_bytes(id.index));
    assert(t.subrange(0, 64) =~= hex_encoded(id.transaction_id@));
    assert(t.subrange(64, 68) =~= hex_encoded(index_bytes(id.index)));
    assert(index_of_bytes(index_bytes(id.index)) == id.index);
}

} // verus!
