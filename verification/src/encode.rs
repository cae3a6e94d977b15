//! The input encoder: canonical binary encoding of text values and the
//! ordered list of transaction inputs.

use vstd::prelude::*;
use crate::types::BuildError;
use crate::utf8::is_utf8;

verus! {

/// Longest byte sequence the canonical encoder serializes
/// (`bcs::MAX_SEQUENCE_LENGTH`).
pub const MAX_ENCODABLE_LEN: usize = 0x7fff_ffff;

/// ULEB128 encoding of a number: little-endian groups of seven bits, the high
/// bit of every byte but the last set.
pub open spec fn uleb128(n: nat) -> Seq<u8>
    decreases n,
{
    if n < 0x80 {
        seq![n as u8]
    } else {
        seq![(n % 0x80 + 0x80) as u8] + uleb128(n / 0x80)
    }
}

/// Canonical binary encoding of a byte string: its ULEB128-encoded length
/// followed by the bytes themselves.
pub open spec fn canonical_encoding(s: Seq<u8>) -> Seq<u8> {
    uleb128(s.len()) + s
}

/// A text value the encoder accepts: valid UTF-8 and not oversized.
pub open spec fn text_encodable(s: Seq<u8>) -> bool {
    is_utf8(s) && s.len() <= MAX_ENCODABLE_LEN
}

/// Relies on `bcs::to_bytes` applied to a byte vector: the canonical binary
/// encoding of a variable-length sequence is its ULEB128-encoded length
/// followed by its elements, a `u8` element being the byte itself, and
/// serialization of a sequence no longer than `bcs::MAX_SEQUENCE_LENGTH`
/// into a byte buffer always succeeds.
#[verifier::external_body]
fn bcs_serialize_bytes(v: &Vec<u8>) -> (r: Vec<u8>)
    requires
        v@.len() <= MAX_ENCODABLE_LEN,
    ensures
        r@ == canonical_encoding(v@),
{
    bcs::to_bytes(v).unwrap()
}

/// Canonically encodes one text value. Deterministic and total over
/// well-formed values: returns the canonical bytes exactly when `value` is
/// valid UTF-8 of encodable length, and `Encoding` otherwise.
pub fn encode_text(value: &Vec<u8>) -> (r: Result<Vec<u8>, BuildError>)
    ensures
        text_encodable(value@) ==> (r matches Ok(b) && b@ == canonical_encoding(value@)),
        !text_encodable(value@) ==> r == Err::<Vec<u8>, BuildError>(BuildError::Encoding),
{
    if value.len() > MAX_ENCODABLE_LEN {
        return Err(BuildError::Encoding);
    }
    if !crate::utf8::validate_utf8(value) {
        return Err(BuildError::Encoding);
    }
    Ok(bcs_serialize_bytes(value))
}

/// Encoding determinism: the canonical encoding is a function of the encoded
/// value alone, so two encodings of equal values are equal, whenever and
/// wherever they are computed.
pub proof fn lemma_encoding_deterministic(a: Seq<u8>, b: Seq<u8>)
    requires
        a == b,
    ensures
        canonical_encoding(a) == canonical_encoding(b),
{
}

/// One canonically encoded value, addressable by commands through its
/// position in the transaction's input list.
pub struct TransactionInput {
    /// Position of this input in the input list: its identity within the
    /// transaction.
    pub index: usize,
    /// The canonical byte payload, immutable after encoding.
    pub payload: Vec<u8>,
}

/// Each input sits at the position its index names.
pub open spec fn inputs_ordinal(s: Seq<TransactionInput>) -> bool {
    forall|i: int| 0 <= i < s.len() ==> (#[trigger] s[i]).index == i
}

/// Accumulates transaction inputs, assigning each the next ordinal index.
pub struct InputList {
    items: Vec<TransactionInput>,
}

impl View for InputList {
    type V = Seq<TransactionInput>;

    closed spec fn view(&self) -> Seq<TransactionInput> {
        self.items@
    }
}

impl InputList {
    /// Indices are consistent with positions.
    pub open spec fn wf(&self) -> bool {
        inputs_ordinal(self@)
    }

    /// An empty input list.
    pub fn new() -> (r: InputList)
        ensures
            r.wf(),
            r@.len() == 0,
    {
        InputList { items: Vec::new() }
    }

    /// Wraps an encoded payload as the next transaction input and returns the
    /// index assigned to it. Pure bookkeeping, no failure mode.
    pub fn wrap_as_input(&mut self, payload: Vec<u8>) -> (ix: usize)
        requires
            old(self).wf(),
        ensures
            final(self).wf(),
            ix == old(self)@.len(),
            final(self)@ == old(self)@.push((TransactionInput { index: ix, payload })),
    {
        let ix = self.items.len();
        self.items.push(TransactionInput { index: ix, payload });
        ix
    }

    /// Hands the finished list over for transaction assembly.
    pub fn into_vec(self) -> (r: Vec<TransactionInput>)
        ensures
            r@ == self@,
    {
        self.items
    }
}

} // verus!
