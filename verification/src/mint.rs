//! The complete mint-and-transfer flow: encode the NFT's fields, resolve the
//! module, assemble the create and transfer commands, and freeze the
//! transaction envelope.

use vstd::prelude::*;
use crate::builder::{Command, Transaction, TxBuilder};
use crate::encode::{canonical_encoding, encode_text, text_encodable, InputList};
use crate::resolve::{resolve_module, spec_resolve, ModuleRegistry};
use crate::types::{Address, BuildError, ObjectId, ObjectRef};

verus! {

/// The application-level NFT data: raw name and description text, validated
/// when encoded. Empty fields are permitted; they are valid UTF-8 and encode
/// successfully.
pub struct NftPayload {
    /// The NFT's name.
    pub name: Vec<u8>,
    /// The NFT's description.
    pub description: Vec<u8>,
}

/// Builds the one fixed transaction of this library: a command creating an
/// NFT from the payload's two fields, followed by a command transferring the
/// created object to `recipient`, paying gas from `coin`.
///
/// Exactly one of three outcomes, in this order of precedence:
/// - `Encoding` when a payload field is not valid UTF-8 of encodable length,
///   before any input is added;
/// - `ModuleNotFound` when `module_ident` does not resolve in `registry`;
/// - otherwise a well-formed transaction whose inputs are the canonical
///   encodings of name and description, in that order, whose first command
///   creates the object from both inputs through the resolved module, and
///   whose second command transfers that command's pending output.
pub fn build_mint_and_transfer(
    registry: &ModuleRegistry,
    module_ident: &Vec<u8>,
    payload: NftPayload,
    coin: ObjectId,
    recipient: Address,
    gas_price: u64,
) -> (r: Result<Transaction, BuildError>)
    requires
        registry.wf(),
        coin.wf(),
        recipient.wf(),
    ensures
        !(text_encodable(payload.name@) && text_encodable(payload.description@)) ==> r == Err::<
            Transaction,
            BuildError,
        >(BuildError::Encoding),
        text_encodable(payload.name@) && text_encodable(payload.description@) && spec_resolve(
            registry.entries@,
            module_ident@,
        ) is None ==> r == Err::<Transaction, BuildError>(BuildError::ModuleNotFound),
        text_encodable(payload.name@) && text_encodable(payload.description@) && spec_resolve(
            registry.entries@,
            module_ident@,
        ) is Some ==> {
            &&& r matches Ok(tx)
            &&& tx.wf()
            &&& tx.sender == coin
            &&& tx.recipient == recipient
            &&& tx.gas_price == gas_price
            &&& tx.inputs@.len() == 2
            &&& tx.inputs@[0].index == 0
            &&& tx.inputs@[0].payload@ == canonical_encoding(payload.name@)
            &&& tx.inputs@[1].index == 1
            &&& tx.inputs@[1].payload@ == canonical_encoding(payload.description@)
            &&& tx.commands@.len() == 2
            &&& tx.commands@[0] matches Command::CreateObject { module, args } && module@
                == spec_resolve(registry.entries@, module_ident@)->Some_0 && args@ =~= seq![
                0usize,
                1usize,
            ]
            &&& tx.commands@[1] matches Command::TransferObject { object, recipient: to }
                && object == ObjectRef::PendingCreation(0usize) && to@ == recipient@
        },
{
    let encoded_name = match encode_text(&payload.name) {
        Ok(b) => b,
        Err(e) => {
            return Err(e);
        },
    };
    let encoded_description = match encode_text(&payload.description) {
        Ok(b) => b,
        Err(e) => {
            return Err(e);
        },
    };
    let module = match resolve_module(registry, module_ident) {
        Ok(m) => m,
        Err(e) => {
            return Err(e);
        },
    };

    let mut inputs = InputList::new();
    let name_ix = inputs.wrap_as_input(encoded_name);
    let description_ix = inputs.wrap_as_input(encoded_description);

    let mut builder = TxBuilder::new();
    builder.set_inputs(inputs);

    let mut args: Vec<usize> = Vec::new();
    args.push(name_ix);
    args.push(description_ix);
    let created = match builder.add_create_object(module, args) {
        Ok(o) => o,
        Err(_) => {
            return Err(BuildError::InvalidReference);
        },
    };
    match builder.add_transfer(created, recipient.clone()) {
        Ok(_) => {},
        Err(_) => {
            return Err(BuildError::InvalidReference);
        },
    };
    builder.build(coin, recipient, gas_price)
}

} // verus!
