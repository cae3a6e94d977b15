use rustptb::builder::{Command, TxBuilder};
use rustptb::encode::{encode_text, InputList};
use rustptb::mint::{build_mint_and_transfer, NftPayload};
use rustptb::resolve::{resolve_module, ModuleEntry, ModuleRegistry};
use rustptb::types::{Address, BuildError, ObjectId, ObjectRef};

fn id_from(byte: u8) -> ObjectId {
    ObjectId::from_bytes(vec![byte; 32]).unwrap()
}

fn addr_from(byte: u8) -> Address {
    Address::from_bytes(vec![byte; 32]).unwrap()
}

fn one_module_registry(ident: &str, id_byte: u8) -> ModuleRegistry {
    ModuleRegistry {
        entries: vec![ModuleEntry { ident: ident.as_bytes().to_vec(), id: id_from(id_byte) }],
    }
}

#[test]
fn identifier_length_is_checked() {
    assert!(ObjectId::from_bytes(vec![7u8; 31]).is_none());
    assert!(ObjectId::from_bytes(vec![7u8; 33]).is_none());
    let id = ObjectId::from_bytes(vec![7u8; 32]).unwrap();
    assert_eq!(id.as_bytes(), &vec![7u8; 32]);
    assert!(Address::from_bytes(vec![]).is_none());
    let a = addr_from(9);
    assert_eq!(a.as_bytes(), &vec![9u8; 32]);
}

#[test]
fn encoding_is_deterministic() {
    let name = b"Art".to_vec();
    let first = encode_text(&name).unwrap();
    let second = encode_text(&name).unwrap();
    assert_eq!(first, second);
}

#[test]
fn encoding_exact_bytes() {
    assert_eq!(encode_text(&b"Art".to_vec()).unwrap(), vec![3, b'A', b'r', b't']);
    assert_eq!(encode_text(&vec![]).unwrap(), vec![0]);
    // Two-byte scalar values pass through unchanged behind the length.
    let accented = "caf\u{e9}".as_bytes().to_vec();
    assert_eq!(encode_text(&accented).unwrap(), vec![5, b'c', b'a', b'f', 0xC3, 0xA9]);
}

#[test]
fn encoding_long_length_uses_two_uleb_bytes() {
    let long = vec![b'x'; 300];
    let encoded = encode_text(&long).unwrap();
    // 300 = 0b1_0010_1100: low seven bits with the continuation bit, then 2.
    assert_eq!(encoded.len(), 302);
    assert_eq!(encoded[0], 0xAC);
    assert_eq!(encoded[1], 0x02);
    assert_eq!(&encoded[2..], &long[..]);
}

#[test]
fn encoding_matches_string_serialization() {
    let text = String::from("A picture");
    let through_library = encode_text(&text.as_bytes().to_vec()).unwrap();
    let through_bcs = bcs::to_bytes(&text).unwrap();
    assert_eq!(through_library, through_bcs);
}

#[test]
fn encoding_rejects_invalid_utf8() {
    // A lone 0xFF byte is never valid.
    assert!(matches!(encode_text(&vec![0xFF]), Err(BuildError::Encoding)));
    // A continuation byte with no leading byte.
    assert!(matches!(encode_text(&vec![0x80]), Err(BuildError::Encoding)));
    // A truncated two-byte sequence.
    assert!(matches!(encode_text(&vec![0xC3]), Err(BuildError::Encoding)));
    // An overlong encoding of NUL.
    assert!(matches!(encode_text(&vec![0xC0, 0x80]), Err(BuildError::Encoding)));
    // A surrogate code point.
    assert!(matches!(encode_text(&vec![0xED, 0xA0, 0x80]), Err(BuildError::Encoding)));
}

#[test]
fn encoding_accepts_multibyte_text() {
    // Three- and four-byte scalar values are valid.
    let text = "\u{2603}\u{1F600}".as_bytes().to_vec();
    let encoded = encode_text(&text).unwrap();
    assert_eq!(encoded[0] as usize, text.len());
    assert_eq!(&encoded[1..], &text[..]);
}

#[test]
fn inputs_get_ordinal_indices() {
    let mut inputs = InputList::new();
    let first = inputs.wrap_as_input(vec![1, 2]);
    let second = inputs.wrap_as_input(vec![3]);
    assert_eq!(first, 0);
    assert_eq!(second, 1);
    let items = inputs.into_vec();
    assert_eq!(items.len(), 2);
    assert_eq!(items[0].index, 0);
    assert_eq!(items[0].payload, vec![1, 2]);
    assert_eq!(items[1].index, 1);
    assert_eq!(items[1].payload, vec![3]);
}

#[test]
fn out_of_range_input_index_is_rejected() {
    let mut inputs = InputList::new();
    inputs.wrap_as_input(vec![0]);
    let mut builder = TxBuilder::new();
    builder.set_inputs(inputs);
    let r = builder.add_create_object(id_from(1), vec![0, 1]);
    assert!(matches!(r, Err(BuildError::InvalidReference)));
    // The in-range index alone is accepted.
    let r = builder.add_create_object(id_from(1), vec![0]);
    assert!(matches!(r, Ok(ObjectRef::PendingCreation(0))));
}

#[test]
fn forward_reference_is_rejected() {
    let mut inputs = InputList::new();
    inputs.wrap_as_input(vec![0]);
    let mut builder = TxBuilder::new();
    builder.set_inputs(inputs);
    // Transferring the output of a create command that has not been appended
    // yet must fail; appending the commands in the opposite order succeeds.
    let r = builder.add_transfer(ObjectRef::PendingCreation(0), addr_from(2));
    assert!(matches!(r, Err(BuildError::InvalidReference)));
    let created = builder.add_create_object(id_from(1), vec![0]).unwrap();
    assert!(builder.add_transfer(created, addr_from(2)).is_ok());
}

#[test]
fn transfer_of_existing_object_is_accepted() {
    let mut inputs = InputList::new();
    inputs.wrap_as_input(vec![0]);
    let mut builder = TxBuilder::new();
    builder.set_inputs(inputs);
    builder.add_create_object(id_from(1), vec![0]).unwrap();
    let r = builder.add_transfer(ObjectRef::Existing(id_from(5)), addr_from(2));
    assert!(r.is_ok());
}

#[test]
fn build_without_inputs_is_incomplete() {
    let builder = TxBuilder::new();
    let r = builder.build(id_from(1), addr_from(2), 0);
    assert!(matches!(r, Err(BuildError::Incomplete)));
}

#[test]
fn build_without_commands_is_incomplete() {
    let mut inputs = InputList::new();
    inputs.wrap_as_input(vec![0]);
    let mut builder = TxBuilder::new();
    builder.set_inputs(inputs);
    let r = builder.build(id_from(1), addr_from(2), 0);
    assert!(matches!(r, Err(BuildError::Incomplete)));
}

#[test]
fn resolution_is_idempotent() {
    let registry = one_module_registry("nft", 0xAB);
    let ident = b"nft".to_vec();
    let first = resolve_module(&registry, &ident).unwrap();
    let second = resolve_module(&registry, &ident).unwrap();
    assert_eq!(first.as_bytes(), second.as_bytes());
    assert_eq!(first.as_bytes(), &vec![0xAB; 32]);
}

#[test]
fn resolution_finds_first_match() {
    let registry = ModuleRegistry {
        entries: vec![
            ModuleEntry { ident: b"other".to_vec(), id: id_from(1) },
            ModuleEntry { ident: b"nft".to_vec(), id: id_from(2) },
            ModuleEntry { ident: b"nft".to_vec(), id: id_from(3) },
        ],
    };
    let r = resolve_module(&registry, &b"nft".to_vec()).unwrap();
    assert_eq!(r.as_bytes(), &vec![2u8; 32]);
}

#[test]
fn resolution_of_unknown_identifier_fails() {
    let registry = one_module_registry("nft", 0xAB);
    let r = resolve_module(&registry, &b"missing".to_vec());
    assert!(matches!(r, Err(BuildError::ModuleNotFound)));
}

#[test]
fn end_to_end_mint_and_transfer() {
    let registry = one_module_registry("nft", 0xAB);
    let payload = NftPayload { name: b"Art".to_vec(), description: b"A picture".to_vec() };
    let tx = build_mint_and_transfer(
        &registry,
        &b"nft".to_vec(),
        payload,
        id_from(0xC0),
        addr_from(0x1E),
        0,
    )
    .unwrap();

    assert_eq!(tx.sender.as_bytes(), &vec![0xC0; 32]);
    assert_eq!(tx.recipient.as_bytes(), &vec![0x1E; 32]);
    assert_eq!(tx.gas_price, 0);

    assert_eq!(tx.inputs.len(), 2);
    assert_eq!(tx.inputs[0].index, 0);
    assert_eq!(tx.inputs[0].payload, vec![3, b'A', b'r', b't']);
    assert_eq!(tx.inputs[1].index, 1);
    let mut expected_description = vec![9u8];
    expected_description.extend_from_slice(b"A picture");
    assert_eq!(tx.inputs[1].payload, expected_description);

    assert_eq!(tx.commands.len(), 2);
    match &tx.commands[0] {
        Command::CreateObject { module, args } => {
            assert_eq!(module.as_bytes(), &vec![0xAB; 32]);
            assert_eq!(args, &vec![0, 1]);
        },
        _ => panic!("first command must create the object"),
    }
    match &tx.commands[1] {
        Command::TransferObject { object, recipient } => {
            assert!(matches!(object, ObjectRef::PendingCreation(0)));
            assert_eq!(recipient.as_bytes(), &vec![0x1E; 32]);
        },
        _ => panic!("second command must transfer the object"),
    }
}

#[test]
fn unresolved_module_fails_the_build() {
    let registry = ModuleRegistry { entries: vec![] };
    let payload = NftPayload { name: b"Art".to_vec(), description: b"A picture".to_vec() };
    let r = build_mint_and_transfer(
        &registry,
        &b"nft".to_vec(),
        payload,
        id_from(0xC0),
        addr_from(0x1E),
        0,
    );
    assert!(matches!(r, Err(BuildError::ModuleNotFound)));
}

#[test]
fn invalid_name_fails_the_build() {
    let registry = one_module_registry("nft", 0xAB);
    let payload = NftPayload { name: vec![b'A', 0xFF], description: b"A picture".to_vec() };
    let r = build_mint_and_transfer(
        &registry,
        &b"nft".to_vec(),
        payload,
        id_from(0xC0),
        addr_from(0x1E),
        0,
    );
    assert!(matches!(r, Err(BuildError::Encoding)));
}

#[test]
fn empty_fields_are_permitted() {
    let registry = one_module_registry("nft", 0xAB);
    let payload = NftPayload { name: vec![], description: vec![] };
    let tx = build_mint_and_transfer(
        &registry,
        &b"nft".to_vec(),
        payload,
        id_from(0xC0),
        addr_from(0x1E),
        7,
    )
    .unwrap();
    assert_eq!(tx.gas_price, 7);
    assert_eq!(tx.inputs[0].payload, vec![0]);
    assert_eq!(tx.inputs[1].payload, vec![0]);
}
