use kdbx_errors::Cause;
use kdbx_errors::CryptoError;
use kdbx_errors::DatabaseIntegrityError;

fn broken_xml() -> xml::reader::Error {
    let reader = xml::reader::EventReader::new("<a><b></a>".as_bytes());
    for event in reader {
        if let Err(e) = event {
            return e;
        }
    }
    panic!("the document should not parse");
}

fn broken_base64() -> base64::DecodeError {
    match base64::decode("!!!!") {
        Err(e) => e,
        Ok(_) => panic!("the text should not decode"),
    }
}

fn broken_utf8() -> std::str::Utf8Error {
    let bytes: Vec<u8> = vec![b'o', b'k', 0xff];
    match std::str::from_utf8(&bytes) {
        Err(e) => e,
        Ok(_) => panic!("the bytes should not be text"),
    }
}

#[test]
fn block_hash_mismatch_names_the_block() {
    let d = DatabaseIntegrityError::BlockHashMismatch { block_index: 3 };
    let text = d.to_string();
    assert!(text.contains("block 3"));
    assert_eq!(
        text,
        "Database integrity error: Error when verifying integrity of block 3"
    );
}

#[test]
fn block_hash_mismatch_at_the_largest_index() {
    let d = DatabaseIntegrityError::BlockHashMismatch { block_index: usize::MAX };
    assert_eq!(
        d.to_string(),
        format!(
            "Database integrity error: Error when verifying integrity of block {}",
            usize::MAX
        )
    );
}

#[test]
fn version_mismatch_shows_asked_and_declared_versions() {
    let d = DatabaseIntegrityError::InvalidKDBXVersion {
        version: 4,
        file_major_version: 3,
        file_minor_version: 1,
    };
    let text = d.to_string();
    assert!(text.contains("version: 4"));
    assert!(text.contains("file version 3.1"));
    assert_eq!(
        text,
        "Database integrity error: Invalid KDBX Version (version: 4 file version 3.1)"
    );
}

#[test]
fn version_mismatch_writes_the_asked_version_in_hex() {
    let d = DatabaseIntegrityError::InvalidKDBXVersion {
        version: 0xb54b_fb67,
        file_major_version: 10,
        file_minor_version: 0,
    };
    assert_eq!(
        d.to_string(),
        "Database integrity error: Invalid KDBX Version (version: b54bfb67 file version 10.0)"
    );
}

#[test]
fn unknown_outer_cipher_shows_its_sixteen_bytes_in_hex() {
    let cid: Vec<u8> = vec![
        0x31, 0xc1, 0xf2, 0xe6, 0xbf, 0x71, 0x43, 0x50, 0xbe, 0x58, 0x05, 0x21, 0x6a, 0xfc,
        0x5a, 0xff,
    ];
    let d = DatabaseIntegrityError::InvalidOuterCipherID { cid: cid.clone() };
    let text = d.to_string();
    assert!(text.contains("[31, c1, f2, e6, bf, 71, 43, 50, be, 58, 5, 21, 6a, fc, 5a, ff]"));
    assert_eq!(
        text,
        format!(
            "Database integrity error: Encountered an invalid outer cipher ID: {:0x?}",
            cid
        )
    );
}

#[test]
fn unknown_kdf_identifier_shows_its_bytes_in_hex() {
    let d = DatabaseIntegrityError::InvalidKDFUUID { uuid: vec![0xef, 0x63, 0x6d, 0x0c] };
    assert_eq!(
        d.to_string(),
        "Database integrity error: Encountered an invalid KDF UUID: [ef, 63, 6d, c]"
    );
    let empty = DatabaseIntegrityError::InvalidKDFUUID { uuid: Vec::new() };
    assert_eq!(
        empty.to_string(),
        "Database integrity error: Encountered an invalid KDF UUID: []"
    );
}

#[test]
fn variants_without_context_render_their_sentence() {
    assert_eq!(
        DatabaseIntegrityError::Compression.to_string(),
        "Database integrity error: (De)compression error"
    );
    assert_eq!(
        DatabaseIntegrityError::HeaderHashMismatch.to_string(),
        "Database integrity error: Hash mismatch when verifying header"
    );
    assert_eq!(
        DatabaseIntegrityError::InvalidKDBXIdentifier.to_string(),
        "Database integrity error: Invalid KDBX Identifier"
    );
}

#[test]
fn header_entry_variants_show_the_type_tag() {
    assert_eq!(
        DatabaseIntegrityError::InvalidOuterHeaderEntry { entry_type: 200 }.to_string(),
        "Database integrity error: Encountered an invalid outer header entry with type 200"
    );
    assert_eq!(
        DatabaseIntegrityError::InvalidInnerHeaderEntry { entry_type: 0 }.to_string(),
        "Database integrity error: Encountered an invalid inner header entry with type 0"
    );
}

#[test]
fn incomplete_header_variants_show_the_field_name() {
    assert_eq!(
        DatabaseIntegrityError::IncompleteOuterHeader { missing_field: "MasterSeed".to_string() }
            .to_string(),
        "Database integrity error: Missing field in outer header: MasterSeed"
    );
    assert_eq!(
        DatabaseIntegrityError::IncompleteInnerHeader {
            missing_field: "InnerRandomStreamKey".to_string()
        }
        .to_string(),
        "Database integrity error: Missing field in inner header: InnerRandomStreamKey"
    );
}

#[test]
fn field_names_are_shown_as_given() {
    let odd = "naïve \"key\" €".to_string();
    let d = DatabaseIntegrityError::MissingKDFParams { key: odd.clone() };
    assert_eq!(
        d.to_string(),
        format!("Database integrity error: Missing field in KDF parameters: {}", odd)
    );
    let empty = DatabaseIntegrityError::MissingKDFParams { key: String::new() };
    assert_eq!(
        empty.to_string(),
        "Database integrity error: Missing field in KDF parameters: "
    );
}

#[test]
fn kdf_parameter_variants_show_the_key() {
    assert_eq!(
        DatabaseIntegrityError::MissingKDFParams { key: "$UUID".to_string() }.to_string(),
        "Database integrity error: Missing field in KDF parameters: $UUID"
    );
    assert_eq!(
        DatabaseIntegrityError::MistypedKDFParam { key: "R".to_string() }.to_string(),
        "Database integrity error: KDF parameter R has wrong type"
    );
}

#[test]
fn numeric_code_variants_show_the_code_in_decimal() {
    assert_eq!(
        DatabaseIntegrityError::InvalidKDFVersion { version: 0x13 }.to_string(),
        "Database integrity error: Encountered an invalid KDF version: 19"
    );
    assert_eq!(
        DatabaseIntegrityError::InvalidInnerCipherID { cid: 4_294_967_295 }.to_string(),
        "Database integrity error: Encountered an invalid inner cipher ID: 4294967295"
    );
    assert_eq!(
        DatabaseIntegrityError::InvalidCompressionSuite { cid: 7 }.to_string(),
        "Database integrity error: Encountered an invalid compression suite ID: 7"
    );
    assert_eq!(
        DatabaseIntegrityError::InvalidVariantDictionaryVersion { version: 0x0200 }.to_string(),
        "Database integrity error: Encountered a VariantDictionary with an invalid version: 512"
    );
    assert_eq!(
        DatabaseIntegrityError::InvalidVariantDictionaryValueType { value_type: 0x42 }.to_string(),
        "Database integrity error: Encountered an invalid VariantDictionary value type: 66"
    );
}

#[test]
fn wrapped_crypto_failure_renders_in_structural_notation() {
    let d = DatabaseIntegrityError::from(CryptoError::from(argon2::Error::SaltTooShort));
    assert_eq!(
        d.to_string(),
        "Database integrity error: Cryptography error: Argon2 { e: SaltTooShort }"
    );
    let b = DatabaseIntegrityError::from(CryptoError::from(block_modes::BlockModeError));
    assert_eq!(
        b.to_string(),
        "Database integrity error: Cryptography error: BlockMode { e: BlockModeError }"
    );
}

#[test]
fn wrapped_base64_failure_renders_with_its_message() {
    let d = DatabaseIntegrityError::from(broken_base64());
    assert_eq!(
        d.to_string(),
        "Database integrity error: Encountered an error when parsing a base64-encoded string: \
         Invalid byte 33, offset 0."
    );
}

#[test]
fn wrapped_utf8_failure_renders_with_its_message() {
    let e = broken_utf8();
    let expected = format!(
        "Database integrity error: Encountering an error when parsing an UTF-8 formatted string: {}",
        e
    );
    let d = DatabaseIntegrityError::from(e);
    let text = d.to_string();
    assert_eq!(text, expected);
    assert!(text.ends_with("invalid utf-8 sequence of 1 bytes from index 2"));
}

#[test]
fn wrapped_xml_failure_renders_with_its_message() {
    let e = broken_xml();
    let said = format!("{}", e);
    assert!(!said.is_empty());
    let d = DatabaseIntegrityError::from(e);
    assert_eq!(
        d.to_string(),
        format!(
            "Database integrity error: Encountered an error when parsing the inner XML payload: {}",
            said
        )
    );
}

#[test]
fn render_puts_the_given_text_in_the_place_of_the_xml_failure() {
    let d = DatabaseIntegrityError::from(broken_xml());
    assert_eq!(
        d.render("1:1 nothing to read"),
        "Database integrity error: Encountered an error when parsing the inner XML payload: \
         1:1 nothing to read"
    );
}

#[test]
fn render_ignores_the_given_text_elsewhere() {
    let d = DatabaseIntegrityError::BlockHashMismatch { block_index: 12 };
    assert_eq!(d.render("ignored"), d.to_string());
    let c = DatabaseIntegrityError::from(CryptoError::from(block_modes::InvalidKeyIvLength));
    assert_eq!(c.render("ignored"), c.to_string());
}

#[test]
fn integrity_conversions_pick_the_variant_of_the_source_type() {
    assert!(matches!(
        DatabaseIntegrityError::from(CryptoError::from(argon2::Error::AdTooLong)),
        DatabaseIntegrityError::Crypto { e: CryptoError::Argon2 { e: argon2::Error::AdTooLong } }
    ));
    assert!(matches!(
        DatabaseIntegrityError::from(broken_xml()),
        DatabaseIntegrityError::XMLParsing { .. }
    ));
    assert!(matches!(
        DatabaseIntegrityError::from(broken_base64()),
        DatabaseIntegrityError::Base64 { e: base64::DecodeError::InvalidByte(0, 33) }
    ));
    assert!(matches!(
        DatabaseIntegrityError::from(broken_utf8()),
        DatabaseIntegrityError::UTF8 { .. }
    ));
}

#[test]
fn integrity_source_is_the_wrapped_failure() {
    let c = DatabaseIntegrityError::from(CryptoError::from(block_modes::BlockModeError));
    assert!(matches!(c.source(), Some(Cause::Crypto(CryptoError::BlockMode { .. }))));
    let x = DatabaseIntegrityError::from(broken_xml());
    assert!(matches!(x.source(), Some(Cause::XMLParsing(_))));
    let b = DatabaseIntegrityError::from(broken_base64());
    assert!(matches!(b.source(), Some(Cause::Base64(base64::DecodeError::InvalidByte(0, 33)))));
    let u = DatabaseIntegrityError::from(broken_utf8());
    assert!(matches!(u.source(), Some(Cause::UTF8(_))));
}

#[test]
fn integrity_source_is_none_where_nothing_is_wrapped() {
    assert!(DatabaseIntegrityError::Compression.source().is_none());
    assert!(DatabaseIntegrityError::HeaderHashMismatch.source().is_none());
    assert!(DatabaseIntegrityError::BlockHashMismatch { block_index: 1 }.source().is_none());
    assert!(DatabaseIntegrityError::InvalidKDFUUID { uuid: vec![1, 2] }.source().is_none());
    assert!(DatabaseIntegrityError::MissingKDFParams { key: "S".to_string() }.source().is_none());
}

#[test]
fn integrity_rendering_twice_gives_the_same_text() {
    let d = DatabaseIntegrityError::InvalidOuterCipherID { cid: vec![1, 2, 3] };
    assert_eq!(d.to_string(), d.to_string());
    let x = DatabaseIntegrityError::from(broken_xml());
    assert_eq!(x.to_string(), x.to_string());
}
