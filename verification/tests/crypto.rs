use kdbx_errors::Cause;
use kdbx_errors::CryptoError;

#[test]
fn argon2_failure_renders_with_its_message() {
    let c = CryptoError::from(argon2::Error::SaltTooShort);
    assert_eq!(
        c.to_string(),
        "Crypto Error: Problem deriving key with Argon2: Salt is too short"
    );
}

#[test]
fn argon2_failure_renders_each_variant_differently() {
    let a = CryptoError::from(argon2::Error::OutputTooShort).to_string();
    let b = CryptoError::from(argon2::Error::DecodingFail).to_string();
    assert_eq!(a, "Crypto Error: Problem deriving key with Argon2: Output is too short");
    assert_eq!(b, "Crypto Error: Problem deriving key with Argon2: Decoding failed");
}

#[test]
fn key_length_failure_renders_with_its_message() {
    let c = CryptoError::from(hmac::crypto_mac::InvalidKeyLength);
    assert_eq!(c.to_string(), "Crypto Error: Invalid key length: invalid key length");
}

#[test]
fn key_iv_length_failure_renders_with_its_message() {
    let c = CryptoError::from(block_modes::InvalidKeyIvLength);
    assert_eq!(c.to_string(), "Crypto Error: Invalid key / IV length: InvalidKeyIvLength");
}

#[test]
fn key_nonce_length_failure_renders_with_its_message() {
    let c = CryptoError::from(stream_cipher::InvalidKeyNonceLength);
    assert_eq!(c.to_string(), "Crypto Error: Invalid key / nonce length: Loop Error");
}

#[test]
fn block_mode_failure_renders_with_its_message() {
    let c = CryptoError::from(block_modes::BlockModeError);
    assert_eq!(c.to_string(), "Crypto Error: Block mode error: BlockModeError");
}

#[test]
fn crypto_rendering_agrees_with_the_cause_display() {
    let e = argon2::Error::MemoryTooLittle;
    let expected = format!(
        "Crypto Error: {}",
        format!("Problem deriving key with Argon2: {}", e)
    );
    assert_eq!(CryptoError::from(e).to_string(), expected);
}

#[test]
fn conversions_pick_the_variant_of_the_source_type() {
    assert!(matches!(
        CryptoError::from(argon2::Error::PwdTooLong),
        CryptoError::Argon2 { e: argon2::Error::PwdTooLong }
    ));
    assert!(matches!(
        CryptoError::from(hmac::crypto_mac::InvalidKeyLength),
        CryptoError::InvalidKeyLength { .. }
    ));
    assert!(matches!(
        CryptoError::from(block_modes::InvalidKeyIvLength),
        CryptoError::InvalidKeyIvLength { .. }
    ));
    assert!(matches!(
        CryptoError::from(stream_cipher::InvalidKeyNonceLength),
        CryptoError::InvalidKeyNonceLength { .. }
    ));
    assert!(matches!(
        CryptoError::from(block_modes::BlockModeError),
        CryptoError::BlockMode { .. }
    ));
}

#[test]
fn structural_notation_names_variant_and_cause() {
    assert_eq!(
        CryptoError::from(argon2::Error::SaltTooShort).to_debug_string(),
        "Argon2 { e: SaltTooShort }"
    );
    assert_eq!(
        CryptoError::from(hmac::crypto_mac::InvalidKeyLength).to_debug_string(),
        "InvalidKeyLength { e: InvalidKeyLength }"
    );
    assert_eq!(
        CryptoError::from(block_modes::InvalidKeyIvLength).to_debug_string(),
        "InvalidKeyIvLength { e: InvalidKeyIvLength }"
    );
    assert_eq!(
        CryptoError::from(stream_cipher::InvalidKeyNonceLength).to_debug_string(),
        "InvalidKeyNonceLength { e: InvalidKeyNonceLength }"
    );
    assert_eq!(
        CryptoError::from(block_modes::BlockModeError).to_debug_string(),
        "BlockMode { e: BlockModeError }"
    );
}

#[test]
fn structural_notation_agrees_with_derived_debug() {
    let all = vec![
        CryptoError::from(argon2::Error::LanesTooMany),
        CryptoError::from(hmac::crypto_mac::InvalidKeyLength),
        CryptoError::from(block_modes::InvalidKeyIvLength),
        CryptoError::from(stream_cipher::InvalidKeyNonceLength),
        CryptoError::from(block_modes::BlockModeError),
    ];
    for c in all.iter() {
        assert_eq!(c.to_debug_string(), format!("{:?}", c));
    }
}

#[test]
fn crypto_source_is_the_cause_where_it_can_chain() {
    let a = CryptoError::from(argon2::Error::TimeTooSmall);
    assert!(matches!(a.source(), Some(Cause::Argon2(argon2::Error::TimeTooSmall))));
    let b = CryptoError::from(block_modes::InvalidKeyIvLength);
    assert!(matches!(b.source(), Some(Cause::InvalidKeyIvLength(_))));
    let c = CryptoError::from(block_modes::BlockModeError);
    assert!(matches!(c.source(), Some(Cause::BlockMode(_))));
}

#[test]
fn crypto_source_is_none_where_the_cause_cannot_chain() {
    let a = CryptoError::from(hmac::crypto_mac::InvalidKeyLength);
    assert!(a.source().is_none());
    let b = CryptoError::from(stream_cipher::InvalidKeyNonceLength);
    assert!(b.source().is_none());
}

#[test]
fn crypto_rendering_twice_gives_the_same_text() {
    let c = CryptoError::from(argon2::Error::IncorrectVersion);
    assert_eq!(c.to_string(), c.to_string());
    assert_eq!(c.to_debug_string(), c.to_debug_string());
}
