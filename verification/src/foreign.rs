//! The failure types of the crates that do the cryptography and the decoding,
//! and what this library takes on trust about the way they describe themselves.
//!
//! Every type here is opaque: a value is carried, handed back and asked for its
//! text, never taken apart. Nothing in this file is proved. Each function states
//! what the named outside function is relied on to do.
//!
//! A text that depends on the value alone has a name, so that two renderings of
//! one value can be shown equal. The texts of `std::io::Error` and of
//! `xml::reader::Error` have none: the first may quote the operating system,
//! and the second may quote the first.

use vstd::prelude::*;

verus! {

/// `argon2::Error`: an Argon2 key derivation was refused.
#[verifier::external_type_specification]
#[verifier::external_body]
pub struct ExArgon2Error(argon2::Error);

/// `hmac::crypto_mac::InvalidKeyLength`: a MAC was keyed with a key of the wrong length.
#[verifier::external_type_specification]
#[verifier::external_body]
pub struct ExInvalidKeyLength(hmac::crypto_mac::InvalidKeyLength);

/// `block_modes::InvalidKeyIvLength`: a block cipher mode was given a key or an
/// initialization vector of the wrong length.
#[verifier::external_type_specification]
#[verifier::external_body]
pub struct ExInvalidKeyIvLength(block_modes::InvalidKeyIvLength);

/// `stream_cipher::InvalidKeyNonceLength`: a stream cipher was given a key or a
/// nonce of the wrong length.
#[verifier::external_type_specification]
#[verifier::external_body]
pub struct ExInvalidKeyNonceLength(stream_cipher::InvalidKeyNonceLength);

/// `block_modes::BlockModeError`: a padding or authentication check failed
/// while a block cipher mode was undone.
#[verifier::external_type_specification]
#[verifier::external_body]
pub struct ExBlockModeError(block_modes::BlockModeError);

/// `xml::reader::Error`: the XML reader gave up on the payload.
#[verifier::external_type_specification]
#[verifier::external_body]
pub struct ExXmlError(xml::reader::Error);

/// `base64::DecodeError`: a field of the payload is not base64.
#[verifier::external_type_specification]
#[verifier::external_body]
pub struct ExDecodeError(base64::DecodeError);

/// `std::str::Utf8Error`: a field of the payload is not UTF-8.
#[verifier::external_type_specification]
#[verifier::external_body]
pub struct ExUtf8Error(std::str::Utf8Error);

/// `std::io::Error`: the file or stream could not be read.
#[verifier::external_type_specification]
#[verifier::external_body]
pub struct ExIoError(std::io::Error);

/// What `argon2::Error` displays.
pub uninterp spec fn argon2_message(e: argon2::Error) -> Seq<char>;

/// What `argon2::Error` prints when debugged.
pub uninterp spec fn argon2_debug(e: argon2::Error) -> Seq<char>;

/// What `hmac::crypto_mac::InvalidKeyLength` prints when debugged.
pub uninterp spec fn invalid_key_length_debug(e: hmac::crypto_mac::InvalidKeyLength) -> Seq<char>;

/// What `block_modes::InvalidKeyIvLength` prints when debugged.
pub uninterp spec fn invalid_key_iv_length_debug(e: block_modes::InvalidKeyIvLength) -> Seq<char>;

/// What `stream_cipher::InvalidKeyNonceLength` prints when debugged.
pub uninterp spec fn invalid_key_nonce_length_debug(
    e: stream_cipher::InvalidKeyNonceLength,
) -> Seq<char>;

/// What `block_modes::BlockModeError` prints when debugged.
pub uninterp spec fn block_mode_debug(e: block_modes::BlockModeError) -> Seq<char>;

/// What `base64::DecodeError` displays.
pub uninterp spec fn base64_message(e: base64::DecodeError) -> Seq<char>;

/// What `std::str::Utf8Error` displays.
pub uninterp spec fn utf8_message(e: std::str::Utf8Error) -> Seq<char>;

/// Calls `<argon2::Error as Display>::fmt`, which writes the fixed message of
/// the error's variant: the text is decided by the value.
#[verifier::external_body]
pub(crate) fn argon2_display(e: &argon2::Error) -> (r: String)
    ensures
        r@ == argon2_message(*e),
{
    format!("{}", e)
}

/// Calls `<argon2::Error as Debug>::fmt`, derived on an enum without fields:
/// the text is decided by the value.
#[verifier::external_body]
pub(crate) fn argon2_debug_text(e: &argon2::Error) -> (r: String)
    ensures
        r@ == argon2_debug(*e),
{
    format!("{:?}", e)
}

/// Calls `<hmac::crypto_mac::InvalidKeyLength as Display>::fmt`, which writes
/// the constant `invalid key length`.
#[verifier::external_body]
pub(crate) fn invalid_key_length_display(e: &hmac::crypto_mac::InvalidKeyLength) -> (r: String)
    ensures
        r@ == "invalid key length"@,
{
    format!("{}", e)
}

/// Calls `<hmac::crypto_mac::InvalidKeyLength as Debug>::fmt`, derived on a
/// struct without fields: the text is decided by the value.
#[verifier::external_body]
pub(crate) fn invalid_key_length_debug_text(e: &hmac::crypto_mac::InvalidKeyLength) -> (r: String)
    ensures
        r@ == invalid_key_length_debug(*e),
{
    format!("{:?}", e)
}

/// Calls `<block_modes::InvalidKeyIvLength as Display>::fmt`, which writes the
/// constant `InvalidKeyIvLength`.
#[verifier::external_body]
pub(crate) fn invalid_key_iv_length_display(e: &block_modes::InvalidKeyIvLength) -> (r: String)
    ensures
        r@ == "InvalidKeyIvLength"@,
{
    format!("{}", e)
}

/// Calls `<block_modes::InvalidKeyIvLength as Debug>::fmt`, derived on a struct
/// without fields: the text is decided by the value.
#[verifier::external_body]
pub(crate) fn invalid_key_iv_length_debug_text(e: &block_modes::InvalidKeyIvLength) -> (r: String)
    ensures
        r@ == invalid_key_iv_length_debug(*e),
{
    format!("{:?}", e)
}

/// Calls `<stream_cipher::InvalidKeyNonceLength as Display>::fmt`, which writes
/// the constant `Loop Error`: the crate gives this type the text of its other
/// error.
#[verifier::external_body]
pub(crate) fn invalid_key_nonce_length_display(
    e: &stream_cipher::InvalidKeyNonceLength,
) -> (r: String)
    ensures
        r@ == "Loop Error"@,
{
    format!("{}", e)
}

/// Calls `<stream_cipher::InvalidKeyNonceLength as Debug>::fmt`, derived on a
/// struct without fields: the text is decided by the value.
#[verifier::external_body]
pub(crate) fn invalid_key_nonce_length_debug_text(
    e: &stream_cipher::InvalidKeyNonceLength,
) -> (r: String)
    ensures
        r@ == invalid_key_nonce_length_debug(*e),
{
    format!("{:?}", e)
}

/// Calls `<block_modes::BlockModeError as Display>::fmt`, which writes the
/// constant `BlockModeError`.
#[verifier::external_body]
pub(crate) fn block_mode_display(e: &block_modes::BlockModeError) -> (r: String)
    ensures
        r@ == "BlockModeError"@,
{
    format!("{}", e)
}

/// Calls `<block_modes::BlockModeError as Debug>::fmt`, derived on a struct
/// without fields: the text is decided by the value.
#[verifier::external_body]
pub(crate) fn block_mode_debug_text(e: &block_modes::BlockModeError) -> (r: String)
    ensures
        r@ == block_mode_debug(*e),
{
    format!("{:?}", e)
}

/// Calls `<base64::DecodeError as Display>::fmt`, which writes a sentence made
/// of the variant and of the offset and byte it holds: the text is decided by
/// the value.
#[verifier::external_body]
pub(crate) fn base64_display(e: &base64::DecodeError) -> (r: String)
    ensures
        r@ == base64_message(*e),
{
    format!("{}", e)
}

/// Calls `<std::str::Utf8Error as Display>::fmt`, which writes a sentence made
/// of the two numbers the error holds: the text is decided by the value.
#[verifier::external_body]
pub(crate) fn utf8_display(e: &std::str::Utf8Error) -> (r: String)
    ensures
        r@ == utf8_message(*e),
{
    format!("{}", e)
}

/// Calls `<xml::reader::Error as Display>::fmt`, which writes the position and
/// then the reason. The reason may be that of an `std::io::Error`, so nothing
/// is claimed of the text.
#[verifier::external_body]
pub(crate) fn xml_display(e: &xml::reader::Error) -> (r: String) {
    format!("{}", e)
}

/// Calls `<std::io::Error as Display>::fmt`. For a failure that the operating
/// system reported the text is the system's own, so nothing is claimed of it.
#[verifier::external_body]
pub(crate) fn io_display(e: &std::io::Error) -> (r: String) {
    format!("{}", e)
}

} // verus!
