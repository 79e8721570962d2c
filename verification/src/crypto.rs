//! The lowest tier: failures of a key derivation or of a symmetric cipher.

use vstd::prelude::*;
use vstd::std_specs::convert::FromSpecImpl;
use crate::cause::Cause;
use crate::foreign::argon2_debug;
use crate::foreign::argon2_debug_text;
use crate::foreign::argon2_display;
use crate::foreign::argon2_message;
use crate::foreign::block_mode_debug;
use crate::foreign::block_mode_debug_text;
use crate::foreign::block_mode_display;
use crate::foreign::invalid_key_iv_length_debug;
use crate::foreign::invalid_key_iv_length_debug_text;
use crate::foreign::invalid_key_iv_length_display;
use crate::foreign::invalid_key_length_debug;
use crate::foreign::invalid_key_length_debug_text;
use crate::foreign::invalid_key_length_display;
use crate::foreign::invalid_key_nonce_length_debug;
use crate::foreign::invalid_key_nonce_length_debug_text;
use crate::foreign::invalid_key_nonce_length_display;
use crate::text::join;

verus! {

/// A cryptographic primitive refused its input or failed its check.
///
/// Each variant keeps the failure it was made from.
#[derive(Debug)]
#[allow(inconsistent_fields)]
pub enum CryptoError {
    /// The Argon2 key derivation failed.
    Argon2 { e: argon2::Error },
    /// A MAC key has the wrong length.
    InvalidKeyLength { e: hmac::crypto_mac::InvalidKeyLength },
    /// A block cipher key or initialization vector has the wrong length.
    InvalidKeyIvLength { e: block_modes::InvalidKeyIvLength },
    /// A stream cipher key or nonce has the wrong length.
    InvalidKeyNonceLength { e: stream_cipher::InvalidKeyNonceLength },
    /// Padding or authentication failed while a block cipher mode was undone.
    BlockMode { e: block_modes::BlockModeError },
}

impl CryptoError {
    /// What the variant says before it quotes its cause.
    pub open spec fn label(self) -> Seq<char> {
        match self {
            CryptoError::Argon2 { .. } => "Problem deriving key with Argon2: "@,
            CryptoError::InvalidKeyLength { .. } => "Invalid key length: "@,
            CryptoError::InvalidKeyIvLength { .. } => "Invalid key / IV length: "@,
            CryptoError::InvalidKeyNonceLength { .. } => "Invalid key / nonce length: "@,
            CryptoError::BlockMode { .. } => "Block mode error: "@,
        }
    }

    /// What the retained cause says of itself.
    pub open spec fn cause_text(self) -> Seq<char> {
        match self {
            CryptoError::Argon2 { e } => argon2_message(e),
            CryptoError::InvalidKeyLength { .. } => "invalid key length"@,
            CryptoError::InvalidKeyIvLength { .. } => "InvalidKeyIvLength"@,
            CryptoError::InvalidKeyNonceLength { .. } => "Loop Error"@,
            CryptoError::BlockMode { .. } => "BlockModeError"@,
        }
    }

    /// The rendered failure.
    pub open spec fn text(self) -> Seq<char> {
        "Crypto Error: "@ + (self.label() + self.cause_text())
    }

    /// The name of the variant.
    pub open spec fn variant_name(self) -> Seq<char> {
        match self {
            CryptoError::Argon2 { .. } => "Argon2"@,
            CryptoError::InvalidKeyLength { .. } => "InvalidKeyLength"@,
            CryptoError::InvalidKeyIvLength { .. } => "InvalidKeyIvLength"@,
            CryptoError::InvalidKeyNonceLength { .. } => "InvalidKeyNonceLength"@,
            CryptoError::BlockMode { .. } => "BlockMode"@,
        }
    }

    /// What the retained cause prints when debugged.
    pub open spec fn cause_debug(self) -> Seq<char> {
        match self {
            CryptoError::Argon2 { e } => argon2_debug(e),
            CryptoError::InvalidKeyLength { e } => invalid_key_length_debug(e),
            CryptoError::InvalidKeyIvLength { e } => invalid_key_iv_length_debug(e),
            CryptoError::InvalidKeyNonceLength { e } => invalid_key_nonce_length_debug(e),
            CryptoError::BlockMode { e } => block_mode_debug(e),
        }
    }

    /// The failure in structural notation: the variant, then its one field.
    pub open spec fn debug_text(self) -> Seq<char> {
        self.variant_name() + " { e: "@ + self.cause_debug() + " }"@
    }

    /// The failure behind this one, if its type can stand in a causal chain.
    pub open spec fn cause(self) -> Option<Cause<'static>> {
        match self {
            CryptoError::Argon2 { e } => Some(Cause::Argon2(&e)),
            CryptoError::InvalidKeyIvLength { e } => Some(Cause::InvalidKeyIvLength(&e)),
            CryptoError::BlockMode { e } => Some(Cause::BlockMode(&e)),
            CryptoError::InvalidKeyLength { .. } => None,
            CryptoError::InvalidKeyNonceLength { .. } => None,
        }
    }

    /// Renders the failure.
    pub fn to_string(&self) -> (r: String)
        ensures
            r@ == self.text(),
    {
        let detail = match self {
            CryptoError::Argon2 { e } => join(
                "Problem deriving key with Argon2: ",
                argon2_display(e).as_str(),
            ),
            CryptoError::InvalidKeyLength { e } => join(
                "Invalid key length: ",
                invalid_key_length_display(e).as_str(),
            ),
            CryptoError::InvalidKeyIvLength { e } => join(
                "Invalid key / IV length: ",
                invalid_key_iv_length_display(e).as_str(),
            ),
            CryptoError::InvalidKeyNonceLength { e } => join(
                "Invalid key / nonce length: ",
                invalid_key_nonce_length_display(e).as_str(),
            ),
            CryptoError::BlockMode { e } => join(
                "Block mode error: ",
                block_mode_display(e).as_str(),
            ),
        };
        join("Crypto Error: ", detail.as_str())
    }

    /// Renders the failure in structural notation.
    pub fn to_debug_string(&self) -> (r: String)
        ensures
            r@ == self.debug_text(),
    {
        let (name, cause): (&str, String) = match self {
            CryptoError::Argon2 { e } => ("Argon2", argon2_debug_text(e)),
            CryptoError::InvalidKeyLength { e } => (
                "InvalidKeyLength",
                invalid_key_length_debug_text(e),
            ),
            CryptoError::InvalidKeyIvLength { e } => (
                "InvalidKeyIvLength",
                invalid_key_iv_length_debug_text(e),
            ),
            CryptoError::InvalidKeyNonceLength { e } => (
                "InvalidKeyNonceLength",
                invalid_key_nonce_length_debug_text(e),
            ),
            CryptoError::BlockMode { e } => ("BlockMode", block_mode_debug_text(e)),
        };
        let mut r = join(name, " { e: ");
        r.append(cause.as_str());
        r.append(" }");
        r
    }

    /// The failure behind this one, if its type can stand in a causal chain.
    pub fn source(&self) -> (r: Option<Cause<'_>>)
        ensures
            r == self.cause(),
    {
        match self {
            CryptoError::Argon2 { e } => Some(Cause::Argon2(e)),
            CryptoError::InvalidKeyIvLength { e } => Some(Cause::InvalidKeyIvLength(e)),
            CryptoError::BlockMode { e } => Some(Cause::BlockMode(e)),
            CryptoError::InvalidKeyLength { .. } => None,
            CryptoError::InvalidKeyNonceLength { .. } => None,
        }
    }
}

impl From<argon2::Error> for CryptoError {
    fn from(e: argon2::Error) -> (r: Self) {
        CryptoError::Argon2 { e }
    }
}

impl FromSpecImpl<argon2::Error> for CryptoError {
    open spec fn obeys_from_spec() -> bool {
        true
    }

    open spec fn from_spec(e: argon2::Error) -> Self {
        CryptoError::Argon2 { e }
    }
}

impl From<hmac::crypto_mac::InvalidKeyLength> for CryptoError {
    fn from(e: hmac::crypto_mac::InvalidKeyLength) -> (r: Self) {
        CryptoError::InvalidKeyLength { e }
    }
}

impl FromSpecImpl<hmac::crypto_mac::InvalidKeyLength> for CryptoError {
    open spec fn obeys_from_spec() -> bool {
        true
    }

    open spec fn from_spec(e: hmac::crypto_mac::InvalidKeyLength) -> Self {
        CryptoError::InvalidKeyLength { e }
    }
}

impl From<stream_cipher::InvalidKeyNonceLength> for CryptoError {
    fn from(e: stream_cipher::InvalidKeyNonceLength) -> (r: Self) {
        CryptoError::InvalidKeyNonceLength { e }
    }
}

impl FromSpecImpl<stream_cipher::InvalidKeyNonceLength> for CryptoError {
    open spec fn obeys_from_spec() -> bool {
        true
    }

    open spec fn from_spec(e: stream_cipher::InvalidKeyNonceLength) -> Self {
        CryptoError::InvalidKeyNonceLength { e }
    }
}

impl From<block_modes::InvalidKeyIvLength> for CryptoError {
    fn from(e: block_modes::InvalidKeyIvLength) -> (r: Self) {
        CryptoError::InvalidKeyIvLength { e }
    }
}

impl FromSpecImpl<block_modes::InvalidKeyIvLength> for CryptoError {
    open spec fn obeys_from_spec() -> bool {
        true
    }

    open spec fn from_spec(e: block_modes::InvalidKeyIvLength) -> Self {
        CryptoError::InvalidKeyIvLength { e }
    }
}

impl From<block_modes::BlockModeError> for CryptoError {
    fn from(e: block_modes::BlockModeError) -> (r: Self) {
        CryptoError::BlockMode { e }
    }
}

impl FromSpecImpl<block_modes::BlockModeError> for CryptoError {
    open spec fn obeys_from_spec() -> bool {
        true
    }

    open spec fn from_spec(e: block_modes::BlockModeError) -> Self {
        CryptoError::BlockMode { e }
    }
}

} // verus!
