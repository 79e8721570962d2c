//! The middle tier: every way the content of a container can fail validation.

use vstd::prelude::*;
use vstd::std_specs::convert::FromSpecImpl;
use crate::cause::Cause;
use crate::crypto::CryptoError;
use crate::foreign::base64_display;
use crate::foreign::base64_message;
use crate::foreign::utf8_display;
use crate::foreign::utf8_message;
use crate::foreign::xml_display;
use crate::text::decimal;
use crate::text::hex_list;
use crate::text::hex_list_text;
use crate::text::join;
use crate::text::lower_hex;
use crate::text::push_positional;

verus! {

/// The container is not what its format demands.
///
/// A variant that speaks of a field of the format carries the field's name; one
/// that speaks of a code it does not know carries the code as it was read.
#[derive(Debug)]
#[allow(inconsistent_fields)]
pub enum DatabaseIntegrityError {
    /// The compressed payload could not be unpacked.
    Compression,
    /// A cryptographic primitive failed.
    Crypto { e: CryptoError },
    /// The header does not hash to the value stored with it.
    HeaderHashMismatch,
    /// The block at `block_index` does not hash to the value stored with it.
    BlockHashMismatch { block_index: usize },
    /// The file does not begin with the KDBX identifier.
    InvalidKDBXIdentifier,
    /// The file declares a version other than the one asked for.
    InvalidKDBXVersion { version: u32, file_major_version: u16, file_minor_version: u16 },
    /// The outer header holds an entry of an unknown type.
    InvalidOuterHeaderEntry { entry_type: u8 },
    /// The outer header lacks a field.
    IncompleteOuterHeader { missing_field: String },
    /// The inner header holds an entry of an unknown type.
    InvalidInnerHeaderEntry { entry_type: u8 },
    /// The inner header lacks a field.
    IncompleteInnerHeader { missing_field: String },
    /// The key derivation is of an unknown version.
    InvalidKDFVersion { version: u32 },
    /// The key derivation is named by an unknown identifier.
    InvalidKDFUUID { uuid: Vec<u8> },
    /// The key derivation parameters lack the entry `key`.
    MissingKDFParams { key: String },
    /// The key derivation parameter `key` has a value of the wrong type.
    MistypedKDFParam { key: String },
    /// The outer cipher is named by an unknown identifier.
    InvalidOuterCipherID { cid: Vec<u8> },
    /// The inner cipher is named by an unknown code.
    InvalidInnerCipherID { cid: u32 },
    /// The compression is named by an unknown code.
    InvalidCompressionSuite { cid: u32 },
    /// The parameter dictionary is of an unknown version.
    InvalidVariantDictionaryVersion { version: u16 },
    /// The parameter dictionary holds a value of an unknown type.
    InvalidVariantDictionaryValueType { value_type: u8 },
    /// The decrypted payload is not well-formed XML.
    XMLParsing { e: xml::reader::Error },
    /// A field of the payload is not base64.
    Base64 { e: base64::DecodeError },
    /// A field of the payload is not UTF-8.
    UTF8 { e: std::str::Utf8Error },
}

impl DatabaseIntegrityError {
    /// The text of the rendered failure does not depend on the machine.
    pub open spec fn has_fixed_text(self) -> bool {
        !(self is XMLParsing)
    }

    /// What the variant says, where `foreign` is what a wrapped failure whose
    /// text depends on the machine says of itself.
    pub open spec fn detail(self, foreign: Seq<char>) -> Seq<char> {
        match self {
            DatabaseIntegrityError::Compression => "(De)compression error"@,
            DatabaseIntegrityError::Crypto { e } => "Cryptography error: "@ + e.debug_text(),
            DatabaseIntegrityError::HeaderHashMismatch => "Hash mismatch when verifying header"@,
            DatabaseIntegrityError::BlockHashMismatch { block_index } => {
                "Error when verifying integrity of block "@ + decimal(block_index as nat)
            },
            DatabaseIntegrityError::InvalidKDBXIdentifier => "Invalid KDBX Identifier"@,
            DatabaseIntegrityError::InvalidKDBXVersion {
                version,
                file_major_version,
                file_minor_version,
            } => {
                "Invalid KDBX Version (version: "@ + lower_hex(version as nat) + " file version "@
                    + decimal(file_major_version as nat) + "."@ + decimal(
                    file_minor_version as nat,
                ) + ")"@
            },
            DatabaseIntegrityError::InvalidOuterHeaderEntry { entry_type } => {
                "Encountered an invalid outer header entry with type "@ + decimal(entry_type as nat)
            },
            DatabaseIntegrityError::InvalidInnerHeaderEntry { entry_type } => {
                "Encountered an invalid inner header entry with type "@ + decimal(entry_type as nat)
            },
            DatabaseIntegrityError::IncompleteOuterHeader { missing_field } => {
                "Missing field in outer header: "@ + missing_field@
            },
            DatabaseIntegrityError::IncompleteInnerHeader { missing_field } => {
                "Missing field in inner header: "@ + missing_field@
            },
            DatabaseIntegrityError::MissingKDFParams { key } => {
                "Missing field in KDF parameters: "@ + key@
            },
            DatabaseIntegrityError::MistypedKDFParam { key } => {
                "KDF parameter "@ + key@ + " has wrong type"@
            },
            DatabaseIntegrityError::InvalidKDFVersion { version } => {
                "Encountered an invalid KDF version: "@ + decimal(version as nat)
            },
            DatabaseIntegrityError::InvalidKDFUUID { uuid } => {
                "Encountered an invalid KDF UUID: "@ + hex_list(uuid@)
            },
            DatabaseIntegrityError::InvalidOuterCipherID { cid } => {
                "Encountered an invalid outer cipher ID: "@ + hex_list(cid@)
            },
            DatabaseIntegrityError::InvalidInnerCipherID { cid } => {
                "Encountered an invalid inner cipher ID: "@ + decimal(cid as nat)
            },
            DatabaseIntegrityError::InvalidCompressionSuite { cid } => {
                "Encountered an invalid compression suite ID: "@ + decimal(cid as nat)
            },
            DatabaseIntegrityError::InvalidVariantDictionaryVersion { version } => {
                "Encountered a VariantDictionary with an invalid version: "@ + decimal(
                    version as nat,
                )
            },
            DatabaseIntegrityError::InvalidVariantDictionaryValueType { value_type } => {
                "Encountered an invalid VariantDictionary value type: "@ + decimal(
                    value_type as nat,
                )
            },
            DatabaseIntegrityError::XMLParsing { .. } => {
                "Encountered an error when parsing the inner XML payload: "@ + foreign
            },
            DatabaseIntegrityError::UTF8 { e } => {
                "Encountering an error when parsing an UTF-8 formatted string: "@ + utf8_message(e)
            },
            DatabaseIntegrityError::Base64 { e } => {
                "Encountered an error when parsing a base64-encoded string: "@ + base64_message(e)
            },
        }
    }

    /// The rendered failure, where `foreign` is what a wrapped failure whose
    /// text depends on the machine says of itself.
    pub open spec fn text_with(self, foreign: Seq<char>) -> Seq<char> {
        "Database integrity error: "@ + self.detail(foreign)
    }

    /// The rendered failure, for a value whose text does not depend on the
    /// machine.
    pub open spec fn text(self) -> Seq<char>
        recommends
            self.has_fixed_text(),
    {
        self.text_with(Seq::empty())
    }

    /// `t` is a text that rendering this failure may give.
    pub open spec fn renders_as(self, t: Seq<char>) -> bool {
        exists|foreign: Seq<char>| t == #[trigger] self.text_with(foreign)
    }

    /// The context that the variant carries, each field in the notation in
    /// which the rendered failure shows it.
    pub open spec fn context(self) -> Seq<Seq<char>> {
        match self {
            DatabaseIntegrityError::BlockHashMismatch { block_index } => seq![
                decimal(block_index as nat),
            ],
            DatabaseIntegrityError::InvalidKDBXVersion {
                version,
                file_major_version,
                file_minor_version,
            } => seq![
                lower_hex(version as nat),
                decimal(file_major_version as nat),
                decimal(file_minor_version as nat),
            ],
            DatabaseIntegrityError::InvalidOuterHeaderEntry { entry_type } => seq![
                decimal(entry_type as nat),
            ],
            DatabaseIntegrityError::InvalidInnerHeaderEntry { entry_type } => seq![
                decimal(entry_type as nat),
            ],
            DatabaseIntegrityError::IncompleteOuterHeader { missing_field } => seq![
                missing_field@,
            ],
            DatabaseIntegrityError::IncompleteInnerHeader { missing_field } => seq![
                missing_field@,
            ],
            DatabaseIntegrityError::MissingKDFParams { key } => seq![key@],
            DatabaseIntegrityError::MistypedKDFParam { key } => seq![key@],
            DatabaseIntegrityError::InvalidKDFVersion { version } => seq![decimal(version as nat)],
            DatabaseIntegrityError::InvalidKDFUUID { uuid } => seq![hex_list(uuid@)],
            DatabaseIntegrityError::InvalidOuterCipherID { cid } => seq![hex_list(cid@)],
            DatabaseIntegrityError::InvalidInnerCipherID { cid } => seq![decimal(cid as nat)],
            DatabaseIntegrityError::InvalidCompressionSuite { cid } => seq![decimal(cid as nat)],
            DatabaseIntegrityError::InvalidVariantDictionaryVersion { version } => seq![
                decimal(version as nat),
            ],
            DatabaseIntegrityError::InvalidVariantDictionaryValueType { value_type } => seq![
                decimal(value_type as nat),
            ],
            _ => Seq::empty(),
        }
    }

    /// What the wrapped failure says of itself, for a variant that wraps one.
    pub open spec fn wrapped_text(self, foreign: Seq<char>) -> Option<Seq<char>> {
        match self {
            DatabaseIntegrityError::Crypto { e } => Some(e.debug_text()),
            DatabaseIntegrityError::XMLParsing { .. } => Some(foreign),
            DatabaseIntegrityError::UTF8 { e } => Some(utf8_message(e)),
            DatabaseIntegrityError::Base64 { e } => Some(base64_message(e)),
            _ => None,
        }
    }

    /// The failure that this one wraps, if it wraps one.
    pub open spec fn cause(self) -> Option<Cause<'static>> {
        match self {
            DatabaseIntegrityError::Crypto { e } => Some(Cause::Crypto(&e)),
            DatabaseIntegrityError::XMLParsing { e } => Some(Cause::XMLParsing(&e)),
            DatabaseIntegrityError::Base64 { e } => Some(Cause::Base64(&e)),
            DatabaseIntegrityError::UTF8 { e } => Some(Cause::UTF8(&e)),
            _ => None,
        }
    }

    /// Renders the failure, with `foreign` in the place of what a wrapped
    /// failure whose text depends on the machine says of itself.
    pub fn render(&self, foreign: &str) -> (r: String)
        ensures
            r@ == self.text_with(foreign@),
    {
        let detail = match self {
            DatabaseIntegrityError::Compression => String::from_str("(De)compression error"),
            DatabaseIntegrityError::Crypto { e } => join(
                "Cryptography error: ",
                e.to_debug_string().as_str(),
            ),
            DatabaseIntegrityError::HeaderHashMismatch => String::from_str(
                "Hash mismatch when verifying header",
            ),
            DatabaseIntegrityError::BlockHashMismatch { block_index } => {
                let mut d = String::from_str("Error when verifying integrity of block ");
                push_positional(&mut d, *block_index as u64, 10);
                d
            },
            DatabaseIntegrityError::InvalidKDBXIdentifier => String::from_str(
                "Invalid KDBX Identifier",
            ),
            DatabaseIntegrityError::InvalidKDBXVersion {
                version,
                file_major_version,
                file_minor_version,
            } => {
                let mut d = String::from_str("Invalid KDBX Version (version: ");
                push_positional(&mut d, *version as u64, 16);
                d.append(" file version ");
                push_positional(&mut d, *file_major_version as u64, 10);
                d.append(".");
                push_positional(&mut d, *file_minor_version as u64, 10);
                d.append(")");
                d
            },
            DatabaseIntegrityError::InvalidOuterHeaderEntry { entry_type } => {
                let mut d = String::from_str(
                    "Encountered an invalid outer header entry with type ",
                );
                push_positional(&mut d, *entry_type as u64, 10);
                d
            },
            DatabaseIntegrityError::InvalidInnerHeaderEntry { entry_type } => {
                let mut d = String::from_str(
                    "Encountered an invalid inner header entry with type ",
                );
                push_positional(&mut d, *entry_type as u64, 10);
                d
            },
            DatabaseIntegrityError::IncompleteOuterHeader { missing_field } => join(
                "Missing field in outer header: ",
                missing_field.as_str(),
            ),
            DatabaseIntegrityError::IncompleteInnerHeader { missing_field } => join(
                "Missing field in inner header: ",
                missing_field.as_str(),
            ),
            DatabaseIntegrityError::MissingKDFParams { key } => join(
                "Missing field in KDF parameters: ",
                key.as_str(),
            ),
            DatabaseIntegrityError::MistypedKDFParam { key } => {
                let mut d = join("KDF parameter ", key.as_str());
                d.append(" has wrong type");
                d
            },
            DatabaseIntegrityError::InvalidKDFVersion { version } => {
                let mut d = String::from_str("Encountered an invalid KDF version: ");
                push_positional(&mut d, *version as u64, 10);
                d
            },
            DatabaseIntegrityError::InvalidKDFUUID { uuid } => join(
                "Encountered an invalid KDF UUID: ",
                hex_list_text(uuid).as_str(),
            ),
            DatabaseIntegrityError::InvalidOuterCipherID { cid } => join(
                "Encountered an invalid outer cipher ID: ",
                hex_list_text(cid).as_str(),
            ),
            DatabaseIntegrityError::InvalidInnerCipherID { cid } => {
                let mut d = String::from_str("Encountered an invalid inner cipher ID: ");
                push_positional(&mut d, *cid as u64, 10);
                d
            },
            DatabaseIntegrityError::InvalidCompressionSuite { cid } => {
                let mut d = String::from_str("Encountered an invalid compression suite ID: ");
                push_positional(&mut d, *cid as u64, 10);
                d
            },
            DatabaseIntegrityError::InvalidVariantDictionaryVersion { version } => {
                let mut d = String::from_str(
                    "Encountered a VariantDictionary with an invalid version: ",
                );
                push_positional(&mut d, *version as u64, 10);
                d
            },
            DatabaseIntegrityError::InvalidVariantDictionaryValueType { value_type } => {
                let mut d = String::from_str(
                    "Encountered an invalid VariantDictionary value type: ",
                );
                push_positional(&mut d, *value_type as u64, 10);
                d
            },
            DatabaseIntegrityError::XMLParsing { .. } => join(
                "Encountered an error when parsing the inner XML payload: ",
                foreign,
            ),
            DatabaseIntegrityError::UTF8 { e } => join(
                "Encountering an error when parsing an UTF-8 formatted string: ",
                utf8_display(e).as_str(),
            ),
            DatabaseIntegrityError::Base64 { e } => join(
                "Encountered an error when parsing a base64-encoded string: ",
                base64_display(e).as_str(),
            ),
        };
        join("Database integrity error: ", detail.as_str())
    }

    /// What the wrapped failure whose text depends on the machine says of
    /// itself: a text exactly where the value wraps such a failure.
    pub(crate) fn foreign_text(&self) -> (r: Option<String>)
        ensures
            r is None <==> self.has_fixed_text(),
    {
        match self {
            DatabaseIntegrityError::XMLParsing { e } => Some(xml_display(e)),
            _ => None,
        }
    }

    /// Renders the failure.
    pub fn to_string(&self) -> (r: String)
        ensures
            self.renders_as(r@),
            self.has_fixed_text() ==> r@ == self.text(),
    {
        match self.foreign_text() {
            Some(foreign) => self.render(foreign.as_str()),
            None => {
                let nothing = String::new();
                self.render(nothing.as_str())
            },
        }
    }

    /// The failure that this one wraps, if it wraps one.
    pub fn source(&self) -> (r: Option<Cause<'_>>)
        ensures
            r == self.cause(),
    {
        match self {
            DatabaseIntegrityError::Crypto { e } => Some(Cause::Crypto(e)),
            DatabaseIntegrityError::XMLParsing { e } => Some(Cause::XMLParsing(e)),
            DatabaseIntegrityError::Base64 { e } => Some(Cause::Base64(e)),
            DatabaseIntegrityError::UTF8 { e } => Some(Cause::UTF8(e)),
            _ => None,
        }
    }
}

impl From<CryptoError> for DatabaseIntegrityError {
    fn from(e: CryptoError) -> (r: Self) {
        DatabaseIntegrityError::Crypto { e }
    }
}

impl FromSpecImpl<CryptoError> for DatabaseIntegrityError {
    open spec fn obeys_from_spec() -> bool {
        true
    }

    open spec fn from_spec(e: CryptoError) -> Self {
        DatabaseIntegrityError::Crypto { e }
    }
}

impl From<xml::reader::Error> for DatabaseIntegrityError {
    fn from(e: xml::reader::Error) -> (r: Self) {
        DatabaseIntegrityError::XMLParsing { e }
    }
}

impl FromSpecImpl<xml::reader::Error> for DatabaseIntegrityError {
    open spec fn obeys_from_spec() -> bool {
        true
    }

    open spec fn from_spec(e: xml::reader::Error) -> Self {
        DatabaseIntegrityError::XMLParsing { e }
    }
}

impl From<std::str::Utf8Error> for DatabaseIntegrityError {
    fn from(e: std::str::Utf8Error) -> (r: Self) {
        DatabaseIntegrityError::UTF8 { e }
    }
}

impl FromSpecImpl<std::str::Utf8Error> for DatabaseIntegrityError {
    open spec fn obeys_from_spec() -> bool {
        true
    }

    open spec fn from_spec(e: std::str::Utf8Error) -> Self {
        DatabaseIntegrityError::UTF8 { e }
    }
}

impl From<base64::DecodeError> for DatabaseIntegrityError {
    fn from(e: base64::DecodeError) -> (r: Self) {
        DatabaseIntegrityError::Base64 { e }
    }
}

impl FromSpecImpl<base64::DecodeError> for DatabaseIntegrityError {
    open spec fn obeys_from_spec() -> bool {
        true
    }

    open spec fn from_spec(e: base64::DecodeError) -> Self {
        DatabaseIntegrityError::Base64 { e }
    }
}

} // verus!
