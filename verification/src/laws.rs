//! What holds of every failure value: lifting loses nothing, context is shown,
//! rendering is a function of the value, and causal chains are short.

use vstd::prelude::*;
use vstd::std_specs::convert::FromSpec;
use crate::cause::chain;
use crate::cause::Cause;
use crate::crypto::CryptoError;
use crate::foreign::argon2_message;
use crate::foreign::base64_message;
use crate::foreign::utf8_message;
use crate::integrity::DatabaseIntegrityError;
use crate::outcome::KdbxError;
use crate::text::decimal;
use crate::text::lemma_occurs_between;
use crate::text::lemma_occurs_widen;
use crate::text::lower_hex;
use crate::text::occurs_in;

verus! {

/// A rendered cryptographic failure is not empty and quotes what its cause
/// says of itself.
pub proof fn lemma_crypto_text_quotes_cause(c: CryptoError)
    ensures
        c.text().len() > 0,
        occurs_in(c.cause_text(), c.text()),
{
    reveal_strlit("Crypto Error: ");
    let head = "Crypto Error: "@ + c.label();
    lemma_occurs_between(head, c.cause_text(), Seq::empty());
    assert(head + c.cause_text() =~= c.text());
}

/// What occurs in what a content failure says occurs in its rendering, and
/// the rendering is not empty.
pub proof fn lemma_integrity_detail_is_shown(
    d: DatabaseIntegrityError,
    foreign: Seq<char>,
    needle: Seq<char>,
)
    requires
        occurs_in(needle, d.detail(foreign)),
    ensures
        occurs_in(needle, d.text_with(foreign)),
{
    lemma_occurs_widen(needle, d.detail(foreign), "Database integrity error: "@, Seq::empty());
}

/// What occurs in what an outcome says occurs in its rendering.
pub proof fn lemma_outcome_detail_is_shown(e: KdbxError, foreign: Seq<char>, needle: Seq<char>)
    requires
        occurs_in(needle, e.detail(foreign)),
    ensures
        occurs_in(needle, e.text_with(foreign)),
{
    lemma_occurs_widen(needle, e.detail(foreign), "KDBX error: "@, Seq::empty());
}

/// Every rendered content failure and every rendered outcome is not empty.
pub proof fn law_rendering_is_not_empty(
    d: DatabaseIntegrityError,
    e: KdbxError,
    foreign: Seq<char>,
)
    ensures
        d.text_with(foreign).len() > 0,
        e.text_with(foreign).len() > 0,
{
    reveal_strlit("Database integrity error: ");
    reveal_strlit("KDBX error: ");
}

/// A content failure that wraps another failure quotes, when rendered, what
/// the wrapped failure says of itself.
pub proof fn lemma_integrity_text_quotes_wrapped(d: DatabaseIntegrityError, foreign: Seq<char>)
    requires
        d.wrapped_text(foreign) is Some,
    ensures
        occurs_in(d.wrapped_text(foreign).unwrap(), d.text_with(foreign)),
{
    let inner = d.wrapped_text(foreign).unwrap();
    match d {
        DatabaseIntegrityError::Crypto { .. } => {
            lemma_occurs_between("Cryptography error: "@, inner, Seq::empty());
        },
        DatabaseIntegrityError::XMLParsing { .. } => {
            lemma_occurs_between(
                "Encountered an error when parsing the inner XML payload: "@,
                inner,
                Seq::empty(),
            );
        },
        DatabaseIntegrityError::UTF8 { .. } => {
            lemma_occurs_between(
                "Encountering an error when parsing an UTF-8 formatted string: "@,
                inner,
                Seq::empty(),
            );
        },
        DatabaseIntegrityError::Base64 { .. } => {
            lemma_occurs_between(
                "Encountered an error when parsing a base64-encoded string: "@,
                inner,
                Seq::empty(),
            );
        },
        _ => {},
    }
    lemma_integrity_detail_is_shown(d, foreign, inner);
}

/// Lifting an Argon2 failure loses nothing: the rendered result is not empty
/// and quotes the failure's message.
pub proof fn law_lifted_argon2_is_quoted(e: argon2::Error)
    ensures
        CryptoError::from_spec(e).text().len() > 0,
        occurs_in(argon2_message(e), CryptoError::from_spec(e).text()),
{
    lemma_crypto_text_quotes_cause(CryptoError::from_spec(e));
}

/// Lifting a MAC key length failure loses nothing: the rendered result is not
/// empty and quotes the failure's message.
pub proof fn law_lifted_key_length_is_quoted(e: hmac::crypto_mac::InvalidKeyLength)
    ensures
        CryptoError::from_spec(e).text().len() > 0,
        occurs_in("invalid key length"@, CryptoError::from_spec(e).text()),
{
    lemma_crypto_text_quotes_cause(CryptoError::from_spec(e));
}

/// Lifting a key or initialization vector length failure loses nothing: the
/// rendered result is not empty and quotes the failure's message.
pub proof fn law_lifted_key_iv_length_is_quoted(e: block_modes::InvalidKeyIvLength)
    ensures
        CryptoError::from_spec(e).text().len() > 0,
        occurs_in("InvalidKeyIvLength"@, CryptoError::from_spec(e).text()),
{
    lemma_crypto_text_quotes_cause(CryptoError::from_spec(e));
}

/// Lifting a key or nonce length failure loses nothing: the rendered result is
/// not empty and quotes the failure's message.
pub proof fn law_lifted_key_nonce_length_is_quoted(e: stream_cipher::InvalidKeyNonceLength)
    ensures
        CryptoError::from_spec(e).text().len() > 0,
        occurs_in("Loop Error"@, CryptoError::from_spec(e).text()),
{
    lemma_crypto_text_quotes_cause(CryptoError::from_spec(e));
}

/// Lifting a block mode failure loses nothing: the rendered result is not
/// empty and quotes the failure's message.
pub proof fn law_lifted_block_mode_is_quoted(e: block_modes::BlockModeError)
    ensures
        CryptoError::from_spec(e).text().len() > 0,
        occurs_in("BlockModeError"@, CryptoError::from_spec(e).text()),
{
    lemma_crypto_text_quotes_cause(CryptoError::from_spec(e));
}

/// Lifting a cryptographic failure into the content tier loses nothing: the
/// rendered result is not empty and quotes the failure in structural notation.
pub proof fn law_lifted_crypto_is_quoted(c: CryptoError, foreign: Seq<char>)
    ensures
        DatabaseIntegrityError::from_spec(c).text_with(foreign).len() > 0,
        occurs_in(c.debug_text(), DatabaseIntegrityError::from_spec(c).text_with(foreign)),
        DatabaseIntegrityError::from_spec(c).has_fixed_text(),
{
    let d = DatabaseIntegrityError::from_spec(c);
    law_rendering_is_not_empty(d, KdbxError::IncorrectKey, foreign);
    lemma_integrity_text_quotes_wrapped(d, foreign);
}

/// Lifting an XML failure loses nothing: the rendered result is not empty and
/// quotes what the failure says of itself.
pub proof fn law_lifted_xml_is_quoted(e: xml::reader::Error, foreign: Seq<char>)
    ensures
        DatabaseIntegrityError::from_spec(e).text_with(foreign).len() > 0,
        occurs_in(foreign, DatabaseIntegrityError::from_spec(e).text_with(foreign)),
{
    let d = DatabaseIntegrityError::from_spec(e);
    law_rendering_is_not_empty(d, KdbxError::IncorrectKey, foreign);
    lemma_integrity_text_quotes_wrapped(d, foreign);
}

/// Lifting a UTF-8 failure loses nothing: the rendered result is not empty and
/// quotes the failure's message.
pub proof fn law_lifted_utf8_is_quoted(e: std::str::Utf8Error, foreign: Seq<char>)
    ensures
        DatabaseIntegrityError::from_spec(e).text_with(foreign).len() > 0,
        occurs_in(utf8_message(e), DatabaseIntegrityError::from_spec(e).text_with(foreign)),
{
    let d = DatabaseIntegrityError::from_spec(e);
    law_rendering_is_not_empty(d, KdbxError::IncorrectKey, foreign);
    lemma_integrity_text_quotes_wrapped(d, foreign);
}

/// Lifting a base64 failure loses nothing: the rendered result is not empty
/// and quotes the failure's message.
pub proof fn law_lifted_base64_is_quoted(e: base64::DecodeError, foreign: Seq<char>)
    ensures
        DatabaseIntegrityError::from_spec(e).text_with(foreign).len() > 0,
        occurs_in(base64_message(e), DatabaseIntegrityError::from_spec(e).text_with(foreign)),
{
    let d = DatabaseIntegrityError::from_spec(e);
    law_rendering_is_not_empty(d, KdbxError::IncorrectKey, foreign);
    lemma_integrity_text_quotes_wrapped(d, foreign);
}

/// Lifting a content failure into the outcome tier loses nothing: the rendered
/// result is not empty and quotes the whole rendered content failure.
pub proof fn law_lifted_integrity_is_quoted(d: DatabaseIntegrityError, foreign: Seq<char>)
    ensures
        KdbxError::from_spec(d).text_with(foreign).len() > 0,
        occurs_in(d.text_with(foreign), KdbxError::from_spec(d).text_with(foreign)),
        KdbxError::from_spec(d).has_fixed_text() == d.has_fixed_text(),
{
    let e = KdbxError::from_spec(d);
    law_rendering_is_not_empty(d, e, foreign);
    lemma_occurs_between("KDBX error: "@, d.text_with(foreign), Seq::empty());
}

/// Lifting an input or output failure loses nothing: the rendered result is
/// not empty and quotes what the failure says of itself.
pub proof fn law_lifted_io_is_quoted(e: std::io::Error, foreign: Seq<char>)
    ensures
        KdbxError::from_spec(e).text_with(foreign).len() > 0,
        occurs_in(foreign, KdbxError::from_spec(e).text_with(foreign)),
{
    let k = KdbxError::from_spec(e);
    law_rendering_is_not_empty(DatabaseIntegrityError::Compression, k, foreign);
    lemma_occurs_between("IO error: "@, foreign, Seq::empty());
    lemma_outcome_detail_is_shown(k, foreign, foreign);
}

/// Every context field that a content failure carries stands in its rendering
/// as written by `context`, and in the rendering of the outcome that wraps it.
pub proof fn law_context_is_shown(d: DatabaseIntegrityError, foreign: Seq<char>, i: int)
    requires
        0 <= i < d.context().len(),
    ensures
        occurs_in(d.context()[i], d.text_with(foreign)),
        occurs_in(d.context()[i], KdbxError::from_spec(d).text_with(foreign)),
{
    let item = d.context()[i];
    let whole = d.detail(foreign);
    let none = Seq::<char>::empty();
    match d {
        DatabaseIntegrityError::BlockHashMismatch { .. } => {
            lemma_occurs_between("Error when verifying integrity of block "@, item, none);
        },
        DatabaseIntegrityError::InvalidKDBXVersion {
            version,
            file_major_version,
            file_minor_version,
        } => {
            let a = "Invalid KDBX Version (version: "@;
            let b = " file version "@;
            let v = lower_hex(version as nat);
            let major = decimal(file_major_version as nat);
            let minor = decimal(file_minor_version as nat);
            if i == 0 {
                lemma_occurs_between(a, v, b + major + "."@ + minor + ")"@);
                assert(a + v + (b + major + "."@ + minor + ")"@) =~= whole);
            } else if i == 1 {
                lemma_occurs_between(a + v + b, major, "."@ + minor + ")"@);
                assert(a + v + b + major + ("."@ + minor + ")"@) =~= whole);
            } else {
                lemma_occurs_between(a + v + b + major + "."@, minor, ")"@);
            }
        },
        DatabaseIntegrityError::InvalidOuterHeaderEntry { .. } => {
            lemma_occurs_between(
                "Encountered an invalid outer header entry with type "@,
                item,
                none,
            );
        },
        DatabaseIntegrityError::InvalidInnerHeaderEntry { .. } => {
            lemma_occurs_between(
                "Encountered an invalid inner header entry with type "@,
                item,
                none,
            );
        },
        DatabaseIntegrityError::IncompleteOuterHeader { .. } => {
            lemma_occurs_between("Missing field in outer header: "@, item, none);
        },
        DatabaseIntegrityError::IncompleteInnerHeader { .. } => {
            lemma_occurs_between("Missing field in inner header: "@, item, none);
        },
        DatabaseIntegrityError::MissingKDFParams { .. } => {
            lemma_occurs_between("Missing field in KDF parameters: "@, item, none);
        },
        DatabaseIntegrityError::MistypedKDFParam { .. } => {
            lemma_occurs_between("KDF parameter "@, item, " has wrong type"@);
        },
        DatabaseIntegrityError::InvalidKDFVersion { .. } => {
            lemma_occurs_between("Encountered an invalid KDF version: "@, item, none);
        },
        DatabaseIntegrityError::InvalidKDFUUID { .. } => {
            lemma_occurs_between("Encountered an invalid KDF UUID: "@, item, none);
        },
        DatabaseIntegrityError::InvalidOuterCipherID { .. } => {
            lemma_occurs_between("Encountered an invalid outer cipher ID: "@, item, none);
        },
        DatabaseIntegrityError::InvalidInnerCipherID { .. } => {
            lemma_occurs_between("Encountered an invalid inner cipher ID: "@, item, none);
        },
        DatabaseIntegrityError::InvalidCompressionSuite { .. } => {
            lemma_occurs_between("Encountered an invalid compression suite ID: "@, item, none);
        },
        DatabaseIntegrityError::InvalidVariantDictionaryVersion { .. } => {
            lemma_occurs_between(
                "Encountered a VariantDictionary with an invalid version: "@,
                item,
                none,
            );
        },
        DatabaseIntegrityError::InvalidVariantDictionaryValueType { .. } => {
            lemma_occurs_between(
                "Encountered an invalid VariantDictionary value type: "@,
                item,
                none,
            );
        },
        _ => {},
    }
    assert(occurs_in(item, whole));
    lemma_integrity_detail_is_shown(d, foreign, item);
    lemma_outcome_detail_is_shown(KdbxError::from_spec(d), foreign, item);
}

/// Lifting a cryptographic failure tier by tier gives the outcome that wraps
/// the content failure that wraps it, and that outcome renders as the three
/// tiers' texts in a row, whatever the machine.
pub proof fn law_two_lifts_compose(c: CryptoError, foreign: Seq<char>)
    ensures
        KdbxError::from_spec(DatabaseIntegrityError::from_spec(c)) == (KdbxError::DatabaseIntegrity {
            e: DatabaseIntegrityError::Crypto { e: c },
        }),
        KdbxError::from_spec(DatabaseIntegrityError::from_spec(c)).has_fixed_text(),
        KdbxError::from_spec(DatabaseIntegrityError::from_spec(c)).text_with(foreign)
            == "KDBX error: "@ + ("Database integrity error: "@ + ("Cryptography error: "@
            + c.debug_text())),
{
}

/// A value whose text does not depend on the machine has one rendering: two
/// texts that rendering may give are the same text.
pub proof fn law_rendering_is_a_function(e: KdbxError, first: Seq<char>, second: Seq<char>)
    requires
        e.has_fixed_text(),
        e.renders_as(first),
        e.renders_as(second),
    ensures
        first == second,
        first == e.text(),
{
    lemma_outcome_text_ignores_foreign(e, Seq::empty());
    assert forall|f: Seq<char>| #[trigger] e.text_with(f) == e.text() by {
        lemma_outcome_text_ignores_foreign(e, f);
    }
}

/// A content failure whose text does not depend on the machine has one
/// rendering.
pub proof fn law_integrity_rendering_is_a_function(
    d: DatabaseIntegrityError,
    first: Seq<char>,
    second: Seq<char>,
)
    requires
        d.has_fixed_text(),
        d.renders_as(first),
        d.renders_as(second),
    ensures
        first == second,
        first == d.text(),
{
    assert forall|f: Seq<char>| #[trigger] d.text_with(f) == d.text() by {
        lemma_integrity_text_ignores_foreign(d, f);
    }
}

/// The rendering of a content failure with a fixed text makes no use of `foreign`.
pub proof fn lemma_integrity_text_ignores_foreign(d: DatabaseIntegrityError, foreign: Seq<char>)
    requires
        d.has_fixed_text(),
    ensures
        d.text_with(foreign) == d.text(),
{
}

/// The rendering of an outcome with a fixed text makes no use of `foreign`.
pub proof fn lemma_outcome_text_ignores_foreign(e: KdbxError, foreign: Seq<char>)
    requires
        e.has_fixed_text(),
    ensures
        e.text_with(foreign) == e.text(),
{
    match e {
        KdbxError::DatabaseIntegrity { e: d } => {
            lemma_integrity_text_ignores_foreign(d, foreign);
        },
        _ => {},
    }
}

/// No causal chain has more than two links, and every chain that is not empty
/// ends at a link that names no further cause.
pub proof fn law_chain_is_short(e: KdbxError)
    ensures
        chain(e.cause()).len() <= 2,
        chain(e.cause()).len() > 0 ==> chain(e.cause()).last().next() is None,
        e.cause() is None <==> chain(e.cause()).len() == 0,
{
    reveal_with_fuel(chain, 3);
}

/// An outcome that wraps a content failure that wraps a cryptographic failure
/// whose cause can stand in a chain has exactly two causes: the cryptographic
/// failure, then the failure it was made from, which names none.
pub proof fn law_crypto_chain_has_two_links(c: CryptoError)
    requires
        c.cause() is Some,
    ensures
        chain(KdbxError::from_spec(DatabaseIntegrityError::from_spec(c)).cause()) == seq![
            Cause::Crypto(&c),
            c.cause().unwrap(),
        ],
        c.cause().unwrap().is_leaf(),
        c.cause().unwrap().next() is None,
{
    reveal_with_fuel(chain, 3);
    let top = KdbxError::from_spec(DatabaseIntegrityError::from_spec(c));
    assert(chain(top.cause()) =~= seq![Cause::Crypto(&c), c.cause().unwrap()]);
}

/// Where the cause of the cryptographic failure cannot stand in a chain, the
/// chain has one link: the cryptographic failure itself.
pub proof fn law_crypto_chain_without_cause(c: CryptoError)
    requires
        c.cause() is None,
    ensures
        chain(KdbxError::from_spec(DatabaseIntegrityError::from_spec(c)).cause()) == seq![
            Cause::Crypto(&c),
        ],
{
    reveal_with_fuel(chain, 3);
    let top = KdbxError::from_spec(DatabaseIntegrityError::from_spec(c));
    assert(chain(top.cause()) =~= seq![Cause::Crypto(&c)]);
}

} // verus!
