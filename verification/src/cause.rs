//! The causal chain: what a failure names as the failure behind it.

use vstd::prelude::*;
use crate::crypto::CryptoError;
use crate::foreign::argon2_display;
use crate::foreign::argon2_message;
use crate::foreign::base64_display;
use crate::foreign::base64_message;
use crate::foreign::block_mode_display;
use crate::foreign::invalid_key_iv_length_display;
use crate::foreign::io_display;
use crate::foreign::utf8_display;
use crate::foreign::utf8_message;
use crate::foreign::xml_display;

verus! {

/// One link of a causal chain: a borrowed failure that another failure wraps.
///
/// A link is either a failure of this library, which may name a cause of its
/// own, or a failure of another crate, where the chain ends. What such a
/// failure may link to in its own crate is behind the borrowed value.
#[derive(Debug)]
pub enum Cause<'a> {
    Crypto(&'a CryptoError),
    Argon2(&'a argon2::Error),
    InvalidKeyIvLength(&'a block_modes::InvalidKeyIvLength),
    BlockMode(&'a block_modes::BlockModeError),
    XMLParsing(&'a xml::reader::Error),
    Base64(&'a base64::DecodeError),
    UTF8(&'a std::str::Utf8Error),
    IO(&'a std::io::Error),
}

impl<'a> Cause<'a> {
    /// The link after this one, if there is one.
    pub open spec fn next(self) -> Option<Cause<'a>> {
        match self {
            Cause::Crypto(e) => e.cause(),
            _ => None,
        }
    }

    /// The link is a failure of another crate: the chain ends here.
    pub open spec fn is_leaf(self) -> bool {
        !(self is Crypto)
    }

    /// How many links can follow this one at most.
    pub open spec fn rank(self) -> nat {
        if self.is_leaf() {
            0
        } else {
            1
        }
    }

    /// The text of the link does not depend on the machine.
    pub open spec fn has_fixed_text(self) -> bool {
        !(self is XMLParsing) && !(self is IO)
    }

    /// The text of the link, where `foreign` is what a link whose text depends
    /// on the machine says of itself.
    pub open spec fn text_with(self, foreign: Seq<char>) -> Seq<char> {
        match self {
            Cause::Crypto(e) => e.text(),
            Cause::Argon2(e) => argon2_message(*e),
            Cause::InvalidKeyIvLength(_) => "InvalidKeyIvLength"@,
            Cause::BlockMode(_) => "BlockModeError"@,
            Cause::XMLParsing(_) => foreign,
            Cause::Base64(e) => base64_message(*e),
            Cause::UTF8(e) => utf8_message(*e),
            Cause::IO(_) => foreign,
        }
    }

    /// `t` is a text that rendering this link may give.
    pub open spec fn renders_as(self, t: Seq<char>) -> bool {
        exists|foreign: Seq<char>| t == #[trigger] self.text_with(foreign)
    }

    /// The link after this one, if there is one.
    pub fn source(&self) -> (r: Option<Cause<'a>>)
        ensures
            r == self.next(),
    {
        match self {
            Cause::Crypto(e) => e.source(),
            _ => None,
        }
    }

    /// The text of the link.
    pub fn to_string(&self) -> (r: String)
        ensures
            self.renders_as(r@),
            self.has_fixed_text() ==> r@ == self.text_with(Seq::empty()),
    {
        let r = match self {
            Cause::Crypto(e) => e.to_string(),
            Cause::Argon2(e) => argon2_display(e),
            Cause::InvalidKeyIvLength(e) => invalid_key_iv_length_display(e),
            Cause::BlockMode(e) => block_mode_display(e),
            Cause::XMLParsing(e) => xml_display(e),
            Cause::Base64(e) => base64_display(e),
            Cause::UTF8(e) => utf8_display(e),
            Cause::IO(e) => io_display(e),
        };
        assert(r@ == self.text_with(r@));
        r
    }
}

/// The causal chain that begins with `first`: each link, then the next of it,
/// until a link names none.
pub open spec fn chain<'a>(first: Option<Cause<'a>>) -> Seq<Cause<'a>>
    decreases
            (match first {
                Some(c) => c.rank() + 1,
                None => 0,
            }),
{
    match first {
        None => Seq::empty(),
        Some(c) => seq![c] + chain(c.next()),
    }
}

} // verus!
