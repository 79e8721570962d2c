//! The top tier: how an attempt to open a database ended when it failed.

use vstd::prelude::*;
use vstd::std_specs::convert::FromSpecImpl;
use crate::cause::Cause;
use crate::foreign::io_display;
use crate::integrity::DatabaseIntegrityError;
use crate::text::join;

verus! {

/// Why a database could not be opened.
///
/// A caller tells a wrong credential from a damaged file and from a file that
/// cannot be read by the variant alone.
#[derive(Debug)]
#[allow(inconsistent_fields)]
pub enum KdbxError {
    /// The file or stream could not be read.
    IO { e: std::io::Error },
    /// The content is not a valid database.
    DatabaseIntegrity { e: DatabaseIntegrityError },
    /// The credential does not open this database.
    IncorrectKey,
    /// The key file is not in a format that can be read.
    InvalidKeyFile,
}

impl KdbxError {
    /// The text of the rendered failure does not depend on the machine.
    pub open spec fn has_fixed_text(self) -> bool {
        match self {
            KdbxError::IO { .. } => false,
            KdbxError::DatabaseIntegrity { e } => e.has_fixed_text(),
            _ => true,
        }
    }

    /// What the variant says, where `foreign` is what a wrapped failure whose
    /// text depends on the machine says of itself.
    pub open spec fn detail(self, foreign: Seq<char>) -> Seq<char> {
        match self {
            KdbxError::IO { .. } => "IO error: "@ + foreign,
            KdbxError::IncorrectKey => "Incorrect key specified"@,
            KdbxError::InvalidKeyFile => "Keyfile format invalid"@,
            KdbxError::DatabaseIntegrity { e } => e.text_with(foreign),
        }
    }

    /// The rendered failure, where `foreign` is what a wrapped failure whose
    /// text depends on the machine says of itself.
    pub open spec fn text_with(self, foreign: Seq<char>) -> Seq<char> {
        "KDBX error: "@ + self.detail(foreign)
    }

    /// The rendered failure, for a value whose text does not depend on the
    /// machine.
    pub open spec fn text(self) -> Seq<char>
        recommends
            self.has_fixed_text(),
    {
        self.text_with(Seq::empty())
    }

    /// `t` is a text that rendering this failure may give.
    pub open spec fn renders_as(self, t: Seq<char>) -> bool {
        exists|foreign: Seq<char>| t == #[trigger] self.text_with(foreign)
    }

    /// The first failure of the causal chain. An input or output failure is
    /// its own first link; a content failure hands on the failure it wraps.
    pub open spec fn cause(self) -> Option<Cause<'static>> {
        match self {
            KdbxError::IO { e } => Some(Cause::IO(&e)),
            KdbxError::DatabaseIntegrity { e } => e.cause(),
            _ => None,
        }
    }

    /// Renders the failure, with `foreign` in the place of what a wrapped
    /// failure whose text depends on the machine says of itself.
    pub fn render(&self, foreign: &str) -> (r: String)
        ensures
            r@ == self.text_with(foreign@),
    {
        let detail = match self {
            KdbxError::IO { .. } => join("IO error: ", foreign),
            KdbxError::IncorrectKey => String::from_str("Incorrect key specified"),
            KdbxError::InvalidKeyFile => String::from_str("Keyfile format invalid"),
            KdbxError::DatabaseIntegrity { e } => e.render(foreign),
        };
        join("KDBX error: ", detail.as_str())
    }

    /// What the wrapped failure whose text depends on the machine says of
    /// itself: a text exactly where the value wraps such a failure.
    fn foreign_text(&self) -> (r: Option<String>)
        ensures
            r is None <==> self.has_fixed_text(),
    {
        match self {
            KdbxError::IO { e } => Some(io_display(e)),
            KdbxError::DatabaseIntegrity { e } => e.foreign_text(),
            _ => None,
        }
    }

    /// Renders the failure.
    pub fn to_string(&self) -> (r: String)
        ensures
            self.renders_as(r@),
            self.has_fixed_text() ==> r@ == self.text(),
    {
        match self.foreign_text() {
            Some(foreign) => self.render(foreign.as_str()),
            None => {
                let nothing = String::new();
                self.render(nothing.as_str())
            },
        }
    }

    /// The first failure of the causal chain.
    pub fn source(&self) -> (r: Option<Cause<'_>>)
        ensures
            r == self.cause(),
    {
        match self {
            KdbxError::IO { e } => Some(Cause::IO(e)),
            KdbxError::DatabaseIntegrity { e } => e.source(),
            _ => None,
        }
    }
}

impl From<DatabaseIntegrityError> for KdbxError {
    fn from(e: DatabaseIntegrityError) -> (r: Self) {
        KdbxError::DatabaseIntegrity { e }
    }
}

impl FromSpecImpl<DatabaseIntegrityError> for KdbxError {
    open spec fn obeys_from_spec() -> bool {
        true
    }

    open spec fn from_spec(e: DatabaseIntegrityError) -> Self {
        KdbxError::DatabaseIntegrity { e }
    }
}

impl From<std::io::Error> for KdbxError {
    fn from(e: std::io::Error) -> (r: Self) {
        KdbxError::IO { e }
    }
}

impl FromSpecImpl<std::io::Error> for KdbxError {
    open spec fn obeys_from_spec() -> bool {
        true
    }

    open spec fn from_spec(e: std::io::Error) -> Self {
        KdbxError::IO { e }
    }
}

} // verus!
