//! Errors reported while reading a configuration document.

use vstd::prelude::*;

verus! {

/// Abstract form of a configuration error, over character sequences.
pub enum ErrV {
    /// The text is not a well-formed document, or a value that must be a
    /// table is not one.
    Syntax,
    /// A required field is missing.
    Missing {
        /// The field that the document leaves out.
        field: Seq<char>,
    },
    /// A field holds a value of the wrong shape or range.
    BadType {
        /// The field whose value does not fit.
        field: Seq<char>,
    },
    /// The `kind` discriminator names no known descriptor kind.
    UnknownKind {
        /// The discriminator value found in the document.
        kind: Seq<char>,
    },
    /// A descriptor name contains the reserved `':'`.
    InvalidName {
        /// The offending candidate name.
        value: Seq<char>,
    },
    /// The attestation endpoint is not a well-formed URL.
    BadUrl {
        /// The offending candidate URL text.
        value: Seq<char>,
    },
}

/// An error found while reading a configuration document, carrying the
/// offending field or value.
#[derive(Debug, Clone, PartialEq, Eq)]
pub enum ConfigError {
    /// The text is not a well-formed document, or a value that must be a
    /// table is not one.
    Syntax,
    /// A required field is missing.
    Missing {
        /// The field that the document leaves out.
        field: String,
    },
    /// A field holds a value of the wrong shape or range.
    BadType {
        /// The field whose value does not fit.
        field: String,
    },
    /// The `kind` discriminator names no known descriptor kind.
    UnknownKind {
        /// The discriminator value found in the document.
        kind: String,
    },
    /// A descriptor name contains the reserved `':'`.
    InvalidName {
        /// The offending candidate name.
        value: String,
    },
    /// The attestation endpoint is not a well-formed URL.
    BadUrl {
        /// The offending candidate URL text.
        value: String,
    },
}

impl View for ConfigError {
    type V = ErrV;

    open spec fn view(&self) -> ErrV {
        match self {
            ConfigError::Syntax => ErrV::Syntax,
            ConfigError::Missing { field } => ErrV::Missing { field: field@ },
            ConfigError::BadType { field } => ErrV::BadType { field: field@ },
            ConfigError::UnknownKind { kind } => ErrV::UnknownKind { kind: kind@ },
            ConfigError::InvalidName { value } => ErrV::InvalidName { value: value@ },
            ConfigError::BadUrl { value } => ErrV::BadUrl { value: value@ },
        }
    }
}

} // verus!
