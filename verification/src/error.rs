//! The single, terminal error a failed load reports.

use vstd::prelude::*;

verus! {

/// Why a document was rejected. A load either yields a complete
/// configuration or exactly one of these; nothing is ever defaulted.
///
/// Tags and names are carried as the raw bytes that stood in the document,
/// so the offending text is always embedded in the error.
#[derive(PartialEq, Eq, Clone, Debug)]
pub enum ConfigError {
    /// The document is not well-formed table text.
    Syntax,
    /// A required field is missing or has the wrong shape.
    Schema { path: Vec<u8>, reason: Vec<u8> },
    /// The `adjustment` tag is outside the closed enumeration.
    UnknownAdjustment { tag: Vec<u8> },
    /// The `interpolation` tag is outside the closed enumeration.
    UnknownInterpolation { tag: Vec<u8> },
    /// The easing name did not resolve in the registry.
    UnknownEasing { name: Vec<u8> },
}

/// The mathematical shape of a [`ConfigError`].
pub enum ErrV {
    Syntax,
    Schema { path: Seq<u8>, reason: Seq<u8> },
    UnknownAdjustment { tag: Seq<u8> },
    UnknownInterpolation { tag: Seq<u8> },
    UnknownEasing { name: Seq<u8> },
}

pub open spec fn err_view(e: ConfigError) -> ErrV {
    match e {
        ConfigError::Syntax => ErrV::Syntax,
        ConfigError::Schema { path, reason } => ErrV::Schema { path: path@, reason: reason@ },
        ConfigError::UnknownAdjustment { tag } => ErrV::UnknownAdjustment { tag: tag@ },
        ConfigError::UnknownInterpolation { tag } => ErrV::UnknownInterpolation { tag: tag@ },
        ConfigError::UnknownEasing { name } => ErrV::UnknownEasing { name: name@ },
    }
}

} // verus!
