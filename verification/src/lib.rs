//! Configuration layer for an animated multi-stop gradient renderer.
//!
//! The crate turns a declarative, table-structured text document into a
//! validated, immutable [`model::Configuration`], and keeps a registry that
//! resolves easing-curve names to members of a closed set of curves.

use vstd::prelude::*;

pub mod color;
pub mod easing;
pub mod error;
pub mod model;
pub mod parse;
pub mod raw;
pub mod util;
pub mod validate;

verus! {

/// What a byte sequence loads to: a syntax error where it is not
/// well-formed table text, otherwise whatever the schema makes of the
/// parsed document.
pub open spec fn sp_load(s: Seq<u8>) -> Result<model::ConfigV, error::ErrV> {
    match parse::sp_parse(s) {
        None => Err(error::ErrV::Syntax),
        Some(d) => validate::sp_validate(d),
    }
}

/// Load a configuration from document text: parse, resolve every tag and
/// easing name, and either hand back one complete immutable
/// [`model::Configuration`] or exactly one [`error::ConfigError`].
pub fn load_configuration(text: &[u8]) -> (r: Result<model::Configuration, error::ConfigError>)
    ensures
        match r {
            Ok(c) => sp_load(text@) == Ok::<model::ConfigV, error::ErrV>(model::config_view(c)),
            Err(e) => sp_load(text@) == Err::<model::ConfigV, error::ErrV>(error::err_view(e)),
        },
{
    match parse::parse_document(text) {
        None => Err(error::ConfigError::Syntax),
        Some(d) => validate::validate(&d),
    }
}

} // verus!
