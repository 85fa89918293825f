//! The easing registry: a closed, immutable mapping from curve names to
//! curves, and the value wrapper that lets a resolved curve live inside the
//! structurally-compared data model.

use vstd::prelude::*;
use vstd::string::StringSliceAdditionalSpecFns;
use crate::error::{ConfigError, ErrV, err_view};
use crate::util::bytes_eq;

verus! {

/// One of the built-in easing curves. The numeric evaluation of a curve is
/// the renderer's business; the model only records which curve was chosen.
#[derive(PartialEq, Eq, Structural, Clone, Copy, Debug)]
pub enum EasingKind {
    BackIn,
    BackOut,
    BackInOut,
    BounceIn,
    BounceOut,
    BounceInOut,
    CircIn,
    CircOut,
    CircInOut,
    CubicIn,
    CubicOut,
    CubicInOut,
    ElasticIn,
    ElasticOut,
    ElasticInOut,
    ExpoIn,
    ExpoOut,
    ExpoInOut,
    QuadIn,
    QuadOut,
    QuadInOut,
    QuartIn,
    QuartOut,
    QuartInOut,
    QuintIn,
    QuintOut,
    QuintInOut,
    SineIn,
    SineOut,
    SineInOut,
    Linear,
    Reverse,
    Roundtrip,
}

/// The registry as a mathematical function: which curve, if any, a
/// case-sensitive identifier denotes.
pub open spec fn easing_of_name(name: Seq<u8>) -> Option<EasingKind> {
    if name == "back_in".spec_bytes() {
        Some(EasingKind::BackIn)
    } else if name == "back_out".spec_bytes() {
        Some(EasingKind::BackOut)
    } else if name == "back_in_out".spec_bytes() {
        Some(EasingKind::BackInOut)
    } else if name == "bounce_in".spec_bytes() {
        Some(EasingKind::BounceIn)
    } else if name == "bounce_out".spec_bytes() {
        Some(EasingKind::BounceOut)
    } else if name == "bounce_in_out".spec_bytes() {
        Some(EasingKind::BounceInOut)
    } else if name == "circ_in".spec_bytes() {
        Some(EasingKind::CircIn)
    } else if name == "circ_out".spec_bytes() {
        Some(EasingKind::CircOut)
    } else if name == "circ_in_out".spec_bytes() {
        Some(EasingKind::CircInOut)
    } else if name == "cubic_in".spec_bytes() {
        Some(EasingKind::CubicIn)
    } else if name == "cubic_out".spec_bytes() {
        Some(EasingKind::CubicOut)
    } else if name == "cubic_in_out".spec_bytes() {
        Some(EasingKind::CubicInOut)
    } else if name == "elastic_in".spec_bytes() {
        Some(EasingKind::ElasticIn)
    } else if name == "elastic_out".spec_bytes() {
        Some(EasingKind::ElasticOut)
    } else if name == "elastic_in_out".spec_bytes() {
        Some(EasingKind::ElasticInOut)
    } else if name == "expo_in".spec_bytes() {
        Some(EasingKind::ExpoIn)
    } else if name == "expo_out".spec_bytes() {
        Some(EasingKind::ExpoOut)
    } else if name == "expo_in_out".spec_bytes() {
        Some(EasingKind::ExpoInOut)
    } else if name == "quad_in".spec_bytes() {
        Some(EasingKind::QuadIn)
    } else if name == "quad_out".spec_bytes() {
        Some(EasingKind::QuadOut)
    } else if name == "quad_in_out".spec_bytes() {
        Some(EasingKind::QuadInOut)
    } else if name == "quart_in".spec_bytes() {
        Some(EasingKind::QuartIn)
    } else if name == "quart_out".spec_bytes() {
        Some(EasingKind::QuartOut)
    } else if name == "quart_in_out".spec_bytes() {
        Some(EasingKind::QuartInOut)
    } else if name == "quint_in".spec_bytes() {
        Some(EasingKind::QuintIn)
    } else if name == "quint_out".spec_bytes() {
        Some(EasingKind::QuintOut)
    } else if name == "quint_in_out".spec_bytes() {
        Some(EasingKind::QuintInOut)
    } else if name == "sine_in".spec_bytes() {
        Some(EasingKind::SineIn)
    } else if name == "sine_out".spec_bytes() {
        Some(EasingKind::SineOut)
    } else if name == "sine_in_out".spec_bytes() {
        Some(EasingKind::SineInOut)
    } else if name == "linear".spec_bytes() {
        Some(EasingKind::Linear)
    } else if name == "reverse".spec_bytes() {
        Some(EasingKind::Reverse)
    } else if name == "roundtrip".spec_bytes() {
        Some(EasingKind::Roundtrip)
    } else {
        None
    }
}

/// The registry's vocabulary: exactly the built-in identifiers.
pub open spec fn is_builtin_name(name: Seq<u8>) -> bool {
    name == "back_in".spec_bytes() || name == "back_out".spec_bytes() || name
        == "back_in_out".spec_bytes() || name == "bounce_in".spec_bytes() || name
        == "bounce_out".spec_bytes() || name == "bounce_in_out".spec_bytes() || name
        == "circ_in".spec_bytes() || name == "circ_out".spec_bytes() || name
        == "circ_in_out".spec_bytes() || name == "cubic_in".spec_bytes() || name
        == "cubic_out".spec_bytes() || name == "cubic_in_out".spec_bytes() || name
        == "elastic_in".spec_bytes() || name == "elastic_out".spec_bytes() || name
        == "elastic_in_out".spec_bytes() || name == "expo_in".spec_bytes() || name
        == "expo_out".spec_bytes() || name == "expo_in_out".spec_bytes() || name
        == "quad_in".spec_bytes() || name == "quad_out".spec_bytes() || name
        == "quad_in_out".spec_bytes() || name == "quart_in".spec_bytes() || name
        == "quart_out".spec_bytes() || name == "quart_in_out".spec_bytes() || name
        == "quint_in".spec_bytes() || name == "quint_out".spec_bytes() || name
        == "quint_in_out".spec_bytes() || name == "sine_in".spec_bytes() || name
        == "sine_out".spec_bytes() || name == "sine_in_out".spec_bytes() || name
        == "linear".spec_bytes() || name == "reverse".spec_bytes() || name
        == "roundtrip".spec_bytes()
}

/// A name resolves exactly when it belongs to the registry's closed
/// vocabulary: lookup never fails on a built-in name and never succeeds on
/// any other.
pub proof fn lemma_registry_closed(name: Seq<u8>)
    ensures
        easing_of_name(name) is Some <==> is_builtin_name(name),
{
}

/// A resolved curve, as a value with ordinary data semantics.
///
/// Two `Easing` values always compare equal under `==`, whichever curves
/// they wrap: a curve has no observable structure of its own here, and the
/// surrounding model deliberately ignores it when comparing. The wrapped
/// kind itself is still fully recorded and reachable.
#[derive(Clone, Copy, Debug)]
pub struct Easing {
    pub kind: EasingKind,
}

impl Default for Easing {
    /// Construction without a document falls back to the linear curve.
    fn default() -> (r: Self)
        ensures
            r.kind == EasingKind::Linear,
    {
        Easing { kind: EasingKind::Linear }
    }
}

impl PartialEq for Easing {
    /// Deliberately indifferent to the wrapped curve.
    fn eq(&self, other: &Self) -> (r: bool)
    {
        true
    }
}

impl vstd::std_specs::cmp::PartialEqSpecImpl for Easing {
    open spec fn obeys_eq_spec() -> bool {
        true
    }

    open spec fn eq_spec(&self, other: &Self) -> bool {
        true
    }
}

/// Look a case-sensitive identifier up in the registry.
///
/// Succeeds exactly on the built-in names; any other name comes back inside
/// the error, so the offending text is never lost.
pub fn resolve(name: &[u8]) -> (r: Result<Easing, ConfigError>)
    ensures
        match easing_of_name(name@) {
            Some(k) => r == Ok::<Easing, ConfigError>(Easing { kind: k }),
            None => r matches Err(e) && err_view(e) == (ErrV::UnknownEasing { name: name@ }),
        },
{
    match resolve_kind(name) {
        Some(k) => Ok(Easing { kind: k }),
        None => Err(ConfigError::UnknownEasing { name: vstd::slice::slice_to_vec(name) }),
    }
}

/// The executable registry lookup behind [`resolve`].
pub fn resolve_kind(name: &[u8]) -> (r: Option<EasingKind>)
    ensures
        r == easing_of_name(name@),
{
    if bytes_eq(name, "back_in".as_bytes()) {
        Some(EasingKind::BackIn)
    } else if bytes_eq(name, "back_out".as_bytes()) {
        Some(EasingKind::BackOut)
    } else if bytes_eq(name, "back_in_out".as_bytes()) {
        Some(EasingKind::BackInOut)
    } else if bytes_eq(name, "bounce_in".as_bytes()) {
        Some(EasingKind::BounceIn)
    } else if bytes_eq(name, "bounce_out".as_bytes()) {
        Some(EasingKind::BounceOut)
    } else if bytes_eq(name, "bounce_in_out".as_bytes()) {
        Some(EasingKind::BounceInOut)
    } else if bytes_eq(name, "circ_in".as_bytes()) {
        Some(EasingKind::CircIn)
    } else if bytes_eq(name, "circ_out".as_bytes()) {
        Some(EasingKind::CircOut)
    } else if bytes_eq(name, "circ_in_out".as_bytes()) {
        Some(EasingKind::CircInOut)
    } else if bytes_eq(name, "cubic_in".as_bytes()) {
        Some(EasingKind::CubicIn)
    } else if bytes_eq(name, "cubic_out".as_bytes()) {
        Some(EasingKind::CubicOut)
    } else if bytes_eq(name, "cubic_in_out".as_bytes()) {
        Some(EasingKind::CubicInOut)
    } else if bytes_eq(name, "elastic_in".as_bytes()) {
        Some(EasingKind::ElasticIn)
    } else if bytes_eq(name, "elastic_out".as_bytes()) {
        Some(EasingKind::ElasticOut)
    } else if bytes_eq(name, "elastic_in_out".as_bytes()) {
        Some(EasingKind::ElasticInOut)
    } else if bytes_eq(name, "expo_in".as_bytes()) {
        Some(EasingKind::ExpoIn)
    } else if bytes_eq(name, "expo_out".as_bytes()) {
        Some(EasingKind::ExpoOut)
    } else if bytes_eq(name, "expo_in_out".as_bytes()) {
        Some(EasingKind::ExpoInOut)
    } else if bytes_eq(name, "quad_in".as_bytes()) {
        Some(EasingKind::QuadIn)
    } else if bytes_eq(name, "quad_out".as_bytes()) {
        Some(EasingKind::QuadOut)
    } else if bytes_eq(name, "quad_in_out".as_bytes()) {
        Some(EasingKind::QuadInOut)
    } else if bytes_eq(name, "quart_in".as_bytes()) {
        Some(EasingKind::QuartIn)
    } else if bytes_eq(name, "quart_out".as_bytes()) {
        Some(EasingKind::QuartOut)
    } else if bytes_eq(name, "quart_in_out".as_bytes()) {
        Some(EasingKind::QuartInOut)
    } else if bytes_eq(name, "quint_in".as_bytes()) {
        Some(EasingKind::QuintIn)
    } else if bytes_eq(name, "quint_out".as_bytes()) {
        Some(EasingKind::QuintOut)
    } else if bytes_eq(name, "quint_in_out".as_bytes()) {
        Some(EasingKind::QuintInOut)
    } else if bytes_eq(name, "sine_in".as_bytes()) {
        Some(EasingKind::SineIn)
    } else if bytes_eq(name, "sine_out".as_bytes()) {
        Some(EasingKind::SineOut)
    } else if bytes_eq(name, "sine_in_out".as_bytes()) {
        Some(EasingKind::SineInOut)
    } else if bytes_eq(name, "linear".as_bytes()) {
        Some(EasingKind::Linear)
    } else if bytes_eq(name, "reverse".as_bytes()) {
        Some(EasingKind::Reverse)
    } else if bytes_eq(name, "roundtrip".as_bytes()) {
        Some(EasingKind::Roundtrip)
    } else {
        None
    }
}

} // verus!
