use gradient_config::easing::{resolve, resolve_kind, Easing, EasingKind};
use gradient_config::error::ConfigError;

const NAMES: [&str; 33] = [
    "back_in",
    "back_out",
    "back_in_out",
    "bounce_in",
    "bounce_out",
    "bounce_in_out",
    "circ_in",
    "circ_out",
    "circ_in_out",
    "cubic_in",
    "cubic_out",
    "cubic_in_out",
    "elastic_in",
    "elastic_out",
    "elastic_in_out",
    "expo_in",
    "expo_out",
    "expo_in_out",
    "quad_in",
    "quad_out",
    "quad_in_out",
    "quart_in",
    "quart_out",
    "quart_in_out",
    "quint_in",
    "quint_out",
    "quint_in_out",
    "sine_in",
    "sine_out",
    "sine_in_out",
    "linear",
    "reverse",
    "roundtrip",
];

const CURVES: [fn(f32) -> f32; 33] = [
    simple_easing::back_in,
    simple_easing::back_out,
    simple_easing::back_in_out,
    simple_easing::bounce_in,
    simple_easing::bounce_out,
    simple_easing::bounce_in_out,
    simple_easing::circ_in,
    simple_easing::circ_out,
    simple_easing::circ_in_out,
    simple_easing::cubic_in,
    simple_easing::cubic_out,
    simple_easing::cubic_in_out,
    simple_easing::elastic_in,
    simple_easing::elastic_out,
    simple_easing::elastic_in_out,
    simple_easing::expo_in,
    simple_easing::expo_out,
    simple_easing::expo_in_out,
    simple_easing::quad_in,
    simple_easing::quad_out,
    simple_easing::quad_in_out,
    simple_easing::quart_in,
    simple_easing::quart_out,
    simple_easing::quart_in_out,
    simple_easing::quint_in,
    simple_easing::quint_out,
    simple_easing::quint_in_out,
    simple_easing::sine_in,
    simple_easing::sine_out,
    simple_easing::sine_in_out,
    simple_easing::linear,
    simple_easing::reverse,
    simple_easing::roundtrip,
];

#[test]
fn every_builtin_name_resolves() {
    for name in NAMES {
        let resolved = resolve(name.as_bytes());
        assert!(resolved.is_ok(), "{} should resolve", name);
    }
}

#[test]
fn resolved_curves_are_deterministic() {
    for curve in CURVES {
        for t in [0.0f32, 0.25, 0.5, 0.75, 1.0] {
            assert_eq!(curve(t), curve(t));
        }
    }
}

#[test]
fn resolve_picks_the_named_curve() {
    assert_eq!(resolve_kind(b"linear"), Some(EasingKind::Linear));
    assert_eq!(resolve_kind(b"back_in_out"), Some(EasingKind::BackInOut));
    assert_eq!(resolve_kind(b"roundtrip"), Some(EasingKind::Roundtrip));
    assert_eq!(resolve_kind(b"sine_out"), Some(EasingKind::SineOut));
    assert_eq!(resolve_kind(b"LINEAR"), None);
    assert_eq!(resolve_kind(b""), None);
}

#[test]
fn unknown_name_is_embedded_in_the_error() {
    match resolve(b"not_a_real_easing") {
        Err(ConfigError::UnknownEasing { name }) => {
            assert_eq!(name, b"not_a_real_easing".to_vec());
        }
        other => panic!("expected an unknown-easing error, got {:?}", other),
    }
}

#[test]
fn default_easing_is_linear() {
    assert_eq!(Easing::default().kind, EasingKind::Linear);
}

#[test]
fn easing_values_always_compare_equal() {
    let a = Easing { kind: EasingKind::BounceIn };
    let b = Easing { kind: EasingKind::Linear };
    assert_eq!(a, b);
}
