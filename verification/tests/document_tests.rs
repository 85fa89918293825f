use gradient_config::easing::{Easing, EasingKind};
use gradient_config::error::ConfigError;
use gradient_config::load_configuration;
use gradient_config::model::{
    Adjustment, Configuration, Interpolation, Number, Point, Position, Rgba, Step,
};

fn whole(neg: bool, magnitude: u64) -> Number {
    Number::from_int(neg, magnitude)
}

#[test]
fn deserialize() {
    let text = r#"
            adjustment = 'stretch'
            speed = 1

            [[point]]
            delay = 0
            interpolation = 'spline'
            steps = [
                { position = { x = -1, y = 1 }, color = 'red', duration = 1, easing = 'linear' },
            ]
            "#;
    let configuration_1 = load_configuration(text.as_bytes()).unwrap();

    let configuration_2 = Configuration {
        adjustment: Adjustment::Stretch,
        speed: whole(false, 1),
        points: vec![Point {
            delay: whole(false, 0),
            interpolation: Interpolation::Spline,
            steps: vec![Step {
                position: Position {
                    x: whole(true, 1),
                    y: whole(false, 1),
                },
                color: Rgba {
                    r: 255,
                    g: 0,
                    b: 0,
                    a: 255,
                },
                duration: whole(false, 1),
                easing: Easing::default(),
            }],
        }],
    };

    assert_eq!(configuration_1, configuration_2);
}

#[test]
fn parsed_fields_are_recorded_exactly() {
    let text = "adjustment = 'fit'\nspeed = -2.50\n\n[[point]]\ndelay = 0.25\ninterpolation = 'linear'\nsteps = [{ position = { x = 0, y = 0 }, color = '#102030', duration = 3, easing = 'bounce_in_out' }]\n";
    let configuration = load_configuration(text.as_bytes()).unwrap();
    assert_eq!(configuration.adjustment, Adjustment::Fit);
    assert_eq!(
        configuration.speed,
        Number {
            neg: true,
            mantissa: 250,
            scale: 2
        }
    );
    assert_eq!(configuration.points.len(), 1);
    let point = &configuration.points[0];
    assert_eq!(
        point.delay,
        Number {
            neg: false,
            mantissa: 25,
            scale: 2
        }
    );
    assert_eq!(point.interpolation, Interpolation::Linear);
    assert_eq!(point.steps.len(), 1);
    let step = &point.steps[0];
    assert_eq!(
        step.color,
        Rgba {
            r: 16,
            g: 32,
            b: 48,
            a: 255
        }
    );
    assert_eq!(step.easing.kind, EasingKind::BounceInOut);
}

#[test]
fn missing_adjustment_is_a_schema_error() {
    let text = "speed = 1\n";
    match load_configuration(text.as_bytes()) {
        Err(ConfigError::Schema { path, .. }) => {
            assert_eq!(path, b"adjustment".to_vec());
        }
        other => panic!("expected a schema error, got {:?}", other),
    }
}

#[test]
fn unknown_adjustment_is_reported_with_its_tag() {
    let text = "adjustment = 'rotate'\nspeed = 1\n";
    match load_configuration(text.as_bytes()) {
        Err(ConfigError::UnknownAdjustment { tag }) => {
            assert_eq!(tag, b"rotate".to_vec());
        }
        other => panic!("expected an unknown-adjustment error, got {:?}", other),
    }
}

#[test]
fn adjustment_tags_match_case_insensitively() {
    let text = "adjustment = 'STRETCH'\nspeed = 1\n";
    let configuration = load_configuration(text.as_bytes()).unwrap();
    assert_eq!(configuration.adjustment, Adjustment::Stretch);
    assert!(configuration.points.is_empty());
}

#[test]
fn unknown_interpolation_is_reported_with_its_tag() {
    let text = "adjustment = 'fit'\nspeed = 1\n[[point]]\ndelay = 0\ninterpolation = 'zigzag'\nsteps = [{ position = { x = 0, y = 0 }, color = 'red', duration = 1, easing = 'linear' }]\n";
    match load_configuration(text.as_bytes()) {
        Err(ConfigError::UnknownInterpolation { tag }) => {
            assert_eq!(tag, b"zigzag".to_vec());
        }
        other => panic!("expected an unknown-interpolation error, got {:?}", other),
    }
}

#[test]
fn unknown_easing_in_a_document_is_reported_with_its_name() {
    let text = "adjustment = 'fit'\nspeed = 1\n[[point]]\ndelay = 0\ninterpolation = 'linear'\nsteps = [{ position = { x = 0, y = 0 }, color = 'red', duration = 1, easing = 'wobble' }]\n";
    match load_configuration(text.as_bytes()) {
        Err(ConfigError::UnknownEasing { name }) => {
            assert_eq!(name, b"wobble".to_vec());
        }
        other => panic!("expected an unknown-easing error, got {:?}", other),
    }
}

#[test]
fn empty_steps_are_rejected() {
    let text = "adjustment = 'fit'\nspeed = 1\n[[point]]\ndelay = 0\ninterpolation = 'linear'\nsteps = []\n";
    match load_configuration(text.as_bytes()) {
        Err(ConfigError::Schema { path, reason }) => {
            assert_eq!(path, b"point.steps".to_vec());
            assert_eq!(reason, b"must not be empty".to_vec());
        }
        other => panic!("expected a schema error, got {:?}", other),
    }
}

#[test]
fn missing_speed_is_a_schema_error() {
    let text = "adjustment = 'fit'\n";
    match load_configuration(text.as_bytes()) {
        Err(ConfigError::Schema { path, .. }) => {
            assert_eq!(path, b"speed".to_vec());
        }
        other => panic!("expected a schema error, got {:?}", other),
    }
}

#[test]
fn speed_must_be_a_number() {
    let text = "adjustment = 'fit'\nspeed = 'fast'\n";
    match load_configuration(text.as_bytes()) {
        Err(ConfigError::Schema { path, reason }) => {
            assert_eq!(path, b"speed".to_vec());
            assert_eq!(reason, b"expected a number".to_vec());
        }
        other => panic!("expected a schema error, got {:?}", other),
    }
}

#[test]
fn malformed_text_is_a_syntax_error() {
    for text in [
        "adjustment = \n",
        "adjustment 'fit'\n",
        "= 1\n",
        "[[point]\n",
        "speed = 1 2\n",
        "speed = 'unterminated\n",
        "speed = 12345678901234567890\n",
    ] {
        match load_configuration(text.as_bytes()) {
            Err(ConfigError::Syntax) => {}
            other => panic!("expected a syntax error for {:?}, got {:?}", text, other),
        }
    }
}

#[test]
fn comments_and_blank_lines_are_ignored() {
    let text = "# a gradient\n\nadjustment = 'zoom'   # fill the screen\n\nspeed = 2\n";
    let configuration = load_configuration(text.as_bytes()).unwrap();
    assert_eq!(configuration.adjustment, Adjustment::Zoom);
    assert_eq!(configuration.speed, whole(false, 2));
}

#[test]
fn steps_differing_only_in_easing_compare_equal() {
    let step = Step {
        position: Position {
            x: whole(false, 1),
            y: whole(false, 2),
        },
        color: Rgba {
            r: 1,
            g: 2,
            b: 3,
            a: 4,
        },
        duration: whole(false, 5),
        easing: Easing {
            kind: EasingKind::ElasticIn,
        },
    };
    let other = Step {
        easing: Easing {
            kind: EasingKind::QuartOut,
        },
        ..step
    };
    assert_eq!(step, other);
}

#[test]
fn configurations_differing_only_in_easing_compare_equal() {
    let with = |easing: &str| -> Configuration {
        let text = format!(
            "adjustment = 'fit'\nspeed = 1\n[[point]]\ndelay = 0\ninterpolation = 'linear'\nsteps = [{{ position = {{ x = 0, y = 0 }}, color = 'red', duration = 1, easing = '{}' }}]\n",
            easing
        );
        load_configuration(text.as_bytes()).unwrap()
    };
    let a = with("elastic_in");
    let b = with("quart_out");
    assert_eq!(a.points[0].steps[0].easing.kind, EasingKind::ElasticIn);
    assert_eq!(b.points[0].steps[0].easing.kind, EasingKind::QuartOut);
    assert_eq!(a, b);
}

#[test]
fn unknown_keys_and_blocks_are_passed_over() {
    let text = "title = 'sunrise'\nadjustment = 'fit'\nspeed = 1\n[[decoration]]\nkind = 'border'\n[[point]]\ndelay = 0\ninterpolation = 'spline'\nsteps = [{ position = { x = 0, y = 0 }, color = 'red', duration = 1, easing = 'linear' }]\n";
    let configuration = load_configuration(text.as_bytes()).unwrap();
    assert_eq!(configuration.points.len(), 1);
}

#[test]
fn multiple_points_stay_in_order() {
    let text = "adjustment = 'fit'\nspeed = 1\n[[point]]\ndelay = 1\ninterpolation = 'linear'\nsteps = [{ position = { x = 0, y = 0 }, color = 'red', duration = 1, easing = 'linear' }]\n[[point]]\ndelay = 2\ninterpolation = 'spline'\nsteps = [{ position = { x = 1, y = 1 }, color = 'blue', duration = 2, easing = 'sine_in' }]\n";
    let configuration = load_configuration(text.as_bytes()).unwrap();
    assert_eq!(configuration.points.len(), 2);
    assert_eq!(configuration.points[0].delay, whole(false, 1));
    assert_eq!(configuration.points[1].delay, whole(false, 2));
    assert_eq!(configuration.points[1].interpolation, Interpolation::Spline);
}
