use gradient_config::color::parse_color;
use gradient_config::load_configuration;
use gradient_config::model::Rgba;

#[test]
fn named_and_hex_red_normalize_to_the_same_value() {
    let named = parse_color(b"red");
    let hex = parse_color(b"#ff0000");
    assert_eq!(named, hex);
    assert_eq!(
        named,
        Some(Rgba {
            r: 255,
            g: 0,
            b: 0,
            a: 255
        })
    );
}

#[test]
fn color_literals_normalize_through_a_document_too() {
    let with = |color: &str| -> Rgba {
        let text = format!(
            "adjustment = 'fit'\nspeed = 1\n[[point]]\ndelay = 0\ninterpolation = 'linear'\nsteps = [{{ position = {{ x = 0, y = 0 }}, color = '{}', duration = 1, easing = 'linear' }}]\n",
            color
        );
        load_configuration(text.as_bytes()).unwrap().points[0].steps[0].color
    };
    assert_eq!(with("red"), with("#ff0000"));
    assert_eq!(with("rgb(255 0 0)"), with("red"));
}

#[test]
fn channels_come_back_in_rgba_order() {
    assert_eq!(
        parse_color(b"#102030"),
        Some(Rgba {
            r: 16,
            g: 32,
            b: 48,
            a: 255
        })
    );
    assert_eq!(
        parse_color(b"#10203040"),
        Some(Rgba {
            r: 16,
            g: 32,
            b: 48,
            a: 64
        })
    );
}

#[test]
fn an_unrecognized_literal_is_rejected() {
    assert_eq!(parse_color(b"not a color"), None);
    let text = "adjustment = 'fit'\nspeed = 1\n[[point]]\ndelay = 0\ninterpolation = 'linear'\nsteps = [{ position = { x = 0, y = 0 }, color = 'mauve-ish', duration = 1, easing = 'linear' }]\n";
    match load_configuration(text.as_bytes()) {
        Err(gradient_config::error::ConfigError::Schema { path, reason }) => {
            assert_eq!(path, b"point.steps.color".to_vec());
            assert_eq!(reason, b"unrecognized color literal".to_vec());
        }
        other => panic!("expected a schema error, got {:?}", other),
    }
}
