use ambient_light::{AmbientLight, Color, Scalar};

fn scalar(number: f32) -> Scalar {
    Scalar::from_bits(number.to_bits())
}

fn color(red: f32, green: f32, blue: f32, alpha: f32) -> Color {
    Color { red: scalar(red), green: scalar(green), blue: scalar(blue), alpha: scalar(alpha) }
}

#[test]
fn duplicate_has_the_fields_of_its_source() {
    let source = AmbientLight { color: color(0.25, 0.5, 0.75, 1.0), brightness: scalar(1234.5) };
    let copy = source.clone();
    assert_eq!(copy.color, source.color);
    assert_eq!(copy.brightness, source.brightness);
    assert_eq!(copy, source);
    assert_eq!(AmbientLight::default().clone(), AmbientLight::default());
    assert_eq!(AmbientLight::none().clone(), AmbientLight::none());
}

#[test]
fn change_to_the_duplicate_leaves_the_source() {
    let source = AmbientLight { color: color(0.25, 0.5, 0.75, 1.0), brightness: scalar(10.0) };
    let mut copy = source.clone();
    copy.brightness = scalar(20.0);
    copy.color.red = scalar(1.0);
    assert_eq!(source.brightness, scalar(10.0));
    assert_eq!(source.color, color(0.25, 0.5, 0.75, 1.0));
    assert_eq!(copy.brightness, scalar(20.0));
    assert_eq!(copy.color, color(1.0, 0.5, 0.75, 1.0));
    assert_ne!(copy, source);
}

#[test]
fn change_to_the_source_leaves_the_duplicate() {
    let mut source = AmbientLight { color: color(0.25, 0.5, 0.75, 1.0), brightness: scalar(10.0) };
    let copy = source.clone();
    source.brightness = scalar(0.0);
    source.color = Color::white();
    assert_eq!(copy.brightness, scalar(10.0));
    assert_eq!(copy.color, color(0.25, 0.5, 0.75, 1.0));
    assert_eq!(source, AmbientLight::none());
}

#[test]
fn lights_are_equal_when_both_fields_are() {
    let light = AmbientLight { color: color(0.1, 0.2, 0.3, 0.4), brightness: scalar(5.0) };
    assert_eq!(light, AmbientLight { color: color(0.1, 0.2, 0.3, 0.4), brightness: scalar(5.0) });
    assert_ne!(light, AmbientLight { color: color(0.1, 0.2, 0.3, 0.4), brightness: scalar(6.0) });
    assert_ne!(light, AmbientLight { color: color(0.1, 0.2, 0.3, 0.5), brightness: scalar(5.0) });
}

#[test]
fn debug_output_names_the_fields() {
    let text = format!("{:?}", AmbientLight::none());
    assert!(text.contains("AmbientLight"));
    assert!(text.contains("color"));
    assert!(text.contains("brightness"));
}
