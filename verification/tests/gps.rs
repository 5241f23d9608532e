use photo_ingest::gps::{
    axis_to_degrees, dms_to_degrees, extract_location, SignedDegrees, UnsignedRational,
};

fn rational(num: u32, den: u32) -> UnsignedRational {
    UnsignedRational { num, den }
}

fn value_of(degrees: SignedDegrees) -> f64 {
    let magnitude = degrees.num as f64 / degrees.den as f64;
    if degrees.negative {
        -magnitude
    } else {
        magnitude
    }
}

/// The latitude 43 deg 28 min 2.81 sec.
fn sample_axis() -> Vec<UnsignedRational> {
    vec![rational(43, 1), rational(28, 1), rational(281, 100)]
}

#[test]
fn north_latitude_is_positive() {
    let degrees = dms_to_degrees(rational(43, 1), rational(28, 1), rational(281, 100), false);
    assert!(!degrees.negative);
    assert_eq!(degrees.num, 43 * 100 * 3600 + 28 * 100 * 60 + 281);
    assert_eq!(degrees.den, 100 * 3600);
    let value = value_of(degrees);
    assert!((value - 43.467447222222224).abs() < 1e-12);
    assert!((value - (43.0 + 28.0 / 60.0 + 2.81 / 3600.0)).abs() < 1e-12);
}

#[test]
fn south_latitude_negates_the_same_magnitude() {
    let north = dms_to_degrees(rational(43, 1), rational(28, 1), rational(281, 100), false);
    let south = dms_to_degrees(rational(43, 1), rational(28, 1), rational(281, 100), true);
    assert!(south.negative);
    assert_eq!(north.num, south.num);
    assert_eq!(north.den, south.den);
    assert_eq!(value_of(south), -value_of(north));
}

#[test]
fn axis_needs_three_components() {
    assert!(axis_to_degrees(&vec![rational(43, 1), rational(28, 1)], false).is_none());
    assert!(axis_to_degrees(&Vec::new(), false).is_none());
    assert!(axis_to_degrees(&sample_axis(), false).is_some());
}

#[test]
fn axis_refuses_a_zero_denominator() {
    assert!(
        axis_to_degrees(&vec![rational(43, 0), rational(28, 1), rational(281, 100)], false)
            .is_none()
    );
}

#[test]
fn location_needs_both_axes() {
    let location = extract_location(
        &Some(sample_axis()),
        &Some(String::from("N")),
        &None,
        &None,
    );
    assert!(location.is_none());
}

#[test]
fn location_needs_the_references() {
    let location = extract_location(&Some(sample_axis()), &None, &Some(sample_axis()), &None);
    assert!(location.is_none());
}

#[test]
fn location_combines_and_signs_both_axes() {
    let location = extract_location(
        &Some(sample_axis()),
        &Some(String::from("S")),
        &Some(vec![rational(11, 1), rational(53, 1), rational(646, 100)]),
        &Some(String::from("E")),
    )
    .unwrap();
    assert!(location.latitude.negative);
    assert!(!location.longitude.negative);
    assert!((value_of(location.latitude) + 43.467447222222224).abs() < 1e-12);
    assert!((value_of(location.longitude) - (11.0 + 53.0 / 60.0 + 6.46 / 3600.0)).abs() < 1e-12);
}

#[test]
fn west_reference_negates_the_longitude() {
    let location = extract_location(
        &Some(sample_axis()),
        &Some(String::from("N")),
        &Some(sample_axis()),
        &Some(String::from("W")),
    )
    .unwrap();
    assert!(!location.latitude.negative);
    assert!(location.longitude.negative);
}

#[test]
fn an_unparsable_axis_discards_the_whole_location() {
    let location = extract_location(
        &Some(sample_axis()),
        &Some(String::from("N")),
        &Some(vec![rational(11, 1)]),
        &Some(String::from("E")),
    );
    assert!(location.is_none());
}
