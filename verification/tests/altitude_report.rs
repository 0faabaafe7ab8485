use drone_scene::report::{altitude_line, altitude_report};

#[test]
fn one_line_has_prefix_and_value() {
    assert_eq!(altitude_line("3.25"), "Ball altitude: 3.25");
}

#[test]
fn negative_and_zero_values_pass_through() {
    assert_eq!(altitude_line("-0.5"), "Ball altitude: -0.5");
    assert_eq!(altitude_line("0"), "Ball altitude: 0");
}

#[test]
fn report_is_empty_without_bodies() {
    let lines = altitude_report(&Vec::new());
    assert!(lines.is_empty());
}

#[test]
fn report_has_one_line_per_body_in_order() {
    let ys = vec!["5".to_string(), "4.98".to_string(), "4.9".to_string()];
    let lines = altitude_report(&ys);
    assert_eq!(
        lines,
        vec![
            "Ball altitude: 5".to_string(),
            "Ball altitude: 4.98".to_string(),
            "Ball altitude: 4.9".to_string(),
        ]
    );
}

#[test]
fn report_nonempty_once_a_body_exists() {
    let lines = altitude_report(&vec!["1.0".to_string()]);
    assert!(!lines.is_empty());
}
