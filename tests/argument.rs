use skippy::{Argument, IntoArgument, Scientific};

fn sci(negative: bool, digits: u64, exponent: isize) -> Scientific {
    Scientific { negative, digits, exponent }
}

#[test]
fn str() {
    let a = Argument::Str("HELlo");
    assert_eq!(a.encode(false), "\"HELlo\"");
    assert_eq!(a.encode(true), "\"HELlo\"");
    assert_eq!(a, "HELlo".into_argument());
}

#[test]
fn discrete() {
    assert_eq!(Argument::Discrete("HELlo").encode(false), "HEL");
    assert_eq!(Argument::Discrete("HELlo").encode(true), "HELlo");
}

#[test]
fn int_arguments() {
    assert_eq!(Argument::Int(42).encode(false), "42");
    assert_eq!(Argument::Int(-42).encode(false), "-42");
    assert_eq!(Argument::Int(42), 42.into_argument());
    assert_eq!(Argument::Int(-42), (-42).into_argument());
}

#[test]
fn float() {
    assert_eq!(Argument::Float(sci(false, 42, 0)).encode(false), "4.2E0");
    assert_eq!(Argument::Float(sci(true, 42, 0)).encode(false), "-4.2E0");
    assert_eq!(Argument::Float(sci(false, 42, 99)).encode(false), "4.2E99");
    assert_eq!(format!("{:E}", 4.2), Argument::Float(sci(false, 42, 0)).encode(false));
    assert_eq!(format!("{:E}", -4.2), Argument::Float(sci(true, 42, 0)).encode(false));
}

#[test]
fn empty_macro() {
    let arguments: Vec<Argument> = Vec::new();
    assert!(arguments.is_empty());
}

#[test]
fn float_forms_match_scientific_notation() {
    assert_eq!(Argument::Float(sci(false, 1, 2)).encode(false), format!("{:E}", 100.0));
    assert_eq!(Argument::Float(sci(false, 0, 0)).encode(false), format!("{:E}", 0.0));
    assert_eq!(Argument::Float(sci(false, 125, -3)).encode(false), format!("{:E}", 0.00125));
    assert_eq!(Argument::Float(sci(false, 4200, 0)).encode(false), "4.2E0");
    assert_eq!(Argument::Float(sci(false, 7, 0)).encode(true), "7E0");
}

#[test]
fn units_follow_the_number() {
    assert_eq!(Argument::IntUnit(10, "MHZ").encode(false), "10MHZ");
    assert_eq!(Argument::IntUnit(-3, "V").encode(true), "-3V");
    assert_eq!(Argument::FloatUnit(sci(false, 25, -1), "V").encode(false), "2.5E-1V");
}

#[test]
fn bool_is_one_or_zero() {
    assert_eq!(Argument::Bool(true).encode(false), "1");
    assert_eq!(Argument::Bool(false).encode(true), "0");
    assert_eq!(Argument::Bool(true), true.into_argument());
}

#[test]
fn int_extremes() {
    assert_eq!(Argument::Int(0).encode(false), "0");
    assert_eq!(Argument::Int(isize::MIN).encode(false), isize::MIN.to_string());
    assert_eq!(Argument::Int(isize::MAX).encode(false), isize::MAX.to_string());
    assert_eq!(Argument::Int(7), 7u8.into_argument());
    assert_eq!(Argument::Int(-7), (-7i16).into_argument());
}

#[test]
fn text_is_quoted_verbatim() {
    assert_eq!(Argument::Str("").encode(false), "\"\"");
    assert_eq!(Argument::Str("a\"b").encode(false), "\"a\"b\"");
}
