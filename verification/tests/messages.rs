use bril_rs::config::ExtensionConfig;
use bril_rs::conversion::{ConversionError, PositionalConversionError};
use bril_rs::program::Position;
use bril_rs::text::u64_decimal;

#[test]
fn reason_texts_name_the_exact_token() {
    assert_eq!(
        ConversionError::InvalidPrimitive("char".to_string()).message(),
        "Expected a primitive type like int or bool, found char"
    );
    assert_eq!(
        ConversionError::InvalidParameterized("vec".to_string(), "int".to_string()).message(),
        "Expected a parameterized type like ptr, found vec<int>"
    );
    assert_eq!(
        ConversionError::InvalidValueOps("xor".to_string()).message(),
        "Expected an value operation, found xor"
    );
    assert_eq!(
        ConversionError::InvalidEffectOps("halt".to_string()).message(),
        "Expected an effect operation, found halt"
    );
    assert_eq!(ConversionError::MissingType.message(), "Missing type signature");
}

#[test]
fn positioned_error_prints_line_and_column() {
    let e = ConversionError::MissingType.add_pos(Some(Position { row: 5, col: 3 }));
    assert_eq!(e.message(), "Line 5, Column 3: Missing type signature");
}

#[test]
fn unpositioned_error_prints_the_bare_reason() {
    let e = PositionalConversionError::new(ConversionError::InvalidValueOps("xor".to_string()));
    assert_eq!(e.message(), "Expected an value operation, found xor");
}

#[test]
fn multi_digit_positions_print_in_decimal() {
    let e = ConversionError::MissingType.add_pos(Some(Position { row: 120, col: 1047 }));
    assert_eq!(e.message(), "Line 120, Column 1047: Missing type signature");
}

#[test]
fn decimal_rendering_matches_the_standard_one() {
    for n in [0u64, 1, 9, 10, 99, 100, 101, 999, 1000, 65535, u64::MAX] {
        assert_eq!(u64_decimal(n), n.to_string());
    }
}

#[test]
fn minimal_configuration_has_everything_off() {
    let cfg = ExtensionConfig::minimal();
    assert!(!cfg.position && !cfg.float && !cfg.memory && !cfg.ssa && !cfg.speculate);
}
