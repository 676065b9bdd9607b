use license_exprs::validate_license_expr;

#[test]
fn single_license() {
    assert!(validate_license_expr("MIT").is_ok());
    assert!(validate_license_expr("MIT ").is_ok());
    assert!(validate_license_expr(" MIT").is_ok());
    assert!(validate_license_expr(" MIT ").is_ok());
    assert!(validate_license_expr("    MIT    ").is_ok());
    assert!(validate_license_expr("AGPL-1.0+").is_ok());
    assert!(validate_license_expr("BlueOak-1.0.0").is_ok());
    assert!(validate_license_expr("Parity-6.0.0").is_ok());
}

#[test]
fn compound_license() {
    assert!(validate_license_expr("GPL-3.0+ WITH Classpath-exception-2.0 OR MIT AND AAL").is_ok());
    assert!(validate_license_expr("MIT AND Apache-2.0").is_ok());
    assert!(validate_license_expr("MIT OR Apache-2.0").is_ok());
    assert!(validate_license_expr("GPL-3.0+ WITH Classpath-exception-2.0").is_ok());
    assert!(validate_license_expr("MIT   AND    Apache-2.0").is_ok());
}

#[test]
fn fails_invalid_license() {
    assert!(validate_license_expr("asdfghjkl").is_err());
    assert!(validate_license_expr("MIT AND qwerty").is_err());
}

#[test]
fn fails_incorrect_structure() {
    assert!(validate_license_expr("()").is_err());
    assert!(validate_license_expr("(MIT").is_err());
    assert!(validate_license_expr("MIT)").is_err());
    assert!(validate_license_expr("MIT Apache-2.0").is_err());
    assert!(validate_license_expr("MIT and Apache-2.0").is_err());
    assert!(validate_license_expr("MIT or Apache-2.0").is_err());
    assert!(validate_license_expr("GPL-3.0+ with Classpath-exception-2.0").is_err());
    assert!(validate_license_expr("MIT (MIT AND MIT)").is_err());
    assert!(validate_license_expr("(MIT AND MIT) MIT").is_err());
    assert!(validate_license_expr("and Apache-2.0").is_err());
    assert!(validate_license_expr("(MIT and Apache-2.0 and  )").is_err());
    assert!(validate_license_expr("MIT xor Apache-2.0").is_err());
    assert!(validate_license_expr("WITH").is_err());
    assert!(validate_license_expr("MIT OR WITH").is_err());
    assert!(validate_license_expr("MIT AND Classpath-exception-2.0").is_err());
    assert!(validate_license_expr("Classpath-exception-2.0 WITH MIT").is_err());
    assert!(validate_license_expr("Classpath-exception-2.0").is_err());
    assert!(validate_license_expr("AGPL-1.0 +").is_err());
}
