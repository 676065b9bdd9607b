use license_exprs::registry::{is_exception_id, is_license_id, str_equal, version};
use license_exprs::split::tokenize;
use license_exprs::{
    classify, license_version, next_state, validate_license_expr, LicenseExpr, ParseError, State,
};

#[test]
fn every_registered_license_validates_alone() {
    let licenses = [
        "AAL",
        "AGPL-1.0",
        "AGPL-1.0+",
        "AGPL-3.0",
        "Apache-1.1",
        "Apache-2.0",
        "BSD-2-Clause",
        "BSD-3-Clause",
        "BlueOak-1.0.0",
        "CC0-1.0",
        "GPL-2.0",
        "GPL-2.0+",
        "GPL-3.0",
        "GPL-3.0+",
        "ISC",
        "LGPL-2.1",
        "LGPL-2.1+",
        "LGPL-3.0",
        "LGPL-3.0+",
        "MIT",
        "MPL-2.0",
        "Parity-6.0.0",
        "Unlicense",
        "Zlib",
    ];
    for l in licenses {
        assert!(is_license_id(l));
        assert!(validate_license_expr(l).is_ok());
        let anded = format!("{} AND {}", l, l);
        let ored = format!("{} OR {}", l, l);
        assert!(validate_license_expr(&anded).is_ok());
        assert!(validate_license_expr(&ored).is_ok());
    }
}

#[test]
fn with_clause_requires_exception_id() {
    assert!(validate_license_expr("GPL-2.0+ WITH Bison-exception-2.2").is_ok());
    assert!(validate_license_expr("MIT WITH LLVM-exception").is_ok());
    // A license identifier after WITH is a structure error carrying it.
    assert!(matches!(
        validate_license_expr("MIT WITH Apache-2.0"),
        Err(ParseError::InvalidStructure(LicenseExpr::License(w))) if w == "Apache-2.0"
    ));
    // An unregistered word after WITH is unknown.
    assert!(matches!(
        validate_license_expr("MIT WITH Frobnicate-exception-1.0"),
        Err(ParseError::UnknownIdentifier(w)) if w == "Frobnicate-exception-1.0"
    ));
}

#[test]
fn exception_alone_is_a_structure_error() {
    assert!(matches!(
        validate_license_expr("Classpath-exception-2.0"),
        Err(ParseError::InvalidStructure(LicenseExpr::Exception(w)))
            if w == "Classpath-exception-2.0"
    ));
    assert!(is_exception_id("Classpath-exception-2.0"));
    assert!(!is_license_id("Classpath-exception-2.0"));
}

#[test]
fn unknown_word_is_reported_verbatim() {
    assert!(matches!(
        validate_license_expr("asdfghjkl"),
        Err(ParseError::UnknownIdentifier(w)) if w == "asdfghjkl"
    ));
    assert!(matches!(
        validate_license_expr("MIT AND qwerty OR GPL-3.0"),
        Err(ParseError::UnknownIdentifier(w)) if w == "qwerty"
    ));
    assert!(matches!(
        validate_license_expr("(MIT AND MIT)"),
        Err(ParseError::UnknownIdentifier(w)) if w == "(MIT"
    ));
    assert!(matches!(
        validate_license_expr("MIT)"),
        Err(ParseError::UnknownIdentifier(w)) if w == "MIT)"
    ));
}

#[test]
fn lowercase_keywords_are_not_operators() {
    assert!(matches!(
        validate_license_expr("MIT and Apache-2.0"),
        Err(ParseError::UnknownIdentifier(w)) if w == "and"
    ));
    assert!(matches!(
        validate_license_expr("MIT or Apache-2.0"),
        Err(ParseError::UnknownIdentifier(w)) if w == "or"
    ));
    assert!(matches!(
        validate_license_expr("GPL-3.0+ with Classpath-exception-2.0"),
        Err(ParseError::UnknownIdentifier(w)) if w == "with"
    ));
}

#[test]
fn whitespace_never_changes_the_verdict() {
    assert!(validate_license_expr("\t MIT \n AND \r Apache-2.0 \t").is_ok());
    assert!(validate_license_expr("MIT\nAND\nApache-2.0").is_ok());
    assert!(matches!(
        validate_license_expr("  Classpath-exception-2.0  "),
        Err(ParseError::InvalidStructure(_))
    ));
}

#[test]
fn permissive_edges_are_accepted() {
    // The grammar check is pairwise only: an empty expression and a
    // trailing operator pass, as they always have.
    assert!(validate_license_expr("").is_ok());
    assert!(validate_license_expr("   \t\n").is_ok());
    assert!(validate_license_expr("MIT AND").is_ok());
    assert!(validate_license_expr("MIT WITH").is_ok());
}

#[test]
fn structure_error_carries_the_rejecting_token() {
    assert!(matches!(
        validate_license_expr("MIT OR WITH"),
        Err(ParseError::InvalidStructure(LicenseExpr::With))
    ));
    assert!(matches!(
        validate_license_expr("WITH"),
        Err(ParseError::InvalidStructure(LicenseExpr::With))
    ));
    assert!(matches!(
        validate_license_expr("MIT Apache-2.0"),
        Err(ParseError::InvalidStructure(LicenseExpr::License(w))) if w == "Apache-2.0"
    ));
    assert!(matches!(
        validate_license_expr("MIT AND Classpath-exception-2.0"),
        Err(ParseError::InvalidStructure(LicenseExpr::Exception(w)))
            if w == "Classpath-exception-2.0"
    ));
}

#[test]
fn tokenizer_splits_on_whitespace_runs() {
    let words = tokenize("  GPL-3.0+ \t WITH\nClasspath-exception-2.0  ");
    assert_eq!(words.len(), 3);
    assert_eq!(words[0], "GPL-3.0+");
    assert_eq!(words[1], "WITH");
    assert_eq!(words[2], "Classpath-exception-2.0");
    assert_eq!(tokenize("").len(), 0);
    assert_eq!(tokenize(" \t\r\n ").len(), 0);
}

#[test]
fn classifier_is_case_sensitive_and_exact() {
    assert!(matches!(classify(String::from("AND")), Ok(LicenseExpr::And)));
    assert!(matches!(classify(String::from("OR")), Ok(LicenseExpr::Or)));
    assert!(matches!(classify(String::from("WITH")), Ok(LicenseExpr::With)));
    assert!(matches!(
        classify(String::from("MIT")),
        Ok(LicenseExpr::License(w)) if w == "MIT"
    ));
    assert!(matches!(
        classify(String::from("LLVM-exception")),
        Ok(LicenseExpr::Exception(w)) if w == "LLVM-exception"
    ));
    assert!(matches!(
        classify(String::from("mit")),
        Err(ParseError::UnknownIdentifier(w)) if w == "mit"
    ));
    // The registry matches exactly: a trailing + is part of the identifier.
    assert!(is_license_id("GPL-3.0+"));
    assert!(!is_license_id("GPL-3.0++"));
    assert!(!is_license_id(" MIT"));
    assert!(str_equal("MIT", "MIT"));
    assert!(!str_equal("MIT", "MIt"));
}

#[test]
fn grammar_transitions_follow_the_table() {
    let lic = LicenseExpr::License(String::from("MIT"));
    let exc = LicenseExpr::Exception(String::from("LLVM-exception"));
    assert!(next_state(State::Start, &lic).is_some());
    assert!(next_state(State::Start, &exc).is_none());
    assert!(next_state(State::Start, &LicenseExpr::And).is_none());
    assert!(next_state(State::AfterLicense, &LicenseExpr::With).is_some());
    assert!(next_state(State::AfterLicense, &lic).is_none());
    assert!(next_state(State::AfterException, &LicenseExpr::Or).is_some());
    assert!(next_state(State::AfterException, &LicenseExpr::With).is_none());
    assert!(next_state(State::AfterAnd, &lic).is_some());
    assert!(next_state(State::AfterAnd, &exc).is_none());
    assert!(next_state(State::AfterOr, &lic).is_some());
    assert!(next_state(State::AfterWith, &exc).is_some());
    assert!(next_state(State::AfterWith, &lic).is_none());
}

#[test]
fn errors_render_with_description_and_word() {
    let unknown = validate_license_expr("asdfghjkl").unwrap_err();
    assert_eq!(unknown.description(), "unknown license or other term");
    assert_eq!(unknown.message(), "unknown license or other term: asdfghjkl");
    let invalid = validate_license_expr("Classpath-exception-2.0").unwrap_err();
    assert_eq!(invalid.description(), "invalid license expression");
    assert_eq!(invalid.message(), "invalid license expression: Classpath-exception-2.0");
    let dangling = validate_license_expr("MIT OR WITH").unwrap_err();
    assert_eq!(dangling.message(), "invalid license expression: WITH");
    assert_eq!(LicenseExpr::And.text(), "AND");
    assert_eq!(LicenseExpr::Or.text(), "OR");
    assert_eq!(LicenseExpr::With.text(), "WITH");
    assert_eq!(LicenseExpr::License(String::from("Zlib")).text(), "Zlib");
}

#[test]
fn version_tag_is_passed_through() {
    assert_eq!(license_version(), version());
    assert_eq!(license_version(), "3.6");
}
