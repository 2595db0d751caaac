use pickle_fuzzer::cli::parse_version;

#[test]
fn test_parse_version_valid() {
    assert_eq!(parse_version("0").unwrap(), 0);
    assert_eq!(parse_version("3").unwrap(), 3);
    assert_eq!(parse_version("5").unwrap(), 5);
}

#[test]
fn test_parse_version_invalid_too_high() {
    assert!(parse_version("6").is_err());
    assert!(parse_version("10").is_err());
}

#[test]
fn test_parse_version_invalid_format() {
    assert!(parse_version("abc").is_err());
    assert!(parse_version("3.5").is_err());
    assert!(parse_version("-1").is_err());
}

#[test]
fn parse_version_messages_name_the_input() {
    assert_eq!(parse_version("abc").unwrap_err(), "invalid version: abc");
    assert_eq!(parse_version("").unwrap_err(), "invalid version: ");
    assert_eq!(parse_version(" 3").unwrap_err(), "invalid version:  3");
    assert_eq!(parse_version("6").unwrap_err(), "version must be 0-5, got 6");
    assert_eq!(parse_version("0010").unwrap_err(), "version must be 0-5, got 10");
}

#[test]
fn parse_version_follows_unsigned_parsing() {
    assert_eq!(parse_version("+4").unwrap(), 4);
    assert_eq!(parse_version("005").unwrap(), 5);
    assert!(parse_version("+").is_err());
    assert!(parse_version("-0").is_err());
    assert_eq!(
        parse_version("99999999999999999999999999").unwrap_err(),
        "invalid version: 99999999999999999999999999"
    );
}
