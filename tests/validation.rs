use page_fetch::{validate, validate_url, ValidationError};

#[test]
fn test_validate_url_valid() {
    assert!(validate_url("https://www.google.com").is_ok());
    assert!(validate_url("http://localhost:3000").is_ok());
}

#[test]
fn test_validate_url_invalid() {
    assert!(validate_url("").is_err());
    assert!(validate_url("not-a-url").is_err());
    assert!(validate_url("ftp://example.com").is_err());
}

#[test]
fn validate_reports_each_kind() {
    assert_eq!(validate(""), Err(ValidationError::Empty));
    assert_eq!(validate("ftp://example.com"), Err(ValidationError::UnsupportedScheme));
    assert_eq!(validate("not-a-url"), Err(ValidationError::UnsupportedScheme));
    assert!(matches!(validate("http://"), Err(ValidationError::Malformed(_))));
    assert!(matches!(validate("https://exa mple.com"), Err(ValidationError::Malformed(_))));
    assert_eq!(validate("https://example.com/a?b=c#d"), Ok(()));
}

#[test]
fn scheme_prefix_is_case_sensitive() {
    assert_eq!(validate("HTTP://example.com"), Err(ValidationError::UnsupportedScheme));
    assert_eq!(validate("Https://example.com"), Err(ValidationError::UnsupportedScheme));
}

#[test]
fn validate_url_messages() {
    assert_eq!(validate_url(""), Err("URL cannot be empty".to_string()));
    assert_eq!(
        validate_url("ftp://example.com"),
        Err("URL must start with http:// or https://".to_string())
    );
    let m = validate_url("http://").unwrap_err();
    assert!(m.starts_with("Invalid URL: "));
    assert!(m.len() > "Invalid URL: ".len());
}

#[test]
fn fetch_of_url_without_scheme_fails() {
    assert!(validate_url("invalid-url").is_err());
    assert_eq!(validate("invalid-url"), Err(ValidationError::UnsupportedScheme));
}
