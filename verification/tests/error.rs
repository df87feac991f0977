use identifiers::Error;

#[test]
fn error_describes_its_kind() {
    let error = Error::InvalidDoi("not a DOI".to_string());

    assert_eq!(error.description(), "invalid DOI");
}

#[test]
fn error_message_names_the_offender() {
    let error = Error::InvalidDoi("not a DOI".to_string());

    assert_eq!(error.to_string(), "not a DOI is not a valid DOI");
    assert_eq!(Error::InvalidDoi(String::new()).to_string(), " is not a valid DOI");
}

#[test]
fn errors_are_equal_when_their_offenders_are() {
    let error = Error::InvalidDoi("a".to_string());

    assert_eq!(error, Error::InvalidDoi("a".to_string()));
    assert_ne!(error, Error::InvalidDoi("b".to_string()));
    assert_eq!(error.clone(), error);
    assert_eq!(format!("{:?}", error), "InvalidDoi(\"a\")");
}
