use comtrade_rust::error::BoundaryError;

#[test]
fn invalid_shape_has_its_fixed_message() {
    assert_eq!(
        BoundaryError::InvalidInputShape.message(),
        "Invalid file combination: either a CFF file, or both a CFG and a DAT file must be provided."
    );
}

#[test]
fn parse_error_message_carries_the_cause() {
    let error = BoundaryError::ParseError("ParseError { message: \"bad\" }".to_string());
    assert_eq!(
        error.message(),
        "Error parsing COMTRADE file: ParseError { message: \"bad\" }"
    );
}

#[test]
fn abnormal_termination_prefers_its_text() {
    let error = BoundaryError::AbnormalTermination(Some("boom".to_string()));
    assert_eq!(error.message(), "boom");
}

#[test]
fn abnormal_termination_without_text_has_the_fallback_message() {
    let error = BoundaryError::AbnormalTermination(None);
    assert_eq!(
        error.message(),
        "A panic occurred while parsing the COMTRADE file. This may be due to a malformed file."
    );
}
