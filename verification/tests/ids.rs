use agent_bridge::id::{InvalidId, RunId, SessionId};

#[test]
fn rejects_blank_identifiers_without_rewriting_valid_ones() {
    for value in ["", " ", "\n\t", "\u{2003}"] {
        assert_eq!(SessionId::new(value.to_owned()), Err(InvalidId));
    }
    let id = SessionId::new("external/session:123".to_owned()).unwrap();
    assert_eq!(id.as_str(), "external/session:123");
}

#[test]
fn surrounding_white_space_of_identifiers_is_kept() {
    let id = RunId::new(" run ".to_owned()).unwrap();
    assert_eq!(id.as_str(), " run ");
}

#[test]
fn a_refused_identifier_says_why() {
    let error = RunId::new("\u{a0}\u{3000}".to_owned()).unwrap_err();
    assert_eq!(error.to_string(), "an identifier cannot be empty or whitespace-only");
}
