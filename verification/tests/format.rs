use agent_tools_core::Format;

#[test]
fn flag_spellings_are_lowercase() {
    let names: Vec<_> = Format::value_variants()
        .iter()
        .map(|v| v.to_possible_value().unwrap().get_name().to_string())
        .collect();
    assert_eq!(names, vec!["json", "text"]);
}

#[test]
fn parses_from_flag_text() {
    assert_eq!(Format::from_str("json", true).unwrap(), Format::Json);
    assert_eq!(Format::from_str("text", true).unwrap(), Format::Text);
    assert!(Format::from_str("yaml", true).is_err());
}

#[test]
fn default_is_text() {
    assert_eq!(Format::default(), Format::Text);
    assert!(!Format::default().is_json());
    assert!(Format::Json.is_json());
}

#[test]
fn ignore_case_accepts_upper_case_spellings() {
    assert_eq!(Format::from_str("JSON", true).unwrap(), Format::Json);
    assert_eq!(Format::from_str("TeXt", true).unwrap(), Format::Text);
}

#[test]
fn exact_parse_rejects_other_case() {
    assert_eq!(
        Format::from_str("JSON", false),
        Err("invalid variant: JSON".to_string())
    );
    assert_eq!(Format::from_str("json", false).unwrap(), Format::Json);
}

#[test]
fn unknown_spelling_is_named_in_the_error() {
    assert_eq!(
        Format::from_str("yaml", true),
        Err("invalid variant: yaml".to_string())
    );
    assert_eq!(Format::from_str("", false), Err("invalid variant: ".to_string()));
    assert!(Format::from_str("jsonx", true).is_err());
}

#[test]
fn spelling_round_trips_through_parse() {
    for f in Format::value_variants() {
        assert_eq!(Format::from_str(f.as_str(), false).unwrap(), f);
        assert_eq!(Format::from_str(f.as_str(), true).unwrap(), f);
    }
}

#[test]
fn display_text_is_the_spelling() {
    assert_eq!(Format::Json.to_string(), "json");
    assert_eq!(Format::Text.to_string(), "text");
    assert_eq!(Format::Json.as_str(), "json");
    assert_eq!(Format::Text.as_str(), "text");
}

#[test]
fn possible_value_name_is_the_spelling() {
    for f in Format::value_variants() {
        let pv = f.to_possible_value().unwrap();
        assert_eq!(pv.get_name(), f.as_str());
        assert_eq!(pv.get_name_and_aliases().count(), 1);
        assert!(pv.matches(f.as_str(), false));
    }
}
