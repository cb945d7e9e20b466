use wiab_app::text::{is_recent_agent_echo, normalize_required, normalized_tokens};

#[test]
fn normalize_required_trims_surrounding_whitespace() {
    assert_eq!(normalize_required("  hello world \n", "title").unwrap(), "hello world");
}

#[test]
fn normalize_required_rejects_blank_text_naming_the_field() {
    let error = normalize_required(" \t\u{3000} ", "meeting title").unwrap_err();
    assert_eq!(error.label, "meeting title");
    assert_eq!(error.message(), "meeting title must be a non-empty trimmed string");
}

#[test]
fn normalized_tokens_strip_punctuation_and_lower() {
    assert_eq!(
        normalized_tokens("CTO, what is the biggest risk -- here?"),
        vec!["cto", "what", "is", "the", "biggest", "risk", "here"]
    );
}

#[test]
fn an_exact_repeat_is_an_echo() {
    let recent = vec!["CTO recommends reducing launch scope".to_owned()];
    assert!(is_recent_agent_echo("cto recommends reducing launch scope.", &recent));
}

#[test]
fn mostly_overlapping_text_is_an_echo() {
    let recent = vec!["we should reduce the launch scope now".to_owned()];
    assert!(is_recent_agent_echo("we should reduce launch scope", &recent));
}

#[test]
fn a_short_different_text_is_not_an_echo() {
    let recent = vec!["reduce scope".to_owned()];
    assert!(!is_recent_agent_echo("reduce it", &recent));
}

#[test]
fn punctuation_only_is_never_an_echo() {
    let recent = vec!["!!!".to_owned()];
    assert!(!is_recent_agent_echo("...", &recent));
}

#[test]
fn normalizing_twice_changes_nothing() {
    let once = normalize_required("\u{a0} Gos & co\t", "name").unwrap();
    assert_eq!(once, "Gos & co");
    assert_eq!(normalize_required(&once, "name").unwrap(), once);
}

#[test]
fn whitespace_inside_is_kept() {
    assert_eq!(normalize_required(" a  b ", "name").unwrap(), "a  b");
}
