use chat::parser::EventType;
use chat::parser::parse_event_type;

fn parse(line: &str) -> Option<EventType> {
    parse_event_type(line.to_string())
}

#[test]
fn plain_line_is_message_verbatim() {
    assert_eq!(
        parse("hello world"),
        Some(EventType::SendMessage("hello world".to_string()))
    );
}

#[test]
fn message_keeps_leading_and_trailing_spaces() {
    assert_eq!(
        parse("  padded message  "),
        Some(EventType::SendMessage("  padded message  ".to_string()))
    );
}

#[test]
fn empty_line_yields_nothing() {
    assert_eq!(parse(""), None);
}

#[test]
fn username_with_argument() {
    assert_eq!(
        parse("/username Alice"),
        Some(EventType::SetUsername("Alice".to_string()))
    );
}

#[test]
fn username_missing_argument_gives_usage_error() {
    assert_eq!(
        parse("/username"),
        Some(EventType::Error("correct usage: /username [name]".to_string()))
    );
}

#[test]
fn setmod_with_argument() {
    assert_eq!(
        parse("/setmod Bob"),
        Some(EventType::SetModerator("Bob".to_string()))
    );
}

#[test]
fn setmod_missing_argument_gives_usage_error() {
    assert_eq!(
        parse("/setmod"),
        Some(EventType::Error("correct usage: /setmod [target]".to_string()))
    );
}

#[test]
fn setown_with_argument() {
    assert_eq!(
        parse("/setown Carol"),
        Some(EventType::SetOwner("Carol".to_string()))
    );
}

#[test]
fn setown_missing_argument_gives_usage_error() {
    assert_eq!(
        parse("/setown"),
        Some(EventType::Error("correct usage: /setown [target]".to_string()))
    );
}

#[test]
fn kick_with_argument() {
    assert_eq!(parse("/kick Mallory"), Some(EventType::Kick("Mallory".to_string())));
}

#[test]
fn kick_missing_argument_gives_usage_error() {
    assert_eq!(
        parse("/kick"),
        Some(EventType::Error("correct usage: /kick [target]".to_string()))
    );
}

#[test]
fn exit_needs_no_argument() {
    assert_eq!(parse("/exit"), Some(EventType::Exit));
}

#[test]
fn exit_ignores_trailing_text() {
    assert_eq!(parse("/exit now"), Some(EventType::Exit));
}

#[test]
fn unknown_command_is_reported() {
    assert_eq!(
        parse("/frobnicate"),
        Some(EventType::Error("unknown command".to_string()))
    );
}

#[test]
fn bare_slash_is_missing_command() {
    assert_eq!(parse("/"), Some(EventType::Error("missing command".to_string())));
}

#[test]
fn only_first_token_after_command_is_used() {
    assert_eq!(
        parse("/username Alice the Great"),
        Some(EventType::SetUsername("Alice".to_string()))
    );
}

#[test]
fn trailing_space_gives_empty_argument() {
    assert_eq!(parse("/username "), Some(EventType::SetUsername(String::new())));
}

#[test]
fn slash_then_space_is_unknown_command() {
    assert_eq!(
        parse("/ username"),
        Some(EventType::Error("unknown command".to_string()))
    );
}
