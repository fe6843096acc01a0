use ios_push::wire::denied_bytes;
use ios_push::wire::granted_bytes;
use ios_push::wire::parse_permission_reply;
use ios_push::wire::parse_token_reply;
use ios_push::wire::prompt_bytes;
use ios_push::PermissionState;

#[test]
fn permission_words_parse_to_their_outcomes() {
    assert_eq!(
        parse_permission_reply(b"granted"),
        Some(PermissionState::Granted)
    );
    assert_eq!(
        parse_permission_reply(b"denied"),
        Some(PermissionState::Denied)
    );
    assert_eq!(
        parse_permission_reply(b"prompt"),
        Some(PermissionState::Prompt)
    );
}

#[test]
fn permission_word_constants_match_the_wire() {
    assert_eq!(granted_bytes(), b"granted".to_vec());
    assert_eq!(denied_bytes(), b"denied".to_vec());
    assert_eq!(prompt_bytes(), b"prompt".to_vec());
}

#[test]
fn unknown_permission_words_are_rejected() {
    assert_eq!(parse_permission_reply(b""), None);
    assert_eq!(parse_permission_reply(b"Granted"), None);
    assert_eq!(parse_permission_reply(b"granted "), None);
    assert_eq!(parse_permission_reply(b"allowed"), None);
}

#[test]
fn token_reply_is_unwrapped() {
    assert_eq!(
        parse_token_reply(b"{\"token\":\"abc123\"}"),
        Some(b"abc123".to_vec())
    );
}

#[test]
fn empty_token_is_unwrapped() {
    assert_eq!(parse_token_reply(b"{\"token\":\"\"}"), Some(Vec::new()));
}

#[test]
fn escaped_token_bytes_are_unescaped() {
    assert_eq!(
        parse_token_reply(b"{\"token\":\"a\\\"b\\\\c\"}"),
        Some(b"a\"b\\c".to_vec())
    );
}

#[test]
fn token_reply_without_prefix_is_rejected() {
    assert_eq!(parse_token_reply(b""), None);
    assert_eq!(parse_token_reply(b"abc123"), None);
    assert_eq!(parse_token_reply(b"{\"jeton\":\"abc123\"}"), None);
}

#[test]
fn unterminated_token_string_is_rejected() {
    assert_eq!(parse_token_reply(b"{\"token\":\"abc123"), None);
    assert_eq!(parse_token_reply(b"{\"token\":\"abc123\""), None);
}

#[test]
fn bad_escape_in_token_is_rejected() {
    assert_eq!(parse_token_reply(b"{\"token\":\"a\\nb\"}"), None);
    assert_eq!(parse_token_reply(b"{\"token\":\"a\\"), None);
}

#[test]
fn trailing_bytes_after_token_reply_are_rejected() {
    assert_eq!(parse_token_reply(b"{\"token\":\"abc123\"} "), None);
    assert_eq!(parse_token_reply(b"{\"token\":\"abc123\"}}"), None);
}
