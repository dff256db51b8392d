use matrix_relay::messaging::{
    build_content, content_from_rendering, help_text, parse_chat_command, reply_to_message,
    resolve_send_target, send_target_from_parse, ChatCommand, InvalidTarget, MessageContent,
    RoomTarget,
    HELP_TEXT,
};

#[test]
fn parse_chat_command_recognizes_help() {
    assert_eq!(parse_chat_command("!help"), Some(ChatCommand::Help));
}

#[test]
fn parse_chat_command_is_case_insensitive() {
    assert_eq!(parse_chat_command("!HeLp"), Some(ChatCommand::Help));
}

#[test]
fn parse_chat_command_ignores_plain_chat() {
    assert_eq!(parse_chat_command("hello there"), None);
}

#[test]
fn parse_chat_command_requires_the_prefix() {
    assert_eq!(parse_chat_command("help"), None);
}

#[test]
fn parse_chat_command_rejects_unknown_commands() {
    assert_eq!(parse_chat_command("!report daily"), None);
}

#[test]
fn parse_chat_command_trims_surrounding_whitespace() {
    assert_eq!(parse_chat_command("  !help  "), Some(ChatCommand::Help));
}

#[test]
fn build_content_keeps_plain_text_as_body() {
    let content = build_content("just plain text, no markdown");
    assert_eq!(content.body, "just plain text, no markdown");
}

#[test]
fn build_content_without_markdown_has_no_formatted_body() {
    let content = build_content("just plain text, no markdown");
    assert!(content.formatted.is_none());
}

#[test]
fn build_content_with_markdown_renders_html() {
    let content = build_content("**bold** and _italic_");
    let formatted = content
        .formatted
        .as_ref()
        .expect("markdown should produce a formatted body");
    assert!(formatted.contains("<strong>bold</strong>"));
    assert!(formatted.contains("<em>italic</em>"));
}

#[test]
fn build_content_with_markdown_keeps_plain_body() {
    let content = build_content("**bold** and _italic_");
    assert_eq!(content.body, "**bold** and _italic_");
}

#[test]
fn content_from_rendering_pairs_text_and_html() {
    let content = content_from_rendering("*x*", Some("<em>x</em>".to_string()));
    assert_eq!(
        content,
        MessageContent { body: "*x*".to_string(), formatted: Some("<em>x</em>".to_string()) }
    );
    assert_eq!(content_from_rendering("x", None).formatted, None);
}

#[test]
fn parse_chat_command_any_ascii_case() {
    for body in ["!HELP", "!help", "!Help", "!hElP"] {
        assert_eq!(parse_chat_command(body), Some(ChatCommand::Help));
    }
}

#[test]
fn parse_chat_command_unicode_white_space_is_trimmed() {
    assert_eq!(parse_chat_command("\t\n\u{3000}!help\u{a0}\r\n"), Some(ChatCommand::Help));
    assert_eq!(parse_chat_command("\u{2003}!HELP\u{85}"), Some(ChatCommand::Help));
}

#[test]
fn parse_chat_command_rejects_near_misses() {
    assert_eq!(parse_chat_command(""), None);
    assert_eq!(parse_chat_command("   "), None);
    assert_eq!(parse_chat_command("!"), None);
    assert_eq!(parse_chat_command("! help"), None);
    assert_eq!(parse_chat_command("!helpme"), None);
    assert_eq!(parse_chat_command("!!help"), None);
    assert_eq!(parse_chat_command("x!help"), None);
    // Only ASCII letters are folded: the Kelvin sign is not a `k`, and
    // non-breaking space inside the name is not trimmed.
    assert_eq!(parse_chat_command("!hel\u{212a}"), None);
    assert_eq!(parse_chat_command("!he lp"), None);
}

#[test]
fn help_text_lists_the_help_command() {
    let text = help_text();
    assert_eq!(text, "**Available commands**\n\n- `!help` \u{2014} show this list\n");
    assert_eq!(text, HELP_TEXT);
}

#[test]
fn reply_to_message_answers_help_only() {
    assert_eq!(reply_to_message(" !HELP "), Some(help_text()));
    assert_eq!(reply_to_message("hello there"), None);
    assert_eq!(reply_to_message("!report daily"), None);
}

#[test]
fn resolve_send_target_room_id() {
    assert_eq!(
        resolve_send_target("!n8f893n9:example.com"),
        Ok(RoomTarget::RoomId("!n8f893n9:example.com".to_string()))
    );
}

#[test]
fn resolve_send_target_alias() {
    assert_eq!(
        resolve_send_target("#ruma:example.com"),
        Ok(RoomTarget::Alias("#ruma:example.com".to_string()))
    );
}

#[test]
fn resolve_send_target_rejects_missing_sigil() {
    assert_eq!(
        resolve_send_target("ruma:example.com"),
        Err(InvalidTarget {
            context: "'ruma:example.com' is neither a valid room ID nor alias".to_string(),
            cause: "leading sigil is incorrect or missing".to_string(),
        })
    );
    assert_eq!(
        resolve_send_target(""),
        Err(InvalidTarget {
            context: "'' is neither a valid room ID nor alias".to_string(),
            cause: "leading sigil is incorrect or missing".to_string(),
        })
    );
}

#[test]
fn resolve_send_target_keeps_ruma_reason() {
    let err = resolve_send_target("#nocolon").unwrap_err();
    assert_eq!(err.context, "'#nocolon' is neither a valid room ID nor alias");
    assert_eq!(err.cause, "required colon is missing");
}

#[test]
fn send_target_from_parse_passes_target_through() {
    assert_eq!(
        send_target_from_parse("#a:b.c", Ok(RoomTarget::Alias("#a:b.c".to_string()))),
        Ok(RoomTarget::Alias("#a:b.c".to_string()))
    );
    assert_eq!(
        send_target_from_parse("nope", Err("why".to_string())),
        Err(InvalidTarget {
            context: "'nope' is neither a valid room ID nor alias".to_string(),
            cause: "why".to_string(),
        })
    );
}

use matrix_relay::messaging::{reply_to_room_message, MessageKind};

#[test]
fn only_text_messages_get_replies() {
    assert_eq!(reply_to_room_message(MessageKind::Text, "!help"), Some(help_text()));
    assert_eq!(reply_to_room_message(MessageKind::Notice, "!help"), None);
    assert_eq!(reply_to_room_message(MessageKind::Emote, "!help"), None);
    assert_eq!(reply_to_room_message(MessageKind::Other, "!help"), None);
    assert_eq!(reply_to_room_message(MessageKind::Text, "hello"), None);
}
