//! The chat side of the relay: recognising `!`-prefixed commands in room
//! messages, the reply each one gets, and the content of an outgoing message.
use vstd::prelude::*;

use crate::text::{
    all_white_space, ascii_fold, eq_ignore_ascii_case, eq_ignore_ascii_case_spec,
    lemma_trim_fold, lemma_trim_surrounding, trim, trim_spec,
};

verus! {

/// Chat commands recognized via a `!`-prefix (e.g. `!help`).
#[derive(Debug, Clone, Copy, PartialEq, Eq, Structural)]
pub enum ChatCommand {
    Help,
}

/// The name under which `ChatCommand::Help` is written after the `!`.
pub open spec fn help_command_name() -> Seq<char> {
    seq!['H', 'e', 'l', 'p']
}

/// The command that a room message body names: after surrounding white space
/// is removed, a `!` followed by a command name, matched without regard to the
/// case of ASCII letters.
pub open spec fn chat_command_of(body: Seq<char>) -> Option<ChatCommand> {
    let t = trim_spec(body);
    if t.len() > 0 && t[0] == '!' && eq_ignore_ascii_case_spec(t.drop_first(), help_command_name()) {
        Some(ChatCommand::Help)
    } else {
        None
    }
}

/// Parses a `!`-prefixed, case-insensitive room message body into a
/// [`ChatCommand`].
pub fn parse_chat_command(body: &str) -> (res: Option<ChatCommand>)
    ensures
        res == chat_command_of(body@),
{
    let t = trim(body);
    let n = t.unicode_len();
    if n == 0 || t.get_char(0) != '!' {
        return None;
    }
    let name = t.substring_char(1, n);
    proof {
        assert(name@ =~= t@.drop_first());
    }
    let help = "Help";
    proof {
        reveal_strlit("Help");
        assert(help@ =~= help_command_name());
    }
    if eq_ignore_ascii_case(name, help) {
        Some(ChatCommand::Help)
    } else {
        None
    }
}

/// Changing the case of ASCII letters in a message does not change the
/// command it names.
pub proof fn law_chat_command_ignores_ascii_case(a: Seq<char>, b: Seq<char>)
    requires
        eq_ignore_ascii_case_spec(a, b),
    ensures
        chat_command_of(a) == chat_command_of(b),
{
    lemma_trim_fold(a, b);
    let ta = trim_spec(a);
    let tb = trim_spec(b);
    if ta.len() > 0 {
        assert(ascii_fold(ta[0]) == ascii_fold(tb[0]));
        let na = ta.drop_first();
        let nb = tb.drop_first();
        assert forall|i: int| 0 <= i < na.len() implies ascii_fold(#[trigger] na[i]) == ascii_fold(
            nb[i],
        ) by {
            assert(na[i] == ta[i + 1]);
            assert(nb[i] == tb[i + 1]);
        }
        let h = help_command_name();
        if eq_ignore_ascii_case_spec(na, h) {
            assert forall|i: int| 0 <= i < nb.len() implies ascii_fold(#[trigger] nb[i])
                == ascii_fold(h[i]) by {
                assert(ascii_fold(na[i]) == ascii_fold(h[i]));
            }
        }
        if eq_ignore_ascii_case_spec(nb, h) {
            assert forall|i: int| 0 <= i < na.len() implies ascii_fold(#[trigger] na[i])
                == ascii_fold(h[i]) by {
                assert(ascii_fold(nb[i]) == ascii_fold(h[i]));
            }
        }
    }
}

/// White space around a message does not change the command it names.
pub proof fn law_chat_command_ignores_surrounding_white_space(
    pre: Seq<char>,
    body: Seq<char>,
    post: Seq<char>,
)
    requires
        all_white_space(pre),
        all_white_space(post),
    ensures
        chat_command_of(pre + body + post) == chat_command_of(body),
{
    lemma_trim_surrounding(pre, body, post);
}

/// A message that, once trimmed, does not start with `!` names no command.
pub proof fn law_chat_command_needs_prefix(body: Seq<char>)
    requires
        trim_spec(body).len() == 0 || trim_spec(body)[0] != '!',
    ensures
        chat_command_of(body) is None,
{
}

/// The text sent back for `!help`.
pub const HELP_TEXT: &'static str = "**Available commands**\n\n- `!help` — show this list\n";

/// The text sent back for `!help`. Grows as more commands are added.
pub fn help_text() -> (res: String)
    ensures
        res@ == HELP_TEXT@,
{
    String::from_str(HELP_TEXT)
}

/// The reply that a room message with text `body` gets: the help text for
/// `!help`, nothing for any other message.
pub open spec fn reply_of(body: Seq<char>) -> Option<Seq<char>> {
    match chat_command_of(body) {
        Some(ChatCommand::Help) => Some(HELP_TEXT@),
        None => None,
    }
}

/// Decides what a text message received in a room is answered with: `Some`
/// text to send back to the same room, or `None` to stay silent.
pub fn reply_to_message(body: &str) -> (res: Option<String>)
    ensures
        res is Some <==> reply_of(body@) is Some,
        res matches Some(t) ==> reply_of(body@) == Some(t@),
{
    match parse_chat_command(body) {
        Some(ChatCommand::Help) => Some(help_text()),
        None => None,
    }
}

/// The kind of a message received in a room, as its `msgtype` gives it.
#[derive(Debug, Clone, Copy, PartialEq, Eq, Structural)]
pub enum MessageKind {
    Text,
    Notice,
    Emote,
    Other,
}

/// The reply that a room message of kind `kind` with text `body` gets: only
/// plain text messages are read for commands, so notices, emotes and other
/// kinds get none.
pub open spec fn room_reply_of(kind: MessageKind, body: Seq<char>) -> Option<Seq<char>> {
    match kind {
        MessageKind::Text => reply_of(body),
        _ => None,
    }
}

/// Decides what a message received in a room is answered with: `Some` text to
/// send back to the same room for a text message that names a command,
/// `None` for any other message.
pub fn reply_to_room_message(kind: MessageKind, body: &str) -> (res: Option<String>)
    ensures
        res is Some <==> room_reply_of(kind, body@) is Some,
        res matches Some(t) ==> room_reply_of(kind, body@) == Some(t@),
        kind != MessageKind::Text ==> res is None,
{
    match kind {
        MessageKind::Text => reply_to_message(body),
        _ => None,
    }
}

/// Only text messages are ever answered, and a text message is answered with
/// the help text exactly when it names `!help`.
pub proof fn law_only_text_help_is_answered(kind: MessageKind, body: Seq<char>)
    ensures
        room_reply_of(kind, body) is Some <==> (kind == MessageKind::Text && chat_command_of(body)
            == Some(ChatCommand::Help)),
        room_reply_of(kind, body) is Some ==> room_reply_of(kind, body) == Some(HELP_TEXT@),
{
}

/// A text message is answered with the help text exactly when it names
/// `!help`, and with nothing otherwise.
pub proof fn law_help_is_answered_with_help_text(body: Seq<char>)
    ensures
        chat_command_of(body) == Some(ChatCommand::Help) ==> reply_of(body) == Some(HELP_TEXT@),
        chat_command_of(body) is None ==> reply_of(body) is None,
        reply_of(body) == room_reply_of(MessageKind::Text, body),
{
}

/// A message names `!help` exactly when, once trimmed, it is a `!` followed by
/// `help` in any mix of ASCII letter case, and nothing else.
pub proof fn law_help_is_bang_help(body: Seq<char>)
    ensures
        chat_command_of(body) is Some <==> {
            let t = trim_spec(body);
            &&& t.len() > 0
            &&& t[0] == '!'
            &&& eq_ignore_ascii_case_spec(t.drop_first(), "help"@)
        },
        chat_command_of(body) is Some ==> chat_command_of(body) == Some(ChatCommand::Help),
{
    reveal_strlit("help");
    let lower = "help"@;
    let h = help_command_name();
    assert(lower.len() == 4);
    assert(lower[0] == 'h' && lower[1] == 'e' && lower[2] == 'l' && lower[3] == 'p');
    assert(forall|i: int| 0 <= i < 4 ==> ascii_fold(#[trigger] lower[i]) == ascii_fold(h[i]));
    let t = trim_spec(body);
    if t.len() > 0 {
        let x = t.drop_first();
        if eq_ignore_ascii_case_spec(x, h) {
            assert forall|i: int| 0 <= i < x.len() implies ascii_fold(#[trigger] x[i])
                == ascii_fold(lower[i]) by {
                assert(ascii_fold(x[i]) == ascii_fold(h[i]));
            }
        }
        if eq_ignore_ascii_case_spec(x, lower) {
            assert forall|i: int| 0 <= i < x.len() implies ascii_fold(#[trigger] x[i])
                == ascii_fold(h[i]) by {
                assert(ascii_fold(x[i]) == ascii_fold(lower[i]));
            }
        }
    }
}

/// The content of an outgoing text message: the plain-text `body`, and the
/// HTML rendering of it in `formatted` when it holds Markdown formatting.
#[derive(Debug, PartialEq, Eq)]
pub struct MessageContent {
    pub body: String,
    pub formatted: Option<String>,
}

/// What `FormattedBody::markdown` renders `text` to: the HTML body, or `None`
/// where `text` holds no Markdown formatting.
pub uninterp spec fn markdown_html(text: Seq<char>) -> Option<Seq<char>>;

/// Calls `FormattedBody::markdown` of `matrix_sdk::ruma` on `text` and hands out
/// the HTML body of the result. Claimed: the result is `markdown_html(text@)`.
#[verifier::external_body]
fn render_markdown(text: &str) -> (res: Option<String>)
    ensures
        res is Some <==> markdown_html(text@) is Some,
        res matches Some(html) ==> markdown_html(text@) == Some(html@),
{
    matrix_sdk::ruma::events::room::message::FormattedBody::markdown(text).map(|f| f.body)
}

/// The content sent for `text` once its Markdown rendering `rendered` is known:
/// `text` as the plain body, `rendered` as the HTML one.
pub fn content_from_rendering(text: &str, rendered: Option<String>) -> (res: MessageContent)
    ensures
        res.body@ == text@,
        res.formatted == rendered,
{
    MessageContent { body: String::from_str(text), formatted: rendered }
}

/// Builds the message content for `text`, rendering it as Markdown into an
/// HTML `formatted` body alongside the plain-text fallback. If `text`
/// contains no Markdown formatting, `formatted` stays `None` and clients
/// just show the plain text.
pub fn build_content(text: &str) -> (res: MessageContent)
    ensures
        res.body@ == text@,
        res.formatted is Some <==> markdown_html(text@) is Some,
        res.formatted matches Some(html) ==> markdown_html(text@) == Some(html@),
{
    let rendered = render_markdown(text);
    content_from_rendering(text, rendered)
}

/// Where a message goes: a room named by its ID (`!...`), or a room alias
/// (`#...`) that the server still has to resolve to an ID.
#[derive(Debug, PartialEq, Eq)]
pub enum RoomTarget {
    RoomId(String),
    Alias(String),
}

/// Why `RoomOrAliasId::parse` refuses `s`, as the text of its error, or
/// `None` where it accepts `s` as a valid Matrix room ID or room alias.
pub uninterp spec fn room_or_alias_parse_error(s: Seq<char>) -> Option<Seq<char>>;

/// Whether `s` is a valid Matrix room ID or room alias.
pub open spec fn is_room_id_or_alias(s: Seq<char>) -> bool {
    room_or_alias_parse_error(s) is None
}

/// Calls `RoomOrAliasId::parse` of `matrix_sdk::ruma` on `s`, then tells a room
/// ID from an alias with `<&RoomId>::try_from`; a refusal is handed out as the
/// text of ruma's error. Claimed: the result is `Ok` exactly when
/// `room_or_alias_parse_error(s@)` is `None`, and then holds `s` itself, as a
/// room ID where `s` starts with `!` and as an alias where it starts with `#`
/// (the variant is chosen by that leading sigil, and a string without one of
/// the two is refused); an `Err` holds `room_or_alias_parse_error(s@)`.
#[verifier::external_body]
fn parse_room_or_alias_id(s: &str) -> (res: Result<RoomTarget, String>)
    ensures
        res is Ok <==> is_room_id_or_alias(s@),
        res is Ok ==> s@.len() > 0 && (s@[0] == '!' || s@[0] == '#'),
        res matches Ok(RoomTarget::RoomId(id)) ==> id@ == s@ && s@[0] == '!',
        res matches Ok(RoomTarget::Alias(alias)) ==> alias@ == s@ && s@[0] == '#',
        res matches Err(cause) ==> room_or_alias_parse_error(s@) == Some(cause@),
{
    match matrix_sdk::ruma::RoomOrAliasId::parse(s) {
        Ok(id) => match <&matrix_sdk::ruma::RoomId>::try_from(&*id) {
            Ok(room_id) => Ok(RoomTarget::RoomId(room_id.to_string())),
            Err(alias) => Ok(RoomTarget::Alias(alias.to_string())),
        },
        Err(err) => Err(err.to_string()),
    }
}

/// A destination that is neither a room ID nor an alias: what the caller is
/// told (`context`), and ruma's reason for refusing it (`cause`).
#[derive(Debug, PartialEq, Eq)]
pub struct InvalidTarget {
    pub context: String,
    pub cause: String,
}

/// The error text for a destination that is neither a room ID nor an alias.
pub open spec fn invalid_target_message(s: Seq<char>) -> Seq<char> {
    "'"@ + s + "' is neither a valid room ID nor alias"@
}

/// The destination of a message to `room_id_or_alias` once it has been parsed
/// to `parsed`: the parsed target, or the error text when it did not parse,
/// with the parse error as its cause.
pub fn send_target_from_parse(room_id_or_alias: &str, parsed: Result<RoomTarget, String>) -> (res:
    Result<RoomTarget, InvalidTarget>)
    ensures
        parsed matches Ok(t) ==> res == Ok::<RoomTarget, InvalidTarget>(t),
        parsed matches Err(cause) ==> (res matches Err(e) && e.context@ == invalid_target_message(
            room_id_or_alias@,
        ) && e.cause@ == cause@),
{
    match parsed {
        Ok(t) => Ok(t),
        Err(cause) => {
            let mut context = String::from_str("'");
            context.append(room_id_or_alias);
            context.append("' is neither a valid room ID nor alias");
            Err(InvalidTarget { context, cause })
        },
    }
}

/// Where a one-off message to `room_id_or_alias` goes: the room ID itself, or
/// an alias that still has to be resolved; an error when the string is
/// neither, whose cause is ruma's reason.
pub fn resolve_send_target(room_id_or_alias: &str) -> (res: Result<RoomTarget, InvalidTarget>)
    ensures
        res is Ok <==> is_room_id_or_alias(room_id_or_alias@),
        res matches Ok(RoomTarget::RoomId(id)) ==> id@ == room_id_or_alias@
            && room_id_or_alias@[0] == '!',
        res matches Ok(RoomTarget::Alias(alias)) ==> alias@ == room_id_or_alias@
            && room_id_or_alias@[0] == '#',
        res matches Err(e) ==> e.context@ == invalid_target_message(room_id_or_alias@)
            && room_or_alias_parse_error(room_id_or_alias@) == Some(e.cause@),
{
    let parsed = parse_room_or_alias_id(room_id_or_alias);
    send_target_from_parse(room_id_or_alias, parsed)
}

} // verus!
