//! Channel message types.

use crate::json::JsonValue;
use vstd::prelude::*;

verus! {

/// Incoming message from a channel; the time is in seconds since the Unix epoch and the raw
/// form is the channel's own JSON.
#[derive(Debug)]
pub struct ChannelMessage {
    pub id: String,
    pub channel_name: String,
    pub channel_id: String,
    pub sender: SenderInfo,
    pub content: MessageContent,
    pub timestamp: i64,
    pub thread_id: Option<String>,
    pub mentions_bot: bool,
    pub raw: JsonValue,
}

/// Sender information.
#[derive(Debug, Clone)]
pub struct SenderInfo {
    pub user_id: String,
    pub username: String,
    pub display_name: Option<String>,
    pub is_bot: bool,
}

/// Message content with parsed elements.
#[derive(Debug, Clone)]
pub struct MessageContent {
    pub text: String,
    pub mentions: Vec<Mention>,
    pub attachments: Vec<Attachment>,
}

/// A mention of a user or bot.
#[derive(Debug, Clone)]
pub struct Mention {
    pub id: String,
    pub name: String,
    pub mention_type: MentionType,
}

/// Type of mention.
#[derive(Debug, Clone, Copy, PartialEq, Eq, Structural)]
pub enum MentionType {
    User,
    Channel,
    Here,
}

/// Message attachment.
#[derive(Debug, Clone)]
pub struct Attachment {
    pub attachment_type: String,
    pub url: Option<String>,
    pub content: Option<String>,
}

/// Outgoing message to send through a channel.
#[derive(Debug, Clone)]
pub struct SendMessage {
    pub id: Option<String>,
    pub recipient: String,
    pub content: OutgoingContent,
    pub thread_id: Option<String>,
    pub reply_to: Option<String>,
}

/// Outgoing message content.
#[derive(Debug, Clone)]
pub enum OutgoingContent {
    Text(String),
    Formatted(FormattedMessage),
}

/// Formatted message with rich content.
#[derive(Debug, Clone)]
pub struct FormattedMessage {
    pub body: String,
    pub format: MessageFormat,
    pub code_block: Option<CodeBlock>,
    pub table: Option<Table>,
    pub actions: Option<Vec<MessageAction>>,
}

/// Message format type.
#[derive(Debug, Clone, Copy, PartialEq, Eq, Structural)]
pub enum MessageFormat {
    Plain,
    Markdown,
    Html,
}

/// Code block in a message.
#[derive(Debug, Clone)]
pub struct CodeBlock {
    pub language: Option<String>,
    pub content: String,
}

/// Table in a message.
#[derive(Debug, Clone)]
pub struct Table {
    pub headers: Vec<String>,
    pub rows: Vec<Vec<String>>,
}

/// Action button in a message.
#[derive(Debug, Clone)]
pub struct MessageAction {
    pub action_type: ActionType,
    pub text: String,
    pub url: Option<String>,
    pub command: Option<String>,
}

/// Type of message action.
#[derive(Debug, Clone, Copy, PartialEq, Eq, Structural)]
pub enum ActionType {
    Button,
    Link,
    Command,
}

/// A lower-case hexadecimal digit.
pub open spec fn lower_hex_char(c: char) -> bool {
    ('0' <= c <= '9') || ('a' <= c <= 'f')
}

/// The hyphenated lower-case text of a random (version 4, RFC 4122 variant) UUID: 36
/// characters, hyphens at 8, 13, 18 and 23, lower-case hexadecimal digits elsewhere, the
/// version digit `4` at 14 and a variant digit among `8`, `9`, `a`, `b` at 19.
pub open spec fn v4_uuid_text(s: Seq<char>) -> bool {
    &&& s.len() == 36
    &&& forall|i: int|
        0 <= i < 36 ==> if i == 8 || i == 13 || i == 18 || i == 23 {
            #[trigger] s[i] == '-'
        } else {
            lower_hex_char(s[i])
        }
    &&& s[14] == '4'
    &&& (s[19] == '8' || s[19] == '9' || s[19] == 'a' || s[19] == 'b')
}

/// A fresh random identifier: `uuid::Uuid::new_v4`, in its hyphenated lower-case text form.
/// Its shape is stated; which identifier comes out is random.
#[verifier::external_body]
pub(crate) fn new_message_id() -> (id: String)
    ensures
        id@.len() == 36,
        v4_uuid_text(id@),
{
    uuid::Uuid::new_v4().to_string()
}

impl SendMessage {
    /// A plain-text message with a fresh identifier.
    pub fn text(recipient: &str, text: &str) -> (m: SendMessage)
        ensures
            m.id matches Some(id) && v4_uuid_text(id@),
            m.recipient@ == recipient@,
            m.content matches OutgoingContent::Text(t) && t@ == text@,
            m.thread_id is None,
            m.reply_to is None,
    {
        SendMessage {
            id: Some(new_message_id()),
            recipient: recipient.to_string(),
            content: OutgoingContent::Text(text.to_string()),
            thread_id: None,
            reply_to: None,
        }
    }

    /// A markdown message with a fresh identifier.
    pub fn markdown(recipient: &str, markdown: &str) -> (m: SendMessage)
        ensures
            m.id matches Some(id) && v4_uuid_text(id@),
            m.recipient@ == recipient@,
            m.content matches OutgoingContent::Formatted(f) && {
                &&& f.body@ == markdown@
                &&& f.format == MessageFormat::Markdown
                &&& f.code_block is None
                &&& f.table is None
                &&& f.actions is None
            },
            m.thread_id is None,
            m.reply_to is None,
    {
        SendMessage {
            id: Some(new_message_id()),
            recipient: recipient.to_string(),
            content: OutgoingContent::Formatted(
                FormattedMessage {
                    body: markdown.to_string(),
                    format: MessageFormat::Markdown,
                    code_block: None,
                    table: None,
                    actions: None,
                },
            ),
            thread_id: None,
            reply_to: None,
        }
    }
}

} // verus!
