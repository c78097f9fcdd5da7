//! WeCom (WeChat Work): the messages the bot sends and how received ones become channel
//! messages.

use crate::config::schema::WeComConfig;
use crate::json::{entry_models, jobject, jopt_string, json_model, jstring, str_view, JsonModel, JsonValue};
use crate::text::{decimal, parse_u64, parse_u64_str, u64_to_decimal};
use crate::types::channel::{
    new_message_id, v4_uuid_text, ChannelMessage, MessageContent, MessageFormat, OutgoingContent, SendMessage,
    SenderInfo,
};
use vstd::prelude::*;

verus! {

/// A message received by the WeCom webhook.
#[derive(Debug, Clone)]
pub struct WeComIncomingMessage {
    pub msg_type: String,
    pub agent_id: u64,
    pub content: String,
    pub from_username: String,
    pub create_time: u64,
    pub chat_id: Option<String>,
    pub msg_id: Option<String>,
    pub to_username: Option<String>,
}

/// The WeCom channel.
pub struct WeComChannel {
    pub name: String,
    pub config: WeComConfig,
}

impl WeComChannel {
    pub fn new(name: &str, config: WeComConfig) -> (c: WeComChannel)
        ensures
            c.name@ == name@,
            c.config == config,
    {
        WeComChannel { name: name.to_string(), config }
    }
}

/// Text content of an outgoing message.
#[derive(Debug, Clone)]
pub struct WeComTextContent {
    pub content: String,
}

/// Markdown content of an outgoing message.
#[derive(Debug, Clone)]
pub struct WeComMarkdownContent {
    pub content: String,
}

/// A message for the WeCom webhook.
#[derive(Debug, Clone)]
pub struct WeComOutgoingMessage {
    pub msgtype: String,
    pub agentid: u64,
    pub text: Option<WeComTextContent>,
    pub markdown: Option<WeComMarkdownContent>,
}

impl WeComOutgoingMessage {
    pub fn new_text(agent_id: u64, text: &str) -> (m: WeComOutgoingMessage)
        ensures
            m.msgtype@ == "text"@,
            m.agentid == agent_id,
            m.text matches Some(t) && t.content@ == text@,
            m.markdown is None,
    {
        WeComOutgoingMessage {
            msgtype: "text".to_string(),
            agentid: agent_id,
            text: Some(WeComTextContent { content: text.to_string() }),
            markdown: None,
        }
    }

    pub fn new_markdown(agent_id: u64, markdown: &str) -> (m: WeComOutgoingMessage)
        ensures
            m.msgtype@ == "markdown"@,
            m.agentid == agent_id,
            m.text is None,
            m.markdown matches Some(t) && t.content@ == markdown@,
    {
        WeComOutgoingMessage {
            msgtype: "markdown".to_string(),
            agentid: agent_id,
            text: None,
            markdown: Some(WeComMarkdownContent { content: markdown.to_string() }),
        }
    }
}

/// Why a WeCom message cannot be sent.
#[derive(Debug, Clone, Copy, PartialEq, Eq)]
pub enum WeComError {
    /// No webhook URL is configured.
    NoWebhookUrl,
}

/// The agent id a configuration gives: its number when it parses, else zero.
pub open spec fn configured_agent_id(c: WeComConfig) -> u64 {
    match c.agent_id {
        Some(a) => match parse_u64(a@) {
            Some(n) => n,
            None => 0,
        },
        None => 0,
    }
}

/// Where and what to post for an outgoing message: markdown stays markdown, anything else goes
/// as text.
pub fn plan_send(config: &WeComConfig, msg: &SendMessage) -> (r: Result<(String, WeComOutgoingMessage), WeComError>)
    ensures
        config.webhook_url is None ==> r == Err::<(String, WeComOutgoingMessage), WeComError>(
            WeComError::NoWebhookUrl,
        ),
        config.webhook_url matches Some(url) ==> (r matches Ok((u, m)) && u == url && m.agentid
            == configured_agent_id(*config) && match msg.content {
            OutgoingContent::Text(t) => m.msgtype@ == "text"@ && (m.text matches Some(x)
                && x.content@ == t@),
            OutgoingContent::Formatted(f) => if f.format == MessageFormat::Markdown {
                m.msgtype@ == "markdown"@ && (m.markdown matches Some(x) && x.content@ == f.body@)
            } else {
                m.msgtype@ == "text"@ && (m.text matches Some(x) && x.content@ == f.body@)
            },
        }),
{
    let url = match &config.webhook_url {
        Some(u) => u.clone(),
        None => {
            return Err(WeComError::NoWebhookUrl);
        },
    };
    let agent_id = match &config.agent_id {
        Some(a) => match parse_u64_str(a.as_str()) {
            Some(n) => n,
            None => 0,
        },
        None => 0,
    };
    let m = match &msg.content {
        OutgoingContent::Text(t) => WeComOutgoingMessage::new_text(agent_id, t.as_str()),
        OutgoingContent::Formatted(f) => {
            if f.format == MessageFormat::Markdown {
                WeComOutgoingMessage::new_markdown(agent_id, f.body.as_str())
            } else {
                WeComOutgoingMessage::new_text(agent_id, f.body.as_str())
            }
        },
    };
    Ok((url, m))
}

/// The raw form kept with a received message: its fields as a JSON object.
pub open spec fn incoming_raw_model(m: WeComIncomingMessage) -> JsonModel {
    JsonModel::Object(
        seq![
            ("agent_id"@, JsonModel::Number(decimal(m.agent_id as nat))),
            ("chat_id"@, match m.chat_id {
                Some(c) => JsonModel::Str(c@),
                None => JsonModel::Null,
            }),
            ("content"@, JsonModel::Str(m.content@)),
            ("create_time"@, JsonModel::Number(decimal(m.create_time as nat))),
            ("from_username"@, JsonModel::Str(m.from_username@)),
            ("msg_id"@, match m.msg_id {
                Some(c) => JsonModel::Str(c@),
                None => JsonModel::Null,
            }),
            ("msg_type"@, JsonModel::Str(m.msg_type@)),
            ("toUsername"@, match m.to_username {
                Some(c) => JsonModel::Str(c@),
                None => JsonModel::Null,
            }),
        ],
    )
}

/// A received message as a channel message at time `now`; without an id of its own it gets a
/// fresh one.
pub fn incoming_message(message: &WeComIncomingMessage, channel_name: &str, now: i64) -> (r: ChannelMessage)
    ensures
        match message.msg_id {
            Some(id) => r.id == id,
            None => v4_uuid_text(r.id@),
        },
        r.channel_name@ == channel_name@,
        r.channel_id@ == (match message.chat_id {
            Some(c) => c@,
            None => Seq::empty(),
        }),
        r.sender.user_id == message.from_username,
        r.sender.username == message.from_username,
        r.sender.display_name is None,
        !r.sender.is_bot,
        r.content.text == message.content,
        r.content.mentions@.len() == 0,
        r.content.attachments@.len() == 0,
        r.timestamp == now,
        r.thread_id is None,
        r.mentions_bot,
        json_model(r.raw) == incoming_raw_model(*message),
{
    let id = match &message.msg_id {
        Some(i) => i.clone(),
        None => new_message_id(),
    };
    let mut entries: Vec<(String, JsonValue)> = Vec::new();
    entries.push(("agent_id".to_string(), JsonValue::Number(u64_to_decimal(message.agent_id))));
    entries.push(("chat_id".to_string(), jopt_string(&message.chat_id)));
    entries.push(("content".to_string(), jstring(message.content.as_str())));
    entries.push(("create_time".to_string(), JsonValue::Number(u64_to_decimal(message.create_time))));
    entries.push(("from_username".to_string(), jstring(message.from_username.as_str())));
    entries.push(("msg_id".to_string(), jopt_string(&message.msg_id)));
    entries.push(("msg_type".to_string(), jstring(message.msg_type.as_str())));
    entries.push(("toUsername".to_string(), jopt_string(&message.to_username)));
    let raw = jobject(entries);
    proof {
        if let JsonModel::Object(want) = incoming_raw_model(*message) {
            assert(entry_models(entries@) =~= want);
        }
    }
    ChannelMessage {
        id,
        channel_name: channel_name.to_string(),
        channel_id: match &message.chat_id {
            Some(c) => c.clone(),
            None => String::new(),
        },
        sender: SenderInfo {
            user_id: message.from_username.clone(),
            username: message.from_username.clone(),
            display_name: None,
            is_bot: false,
        },
        content: MessageContent { text: message.content.clone(), mentions: Vec::new(), attachments: Vec::new() },
        timestamp: now,
        thread_id: None,
        mentions_bot: true,
        raw,
    }
}

} // verus!
