//! The local channel: a console reading one message per line, or WebSocket peers.

use crate::config::schema::{LocalChannelMode, LocalConfig};
use crate::json::{json_model, json_text, to_json_string, JsonModel, JsonValue};
use crate::text::{char_count, push_str, to_chars, from_chars, trim, trim_str};
use crate::types::channel::{
    new_message_id, v4_uuid_text, ChannelMessage, MessageContent, OutgoingContent, SendMessage, SenderInfo,
};
use vstd::prelude::*;

verus! {

/// A message typed by a local user: fresh id, the user as sender, no raw form but `{}`.
pub open spec fn local_message_ok(m: ChannelMessage, channel: Seq<char>, channel_id: Seq<char>, user: Seq<char>, text: Seq<char>, now: i64) -> bool {
    &&& v4_uuid_text(m.id@)
    &&& m.channel_name@ == channel
    &&& m.channel_id@ == channel_id
    &&& m.sender.user_id@ == user
    &&& m.sender.username@ == user
    &&& m.sender.display_name is None
    &&& !m.sender.is_bot
    &&& m.content.text@ == text
    &&& m.content.mentions@.len() == 0
    &&& m.content.attachments@.len() == 0
    &&& m.timestamp == now
    &&& m.thread_id is None
    &&& m.mentions_bot
    &&& json_model(m.raw) == JsonModel::Object(Seq::empty())
}

fn local_message(channel: &str, channel_id: &str, user: &str, text: &str, now: i64) -> (m: ChannelMessage)
    ensures
        local_message_ok(m, channel@, channel_id@, user@, text@, now),
{
    let raw = JsonValue::Object(Vec::new());
    assert(json_model(raw) == JsonModel::Object(Seq::empty())) by {
        if let JsonModel::Object(s) = json_model(raw) {
            assert(s =~= Seq::<(Seq<char>, JsonModel)>::empty());
        }
    }
    ChannelMessage {
        id: new_message_id(),
        channel_name: channel.to_string(),
        channel_id: channel_id.to_string(),
        sender: SenderInfo {
            user_id: user.to_string(),
            username: user.to_string(),
            display_name: None,
            is_bot: false,
        },
        content: MessageContent { text: text.to_string(), mentions: Vec::new(), attachments: Vec::new() },
        timestamp: now,
        thread_id: None,
        mentions_bot: true,
        raw,
    }
}

/// The local channel.
pub struct LocalChannel {
    pub name: String,
    pub config: LocalConfig,
}

impl LocalChannel {
    pub fn new(name: &str, config: LocalConfig) -> (c: LocalChannel)
        ensures
            c.name@ == name@,
            c.config == config,
    {
        LocalChannel { name: name.to_string(), config }
    }

    /// A console message; the sender is the login user when known, else `local`.
    pub fn build_message(&self, channel_id: &str, text: &str, login_user: Option<String>, now: i64) -> (m: ChannelMessage)
        ensures
            local_message_ok(
                m,
                self.name@,
                channel_id@,
                match login_user {
                    Some(u) => u@,
                    None => "local"@,
                },
                text@,
                now,
            ),
    {
        let user = match login_user {
            Some(u) => u,
            None => "local".to_string(),
        };
        local_message(self.name.as_str(), channel_id, user.as_str(), text, now)
    }
}

/// Builds messages from WebSocket peers of one channel.
#[derive(Clone)]
pub struct LocalMessageBuilder {
    pub channel_key: String,
}

impl LocalMessageBuilder {
    /// A peer's message: the peer is the channel id and, as `ws:<peer>`, the sender.
    pub fn build(&self, peer_id: &str, text: &str, now: i64) -> (m: ChannelMessage)
        ensures
            local_message_ok(m, self.channel_key@, peer_id@, "ws:"@ + peer_id@, text@, now),
    {
        let mut user = String::new();
        push_str(&mut user, "ws:");
        push_str(&mut user, peer_id);
        local_message(self.channel_key.as_str(), peer_id, user.as_str(), text, now)
    }
}

/// A console line without its line ending (any trailing `\r` and `\n`).
pub open spec fn strip_line_end(s: Seq<char>) -> Seq<char>
    decreases s.len(),
{
    if s.len() > 0 && (s.last() == '\r' || s.last() == '\n') {
        strip_line_end(s.drop_last())
    } else {
        s
    }
}

/// The message a console line carries; none for an empty line.
pub fn console_line_text(line: &str) -> (r: Option<String>)
    ensures
        match r {
            Some(t) => t@ == strip_line_end(line@) && t@.len() > 0,
            None => strip_line_end(line@).len() == 0,
        },
{
    let v = to_chars(line);
    let mut end = v.len();
    assert(v@.take(end as int) =~= v@);
    while end > 0 && (v[end - 1] == '\r' || v[end - 1] == '\n')
        invariant
            end <= v@.len(),
            v@ == line@,
            strip_line_end(line@) == strip_line_end(v@.take(end as int)),
        decreases end,
    {
        assert(v@.take(end as int).drop_last() =~= v@.take(end - 1));
        end = end - 1;
    }
    assert(strip_line_end(v@.take(end as int)) == v@.take(end as int));
    if end == 0 {
        return None;
    }
    let t = crate::text::slice_chars(v.as_slice(), 0, end);
    Some(from_chars(t.as_slice()))
}

/// The message a WebSocket text frame carries, trimmed; none when blank.
pub fn frame_text(t: &str) -> (r: Option<String>)
    ensures
        match r {
            Some(x) => x@ == trim(t@) && x@.len() > 0,
            None => trim(t@).len() == 0,
        },
{
    let x = trim_str(t);
    if char_count(x.as_str()) == 0 {
        None
    } else {
        Some(x)
    }
}

/// How a reply leaves the local channel.
#[derive(Debug, Clone)]
pub enum LocalDelivery {
    /// Print `[aiclaw]`, a newline and the text on the console.
    Print(String),
    /// Send the payload to one WebSocket peer.
    SendTo { peer: String, payload: String },
    /// Send the payload to every WebSocket peer.
    Broadcast(String),
}

/// The text of an outgoing message: its text, or the body of a formatted one.
pub open spec fn outgoing_text(c: OutgoingContent) -> Seq<char> {
    match c {
        OutgoingContent::Text(t) => t@,
        OutgoingContent::Formatted(f) => f.body@,
    }
}

/// The WebSocket payload of a reply: `{"type":"assistant","text":<text>}`.
pub open spec fn assistant_payload(text_json: Seq<char>) -> Seq<char> {
    "{\"type\":\"assistant\",\"text\":"@ + text_json + "}"@
}

/// How a reply is delivered: printed on the console; over WebSocket to the peer it answers, or
/// to all peers.
pub fn plan_delivery(mode: LocalChannelMode, msg: &SendMessage) -> (d: LocalDelivery)
    ensures
        mode == LocalChannelMode::Stdio ==> (d matches LocalDelivery::Print(t) && t@ == outgoing_text(msg.content)),
        mode == LocalChannelMode::Http ==> match msg.reply_to {
            Some(p) => d matches LocalDelivery::SendTo { peer, payload } && peer == p
                && payload@ == assistant_payload(json_text(JsonModel::Str(payload_source(msg)@))),
            None => d matches LocalDelivery::Broadcast(payload) && payload@ == assistant_payload(
                json_text(JsonModel::Str(payload_source(msg)@)),
            ),
        },
{
    let text: &String = match &msg.content {
        OutgoingContent::Text(t) => t,
        OutgoingContent::Formatted(f) => &f.body,
    };
    match mode {
        LocalChannelMode::Stdio => LocalDelivery::Print(text.clone()),
        LocalChannelMode::Http => {
            let s = JsonValue::Str(text.clone());
            let quoted = to_json_string(&s);
            let mut payload = String::new();
            push_str(&mut payload, "{\"type\":\"assistant\",\"text\":");
            push_str(&mut payload, quoted.as_str());
            push_str(&mut payload, "}");
            match &msg.reply_to {
                Some(p) => LocalDelivery::SendTo { peer: p.clone(), payload },
                None => LocalDelivery::Broadcast(payload),
            }
        },
    }
}

/// The string a reply's payload carries.
pub open spec fn payload_source(msg: &SendMessage) -> String {
    match msg.content {
        OutgoingContent::Text(t) => t,
        OutgoingContent::Formatted(f) => f.body,
    }
}

} // verus!
