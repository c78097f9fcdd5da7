//! Feishu (Lark): the messages and cards the bot sends, and how the messages it receives become
//! channel messages.

use crate::agent::context::copy_opt_string;
use crate::json::{
    entry_models, jarray, jobject, jopt_string, json_get, json_index, json_model, json_str, json_text, jstring, models,
    or_null, parse_json, parsed_json, str_in, str_view, to_json_string, JsonModel, JsonValue,
};
use crate::text::{push_str, str_eq};
use crate::types::channel::{
    ChannelMessage, Mention, MentionType, MessageContent, MessageFormat, OutgoingContent, SendMessage, SenderInfo,
};
use vstd::prelude::*;

verus! {

/// A card moves from thinking to executing to complete.
#[derive(Debug, Clone, Copy, PartialEq, Eq, Structural)]
pub enum CardStatus {
    Thinking,
    Executing,
    Complete,
}

/// A progress line shown while executing: an icon (✓, ⟳ or ✗) and its text.
#[derive(Debug, Clone)]
pub struct ProgressStep {
    pub icon: String,
    pub text: String,
}

/// A markdown element.
pub open spec fn md_model(content: Seq<char>) -> JsonModel {
    JsonModel::Object(seq![("content"@, JsonModel::Str(content)), ("tag"@, JsonModel::Str("markdown"@))])
}

/// A rule element.
pub open spec fn hr_model() -> JsonModel {
    JsonModel::Object(seq![("tag"@, JsonModel::Str("hr"@))])
}

/// A wide-screen card with the given elements.
pub open spec fn card_model(elements: Seq<JsonModel>) -> JsonModel {
    JsonModel::Object(
        seq![
            ("config"@, JsonModel::Object(seq![("wide_screen_mode"@, JsonModel::Bool(true))])),
            ("elements"@, JsonModel::Array(elements)),
        ],
    )
}

fn entry(key: &str, value: JsonValue) -> (e: (String, JsonValue))
    ensures
        e.0@ == key@,
        e.1 == value,
{
    (key.to_string(), value)
}

fn markdown_element(content: &str) -> (v: JsonValue)
    ensures
        json_model(v) == md_model(content@),
{
    let mut entries: Vec<(String, JsonValue)> = Vec::new();
    entries.push(entry("content", jstring(content)));
    entries.push(entry("tag", jstring("markdown")));
    let v = jobject(entries);
    assert(entry_models(entries@) =~= seq![("content"@, JsonModel::Str(content@)), ("tag"@, JsonModel::Str("markdown"@))]);
    v
}

fn hr_element() -> (v: JsonValue)
    ensures
        json_model(v) == hr_model(),
{
    let mut entries: Vec<(String, JsonValue)> = Vec::new();
    entries.push(entry("tag", jstring("hr")));
    let v = jobject(entries);
    assert(entry_models(entries@) =~= seq![("tag"@, JsonModel::Str("hr"@))]);
    v
}

fn card(elements: Vec<JsonValue>) -> (v: JsonValue)
    ensures
        json_model(v) == card_model(models(elements@)),
{
    let mut config: Vec<(String, JsonValue)> = Vec::new();
    config.push(entry("wide_screen_mode", JsonValue::Bool(true)));
    let c = jobject(config);
    assert(entry_models(config@) =~= seq![("wide_screen_mode"@, JsonModel::Bool(true))]);
    let e = jarray(elements);
    let mut entries: Vec<(String, JsonValue)> = Vec::new();
    entries.push(entry("config", c));
    entries.push(entry("elements", e));
    let v = jobject(entries);
    assert(entry_models(entries@) =~= seq![
        ("config"@, JsonModel::Object(seq![("wide_screen_mode"@, JsonModel::Bool(true))])),
        ("elements"@, JsonModel::Array(models(elements@))),
    ]);
    v
}

/// The progress lines, `<icon> <text>`, one per line.
pub open spec fn steps_text(steps: Seq<ProgressStep>) -> Seq<char>
    decreases steps.len(),
{
    if steps.len() == 0 {
        Seq::empty()
    } else if steps.len() == 1 {
        steps[0].icon@ + " "@ + steps[0].text@
    } else {
        steps_text(steps.drop_last()) + "\n"@ + steps.last().icon@ + " "@ + steps.last().text@
    }
}

/// The card each status shows.
pub open spec fn status_card(s: CardStatus, steps: Seq<ProgressStep>) -> JsonModel {
    match s {
        CardStatus::Thinking => card_model(
            seq![md_model("**🤖 AIOps Bot** 正在思考..."@), hr_model(), md_model("░░░░░░░░░░░░░░░░  思考中"@)],
        ),
        CardStatus::Executing => card_model(
            seq![
                md_model("**🤖 AIOps Bot** 执行中"@),
                hr_model(),
                md_model(steps_text(steps)),
                hr_model(),
                md_model("░░░░░░░░░░░░░░░░  处理中"@),
            ],
        ),
        CardStatus::Complete => card_model(seq![md_model("**🤖 AIOps Bot** ✅ 完成"@)]),
    }
}

fn join_steps(steps: &Vec<ProgressStep>) -> (r: String)
    ensures
        r@ == steps_text(steps@),
{
    let mut s = String::new();
    let mut i: usize = 0;
    while i < steps.len()
        invariant
            i <= steps@.len(),
            s@ == steps_text(steps@.take(i as int)),
        decreases steps.len() - i,
    {
        assert(steps@.take(i + 1).drop_last() =~= steps@.take(i as int));
        if i > 0 {
            push_str(&mut s, "\n");
        }
        push_str(&mut s, steps[i].icon.as_str());
        push_str(&mut s, " ");
        push_str(&mut s, steps[i].text.as_str());
        assert(s@ =~= steps_text(steps@.take(i + 1)));
        i = i + 1;
    }
    assert(steps@.take(i as int) =~= steps@);
    s
}

impl CardStatus {
    /// The card for this status; the progress lines show while executing.
    pub fn render_card(&self, progress_lines: &Vec<ProgressStep>) -> (v: JsonValue)
        ensures
            json_model(v) == status_card(*self, progress_lines@),
    {
        match self {
            CardStatus::Thinking => self.render_thinking_card(),
            CardStatus::Executing => self.render_executing_card(progress_lines),
            CardStatus::Complete => self.render_complete_card(),
        }
    }

    pub fn render_thinking_card(&self) -> (v: JsonValue)
        ensures
            json_model(v) == status_card(CardStatus::Thinking, Seq::empty()),
    {
        let mut els: Vec<JsonValue> = Vec::new();
        els.push(markdown_element("**🤖 AIOps Bot** 正在思考..."));
        els.push(hr_element());
        els.push(markdown_element("░░░░░░░░░░░░░░░░  思考中"));
        let v = card(els);
        assert(models(els@) =~= seq![md_model("**🤖 AIOps Bot** 正在思考..."@), hr_model(), md_model("░░░░░░░░░░░░░░░░  思考中"@)]);
        v
    }

    pub fn render_executing_card(&self, steps: &Vec<ProgressStep>) -> (v: JsonValue)
        ensures
            json_model(v) == status_card(CardStatus::Executing, steps@),
    {
        let steps_md = join_steps(steps);
        let mut els: Vec<JsonValue> = Vec::new();
        els.push(markdown_element("**🤖 AIOps Bot** 执行中"));
        els.push(hr_element());
        els.push(markdown_element(steps_md.as_str()));
        els.push(hr_element());
        els.push(markdown_element("░░░░░░░░░░░░░░░░  处理中"));
        let v = card(els);
        assert(models(els@) =~= seq![
            md_model("**🤖 AIOps Bot** 执行中"@),
            hr_model(),
            md_model(steps_text(steps@)),
            hr_model(),
            md_model("░░░░░░░░░░░░░░░░  处理中"@),
        ]);
        v
    }

    pub fn render_complete_card(&self) -> (v: JsonValue)
        ensures
            json_model(v) == status_card(CardStatus::Complete, Seq::empty()),
    {
        let mut els: Vec<JsonValue> = Vec::new();
        els.push(markdown_element("**🤖 AIOps Bot** ✅ 完成"));
        let v = card(els);
        assert(models(els@) =~= seq![md_model("**🤖 AIOps Bot** ✅ 完成"@)]);
        v
    }
}

/// A card with a title line and a body.
pub open spec fn result_card(title: Seq<char>, body: Seq<char>) -> JsonModel {
    card_model(seq![md_model("**🤖 AIOps Bot** "@ + title), hr_model(), md_model(body)])
}

pub fn build_result_card(title: &str, body: &str) -> (v: JsonValue)
    ensures
        json_model(v) == result_card(title@, body@),
{
    let mut head = String::new();
    push_str(&mut head, "**🤖 AIOps Bot** ");
    push_str(&mut head, title);
    let mut els: Vec<JsonValue> = Vec::new();
    els.push(markdown_element(head.as_str()));
    els.push(hr_element());
    els.push(markdown_element(body));
    let v = card(els);
    assert(models(els@) =~= seq![md_model("**🤖 AIOps Bot** "@ + title@), hr_model(), md_model(body@)]);
    v
}

/// A message for Feishu's send API.
#[derive(Debug, Clone)]
pub struct FeishuOutgoingMessage {
    pub receive_id: String,
    pub receive_id_type: String,
    pub msg_type: String,
    pub content: String,
}

/// `{"text": <text>}`.
pub open spec fn text_content_model(text: Seq<char>) -> JsonModel {
    JsonModel::Object(seq![("text"@, JsonModel::Str(text))])
}

impl FeishuOutgoingMessage {
    /// A text message to an open id; its content is the JSON `{"text": ...}`.
    pub fn new_text(recipient: &str, text: &str) -> (m: FeishuOutgoingMessage)
        ensures
            m.receive_id@ == recipient@,
            m.receive_id_type@ == "open_id"@,
            m.msg_type@ == "text"@,
            m.content@ == json_text(text_content_model(text@)),
    {
        let mut entries: Vec<(String, JsonValue)> = Vec::new();
        entries.push(entry("text", jstring(text)));
        let v = jobject(entries);
        assert(entry_models(entries@) =~= seq![("text"@, JsonModel::Str(text@))]);
        FeishuOutgoingMessage {
            receive_id: recipient.to_string(),
            receive_id_type: "open_id".to_string(),
            msg_type: "text".to_string(),
            content: to_json_string(&v),
        }
    }

    /// An interactive card holding the markdown, to an open id.
    pub fn new_markdown(recipient: &str, markdown: &str) -> (m: FeishuOutgoingMessage)
        ensures
            m.receive_id@ == recipient@,
            m.receive_id_type@ == "open_id"@,
            m.msg_type@ == "interactive"@,
            m.content@ == json_text(card_model(seq![md_model(markdown@)])),
    {
        let mut els: Vec<JsonValue> = Vec::new();
        els.push(markdown_element(markdown));
        let v = card(els);
        assert(models(els@) =~= seq![md_model(markdown@)]);
        FeishuOutgoingMessage {
            receive_id: recipient.to_string(),
            receive_id_type: "open_id".to_string(),
            msg_type: "interactive".to_string(),
            content: to_json_string(&v),
        }
    }
}

/// Who sent a polled message.
#[derive(Debug, Clone)]
pub struct LongPollSenderId {
    pub open_id: String,
    pub union_id: Option<String>,
}

#[derive(Debug, Clone)]
pub struct LongPollSender {
    pub sender_id: LongPollSenderId,
    pub sender_type: String,
}

/// A message fetched by polling.
#[derive(Debug, Clone)]
pub struct LongPollMessage {
    pub message_id: String,
    pub root_id: Option<String>,
    pub parent_id: Option<String>,
    pub create_time: String,
    pub chat_id: String,
    pub chat_type: String,
    pub sender: Option<LongPollSender>,
    pub message_type: String,
    pub content: String,
}

/// An item of the list-messages API.
#[derive(Debug, Clone)]
pub struct ListMessageItem {
    pub message_id: String,
    pub root_id: Option<String>,
    pub parent_id: Option<String>,
    pub create_time: String,
    pub chat_id: String,
    pub chat_type: String,
    pub msg_type: String,
    pub body: ListMessageBody,
    pub sender: Option<ListMessageSender>,
}

#[derive(Debug, Clone)]
pub struct ListMessageBody {
    pub content: String,
}

#[derive(Debug, Clone)]
pub struct ListMessageSender {
    pub id: String,
    pub id_type: String,
    pub sender_type: String,
}

/// A listed message as a polled one: the sender's id becomes its open id.
pub fn list_item_to_long_poll(m: ListMessageItem) -> (r: LongPollMessage)
    ensures
        r.message_id == m.message_id,
        r.root_id == m.root_id,
        r.parent_id == m.parent_id,
        r.create_time == m.create_time,
        r.chat_id == m.chat_id,
        r.chat_type == m.chat_type,
        r.message_type == m.msg_type,
        r.content == m.body.content,
        match m.sender {
            Some(s) => r.sender matches Some(t) && t.sender_id.open_id == s.id && t.sender_id.union_id is None
                && t.sender_type == s.sender_type,
            None => r.sender is None,
        },
{
    let sender = match m.sender {
        Some(s) => Some(
            LongPollSender {
                sender_id: LongPollSenderId { open_id: s.id, union_id: None },
                sender_type: s.sender_type,
            },
        ),
        None => None,
    };
    LongPollMessage {
        message_id: m.message_id,
        root_id: m.root_id,
        parent_id: m.parent_id,
        create_time: m.create_time,
        chat_id: m.chat_id,
        chat_type: m.chat_type,
        message_type: m.msg_type,
        content: m.body.content,
        sender,
    }
}

/// The text of a message's JSON content: its `text` string, empty when there is none.
pub open spec fn content_text(content: JsonValue) -> Seq<char> {
    match json_str(json_index(content, "text"@)) {
        Some(t) => t,
        None => Seq::empty(),
    }
}

/// The sender as the agent sees it; an unknown sender when there is none.
pub open spec fn sender_ok(s: SenderInfo, open_id: Option<(Seq<char>, Seq<char>)>) -> bool {
    match open_id {
        Some((id, kind)) => s.user_id@ == id && s.username@ == id && s.display_name is None
            && s.is_bot == (kind == "bot"@),
        None => s.user_id@ == "unknown"@ && s.username@ == "unknown"@ && s.display_name is None
            && !s.is_bot,
    }
}

fn sender_info(s: Option<(&String, &String)>) -> (r: SenderInfo)
    ensures
        sender_ok(
            r,
            match s {
                Some((id, kind)) => Some((id@, kind@)),
                None => None,
            },
        ),
{
    match s {
        Some((id, kind)) => SenderInfo {
            user_id: id.clone(),
            username: id.clone(),
            display_name: None,
            is_bot: str_eq(kind.as_str(), "bot"),
        },
        None => SenderInfo {
            user_id: "unknown".to_string(),
            username: "unknown".to_string(),
            display_name: None,
            is_bot: false,
        },
    }
}

/// The raw form kept with a polled message: its fields as a JSON object.
pub open spec fn poll_raw_model(msg: LongPollMessage) -> JsonModel {
    JsonModel::Object(
        seq![
            ("chat_id"@, JsonModel::Str(msg.chat_id@)),
            ("chat_type"@, JsonModel::Str(msg.chat_type@)),
            ("content"@, JsonModel::Str(msg.content@)),
            ("create_time"@, JsonModel::Str(msg.create_time@)),
            ("message_id"@, JsonModel::Str(msg.message_id@)),
            ("message_type"@, JsonModel::Str(msg.message_type@)),
            ("parent_id"@, match msg.parent_id {
                Some(p) => JsonModel::Str(p@),
                None => JsonModel::Null,
            }),
            ("root_id"@, match msg.root_id {
                Some(p) => JsonModel::Str(p@),
                None => JsonModel::Null,
            }),
        ],
    )
}

/// A polled message as a channel message at time `now`: `None` when its content is not JSON.
/// The reply thread is the parent, else the root.
pub fn convert_long_poll_message(msg: LongPollMessage, now: i64) -> (r: Option<ChannelMessage>)
    ensures
        parsed_json(msg.content@) is None ==> r is None,
        parsed_json(msg.content@) matches Some(c) ==> (r matches Some(m) && m.id == msg.message_id
            && m.channel_name@ == "feishu"@ && m.channel_id == msg.chat_id && sender_ok(
            m.sender,
            match msg.sender {
                Some(s) => Some((s.sender_id.open_id@, s.sender_type@)),
                None => None,
            },
        ) && m.content.text@ == content_text(c) && m.content.mentions@.len() == 0
            && m.content.attachments@.len() == 0 && m.timestamp == now && m.thread_id == (
        match msg.parent_id {
            Some(p) => Some(p),
            None => msg.root_id,
        }) && m.mentions_bot && json_model(m.raw) == poll_raw_model(msg)),
{
    let content = match parse_json(msg.content.as_str()) {
        Some(c) => c,
        None => {
            return None;
        },
    };
    let text = match str_in(crate::json::index_in(Some(&content), "text")) {
        Some(t) => t,
        None => String::new(),
    };
    let sender = match &msg.sender {
        Some(s) => sender_info(Some((&s.sender_id.open_id, &s.sender_type))),
        None => sender_info(None),
    };
    let thread_id = match &msg.parent_id {
        Some(p) => Some(p.clone()),
        None => copy_opt_string(&msg.root_id),
    };
    let mut entries: Vec<(String, JsonValue)> = Vec::new();
    entries.push(entry("chat_id", jstring(msg.chat_id.as_str())));
    entries.push(entry("chat_type", jstring(msg.chat_type.as_str())));
    entries.push(entry("content", jstring(msg.content.as_str())));
    entries.push(entry("create_time", jstring(msg.create_time.as_str())));
    entries.push(entry("message_id", jstring(msg.message_id.as_str())));
    entries.push(entry("message_type", jstring(msg.message_type.as_str())));
    entries.push(entry("parent_id", jopt_string(&msg.parent_id)));
    entries.push(entry("root_id", jopt_string(&msg.root_id)));
    let raw = jobject(entries);
    proof {
        if let JsonModel::Object(want) = poll_raw_model(msg) {
            assert(entry_models(entries@) =~= want);
        }
    }
    Some(
        ChannelMessage {
            id: msg.message_id.clone(),
            channel_name: "feishu".to_string(),
            channel_id: msg.chat_id.clone(),
            sender,
            content: MessageContent { text, mentions: Vec::new(), attachments: Vec::new() },
            timestamp: now,
            thread_id,
            mentions_bot: true,
            raw,
        },
    )
}

/// A Feishu event callback.
#[derive(Debug, Clone)]
pub struct FeishuEvent {
    pub schema: Option<String>,
    pub header: FeishuEventHeader,
    pub event: FeishuEventContent,
}

#[derive(Debug, Clone)]
pub struct FeishuEventHeader {
    pub event_id: String,
    pub event_type: String,
    pub create_time: String,
    pub token: String,
    pub app_id: String,
    pub tenant_key: String,
}

#[derive(Debug, Clone)]
pub struct FeishuEventContent {
    pub sender: Option<FeishuSender>,
    pub message: Option<FeishuMessage>,
    pub mentions: Option<Vec<FeishuMention>>,
}

#[derive(Debug, Clone)]
pub struct FeishuSender {
    pub sender_id: FeishuSenderId,
    pub sender_type: String,
    pub tenant_key: String,
}

#[derive(Debug, Clone)]
pub struct FeishuSenderId {
    pub open_id: String,
    pub union_id: Option<String>,
    pub user_id: Option<String>,
}

#[derive(Debug, Clone)]
pub struct FeishuMessage {
    pub message_id: String,
    pub root_id: Option<String>,
    pub parent_id: Option<String>,
    pub create_time: String,
    pub chat_id: String,
    pub chat_type: String,
    pub message_type: String,
    pub content: String,
}

#[derive(Debug, Clone)]
pub struct FeishuMention {
    pub key: String,
    pub id: FeishuMentionId,
    pub mention_type: String,
}

#[derive(Debug, Clone)]
pub struct FeishuMentionId {
    pub open_id: Option<String>,
    pub user_id: Option<String>,
    pub chat_id: Option<String>,
}

/// The kind a mention's type names; anything unknown is a channel mention.
pub open spec fn mention_kind(t: Seq<char>) -> MentionType {
    if t == "at"@ {
        MentionType::User
    } else if t == "here"@ {
        MentionType::Here
    } else {
        MentionType::Channel
    }
}

pub open spec fn mention_ok(m: Mention, f: FeishuMention) -> bool {
    &&& m.id@ == (match f.id.open_id {
        Some(o) => o@,
        None => Seq::empty(),
    })
    &&& m.name == f.key
    &&& m.mention_type == mention_kind(f.mention_type@)
}

/// The raw form kept with an event's message: its fields as a JSON object.
pub open spec fn message_raw_model(msg: FeishuMessage) -> JsonModel {
    JsonModel::Object(
        seq![
            ("chat_id"@, JsonModel::Str(msg.chat_id@)),
            ("chat_type"@, JsonModel::Str(msg.chat_type@)),
            ("content"@, JsonModel::Str(msg.content@)),
            ("create_time"@, JsonModel::Str(msg.create_time@)),
            ("message_id"@, JsonModel::Str(msg.message_id@)),
            ("message_type"@, JsonModel::Str(msg.message_type@)),
            ("parent_id"@, match msg.parent_id {
                Some(p) => JsonModel::Str(p@),
                None => JsonModel::Null,
            }),
            ("root_id"@, match msg.root_id {
                Some(p) => JsonModel::Str(p@),
                None => JsonModel::Null,
            }),
        ],
    )
}

/// Why an event could not be forwarded.
#[derive(Debug, Clone, Copy, PartialEq, Eq)]
pub enum EventError {
    /// The message content is not JSON.
    InvalidContent,
}

fn convert_mention(f: &FeishuMention) -> (m: Mention)
    ensures
        mention_ok(m, *f),
{
    let id = match &f.id.open_id {
        Some(o) => o.clone(),
        None => String::new(),
    };
    let t = f.mention_type.as_str();
    let kind = if str_eq(t, "at") {
        MentionType::User
    } else if str_eq(t, "here") {
        MentionType::Here
    } else {
        MentionType::Channel
    };
    Mention { id, name: f.key.clone(), mention_type: kind }
}

/// The channel message an event carries, received at `now` on the named channel: none when
/// the event has no message; an error when its content is not JSON.
pub fn event_message(event: &FeishuEvent, channel_name: &str, now: i64) -> (r: Result<
    Option<ChannelMessage>,
    EventError,
>)
    ensures
        event.event.message is None ==> r == Ok::<Option<ChannelMessage>, EventError>(None),
        event.event.message matches Some(msg) ==> match parsed_json(msg.content@) {
            None => r == Err::<Option<ChannelMessage>, EventError>(EventError::InvalidContent),
            Some(c) => r matches Ok(Some(m)) && m.id == msg.message_id && m.channel_name@
                == channel_name@ && m.channel_id == msg.chat_id && sender_ok(
                m.sender,
                match event.event.sender {
                    Some(s) => Some((s.sender_id.open_id@, s.sender_type@)),
                    None => None,
                },
            ) && m.content.text@ == content_text(c) && m.content.attachments@.len() == 0
                && m.content.mentions@.len() == (match event.event.mentions {
                Some(ms) => ms@.len(),
                None => 0,
            }) && (forall|i: int|
                0 <= i < m.content.mentions@.len() ==> mention_ok(
                    #[trigger] m.content.mentions@[i],
                    event.event.mentions.unwrap()@[i],
                )) && m.timestamp == now && m.thread_id == (match msg.parent_id {
                Some(p) => Some(p),
                None => msg.root_id,
            }) && m.mentions_bot && json_model(m.raw) == message_raw_model(msg),
        },
{
    let msg = match &event.event.message {
        Some(m) => m,
        None => {
            return Ok(None);
        },
    };
    let content = match parse_json(msg.content.as_str()) {
        Some(c) => c,
        None => {
            return Err(EventError::InvalidContent);
        },
    };
    let text = match str_in(crate::json::index_in(Some(&content), "text")) {
        Some(t) => t,
        None => String::new(),
    };
    let sender = match &event.event.sender {
        Some(s) => sender_info(Some((&s.sender_id.open_id, &s.sender_type))),
        None => sender_info(None),
    };
    let mut mentions: Vec<Mention> = Vec::new();
    match &event.event.mentions {
        Some(ms) => {
            let mut i: usize = 0;
            while i < ms.len()
                invariant
                    i <= ms@.len(),
                    mentions@.len() == i,
                    forall|j: int| 0 <= j < i ==> mention_ok(#[trigger] mentions@[j], ms@[j]),
                decreases ms.len() - i,
            {
                mentions.push(convert_mention(&ms[i]));
                i = i + 1;
            }
        },
        None => {},
    }
    let thread_id = match &msg.parent_id {
        Some(p) => Some(p.clone()),
        None => copy_opt_string(&msg.root_id),
    };
    let mut entries: Vec<(String, JsonValue)> = Vec::new();
    entries.push(entry("chat_id", jstring(msg.chat_id.as_str())));
    entries.push(entry("chat_type", jstring(msg.chat_type.as_str())));
    entries.push(entry("content", jstring(msg.content.as_str())));
    entries.push(entry("create_time", jstring(msg.create_time.as_str())));
    entries.push(entry("message_id", jstring(msg.message_id.as_str())));
    entries.push(entry("message_type", jstring(msg.message_type.as_str())));
    entries.push(entry("parent_id", jopt_string(&msg.parent_id)));
    entries.push(entry("root_id", jopt_string(&msg.root_id)));
    let raw = jobject(entries);
    proof {
        if let JsonModel::Object(want) = message_raw_model(*msg) {
            assert(entry_models(entries@) =~= want);
        }
    }
    Ok(
        Some(
            ChannelMessage {
                id: msg.message_id.clone(),
                channel_name: channel_name.to_string(),
                channel_id: msg.chat_id.clone(),
                sender,
                content: MessageContent { text, mentions, attachments: Vec::new() },
                timestamp: now,
                thread_id,
                mentions_bot: true,
                raw,
            },
        ),
    )
}

/// The API call that delivers an outgoing message.
#[derive(Debug)]
pub enum FeishuDelivery {
    /// Replace the text of an existing message.
    UpdateText { message_id: String, text: String },
    /// Replace an existing message with a card.
    UpdateCard { message_id: String, card: JsonValue },
    /// Send a new text message.
    SendText { recipient: String, text: String },
    /// Send a new card.
    SendCard { recipient: String, card: JsonValue },
}

/// How a message is delivered: a message with an id updates that message, one without is
/// sent anew; markdown and plain text go in a result card titled "✅ 完成", HTML and text as
/// text.
pub fn plan_delivery(msg: &SendMessage) -> (d: FeishuDelivery)
    ensures
        match msg.id {
            Some(id) => match msg.content {
                OutgoingContent::Text(t) => d matches FeishuDelivery::UpdateText { message_id, text }
                    && message_id == id && text == t,
                OutgoingContent::Formatted(f) => if f.format == MessageFormat::Html {
                    d matches FeishuDelivery::UpdateText { message_id, text } && message_id == id
                        && text == f.body
                } else {
                    d matches FeishuDelivery::UpdateCard { message_id, card } && message_id == id
                        && json_model(card) == result_card("✅ 完成"@, f.body@)
                },
            },
            None => match msg.content {
                OutgoingContent::Text(t) => d matches FeishuDelivery::SendText { recipient, text }
                    && recipient == msg.recipient && text == t,
                OutgoingContent::Formatted(f) => if f.format == MessageFormat::Html {
                    d matches FeishuDelivery::SendText { recipient, text } && recipient
                        == msg.recipient && text == f.body
                } else {
                    d matches FeishuDelivery::SendCard { recipient, card } && recipient
                        == msg.recipient && json_model(card) == result_card("✅ 完成"@, f.body@)
                },
            },
        },
{
    match &msg.id {
        Some(id) => match &msg.content {
            OutgoingContent::Text(t) => FeishuDelivery::UpdateText { message_id: id.clone(), text: t.clone() },
            OutgoingContent::Formatted(f) => {
                if f.format == MessageFormat::Html {
                    FeishuDelivery::UpdateText { message_id: id.clone(), text: f.body.clone() }
                } else {
                    FeishuDelivery::UpdateCard {
                        message_id: id.clone(),
                        card: build_result_card("✅ 完成", f.body.as_str()),
                    }
                }
            },
        },
        None => match &msg.content {
            OutgoingContent::Text(t) => FeishuDelivery::SendText { recipient: msg.recipient.clone(), text: t.clone() },
            OutgoingContent::Formatted(f) => {
                if f.format == MessageFormat::Html {
                    FeishuDelivery::SendText { recipient: msg.recipient.clone(), text: f.body.clone() }
                } else {
                    FeishuDelivery::SendCard {
                        recipient: msg.recipient.clone(),
                        card: build_result_card("✅ 完成", f.body.as_str()),
                    }
                }
            },
        },
    }
}

} // verus!
