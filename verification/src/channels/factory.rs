//! Building the configured channels.

use crate::channels::local::LocalChannel;
use crate::channels::streaming_buffer::{StreamingBuffer, RATE_WINDOW_MS};
use crate::channels::wecom::WeComChannel;
use crate::agent::context::copy_opt_string;
use crate::config::schema::{ChannelConfig, Config, FeishuConfig, LocalConfig, WeComConfig};
use vstd::prelude::*;

verus! {

/// The Feishu channel: its configuration, the application credentials (empty unless both
/// are configured) and the buffer of streamed updates.
pub struct FeishuChannel {
    pub name: String,
    pub config: FeishuConfig,
    pub app_id: String,
    pub app_secret: String,
    pub streaming_buffer: StreamingBuffer,
}

impl FeishuChannel {
    pub fn new(name: &str, config: FeishuConfig, now_ms: u64) -> (c: FeishuChannel)
        requires
            now_ms <= u64::MAX - RATE_WINDOW_MS,
        ensures
            c.name@ == name@,
            c.config == config,
            (config.app_id is Some && config.app_secret is Some) ==> (c.app_id == config.app_id.unwrap()
                && c.app_secret == config.app_secret.unwrap()),
            !(config.app_id is Some && config.app_secret is Some) ==> (c.app_id@.len() == 0
                && c.app_secret@.len() == 0),
            c.streaming_buffer.wf(),
            forall|id: Seq<char>| #[trigger] c.streaming_buffer.pending(id) is None,
    {
        let (app_id, app_secret) = match (&config.app_id, &config.app_secret) {
            (Some(a), Some(s)) => (a.clone(), s.clone()),
            _ => (String::new(), String::new()),
        };
        let streaming_buffer = StreamingBuffer::new(now_ms);
        FeishuChannel { name: name.to_string(), config, app_id, app_secret, streaming_buffer }
    }
}

/// What a channel can do beyond sending and listening.
pub trait ChannelExt {
    fn supports_threads(&self) -> bool {
        false
    }

    fn supports_mentions(&self) -> bool {
        true
    }

    fn supports_attachments(&self) -> bool {
        false
    }
}

impl ChannelExt for FeishuChannel {
}

impl ChannelExt for WeComChannel {
}

impl ChannelExt for LocalChannel {
}

/// A configured channel.
pub enum ChannelHandle {
    Feishu(FeishuChannel),
    WeCom(WeComChannel),
    Local(LocalChannel),
}

fn copy_feishu(c: &FeishuConfig) -> (r: FeishuConfig)
    ensures
        r == *c,
{
    FeishuConfig {
        enabled: c.enabled,
        bot_name: copy_opt_string(&c.bot_name),
        verify_token: copy_opt_string(&c.verify_token),
        encrypt_key: copy_opt_string(&c.encrypt_key),
        app_id: copy_opt_string(&c.app_id),
        app_secret: copy_opt_string(&c.app_secret),
        webhook_url: copy_opt_string(&c.webhook_url),
        webhook_listen_addr: copy_opt_string(&c.webhook_listen_addr),
        polling_timeout_secs: c.polling_timeout_secs,
    }
}

fn copy_wecom(c: &WeComConfig) -> (r: WeComConfig)
    ensures
        r == *c,
{
    WeComConfig {
        enabled: c.enabled,
        corp_id: copy_opt_string(&c.corp_id),
        corp_secret: copy_opt_string(&c.corp_secret),
        agent_id: copy_opt_string(&c.agent_id),
        webhook_url: copy_opt_string(&c.webhook_url),
        webhook_listen_addr: copy_opt_string(&c.webhook_listen_addr),
    }
}

fn copy_local(c: &LocalConfig) -> (r: LocalConfig)
    ensures
        r == *c,
{
    LocalConfig { enabled: c.enabled, mode: c.mode, bind: c.bind.clone(), port: c.port }
}

/// A channel is the one an entry configures: of the entry's kind, under the entry's name,
/// holding the entry's settings.
pub open spec fn built_from(c: ChannelHandle, name: Seq<char>, config: ChannelConfig) -> bool {
    match config {
        ChannelConfig::Feishu(f) => c matches ChannelHandle::Feishu(x) && x.name@ == name && x.config
            == f,
        ChannelConfig::WeCom(w) => c matches ChannelHandle::WeCom(x) && x.name@ == name && x.config
            == w,
        ChannelConfig::Local(l) => c matches ChannelHandle::Local(x) && x.name@ == name && x.config
            == l,
    }
}

/// Builds channels from their configuration.
pub struct ChannelFactory;

impl ChannelFactory {
    /// The channel an entry configures.
    pub fn create_channel(name: &str, config: &ChannelConfig, now_ms: u64) -> (c: ChannelHandle)
        requires
            now_ms <= u64::MAX - RATE_WINDOW_MS,
        ensures
            built_from(c, name@, *config),
    {
        match config {
            ChannelConfig::Feishu(f) => ChannelHandle::Feishu(FeishuChannel::new(name, copy_feishu(f), now_ms)),
            ChannelConfig::WeCom(w) => ChannelHandle::WeCom(WeComChannel::new(name, copy_wecom(w))),
            ChannelConfig::Local(l) => ChannelHandle::Local(LocalChannel::new(name, copy_local(l))),
        }
    }

    /// Every configured channel, under its name, in order.
    pub fn create_channels(config: &Config, now_ms: u64) -> (r: Vec<(String, ChannelHandle)>)
        requires
            now_ms <= u64::MAX - RATE_WINDOW_MS,
        ensures
            r@.len() == config.channels@.len(),
            forall|i: int|
                0 <= i < r@.len() ==> (#[trigger] r@[i]).0 == config.channels@[i].0 && built_from(
                    r@[i].1,
                    config.channels@[i].0@,
                    config.channels@[i].1,
                ),
    {
        let mut r: Vec<(String, ChannelHandle)> = Vec::new();
        let mut i: usize = 0;
        while i < config.channels.len()
            invariant
                i <= config.channels@.len(),
                now_ms <= u64::MAX - RATE_WINDOW_MS,
                r@.len() == i,
                forall|j: int|
                    0 <= j < i ==> (#[trigger] r@[j]).0 == config.channels@[j].0 && built_from(
                        r@[j].1,
                        config.channels@[j].0@,
                        config.channels@[j].1,
                    ),
            decreases config.channels.len() - i,
        {
            let (name, cfg) = (&config.channels[i].0, &config.channels[i].1);
            r.push((name.clone(), Self::create_channel(name.as_str(), cfg, now_ms)));
            i = i + 1;
        }
        r
    }
}

} // verus!
