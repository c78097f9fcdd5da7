use aiclaw::channels::feishu::{
    build_result_card, event_message, plan_delivery, CardStatus, EventError, FeishuDelivery,
    FeishuEvent, FeishuEventContent, FeishuEventHeader, FeishuMessage, FeishuSender,
    FeishuSenderId,
};
use aiclaw::channels::local::{console_line_text, frame_text, LocalDelivery};
use aiclaw::channels::streaming_buffer::{BufferEntry, StreamingBuffer};
use aiclaw::channels::wecom::{plan_send, WeComError};
use aiclaw::config::schema::{LocalChannelMode, WeComConfig};
use aiclaw::feedback::{FeedbackCollector, FeedbackRecord, FeedbackType};
use aiclaw::json::to_json_string;
use aiclaw::types::channel::{OutgoingContent, SendMessage};

#[test]
fn test_thinking_card_has_content() {
    let card = CardStatus::Thinking.render_card(&vec![]);
    let s = to_json_string(&card);
    assert!(s.contains("正在思考"));
}

#[test]
fn test_complete_card_has_content() {
    let card = build_result_card("✅ 完成", "问题已解决");
    let s = to_json_string(&card);
    assert!(s.contains("完成"));
    assert!(s.contains("问题已解决"));
}

#[test]
fn appends_concatenate() {
    let mut b = StreamingBuffer::new(0);
    assert!(!b.append_text("m1", "Hel"));
    assert!(!b.append_text("m1", "lo"));
    assert!(!b.append_text("m2", "other"));
    match b.force_take_pending("m1") {
        Some(BufferEntry::Text(t)) => assert_eq!(t, "Hello"),
        _ => panic!("expected text"),
    }
    assert!(b.force_take_pending("m1").is_none());
    match b.force_take_pending("m2") {
        Some(BufferEntry::Text(t)) => assert_eq!(t, "other"),
        _ => panic!("expected text"),
    }
}

#[test]
fn append_asks_for_flush_at_size_limit() {
    let mut b = StreamingBuffer::with_limits(4, 500, 0);
    assert!(!b.append_text("m", "abc"));
    assert!(b.append_text("m", "d"));
}

#[test]
fn take_pending_waits_for_flush_interval() {
    let mut b = StreamingBuffer::new(0);
    b.append_text("m", "first");
    assert!(matches!(b.take_pending("m", 1000), Some(BufferEntry::Text(ref t)) if t == "first"));
    b.append_text("m", "second");
    // 200 ms after the last flush: too soon
    assert!(b.take_pending("m", 1200).is_none());
    assert!(matches!(b.take_pending("m", 1600), Some(BufferEntry::Text(ref t)) if t == "second"));
}

#[test]
fn feishu_delivery_updates_or_sends() {
    let mut msg = SendMessage::text("chat1", "hi");
    msg.id = Some("om_1".to_string());
    match plan_delivery(&msg) {
        FeishuDelivery::UpdateText { message_id, text } => {
            assert_eq!(message_id, "om_1");
            assert_eq!(text, "hi");
        }
        _ => panic!("expected an update"),
    }
    let md = SendMessage::markdown("chat1", "**done**");
    let mut md = md;
    md.id = None;
    match plan_delivery(&md) {
        FeishuDelivery::SendCard { recipient, card } => {
            assert_eq!(recipient, "chat1");
            let s = to_json_string(&card);
            assert!(s.contains("**done**"));
        }
        _ => panic!("expected a new card"),
    }
}

fn event_with_content(content: &str) -> FeishuEvent {
    FeishuEvent {
        schema: Some("2.0".to_string()),
        header: FeishuEventHeader {
            event_id: "e".to_string(),
            event_type: "im.message.receive_v1".to_string(),
            create_time: "0".to_string(),
            token: "t".to_string(),
            app_id: "a".to_string(),
            tenant_key: "k".to_string(),
        },
        event: FeishuEventContent {
            sender: Some(FeishuSender {
                sender_id: FeishuSenderId {
                    open_id: "ou_1".to_string(),
                    union_id: None,
                    user_id: None,
                },
                sender_type: "user".to_string(),
                tenant_key: "k".to_string(),
            }),
            message: Some(FeishuMessage {
                message_id: "om_9".to_string(),
                root_id: None,
                parent_id: None,
                create_time: "0".to_string(),
                chat_id: "oc_1".to_string(),
                chat_type: "p2p".to_string(),
                message_type: "text".to_string(),
                content: content.to_string(),
            }),
            mentions: None,
        },
    }
}

#[test]
fn feishu_event_becomes_channel_message() {
    let ev = event_with_content("{\"text\":\"show pods\"}");
    let m = event_message(&ev, "feishu", 42).unwrap().unwrap();
    assert_eq!(m.id, "om_9");
    assert_eq!(m.channel_name, "feishu");
    assert_eq!(m.channel_id, "oc_1");
    assert_eq!(m.content.text, "show pods");
}

#[test]
fn feishu_event_with_bad_content_is_an_error() {
    let ev = event_with_content("not json");
    assert_eq!(event_message(&ev, "feishu", 42).unwrap_err(), EventError::InvalidContent);
}

#[test]
fn wecom_needs_a_webhook() {
    let mut config = WeComConfig {
        enabled: true,
        corp_id: None,
        corp_secret: None,
        agent_id: Some("1000002".to_string()),
        webhook_url: None,
        webhook_listen_addr: None,
    };
    let msg = SendMessage::text("u", "hello");
    assert_eq!(plan_send(&config, &msg).unwrap_err(), WeComError::NoWebhookUrl);
    config.webhook_url = Some("https://qyapi.example/send".to_string());
    let (url, out) = plan_send(&config, &msg).unwrap();
    assert_eq!(url, "https://qyapi.example/send");
    assert_eq!(out.agentid, 1000002);
    assert_eq!(out.msgtype, "text");
    assert_eq!(out.text.unwrap().content, "hello");
}

#[test]
fn local_lines_and_frames() {
    assert_eq!(console_line_text("kubectl get pods\r\n"), Some("kubectl get pods".to_string()));
    assert_eq!(console_line_text("\n"), None);
    assert_eq!(frame_text("  hi  "), Some("hi".to_string()));
    assert_eq!(frame_text("   "), None);
}

#[test]
fn local_delivery_prints_or_sends_json() {
    let msg = SendMessage::text("peer", "say \"hi\"");
    match aiclaw::channels::local::plan_delivery(LocalChannelMode::Stdio, &msg) {
        LocalDelivery::Print(t) => assert_eq!(t, "say \"hi\""),
        _ => panic!("expected a print"),
    }
    let mut to_peer = msg.clone();
    to_peer.reply_to = Some("p1".to_string());
    match aiclaw::channels::local::plan_delivery(LocalChannelMode::Http, &to_peer) {
        LocalDelivery::SendTo { peer, payload } => {
            assert_eq!(peer, "p1");
            assert_eq!(payload, "{\"type\":\"assistant\",\"text\":\"say \\\"hi\\\"\"}");
        }
        _ => panic!("expected a send"),
    }
    match &msg.content {
        OutgoingContent::Text(t) => assert_eq!(t, "say \"hi\""),
        _ => panic!("expected text"),
    }
}

#[test]
fn test_feedback_recording() {
    let mut collector = FeedbackCollector::new();
    let feedback = FeedbackRecord::new(
        "session1",
        "user1",
        1,
        FeedbackType::ThumbsUp,
        "查看 pod 日志",
        "以下是 pod xxx 的日志...",
        0,
    );
    collector.record_feedback(feedback);
    assert_eq!(collector.get_session_feedback("session1").len(), 1);
}

#[test]
fn test_skill_metrics() {
    let mut collector = FeedbackCollector::new();
    collector.record_skill_usage("kubectl-logs", true, Some(FeedbackType::ThumbsUp));
    collector.record_skill_usage("kubectl-logs", true, Some(FeedbackType::ThumbsUp));
    collector.record_skill_usage("kubectl-logs", false, Some(FeedbackType::ThumbsDown));

    let metrics = collector.get_skill_metrics("kubectl-logs").unwrap();
    assert_eq!(metrics.total_uses, 3);
    assert_eq!(metrics.successful_uses, 2);
    assert_eq!(metrics.failed_uses, 1);
    // satisfaction rate: thumbs up over rated uses
    let rate = metrics.thumbs_up as f64 / (metrics.thumbs_up + metrics.thumbs_down) as f64;
    assert!((rate - 0.666).abs() < 0.01);
}

#[test]
fn thumbs_up_within_total() {
    let mut collector = FeedbackCollector::new();
    for (i, t) in [FeedbackType::ThumbsUp, FeedbackType::ThumbsDown, FeedbackType::ThumbsDown]
        .iter()
        .enumerate()
    {
        collector.record_feedback(FeedbackRecord::new("s", "u", i as u32, *t, "q", "a", i as i64));
    }
    let stats = collector.get_stats();
    assert_eq!(stats.total_feedback, 3);
    assert_eq!(stats.total_thumbs_up, 1);
    assert_eq!(stats.total_thumbs_down, 2);
    assert_eq!(collector.get_recent_negative_feedback(1).len(), 1);
    assert_eq!(collector.get_recent_negative_feedback(1)[0].timestamp, 2);
}

#[test]
fn message_count_increments() {
    let mut collector = FeedbackCollector::new();
    assert_eq!(collector.get_message_index("s"), 0);
    assert_eq!(collector.increment_message_count("s"), 1);
    assert_eq!(collector.increment_message_count("s"), 2);
    assert_eq!(collector.get_message_index("s"), 2);
}
