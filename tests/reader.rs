use channel_relay::models::Post;
use channel_relay::telegram::parsers::{FormattedText, MessageBody, SpanKind, StyledSpan};
use channel_relay::telegram::user::{
    channel_supergroup_id, is_channel, new_channel, posts_from_history, search_result, ChatInfo,
    ChatKind, HistoryMessage,
};

fn chat(kind: ChatKind) -> ChatInfo {
    ChatInfo { id: -100, title: "News".to_string(), kind }
}

#[test]
fn only_channel_supergroups_are_channels() {
    assert!(is_channel(&chat(ChatKind::Supergroup { supergroup_id: 5, is_channel: true })));
    assert!(!is_channel(&chat(ChatKind::Supergroup { supergroup_id: 5, is_channel: false })));
    assert!(!is_channel(&chat(ChatKind::Private)));
    assert!(!is_channel(&chat(ChatKind::BasicGroup)));
    assert!(!is_channel(&chat(ChatKind::Secret)));
    assert!(!is_channel(&chat(ChatKind::Unknown)));
}

#[test]
fn supergroup_id_only_for_channels() {
    assert_eq!(channel_supergroup_id(&chat(ChatKind::Supergroup { supergroup_id: 5, is_channel: true })), Some(5));
    assert_eq!(channel_supergroup_id(&chat(ChatKind::Supergroup { supergroup_id: 5, is_channel: false })), None);
    assert_eq!(channel_supergroup_id(&chat(ChatKind::Private)), None);
}

#[test]
fn search_finds_only_channels() {
    let c = chat(ChatKind::Supergroup { supergroup_id: 5, is_channel: true });
    let found = search_result(&c, "news").expect("a channel");
    assert_eq!(found.title, "News");
    assert_eq!(found.telegram_id, -100);
    assert_eq!(found.username, "news");
    assert!(search_result(&chat(ChatKind::BasicGroup), "news").is_none());
    let made = new_channel(&c, "other");
    assert_eq!(made.username, "other");
    assert_eq!(made.telegram_id, -100);
}

#[test]
fn history_keeps_messages_with_text_in_order() {
    let bold = FormattedText {
        text: "hot".to_string(),
        entities: vec![StyledSpan { start_offset: 0, end_offset: 3, kind: SpanKind::Bold }],
    };
    let caption = FormattedText { text: "pic".to_string(), entities: vec![] };
    let messages = vec![
        Some(HistoryMessage { id: 1, date: 100, body: MessageBody::Text(bold) }),
        None,
        Some(HistoryMessage { id: 2, date: 200, body: MessageBody::NoText }),
        Some(HistoryMessage { id: 3, date: 300, body: MessageBody::Caption(caption) }),
    ];
    let posts = posts_from_history(9, &messages);
    assert_eq!(posts.len(), 2);
    let first: &Post = &posts[0];
    assert_eq!(first.title(), &None);
    assert_eq!(first.link(), "");
    assert_eq!(first.telegram_id(), 1);
    assert_eq!(first.pub_date(), 100);
    assert_eq!(first.content(), "<b>hot</b>");
    assert_eq!(first.chat_id(), 9);
    assert_eq!(posts[1].telegram_id(), 3);
    assert_eq!(posts[1].content(), "pic");
    assert!(posts_from_history(9, &vec![]).is_empty());
}
