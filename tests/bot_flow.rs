use channel_relay::models::{Channel, NewChannel};
use channel_relay::telegram::bot::{
    command_menu, handle_bot_response, handle_bot_update, handle_channel_search,
    handle_message_to_bot, make_channel_added_resp, make_channel_not_found_resp,
    make_channel_removed_resp, make_invalid_request_resp, make_list_channels, make_start_resp,
    make_stop_resp, make_text_resp, AddUserChannel, BotAction, BotRequests,
    BotResponseListChannels, BotResponses, BotUpdate, IncomingMessage, MessageSender, PendingAdd,
    RemoveUserChannel, TextReply, UserChat,
};
use channel_relay::telegram::command::{classify, BotCommand};
use channel_relay::telegram::parsers::{FormattedText, MessageBody, SpanKind, StyledSpan};

const SELF_ID: i64 = 1000;

fn update(user_id: i64, chat_id: i64, raw_text: &str, marked: bool) -> BotUpdate {
    BotUpdate { chat_id, user_id, message: classify(raw_text, marked) }
}

fn reply(chat_id: i64, text: &str) -> TextReply {
    TextReply { chat_id, text: text.to_string() }
}

#[test]
fn add_channel_that_resolves_subscribes_and_confirms() {
    let upd = update(7, 7, "/add news", true);
    let pending = match handle_bot_update(SELF_ID, &upd) {
        BotAction::SearchChannel(p) => p,
        other => panic!("expected a lookup, got {:?}", other),
    };
    assert_eq!(pending, PendingAdd { chat_id: 7, user_id: 7, channel_name: "news".to_string() });
    let found = NewChannel { title: "News".to_string(), telegram_id: 42, username: "news".to_string() };
    let action = handle_channel_search(&pending, Some(found));
    assert_eq!(
        action,
        BotAction::RequestAndReply(
            BotRequests::AddUserChannel(AddUserChannel {
                user_id: 7,
                channel_id: 42,
                channel_name: "news".to_string(),
                title: "News".to_string(),
            }),
            reply(7, "channel news added"),
        )
    );
}

#[test]
fn add_channel_that_does_not_resolve_only_replies() {
    let upd = update(7, 7, "/add news", true);
    let pending = match handle_bot_update(SELF_ID, &upd) {
        BotAction::SearchChannel(p) => p,
        other => panic!("expected a lookup, got {:?}", other),
    };
    assert_eq!(handle_channel_search(&pending, None), BotAction::Reply(reply(7, "channel news not found")));
}

#[test]
fn add_looks_up_the_trimmed_name() {
    let upd = BotUpdate { chat_id: 8, user_id: 7, message: BotCommand::Add("  news ".to_string()) };
    assert_eq!(
        handle_bot_update(SELF_ID, &upd),
        BotAction::SearchChannel(PendingAdd { chat_id: 8, user_id: 7, channel_name: "news".to_string() })
    );
    let pending = PendingAdd { chat_id: 8, user_id: 7, channel_name: " news".to_string() };
    assert_eq!(handle_channel_search(&pending, None), BotAction::Reply(reply(8, "channel news not found")));
}

#[test]
fn found_title_is_trimmed() {
    let pending = PendingAdd { chat_id: 3, user_id: 4, channel_name: "  chan ".to_string() };
    let found = NewChannel { title: " Title\n".to_string(), telegram_id: 9, username: "chan".to_string() };
    assert_eq!(
        handle_channel_search(&pending, Some(found)),
        BotAction::RequestAndReply(
            BotRequests::AddUserChannel(AddUserChannel {
                user_id: 4,
                channel_id: 9,
                channel_name: "chan".to_string(),
                title: "Title".to_string(),
            }),
            reply(3, "channel chan added"),
        )
    );
}

#[test]
fn list_channels_response_is_one_line_per_channel() {
    let upd = update(7, 7, "/list", true);
    assert_eq!(handle_bot_update(SELF_ID, &upd), BotAction::Request(BotRequests::ListChannels(7)));
    let resp = BotResponses::ListChannels(BotResponseListChannels {
        chat_id: 7,
        channels: vec![Channel { id: 42, title: "News".to_string(), username: "news".to_string() }],
    });
    assert_eq!(handle_bot_response(&resp), reply(7, "news: News\n"));
}

#[test]
fn list_of_several_channels_keeps_their_order() {
    let channels = vec![
        Channel { id: 1, title: "B".to_string(), username: "b".to_string() },
        Channel { id: 2, title: "A".to_string(), username: "a".to_string() },
    ];
    assert_eq!(make_list_channels(5, &channels), reply(5, "b: B\na: A\n"));
    assert_eq!(make_list_channels(5, &vec![]), reply(5, ""));
}

#[test]
fn own_messages_are_ignored() {
    for text in ["/start", "/stop", "/add news", "/remove news", "/list", "hello"] {
        assert_eq!(handle_bot_update(SELF_ID, &update(SELF_ID, 1, text, true)), BotAction::Ignore);
        assert_eq!(handle_bot_update(SELF_ID, &update(SELF_ID, 1, text, false)), BotAction::Ignore);
    }
}

#[test]
fn invalid_command_gets_a_reply_and_no_request() {
    assert_eq!(
        handle_bot_update(SELF_ID, &update(7, 8, "hello", false)),
        BotAction::Reply(reply(8, "invalid request"))
    );
    assert_eq!(
        handle_bot_update(SELF_ID, &update(7, 8, "/stopword", true)),
        BotAction::Reply(reply(8, "invalid request"))
    );
}

#[test]
fn remove_replies_at_once_with_the_trimmed_name() {
    let upd = BotUpdate { chat_id: 8, user_id: 7, message: BotCommand::Remove(" news ".to_string()) };
    assert_eq!(
        handle_bot_update(SELF_ID, &upd),
        BotAction::RequestAndReply(
            BotRequests::RemoveUserChannel(RemoveUserChannel { user_id: 7, channel_name: "news".to_string() }),
            reply(8, "channel news removed"),
        )
    );
    assert_eq!(
        handle_bot_update(SELF_ID, &update(7, 8, "/remove news", true)),
        BotAction::RequestAndReply(
            BotRequests::RemoveUserChannel(RemoveUserChannel { user_id: 7, channel_name: "news".to_string() }),
            reply(8, "channel news removed"),
        )
    );
}

#[test]
fn start_and_stop_register_and_deregister() {
    assert_eq!(
        handle_bot_update(SELF_ID, &update(7, 8, "/start", true)),
        BotAction::RequestAndReply(BotRequests::AddUser(UserChat { user_id: 7, chat_id: 8 }), reply(8, "started"))
    );
    assert_eq!(
        handle_bot_update(SELF_ID, &update(7, 8, "/stop", true)),
        BotAction::RequestAndReply(BotRequests::RemoveUser(UserChat { user_id: 7, chat_id: 8 }), reply(8, "stopped"))
    );
}

#[test]
fn reply_builders_write_the_expected_text() {
    assert_eq!(make_text_resp(1, "x"), reply(1, "x"));
    assert_eq!(make_channel_not_found_resp(1, "c"), reply(1, "channel c not found"));
    assert_eq!(make_channel_added_resp(1, "c"), reply(1, "channel c added"));
    assert_eq!(make_channel_removed_resp(1, "c"), reply(1, "channel c removed"));
    assert_eq!(make_invalid_request_resp(2), reply(2, "invalid request"));
    assert_eq!(make_start_resp(3), reply(3, "started"));
    assert_eq!(make_stop_resp(4), reply(4, "stopped"));
}

fn text_message(sender: MessageSender, text: &str, entities: Vec<StyledSpan>) -> IncomingMessage {
    IncomingMessage {
        chat_id: 55,
        sender,
        body: MessageBody::Text(FormattedText { text: text.to_string(), entities }),
    }
}

#[test]
fn user_text_message_becomes_a_classified_update() {
    let cmd = vec![StyledSpan { start_offset: 0, end_offset: 4, kind: SpanKind::BotCommand }];
    let msg = text_message(MessageSender::User(7), "/add news", cmd);
    assert_eq!(
        handle_message_to_bot(&msg),
        Some(BotUpdate { chat_id: 55, user_id: 7, message: BotCommand::Add("news".to_string()) })
    );
}

#[test]
fn text_without_a_command_mark_is_invalid() {
    let bold = vec![StyledSpan { start_offset: 0, end_offset: 4, kind: SpanKind::Bold }];
    let msg = text_message(MessageSender::User(7), "/add news", bold);
    assert_eq!(
        handle_message_to_bot(&msg),
        Some(BotUpdate { chat_id: 55, user_id: 7, message: BotCommand::Invalid })
    );
}

#[test]
fn other_senders_and_contents_are_dropped() {
    let cmd = vec![StyledSpan { start_offset: 0, end_offset: 6, kind: SpanKind::BotCommand }];
    assert_eq!(handle_message_to_bot(&text_message(MessageSender::Chat(3), "/start", cmd.clone())), None);
    assert_eq!(handle_message_to_bot(&text_message(MessageSender::Unknown, "/start", cmd.clone())), None);
    let caption = IncomingMessage {
        chat_id: 1,
        sender: MessageSender::User(7),
        body: MessageBody::Caption(FormattedText { text: "/start".to_string(), entities: cmd }),
    };
    assert_eq!(handle_message_to_bot(&caption), None);
    let none = IncomingMessage { chat_id: 1, sender: MessageSender::User(7), body: MessageBody::NoText };
    assert_eq!(handle_message_to_bot(&none), None);
}

#[test]
fn menu_lists_the_five_commands() {
    let menu: Vec<(String, String)> = command_menu().into_iter().map(|e| (e.command, e.description)).collect();
    assert_eq!(
        menu,
        vec![
            ("start".to_string(), "starts bot interaction".to_string()),
            ("stop".to_string(), "stops bot interaction".to_string()),
            ("add".to_string(), "adds a channel".to_string()),
            ("list".to_string(), "list of channels".to_string()),
            ("remove".to_string(), "removes a channel".to_string()),
        ]
    );
}
