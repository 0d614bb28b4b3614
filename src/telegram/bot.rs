//! The bot's side: normalised updates, the requests it sends, the replies it
//! writes, and its decision on each update.

use vstd::prelude::*;
use crate::models;
use crate::telegram::command::{BotCommand, classify, classify_spec, Command};
use crate::telegram::parsers::{MessageBody, SpanKind, StyledSpan};
use crate::text::{trim, trimmed};

verus! {

/// A normalised text message to the bot, already classified.
#[derive(Debug, Clone, PartialEq, Eq)]
pub struct BotUpdate {
    pub chat_id: i64,
    pub user_id: i64,
    pub message: BotCommand,
}

/// Subscribe a user to a channel.
#[derive(Debug, Clone, PartialEq, Eq)]
pub struct AddUserChannel {
    pub user_id: i64,
    pub channel_id: i64,
    pub channel_name: String,
    pub title: String,
}

/// Unsubscribe a user from a channel, named by its username.
#[derive(Debug, Clone, PartialEq, Eq)]
pub struct RemoveUserChannel {
    pub user_id: i64,
    pub channel_name: String,
}

/// A user together with the chat in which the bot talks to them.
#[derive(Debug, Clone, PartialEq, Eq)]
pub struct UserChat {
    pub user_id: i64,
    pub chat_id: i64,
}

/// What the bot asks the application layer to do; each carries the user it is for.
#[derive(Debug, Clone, PartialEq, Eq)]
pub enum BotRequests {
    AddUser(UserChat),
    RemoveUser(UserChat),
    AddUserChannel(AddUserChannel),
    RemoveUserChannel(RemoveUserChannel),
    ListChannels(i64),
}

/// The channels a user is subscribed to, for the chat to send them to.
#[derive(Debug, Clone, PartialEq, Eq)]
pub struct BotResponseListChannels {
    pub chat_id: i64,
    pub channels: Vec<models::Channel>,
}

/// What the application layer sends back to the bot.
#[derive(Debug, Clone, PartialEq, Eq)]
pub enum BotResponses {
    ListChannels(BotResponseListChannels),
}

/// A plain text message to send to a chat.
#[derive(Debug, Clone, PartialEq, Eq)]
pub struct TextReply {
    pub chat_id: i64,
    pub text: String,
}

/// One entry of the command menu that the bot publishes.
#[derive(Debug, Clone, PartialEq, Eq)]
pub struct MenuEntry {
    pub command: String,
    pub description: String,
}

/// Who sent a message.
#[derive(Debug, Clone, Copy, PartialEq, Eq)]
pub enum MessageSender {
    User(i64),
    Chat(i64),
    Unknown,
}

/// A new message as the bot's connection delivers it.
#[derive(Debug, Clone, PartialEq, Eq)]
pub struct IncomingMessage {
    pub chat_id: i64,
    pub sender: MessageSender,
    pub body: MessageBody,
}

pub open spec fn not_found_text(name: Seq<char>) -> Seq<char> {
    "channel "@ + name + " not found"@
}

pub open spec fn added_text(name: Seq<char>) -> Seq<char> {
    "channel "@ + name + " added"@
}

pub open spec fn removed_text(name: Seq<char>) -> Seq<char> {
    "channel "@ + name + " removed"@
}

/// The line that lists one channel.
pub open spec fn channel_line(c: models::Channel) -> Seq<char> {
    c.username@ + ": "@ + c.title@ + "\n"@
}

/// One line per channel, in the order given.
pub open spec fn channel_list_text(cs: Seq<models::Channel>) -> Seq<char>
    decreases cs.len(),
{
    if cs.len() == 0 {
        Seq::empty()
    } else {
        channel_list_text(cs.drop_last()) + channel_line(cs.last())
    }
}

fn phrase(head: &str, name: &str, tail: &str) -> (r: String)
    ensures
        r@ == head@ + name@ + tail@,
{
    let mut s = String::from_str(head);
    s.append(name);
    s.append(tail);
    s
}

pub fn make_text_resp(chat_id: i64, text: &str) -> (r: TextReply)
    ensures
        r.chat_id == chat_id,
        r.text@ == text@,
{
    TextReply { chat_id, text: String::from_str(text) }
}

pub fn make_channel_not_found_resp(chat_id: i64, channel_name: &str) -> (r: TextReply)
    ensures
        r.chat_id == chat_id,
        r.text@ == not_found_text(channel_name@),
{
    TextReply { chat_id, text: phrase("channel ", channel_name, " not found") }
}

pub fn make_channel_added_resp(chat_id: i64, channel_name: &str) -> (r: TextReply)
    ensures
        r.chat_id == chat_id,
        r.text@ == added_text(channel_name@),
{
    TextReply { chat_id, text: phrase("channel ", channel_name, " added") }
}

pub fn make_channel_removed_resp(chat_id: i64, channel_name: &str) -> (r: TextReply)
    ensures
        r.chat_id == chat_id,
        r.text@ == removed_text(channel_name@),
{
    TextReply { chat_id, text: phrase("channel ", channel_name, " removed") }
}

pub fn make_invalid_request_resp(chat_id: i64) -> (r: TextReply)
    ensures
        r.chat_id == chat_id,
        r.text@ == "invalid request"@,
{
    make_text_resp(chat_id, "invalid request")
}

pub fn make_start_resp(chat_id: i64) -> (r: TextReply)
    ensures
        r.chat_id == chat_id,
        r.text@ == "started"@,
{
    make_text_resp(chat_id, "started")
}

pub fn make_stop_resp(chat_id: i64) -> (r: TextReply)
    ensures
        r.chat_id == chat_id,
        r.text@ == "stopped"@,
{
    make_text_resp(chat_id, "stopped")
}

/// The list of channels, one `username: title` line each, for `chat_id`.
pub fn make_list_channels(chat_id: i64, channels: &Vec<models::Channel>) -> (r: TextReply)
    ensures
        r.chat_id == chat_id,
        r.text@ == channel_list_text(channels@),
{
    let mut s = String::new();
    for i in 0..channels.len()
        invariant
            s@ == channel_list_text(channels@.take(i as int)),
    {
        let ch = &channels[i];
        s.append(ch.username.as_str());
        s.append(": ");
        s.append(ch.title.as_str());
        s.append("\n");
        assert(channels@.take(i + 1).drop_last() =~= channels@.take(i as int));
        assert(s@ =~= channel_list_text(channels@.take(i + 1)));
    }
    assert(channels@.take(channels.len() as int) =~= channels@);
    TextReply { chat_id, text: s }
}

/// Some span of the text marks a bot command.
pub open spec fn has_command_mark(spans: Seq<StyledSpan>) -> bool {
    exists|i: int| 0 <= i < spans.len() && (#[trigger] spans[i]).kind is BotCommand
}

fn is_command_marked(spans: &Vec<StyledSpan>) -> (r: bool)
    ensures
        r == has_command_mark(spans@),
{
    for i in 0..spans.len()
        invariant
            forall|k: int| 0 <= k < i ==> !((#[trigger] spans@[k]).kind is BotCommand),
    {
        if let SpanKind::BotCommand = spans[i].kind {
            return true;
        }
    }
    false
}

/// Normalises a new message to the bot: a text message from a user becomes an
/// update with its classified command; other content, and messages sent by a
/// chat or by an unknown sender, are dropped.
pub fn handle_message_to_bot(new_message: &IncomingMessage) -> (r: Option<BotUpdate>)
    ensures
        match (new_message.body, new_message.sender) {
            (MessageBody::Text(t), MessageSender::User(user_id)) => r is Some && r->Some_0.chat_id
                == new_message.chat_id && r->Some_0.user_id == user_id && r->Some_0.message@
                == classify_spec(t.text@, has_command_mark(t.entities@)),
            _ => r is None,
        },
{
    match &new_message.body {
        MessageBody::Text(text) => match new_message.sender {
            MessageSender::User(user_id) => {
                let marked = is_command_marked(&text.entities);
                Some(
                    BotUpdate {
                        chat_id: new_message.chat_id,
                        user_id,
                        message: classify(text.text.as_str(), marked),
                    },
                )
            },
            MessageSender::Chat(_) => None,
            MessageSender::Unknown => None,
        },
        MessageBody::Caption(_) => None,
        MessageBody::NoText => None,
    }
}

/// A subscription waiting for the channel to be looked up.
#[derive(Debug, Clone, PartialEq, Eq)]
pub struct PendingAdd {
    pub chat_id: i64,
    pub user_id: i64,
    pub channel_name: String,
}

/// What the bot does about one update or one lookup result.
#[derive(Debug, Clone, PartialEq, Eq)]
pub enum BotAction {
    /// Nothing: no request and no reply.
    Ignore,
    /// A reply and no request.
    Reply(TextReply),
    /// A request; the reply comes later, with the response.
    Request(BotRequests),
    /// A request and an immediate reply.
    RequestAndReply(BotRequests, TextReply),
    /// Look the channel up on the reading connection, then hand the result
    /// to `handle_channel_search`.
    SearchChannel(PendingAdd),
}

/// Decides what the bot does about one update. Its own messages are ignored.
/// A list request only asks; removal, start and stop ask and reply at once
/// (before the application layer confirms); an invalid command is answered
/// and asks nothing; adding a channel first looks the channel up. A channel
/// name is trimmed before it is used, in requests, lookups and replies alike.
pub fn handle_bot_update(self_id: i64, update: &BotUpdate) -> (r: BotAction)
    ensures
        update.user_id == self_id ==> r is Ignore,
        update.user_id != self_id ==> match update.message@ {
            Command::Invalid => r is Reply && r->Reply_0.chat_id == update.chat_id
                && r->Reply_0.text@ == "invalid request"@,
            Command::ListChannels => r is Request && r->Request_0 == BotRequests::ListChannels(
                update.user_id,
            ),
            Command::RemoveChannel(name) => r is RequestAndReply
                && r->RequestAndReply_0 is RemoveUserChannel
                && r->RequestAndReply_0->RemoveUserChannel_0.user_id == update.user_id
                && r->RequestAndReply_0->RemoveUserChannel_0.channel_name@ == trimmed(name)
                && r->RequestAndReply_1.chat_id == update.chat_id && r->RequestAndReply_1.text@
                == removed_text(trimmed(name)),
            Command::AddChannel(name) => r is SearchChannel && r->SearchChannel_0.chat_id
                == update.chat_id && r->SearchChannel_0.user_id == update.user_id
                && r->SearchChannel_0.channel_name@ == trimmed(name),
            Command::Start => r is RequestAndReply && r->RequestAndReply_0 == BotRequests::AddUser(
                UserChat { user_id: update.user_id, chat_id: update.chat_id },
            ) && r->RequestAndReply_1.chat_id == update.chat_id && r->RequestAndReply_1.text@
                == "started"@,
            Command::Stop => r is RequestAndReply && r->RequestAndReply_0
                == BotRequests::RemoveUser(
                UserChat { user_id: update.user_id, chat_id: update.chat_id },
            ) && r->RequestAndReply_1.chat_id == update.chat_id && r->RequestAndReply_1.text@
                == "stopped"@,
        },
{
    if update.user_id == self_id {
        return BotAction::Ignore;
    }
    let chat_id = update.chat_id;
    let user_id = update.user_id;
    match &update.message {
        BotCommand::Invalid => BotAction::Reply(make_invalid_request_resp(chat_id)),
        BotCommand::List => BotAction::Request(BotRequests::ListChannels(user_id)),
        BotCommand::Remove(channel_name) => {
            let name = trim(channel_name.as_str());
            let resp = make_channel_removed_resp(chat_id, name.as_str());
            BotAction::RequestAndReply(
                BotRequests::RemoveUserChannel(RemoveUserChannel { user_id, channel_name: name }),
                resp,
            )
        },
        BotCommand::Add(channel_name) => BotAction::SearchChannel(
            PendingAdd { chat_id, user_id, channel_name: trim(channel_name.as_str()) },
        ),
        BotCommand::Stop => BotAction::RequestAndReply(
            BotRequests::RemoveUser(UserChat { user_id, chat_id }),
            make_stop_resp(chat_id),
        ),
        BotCommand::Start => BotAction::RequestAndReply(
            BotRequests::AddUser(UserChat { user_id, chat_id }),
            make_start_resp(chat_id),
        ),
    }
}

/// Finishes adding a channel once it has been looked up: a channel that was
/// not found is reported and asks nothing; a found one is subscribed to, under
/// the found channel's trimmed title, and confirmed. The name is trimmed in the
/// request and in the reply alike.
pub fn handle_channel_search(pending: &PendingAdd, found: Option<models::NewChannel>) -> (r:
    BotAction)
    ensures
        match found {
            None => r is Reply && r->Reply_0.chat_id == pending.chat_id && r->Reply_0.text@
                == not_found_text(trimmed(pending.channel_name@)),
            Some(ch) => r is RequestAndReply && r->RequestAndReply_0 is AddUserChannel
                && r->RequestAndReply_0->AddUserChannel_0.user_id == pending.user_id
                && r->RequestAndReply_0->AddUserChannel_0.channel_id == ch.telegram_id
                && r->RequestAndReply_0->AddUserChannel_0.channel_name@ == trimmed(
                pending.channel_name@,
            ) && r->RequestAndReply_0->AddUserChannel_0.title@ == trimmed(ch.title@)
                && r->RequestAndReply_1.chat_id == pending.chat_id && r->RequestAndReply_1.text@
                == added_text(trimmed(pending.channel_name@)),
        },
{
    let name = trim(pending.channel_name.as_str());
    match found {
        None => BotAction::Reply(make_channel_not_found_resp(pending.chat_id, name.as_str())),
        Some(ch) => {
            let resp = make_channel_added_resp(pending.chat_id, name.as_str());
            BotAction::RequestAndReply(
                BotRequests::AddUserChannel(
                    AddUserChannel {
                        user_id: pending.user_id,
                        channel_name: name,
                        title: trim(ch.title.as_str()),
                        channel_id: ch.telegram_id,
                    },
                ),
                resp,
            )
        },
    }
}

/// The message that answers a response from the application layer.
pub fn handle_bot_response(response: &BotResponses) -> (r: TextReply)
    ensures
        match response {
            BotResponses::ListChannels(list) => r.chat_id == list.chat_id && r.text@
                == channel_list_text(list.channels@),
        },
{
    match response {
        BotResponses::ListChannels(list) => make_list_channels(list.chat_id, &list.channels),
    }
}

/// The commands the bot publishes, with their descriptions.
pub fn command_menu() -> (r: Vec<MenuEntry>)
    ensures
        r@.len() == 5,
        r@[0].command@ == "start"@ && r@[0].description@ == "starts bot interaction"@,
        r@[1].command@ == "stop"@ && r@[1].description@ == "stops bot interaction"@,
        r@[2].command@ == "add"@ && r@[2].description@ == "adds a channel"@,
        r@[3].command@ == "list"@ && r@[3].description@ == "list of channels"@,
        r@[4].command@ == "remove"@ && r@[4].description@ == "removes a channel"@,
{
    let mut r: Vec<MenuEntry> = Vec::new();
    r.push(
        MenuEntry {
            command: String::from_str("start"),
            description: String::from_str("starts bot interaction"),
        },
    );
    r.push(
        MenuEntry {
            command: String::from_str("stop"),
            description: String::from_str("stops bot interaction"),
        },
    );
    r.push(
        MenuEntry {
            command: String::from_str("add"),
            description: String::from_str("adds a channel"),
        },
    );
    r.push(
        MenuEntry {
            command: String::from_str("list"),
            description: String::from_str("list of channels"),
        },
    );
    r.push(
        MenuEntry {
            command: String::from_str("remove"),
            description: String::from_str("removes a channel"),
        },
    );
    r
}

} // verus!
