//! The reading connection's side: which chats are channels, and the posts
//! that a channel's history yields.

use vstd::prelude::*;
use crate::models::{NewChannel, Post};
use crate::telegram::parsers::{parse_message_content, rendered, MessageBody};

verus! {

/// The type of a chat, as far as telling channels apart needs it.
#[derive(Debug, Clone, Copy, PartialEq, Eq)]
pub enum ChatKind {
    Private,
    BasicGroup,
    Secret,
    Supergroup { supergroup_id: i64, is_channel: bool },
    Unknown,
}

/// A chat as the reading connection reports it.
#[derive(Debug, Clone, PartialEq, Eq)]
pub struct ChatInfo {
    pub id: i64,
    pub title: String,
    pub kind: ChatKind,
}

/// A message of a chat's history.
#[derive(Debug, Clone, PartialEq, Eq)]
pub struct HistoryMessage {
    pub id: i64,
    pub date: i32,
    pub body: MessageBody,
}

pub open spec fn is_channel_kind(k: ChatKind) -> bool {
    match k {
        ChatKind::Supergroup { is_channel, .. } => is_channel,
        _ => false,
    }
}

/// The chat is a broadcast channel.
pub fn is_channel(chat: &ChatInfo) -> (r: bool)
    ensures
        r == is_channel_kind(chat.kind),
{
    match chat.kind {
        ChatKind::Private => false,
        ChatKind::BasicGroup => false,
        ChatKind::Secret => false,
        ChatKind::Supergroup { is_channel, .. } => is_channel,
        ChatKind::Unknown => false,
    }
}

/// The supergroup to ask for a channel's username, for a chat that is a channel.
pub fn channel_supergroup_id(chat: &ChatInfo) -> (r: Option<i64>)
    ensures
        match chat.kind {
            ChatKind::Supergroup { supergroup_id, is_channel } => r == if is_channel {
                Some(supergroup_id)
            } else {
                None::<i64>
            },
            _ => r is None,
        },
{
    match chat.kind {
        ChatKind::Supergroup { supergroup_id, is_channel } => if is_channel {
            Some(supergroup_id)
        } else {
            None
        },
        _ => None,
    }
}

/// The channel row for a chat, under the given username.
pub fn new_channel(chat: &ChatInfo, channel_name: &str) -> (r: NewChannel)
    ensures
        r.title == chat.title,
        r.telegram_id == chat.id,
        r.username@ == channel_name@,
{
    NewChannel {
        title: chat.title.clone(),
        telegram_id: chat.id,
        username: String::from_str(channel_name),
    }
}

/// What looking a channel up by name found: the channel, if the chat found is one.
pub fn search_result(chat: &ChatInfo, channel_name: &str) -> (r: Option<NewChannel>)
    ensures
        !is_channel_kind(chat.kind) ==> r is None,
        is_channel_kind(chat.kind) ==> r is Some && r->Some_0.title == chat.title
            && r->Some_0.telegram_id == chat.id && r->Some_0.username@ == channel_name@,
{
    if !is_channel(chat) {
        return None;
    }
    Some(new_channel(chat, channel_name))
}

/// The text of a message body, rendered, if it has one.
pub open spec fn body_text(b: MessageBody) -> Option<Seq<char>> {
    match b {
        MessageBody::Text(t) => Some(rendered(t.text@, t.entities@)),
        MessageBody::Caption(t) => Some(rendered(t.text@, t.entities@)),
        MessageBody::NoText => None,
    }
}

/// The messages of a history that carry text, in order.
pub open spec fn text_messages(ms: Seq<Option<HistoryMessage>>) -> Seq<HistoryMessage>
    decreases ms.len(),
{
    if ms.len() == 0 {
        Seq::empty()
    } else {
        let rest = text_messages(ms.drop_last());
        match ms.last() {
            Some(m) => if body_text(m.body) is Some {
                rest.push(m)
            } else {
                rest
            },
            None => rest,
        }
    }
}

/// `p` is the post made from message `m` of chat `chat_id`.
pub open spec fn is_post_of(p: Post, chat_id: i64, m: HistoryMessage) -> bool {
    &&& p.title is None
    &&& p.link@ == Seq::<char>::empty()
    &&& p.telegram_id == m.id
    &&& p.pub_date == m.date
    &&& body_text(m.body) == Some(p.content@)
    &&& p.chat_id == chat_id
}

/// One post per message of the history that carries text, in order; missing
/// messages and messages without text are skipped.
pub fn posts_from_history(chat_id: i64, messages: &Vec<Option<HistoryMessage>>) -> (r: Vec<Post>)
    ensures
        r@.len() == text_messages(messages@).len(),
        forall|i: int|
            0 <= i < r@.len() ==> is_post_of(
                #[trigger] r@[i],
                chat_id,
                text_messages(messages@)[i],
            ),
{
    let mut result: Vec<Post> = Vec::new();
    for j in 0..messages.len()
        invariant
            result@.len() == text_messages(messages@.take(j as int)).len(),
            forall|i: int|
                0 <= i < result@.len() ==> is_post_of(
                    #[trigger] result@[i],
                    chat_id,
                    text_messages(messages@.take(j as int))[i],
                ),
    {
        assert(messages@.take(j + 1).drop_last() =~= messages@.take(j as int));
        assert(messages@.take(j + 1).last() == messages@[j as int]);
        if let Some(msg) = &messages[j] {
            if let Some(content) = parse_message_content(&msg.body) {
                result.push(
                    Post {
                        title: None,
                        link: String::new(),
                        telegram_id: msg.id,
                        pub_date: msg.date,
                        content,
                        chat_id,
                    },
                );
            }
        }
    }
    assert(messages@.take(messages.len() as int) =~= messages@);
    result
}

} // verus!
