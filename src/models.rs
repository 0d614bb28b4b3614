//! Values that cross the boundary into persistence.

use vstd::prelude::*;

verus! {

pub type TelegramPostId = i64;

pub type TelegramChatId = i64;

/// One piece of channel content, as stored.
#[derive(Debug, Clone, PartialEq, Eq)]
pub struct Post {
    pub title: Option<String>,
    pub link: String,
    pub telegram_id: TelegramPostId,
    pub pub_date: i32,
    pub content: String,
    pub chat_id: TelegramChatId,
}

impl Post {
    pub fn title(&self) -> (r: &Option<String>)
        ensures
            r == &self.title,
    {
        &self.title
    }

    pub fn link(&self) -> (r: &str)
        ensures
            r@ == self.link@,
    {
        self.link.as_str()
    }

    pub fn telegram_id(&self) -> (r: TelegramPostId)
        ensures
            r == self.telegram_id,
    {
        self.telegram_id
    }

    pub fn pub_date(&self) -> (r: i32)
        ensures
            r == self.pub_date,
    {
        self.pub_date
    }

    pub fn content(&self) -> (r: &str)
        ensures
            r@ == self.content@,
    {
        self.content.as_str()
    }

    pub fn chat_id(&self) -> (r: TelegramChatId)
        ensures
            r == self.chat_id,
    {
        self.chat_id
    }
}

/// A user row: enabled users receive content.
#[derive(Debug, Clone, PartialEq, Eq)]
pub struct NewUser {
    pub user_id: i64,
    pub chat_id: i64,
    pub enabled: bool,
}

/// A channel row, keyed by its username.
#[derive(Debug, Clone, PartialEq, Eq)]
pub struct NewChannel {
    pub title: String,
    pub telegram_id: TelegramChatId,
    pub username: String,
}

/// A subscription row.
#[derive(Debug, Clone, PartialEq, Eq)]
pub struct NewUserChannel {
    pub user_id: i64,
    pub channel_id: i64,
}

/// The subscription to delete, found by the channel's username.
#[derive(Debug, Clone, PartialEq, Eq)]
pub struct RemoveUserChannel {
    pub user_id: i64,
    pub channel_name: String,
}

/// A channel as the persistence layer reports it back.
#[derive(Debug, Clone, PartialEq, Eq)]
pub struct Channel {
    pub id: i64,
    pub title: String,
    pub username: String,
}

} // verus!
