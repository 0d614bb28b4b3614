//! What the application layer does with each request from the platform side.

use vstd::prelude::*;
use crate::models;
use crate::telegram::bot::{BotRequests, BotResponseListChannels, BotResponses};
use crate::telegram::service::{ServiceRequests, ServiceResponses};

verus! {

/// The persisted effect of one request.
#[derive(Debug, Clone, PartialEq, Eq)]
pub enum StoreAction {
    /// Insert the user, or update the enabled flag of an existing one.
    SaveUser(models::NewUser),
    /// Insert or update the channel by its username, then subscribe the user
    /// to it; the second step runs only if the first succeeded.
    SaveChannelAndSubscribe(models::NewChannel, models::NewUserChannel),
    /// Delete the user's subscription to the channel with this username.
    RemoveSubscription(models::RemoveUserChannel),
    /// Read the user's chat and subscribed channels, and answer with them.
    ListSubscriptions(i64),
}

/// The persisted effect that a request asks for.
pub fn store_action(request: &ServiceRequests) -> (r: StoreAction)
    ensures
        match request {
            ServiceRequests::Bot(BotRequests::AddUser(u)) => r is SaveUser && r->SaveUser_0.user_id
                == u.user_id && r->SaveUser_0.chat_id == u.chat_id && r->SaveUser_0.enabled,
            ServiceRequests::Bot(BotRequests::RemoveUser(u)) => r is SaveUser
                && r->SaveUser_0.user_id == u.user_id && r->SaveUser_0.chat_id == u.chat_id
                && !r->SaveUser_0.enabled,
            ServiceRequests::Bot(BotRequests::AddUserChannel(a)) => r is SaveChannelAndSubscribe
                && r->SaveChannelAndSubscribe_0.title == a.title
                && r->SaveChannelAndSubscribe_0.telegram_id == a.channel_id
                && r->SaveChannelAndSubscribe_0.username == a.channel_name
                && r->SaveChannelAndSubscribe_1.user_id == a.user_id
                && r->SaveChannelAndSubscribe_1.channel_id == a.channel_id,
            ServiceRequests::Bot(BotRequests::RemoveUserChannel(rm)) => r is RemoveSubscription
                && r->RemoveSubscription_0.user_id == rm.user_id
                && r->RemoveSubscription_0.channel_name == rm.channel_name,
            ServiceRequests::Bot(BotRequests::ListChannels(user_id)) => r == StoreAction::ListSubscriptions(
                *user_id,
            ),
        },
{
    match request {
        ServiceRequests::Bot(bot_request) => match bot_request {
            BotRequests::AddUser(add_user) => StoreAction::SaveUser(
                models::NewUser { user_id: add_user.user_id, chat_id: add_user.chat_id, enabled: true },
            ),
            BotRequests::RemoveUser(remove_user) => StoreAction::SaveUser(
                models::NewUser {
                    user_id: remove_user.user_id,
                    chat_id: remove_user.chat_id,
                    enabled: false,
                },
            ),
            BotRequests::AddUserChannel(add_channel) => StoreAction::SaveChannelAndSubscribe(
                models::NewChannel {
                    title: add_channel.title.clone(),
                    telegram_id: add_channel.channel_id,
                    username: add_channel.channel_name.clone(),
                },
                models::NewUserChannel {
                    user_id: add_channel.user_id,
                    channel_id: add_channel.channel_id,
                },
            ),
            BotRequests::ListChannels(user_id) => StoreAction::ListSubscriptions(*user_id),
            BotRequests::RemoveUserChannel(remove_channel) => StoreAction::RemoveSubscription(
                models::RemoveUserChannel {
                    user_id: remove_channel.user_id,
                    channel_name: remove_channel.channel_name.clone(),
                },
            ),
        },
    }
}

/// The answer to a list request: the user's chat and channels, in the order read.
pub fn subscriptions_response(chat_id: i64, channels: Vec<models::Channel>) -> (r: ServiceResponses)
    ensures
        r == ServiceResponses::Bot(
            BotResponses::ListChannels(BotResponseListChannels { chat_id, channels }),
        ),
{
    ServiceResponses::Bot(BotResponses::ListChannels(BotResponseListChannels { chat_id, channels }))
}

} // verus!
