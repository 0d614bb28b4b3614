//! The settings the process starts with.

use vstd::prelude::*;

verus! {

/// Where the persistence layer lives.
#[derive(Debug, Clone, PartialEq, Eq)]
pub struct DbSettings {
    pub path: String,
}

/// The credentials of the two platform connections.
#[derive(Debug, Clone, PartialEq, Eq)]
pub struct TelegramSettings {
    pub api_hash: String,
    pub api_id: i32,
    pub phone: String,
    pub bot_token: String,
}

#[derive(Debug, Clone, PartialEq, Eq)]
pub struct Settings {
    pub telegram: TelegramSettings,
    pub db: DbSettings,
}

} // verus!
