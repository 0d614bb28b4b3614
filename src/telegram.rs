//! The platform-facing side: normalised updates, command classification,
//! the bot's decisions and the routing between actors.

use vstd::prelude::*;
use crate::models::{NewChannel, Post};

pub mod bot;
pub mod command;
pub mod parsers;
pub mod service;
pub mod user;

verus! {

/// Something new that the reading connection found.
#[derive(Debug, Clone, PartialEq, Eq)]
pub enum NewUpdate {
    Post(Post),
    Channel(NewChannel),
}

} // verus!
