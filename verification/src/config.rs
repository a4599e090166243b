//! What the bot is told at its start.

use vstd::prelude::*;

verus! {

/// The settings of the bot.
#[derive(Debug, PartialEq, Eq)]
pub struct Config {
    /// The credential of the bot's account.
    pub token: String,
    /// The server the bot lives on.
    pub host: String,
    /// The id of the account that administers the bot.
    pub admin: String,
}

} // verus!
