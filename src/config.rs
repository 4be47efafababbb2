//! The bot's settings, checked once when they are read.

use vstd::prelude::*;

verus! {

/// The longest message content the platform accepts, in characters.
pub open spec fn content_limit() -> nat {
    2000
}

/// Relies on twilight_validate's `MESSAGE_CONTENT_LENGTH_MAX`: 2000.
#[verifier::external_body]
pub(crate) fn content_length_max() -> (r: usize)
    ensures
        r == content_limit(),
{
    twilight_validate::message::MESSAGE_CONTENT_LENGTH_MAX
}

/// Settings of the bot.
pub struct Config {
    pub token: String,
    /// The guild whose members write in.
    pub guild_id: u64,
    /// The forum channel that holds one thread per ticket.
    pub forum_channel_id: u64,
    /// The guild of the forum channel.
    pub forum_guild_id: u64,
    /// Roles mentioned when a ticket opens.
    pub ping_roles: Vec<u64>,
    /// Sent to the user when their ticket opens.
    pub open_message: Option<String>,
    /// Sent to the user when their ticket closes.
    pub close_message: Option<String>,
}

/// A setting out of range.
#[derive(Clone, Copy, Debug, PartialEq, Eq, Structural)]
pub enum ConfigError {
    /// The open message is empty or longer than a message can be.
    OpenMessageLength,
    /// The close message is empty or longer than a message can be.
    CloseMessageLength,
}

/// Whether a notice text is empty or too long to send.
pub open spec fn bad_notice(m: Option<String>) -> bool {
    m matches Some(s) && (s@.len() == 0 || s@.len() > content_limit())
}

fn notice_out_of_range(m: &Option<String>) -> (r: bool)
    ensures
        r == bad_notice(*m),
{
    match m {
        Some(s) => {
            let n = s.as_str().unicode_len();
            n == 0 || n > content_length_max()
        },
        None => false,
    }
}

impl Config {
    /// Settings from their raw values: the forum guild defaults to the
    /// members' guild, and each notice text must be 1 to 2000 characters.
    pub fn new(
        token: String,
        guild_id: u64,
        forum_channel_id: u64,
        forum_guild_id: Option<u64>,
        ping_roles: Vec<u64>,
        open_message: Option<String>,
        close_message: Option<String>,
    ) -> (r: Result<Config, ConfigError>)
        ensures
            r matches Err(e) ==> e == if bad_notice(open_message) {
                ConfigError::OpenMessageLength
            } else {
                ConfigError::CloseMessageLength
            },
            r is Err <==> bad_notice(open_message) || bad_notice(close_message),
            r matches Ok(c) ==> {
                &&& c.token == token
                &&& c.guild_id == guild_id
                &&& c.forum_channel_id == forum_channel_id
                &&& c.forum_guild_id == match forum_guild_id {
                    Some(g) => g,
                    None => guild_id,
                }
                &&& c.ping_roles@ == ping_roles@
                &&& c.open_message == open_message
                &&& c.close_message == close_message
            },
    {
        if notice_out_of_range(&open_message) {
            return Err(ConfigError::OpenMessageLength);
        }
        if notice_out_of_range(&close_message) {
            return Err(ConfigError::CloseMessageLength);
        }
        let forum_guild_id = match forum_guild_id {
            Some(g) => g,
            None => guild_id,
        };
        Ok(
            Config {
                token,
                guild_id,
                forum_channel_id,
                forum_guild_id,
                ping_roles,
                open_message,
                close_message,
            },
        )
    }
}

} // verus!
