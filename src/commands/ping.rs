//! The `ping` command: whether the bot answers, and how fast.

use super::{command, command_is, CommandInfo};
use vstd::prelude::*;

verus! {

/// The description of the `ping` command.
pub fn info() -> (r: CommandInfo)
    ensures
        command_is(r, "ping"@, "Check if the bot is alive"@, false),
        r.options@.len() == 0,
{
    command("ping", "Check if the bot is alive", false, Vec::new())
}

} // verus!
