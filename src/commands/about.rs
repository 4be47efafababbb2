//! The `about` command: what the bot is and where its source lives.

use super::{command, command_is, CommandInfo};
use vstd::prelude::*;

verus! {

/// The description of the `about` command.
pub fn info() -> (r: CommandInfo)
    ensures
        command_is(r, "about"@, "View information about the bot"@, false),
        r.options@.len() == 0,
{
    command("about", "View information about the bot", false, Vec::new())
}

} // verus!
