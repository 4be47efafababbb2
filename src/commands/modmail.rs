//! The `modmail` command: how a member starts a private conversation.

use super::{command, command_is, CommandInfo};
use vstd::prelude::*;

verus! {

/// The description of the `modmail` command.
pub fn info() -> (r: CommandInfo)
    ensures
        command_is(r, "modmail"@, "Open a modmail ticket"@, false),
        r.options@.len() == 0,
{
    command("modmail", "Open a modmail ticket", false, Vec::new())
}

} // verus!
