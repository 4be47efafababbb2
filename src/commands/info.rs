//! The `info` command: the details of a ticket's user.

use super::{command, command_is, CommandInfo};
use vstd::prelude::*;

verus! {

/// The description of the `info` command.
pub fn info() -> (r: CommandInfo)
    ensures
        command_is(r, "info"@, "Get information about the user in this modmail thread"@, true),
        r.options@.len() == 0,
{
    command("info", "Get information about the user in this modmail thread", true, Vec::new())
}

} // verus!
