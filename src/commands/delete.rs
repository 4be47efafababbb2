//! The `delete` command: deletes a staff reply on both sides.

use super::{command, command_is, option_is, text_option, CommandInfo, CommandOption, OptionKind};
use vstd::prelude::*;

verus! {

/// The description of the `delete` command.
pub fn info() -> (r: CommandInfo)
    ensures
        command_is(r, "delete"@, "Delete a message sent in this ticket"@, true),
        r.options@.len() == 1,
        option_is(r.options@[0], "id"@, "The ID of the message to delete"@, OptionKind::Text, true, Some(1), Some(20)),
{
    let mut options: Vec<CommandOption> = Vec::new();
    options.push(text_option("id", "The ID of the message to delete", 1, 20));
    command("delete", "Delete a message sent in this ticket", true, options)
}

} // verus!
