//! The `edit` command: edits a staff reply on both sides.

use super::{command, command_is, option_is, text_option, CommandInfo, CommandOption, OptionKind};
use crate::config::{content_length_max, content_limit};
use vstd::prelude::*;

verus! {

/// The description of the `edit` command.
pub fn info() -> (r: CommandInfo)
    ensures
        command_is(r, "edit"@, "Edit a message sent in this ticket"@, true),
        r.options@.len() == 2,
        option_is(r.options@[0], "id"@, "The ID of the message to edit"@, OptionKind::Text, true, Some(1), Some(20)),
        option_is(
            r.options@[1],
            "to"@,
            "What to edit the message to"@,
            OptionKind::Text,
            true,
            Some(1),
            Some(content_limit() as u16),
        ),
{
    let max = content_length_max() as u16;
    let mut options: Vec<CommandOption> = Vec::new();
    options.push(text_option("id", "The ID of the message to edit", 1, 20));
    options.push(text_option("to", "What to edit the message to", 1, max));
    command("edit", "Edit a message sent in this ticket", true, options)
}

} // verus!
