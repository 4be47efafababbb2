//! The `reply` command: sends a staff reply to the ticket's user.

use super::{command, command_is, option_is, text_option, CommandInfo, CommandOption, OptionKind};
use crate::config::{content_length_max, content_limit};
use vstd::prelude::*;

verus! {

/// The description of the `reply` command.
pub fn info() -> (r: CommandInfo)
    ensures
        command_is(r, "reply"@, "Reply to a modmail ticket"@, true),
        r.options@.len() == 1,
        option_is(
            r.options@[0],
            "with"@,
            "The text to reply with"@,
            OptionKind::Text,
            true,
            Some(1),
            Some(content_limit() as u16),
        ),
{
    let max = content_length_max() as u16;
    let mut options: Vec<CommandOption> = Vec::new();
    options.push(text_option("with", "The text to reply with", 1, max));
    command("reply", "Reply to a modmail ticket", true, options)
}

} // verus!
