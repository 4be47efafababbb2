//! The `close` command: closes the ticket of the thread it is used in.

use super::{command, command_is, option_is, CommandInfo, CommandOption, OptionKind};
use vstd::prelude::*;
use vstd::string::*;

verus! {

/// The description of the `close` command.
pub fn info() -> (r: CommandInfo)
    ensures
        command_is(r, "close"@, "Close this modmail ticket"@, true),
        r.options@.len() == 1,
        option_is(
            r.options@[0],
            "silent"@,
            "Whether to close the ticket without sending the user a message"@,
            OptionKind::Boolean,
            false,
            None,
            None,
        ),
{
    let silent = CommandOption {
        name: String::from_str("silent"),
        description: String::from_str("Whether to close the ticket without sending the user a message"),
        kind: OptionKind::Boolean,
        required: false,
        min_length: None,
        max_length: None,
    };
    let mut options: Vec<CommandOption> = Vec::new();
    options.push(silent);
    command("close", "Close this modmail ticket", true, options)
}

} // verus!
