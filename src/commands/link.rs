//! The `link` command: links the private message behind a relayed one.

use super::{command, command_is, option_is, text_option, CommandInfo, CommandOption, OptionKind};
use vstd::prelude::*;

verus! {

/// The description of the `link` command.
pub fn info() -> (r: CommandInfo)
    ensures
        command_is(r, "link"@, "Get a message link from this modmail thread (useful for reporting)"@, true),
        r.options@.len() == 1,
        option_is(r.options@[0], "id"@, "The thread message ID to get a link for"@, OptionKind::Text, true, Some(1), Some(20)),
{
    let mut options: Vec<CommandOption> = Vec::new();
    options.push(text_option("id", "The thread message ID to get a link for", 1, 20));
    command("link", "Get a message link from this modmail thread (useful for reporting)", true, options)
}

} // verus!
