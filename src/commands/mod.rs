//! The slash commands the bot offers, described as the platform registers
//! them.

use vstd::prelude::*;
use vstd::string::*;

pub mod about;
pub mod close;
pub mod delete;
pub mod edit;
pub mod info;
pub mod link;
pub mod modmail;
pub mod ping;
pub mod reply;

verus! {

/// The type of a command option.
#[derive(Clone, Copy, Debug, PartialEq, Eq, Structural)]
pub enum OptionKind {
    Boolean,
    Text,
}

/// An option of a command.
#[derive(Clone, Debug)]
pub struct CommandOption {
    pub name: String,
    pub description: String,
    pub kind: OptionKind,
    pub required: bool,
    pub min_length: Option<u16>,
    pub max_length: Option<u16>,
}

/// A chat command, as it is registered with the platform.
#[derive(Clone, Debug)]
pub struct CommandInfo {
    pub name: String,
    pub description: String,
    /// Whether only administrators may use it by default.
    pub admin_only: bool,
    pub options: Vec<CommandOption>,
}

pub open spec fn option_is(
    o: CommandOption,
    name: Seq<char>,
    description: Seq<char>,
    kind: OptionKind,
    required: bool,
    min_length: Option<u16>,
    max_length: Option<u16>,
) -> bool {
    &&& o.name@ == name
    &&& o.description@ == description
    &&& o.kind == kind
    &&& o.required == required
    &&& o.min_length == min_length
    &&& o.max_length == max_length
}

pub open spec fn command_is(c: CommandInfo, name: Seq<char>, description: Seq<char>, admin_only: bool) -> bool {
    &&& c.name@ == name
    &&& c.description@ == description
    &&& c.admin_only == admin_only
}

/// A text option that must be given, with bounds on its length.
pub fn text_option(name: &str, description: &str, min_length: u16, max_length: u16) -> (r: CommandOption)
    ensures
        option_is(r, name@, description@, OptionKind::Text, true, Some(min_length), Some(max_length)),
{
    CommandOption {
        name: String::from_str(name),
        description: String::from_str(description),
        kind: OptionKind::Text,
        required: true,
        min_length: Some(min_length),
        max_length: Some(max_length),
    }
}

/// A command with the given options.
pub fn command(name: &str, description: &str, admin_only: bool, options: Vec<CommandOption>) -> (r: CommandInfo)
    ensures
        command_is(r, name@, description@, admin_only),
        r.options == options,
{
    CommandInfo { name: String::from_str(name), description: String::from_str(description), admin_only, options }
}

/// Every command, in the order they are registered.
pub fn info() -> (r: Vec<CommandInfo>)
    ensures
        r@.len() == 9,
        r@[0].name@ == "about"@,
        r@[1].name@ == "close"@,
        r@[2].name@ == "delete"@,
        r@[3].name@ == "edit"@,
        r@[4].name@ == "info"@,
        r@[5].name@ == "link"@,
        r@[6].name@ == "modmail"@,
        r@[7].name@ == "ping"@,
        r@[8].name@ == "reply"@,
{
    let mut v: Vec<CommandInfo> = Vec::new();
    v.push(about::info());
    v.push(close::info());
    v.push(delete::info());
    v.push(edit::info());
    v.push(info::info());
    v.push(link::info());
    v.push(modmail::info());
    v.push(ping::info());
    v.push(reply::info());
    v
}

} // verus!
