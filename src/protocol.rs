//! What the engine hands to the platform and what comes back: the requests
//! for outside work, their outcomes, inbound messages, and the texts that the
//! engine composes.

use crate::formatting::{
    embed_author, image_hash_text, sticker_link, sticker_url, user_avatar_link, EmbedAuthor,
    ImageHash, Sticker,
};
use crate::ids::{decimal, decimal_text};
use vstd::prelude::*;
use vstd::string::*;

verus! {

/// The type of a message on the platform, as far as relaying cares.
#[derive(Clone, Copy, Debug, PartialEq, Eq, Structural)]
pub enum MessageKind {
    Regular,
    Reply,
    Other,
}

/// A message that arrived on the private side.
#[derive(Clone, Debug)]
pub struct InboundMessage {
    pub id: u64,
    pub channel_id: u64,
    pub author_id: u64,
    pub author_name: String,
    pub author_avatar: Option<ImageHash>,
    pub author_is_bot: bool,
    pub in_guild: bool,
    pub kind: MessageKind,
    pub content: String,
    pub sticker: Option<Sticker>,
    pub attachment_urls: Vec<String>,
    /// The private message this one replies to.
    pub reply_to: Option<u64>,
}

/// The mirror of a private message, as an embed on the staff side.
#[derive(Clone, Debug)]
pub struct RelayedMessage {
    pub author: EmbedAuthor,
    pub description: Option<String>,
    pub image_url: Option<String>,
}

/// A reaction that acknowledges a relayed message on the private side.
#[derive(Clone, Copy, Debug, PartialEq, Eq, Structural)]
pub enum Reaction {
    /// The message was relayed.
    Sent,
    /// The edit was relayed.
    Edited,
}

/// How a staff-side message is marked after a staff command acted on the
/// private message it mirrors.
#[derive(Clone, Copy, Debug, PartialEq, Eq, Structural)]
pub enum Mark {
    /// Deleted by the staff member who sent it.
    DeletedBySender,
    /// Deleted by another staff member.
    DeletedBy(u64),
    /// Edited by the staff member who sent it.
    EditedBySender,
    /// Edited by another staff member.
    EditedBy(u64),
}

/// Outside work that the engine asks for.
#[derive(Clone, Debug)]
#[allow(inconsistent_fields)]
pub enum Request {
    /// Open the private channel with a user; answered with its id.
    CreatePrivateChannel { user_id: u64 },
    /// Create the staff-side thread of a user in the forum; answered with its id.
    CreateThread { forum_channel_id: u64, user_id: u64 },
    /// Send a plain text message.
    SendText { channel_id: u64, text: String },
    /// Post the announcement of an opened ticket, with the user's details.
    Announce { thread_id: u64, user_id: u64, content: String },
    /// Post the mirror of a private message; answered with its id.
    Mirror { thread_id: u64, message: RelayedMessage, reply_to: Option<u64> },
    /// Post the new text of an edited private message as a reply to the
    /// message that stands for it; answered with its id.
    PostEdit { thread_id: u64, reply_to: u64, author: EmbedAuthor, content: String },
    /// Fetch a message; answered with what it holds.
    FetchMessage { channel_id: u64, message_id: u64 },
    /// Post that a private message was deleted, as a reply to the message
    /// that stood for it, with the text it had.
    PostDeleteNotice { thread_id: u64, reply_to: u64, content: Option<String> },
    /// Add a reaction to a private message.
    React { channel_id: u64, message_id: u64, reaction: Reaction },
    /// Remove the bot's reaction from a private message.
    Unreact { channel_id: u64, message_id: u64, reaction: Reaction },
    /// Archive a staff thread.
    ArchiveThread { thread_id: u64 },
    /// Delete a message.
    DeleteMessage { channel_id: u64, message_id: u64 },
    /// Replace the text of a message.
    EditMessage { channel_id: u64, message_id: u64, content: String },
    /// Show a staff reply as the command's response in the thread;
    /// answered with the id of that response.
    ConfirmReply { content: String },
    /// Mark a staff-side message; for an edit, with its new text.
    MarkMessage { channel_id: u64, message_id: u64, mark: Mark, content: Option<String> },
}

/// A message as fetched from the staff side.
#[derive(Clone, Debug)]
pub struct FetchedMessage {
    pub author_id: u64,
    /// The command that produced the message, and who ran it.
    pub command: Option<CommandUse>,
    /// Whether the message has an embed.
    pub has_embed: bool,
    /// The text of its first embed.
    pub embed_description: Option<String>,
}

/// A slash command that produced a message.
#[derive(Clone, Debug)]
pub struct CommandUse {
    pub name: String,
    pub user_id: u64,
}

/// What came of a request.
#[derive(Clone, Debug)]
pub enum Outcome {
    /// It succeeded.
    Done,
    /// It succeeded and made the object with this id.
    Created(u64),
    /// The fetched message.
    Fetched(FetchedMessage),
    /// It failed.
    Failed,
}

/// Why an operation stopped early.
#[derive(Clone, Copy, Debug, PartialEq, Eq, Structural)]
pub enum Failure {
    /// A request to the platform failed.
    Remote,
    /// A ticket that had to exist does not.
    MissingTicket,
    /// A message row that had to exist does not.
    MissingMapping,
    /// A fetched message lacks the embed it had to have.
    MissingEmbed,
}

/// How an operation ended.
#[derive(Clone, Copy, Debug, PartialEq, Eq, Structural)]
pub enum Status {
    /// Nothing was to be done.
    Ignored,
    /// It ran to the end.
    Completed,
    /// It stopped early.
    Failed(Failure),
}

/// What an operation asks for next: the change it made to the store, to be
/// written to storage, and the outside work to do, if any.
#[derive(Clone, Debug)]
pub struct Step {
    pub write: Option<crate::store::StoreWrite>,
    pub request: Option<Request>,
}

/// Whether an inbound message is one to relay: a regular message or a reply,
/// sent in private by someone who is not a bot.
pub open spec fn qualifies(author_is_bot: bool, in_guild: bool, kind: MessageKind) -> bool {
    !author_is_bot && !in_guild && (kind == MessageKind::Regular || kind == MessageKind::Reply)
}

/// The text of a relayed message: its content and, when it carries a
/// sticker, a line naming it; `None` when that is empty.
pub open spec fn relayed_text(content: Seq<char>, sticker: Option<Sticker>) -> Option<Seq<char>> {
    let text = match sticker {
        Some(s) => content + "\n[Sticker: "@ + s.name@ + "]"@,
        None => content,
    };
    if text.len() == 0 {
        None
    } else {
        Some(text)
    }
}

pub open spec fn author_fits(a: EmbedAuthor, user_id: u64, name: Seq<char>, avatar: Option<ImageHash>) -> bool {
    &&& a.name@ == name
    &&& a.icon_url is Some <==> avatar is Some
    &&& avatar matches Some(h) ==> a.icon_url matches Some(u) && u@ == user_avatar_link(
        user_id,
        image_hash_text(h.bytes@, h.animated),
        h.animated,
    )
}

/// Whether `m` is the mirror of `msg`: the author line, the text, and the
/// sticker's image.
pub open spec fn relayed_fits(m: RelayedMessage, msg: InboundMessage) -> bool {
    &&& author_fits(m.author, msg.author_id, msg.author_name@, msg.author_avatar)
    &&& match relayed_text(msg.content@, msg.sticker) {
        Some(t) => m.description matches Some(d) && d@ == t,
        None => m.description is None,
    }
    &&& match msg.sticker {
        Some(s) => match sticker_link(s.id, s.format) {
            Some(l) => m.image_url matches Some(u) && u@ == l,
            None => m.image_url is None,
        },
        None => m.image_url is None,
    }
}

/// The mirror of an inbound message.
pub fn render_message(msg: &InboundMessage) -> (r: RelayedMessage)
    ensures
        relayed_fits(r, *msg),
{
    let author = embed_author(msg.author_id, msg.author_name.as_str(), msg.author_avatar);
    let mut text = msg.content.clone();
    let mut image_url: Option<String> = None;
    match &msg.sticker {
        Some(s) => {
            text.append("\n[Sticker: ");
            text.append(s.name.as_str());
            text.append("]");
            image_url = sticker_url(s);
        },
        None => {},
    }
    let description = if text.as_str().is_empty() {
        None
    } else {
        Some(text)
    };
    RelayedMessage { author, description, image_url }
}

/// The lines that link a message's attachments.
pub open spec fn attachment_lines(urls: Seq<String>) -> Seq<char>
    decreases urls.len(),
{
    if urls.len() == 0 {
        Seq::empty()
    } else {
        attachment_lines(urls.drop_last()) + "\n"@ + urls.last()@
    }
}

pub open spec fn attachments_text(urls: Seq<String>) -> Seq<char> {
    "Attachments:"@ + attachment_lines(urls)
}

/// The message that links a relayed message's attachments.
pub fn render_attachments(urls: &Vec<String>) -> (r: String)
    ensures
        r@ == attachments_text(urls@),
{
    let mut text = String::from_str("Attachments:");
    let mut i: usize = 0;
    while i < urls.len()
        invariant
            0 <= i <= urls@.len(),
            text@ == "Attachments:"@ + attachment_lines(urls@.subrange(0, i as int)),
        decreases urls@.len() - i,
    {
        assert(urls@.subrange(0, i + 1).drop_last() == urls@.subrange(0, i as int));
        text.append("\n");
        text.append(urls[i].as_str());
        i += 1;
    }
    assert(urls@.subrange(0, urls@.len() as int) == urls@);
    text
}

/// `<@id>`: a mention of a user.
pub open spec fn user_mention(id: u64) -> Seq<char> {
    "<@"@ + decimal(id as nat) + ">"@
}

pub fn mention_user(id: u64) -> (r: String)
    ensures
        r@ == user_mention(id),
{
    let mut s = String::from_str("<@");
    let d = decimal_text(id);
    s.append(d.as_str());
    s.append(">");
    s
}

/// A mention of each role, each followed by a space.
pub open spec fn role_mentions(roles: Seq<u64>) -> Seq<char>
    decreases roles.len(),
{
    if roles.len() == 0 {
        Seq::empty()
    } else {
        role_mentions(roles.drop_last()) + "<@&"@ + decimal(roles.last() as nat) + "> "@
    }
}

/// The text of the announcement of an opened ticket: the roles to ping,
/// then, on a line of its own, the user.
pub open spec fn announce_text(roles: Seq<u64>, user_id: u64) -> Seq<char> {
    role_mentions(roles) + (if roles.len() > 0 {
        "\n\n"@
    } else {
        Seq::empty()
    }) + user_mention(user_id)
}

pub fn render_announcement(roles: &Vec<u64>, user_id: u64) -> (r: String)
    ensures
        r@ == announce_text(roles@, user_id),
{
    let mut text = String::new();
    let mut i: usize = 0;
    while i < roles.len()
        invariant
            0 <= i <= roles@.len(),
            text@ == role_mentions(roles@.subrange(0, i as int)),
        decreases roles@.len() - i,
    {
        assert(roles@.subrange(0, i + 1).drop_last() == roles@.subrange(0, i as int));
        text.append("<@&");
        let d = decimal_text(roles[i]);
        text.append(d.as_str());
        text.append("> ");
        i += 1;
    }
    assert(roles@.subrange(0, roles@.len() as int) == roles@);
    if roles.len() > 0 {
        text.append("\n\n");
    }
    let m = mention_user(user_id);
    text.append(m.as_str());
    text
}

} // verus!
