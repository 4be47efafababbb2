//! Staff commands that act on the private side from a ticket's thread:
//! replying, deleting or editing a reply, and linking a relayed message.

use crate::config::Config;
use crate::ids::{decimal, decimal_text, parse_id, parsed_id};
use crate::protocol::{FetchedMessage, Failure, Mark, Outcome, Request, Step};
use crate::store::{dm_for_thread, find_ticket, Database, MessageRow, StoreWrite, Ticket, TicketKey};
use vstd::prelude::*;
use vstd::string::*;

verus! {

/// How a staff command ended, as the staff member is told.
#[derive(Clone, Copy, Debug, PartialEq, Eq, Structural)]
pub enum CommandResult {
    /// The command was used outside a ticket's thread.
    NotInThread,
    /// The message id given is not an id.
    InvalidId,
    /// No message has that id in the thread.
    NotFound,
    /// The message was not sent by the bot through a reply command.
    NotMine,
    /// The private message could not be sent.
    DmFailed,
    /// It was done.
    Done,
    /// It stopped early.
    Failed(Failure),
}

/// The thread a command was used in, when that is a thread of the forum.
pub open spec fn modmail_thread(channel_id: u64, parent_id: Option<u64>, forum: u64) -> Option<u64> {
    if parent_id == Some(forum) {
        Some(channel_id)
    } else {
        None
    }
}

/// The thread a command was used in, when that is a ticket's thread.
pub fn only_in_modmail_thread(channel_id: u64, parent_id: Option<u64>, config: &Config) -> (r: Option<u64>)
    ensures
        r == modmail_thread(channel_id, parent_id, config.forum_channel_id),
{
    if parent_id == Some(config.forum_channel_id) {
        Some(channel_id)
    } else {
        None
    }
}

/// Whether a fetched message is one the bot sent for a `reply` or `tag`
/// command: only those may be deleted or edited by staff.
pub open spec fn sent_by_command(m: FetchedMessage, bot_user_id: u64) -> bool {
    m.author_id == bot_user_id && match m.command {
        Some(c) => c.name@ == "reply"@ || c.name@ == "tag"@,
        None => false,
    }
}

fn is_sending_command(m: &FetchedMessage, bot_user_id: u64) -> (r: bool)
    ensures
        r == sent_by_command(*m, bot_user_id),
{
    if m.author_id != bot_user_id {
        return false;
    }
    match &m.command {
        Some(c) => {
            let reply = String::from_str("reply");
            let tag = String::from_str("tag");
            c.name == reply || c.name == tag
        },
        None => false,
    }
}

/// Where a staff deletion or edit stands.
#[derive(Clone, Copy, Debug, PartialEq, Eq, Structural)]
pub enum StaffPhase {
    /// Waiting for the staff-side message named by the command.
    AwaitFetch { thread_id: u64, thread_msg_id: u64 },
    /// Waiting for the private message to be deleted or edited; `ready`
    /// says whether the staff-side message has what marking it needs.
    AwaitApply { thread_id: u64, thread_msg_id: u64, mark: Mark, ready: bool },
    /// Waiting for the staff-side message to be marked.
    AwaitMark,
    Finished(CommandResult),
}

/// The mark of a staff-side message acted on by `invoker`.
pub open spec fn mark_for(editing: bool, invoker: u64, sender: u64) -> Mark {
    if editing {
        if invoker == sender {
            Mark::EditedBySender
        } else {
            Mark::EditedBy(invoker)
        }
    } else if invoker == sender {
        Mark::DeletedBySender
    } else {
        Mark::DeletedBy(invoker)
    }
}

/// A staff member deleting (`new_text` is `None`) or editing a reply that
/// was sent to the user.
pub struct StaffAction {
    pub invoker: u64,
    pub new_text: Option<String>,
    pub phase: StaffPhase,
}

impl StaffAction {
    /// Begins the command: it must be used in a ticket's thread and name a
    /// message by a valid id, which is then fetched.
    pub fn start(
        channel_id: u64,
        parent_id: Option<u64>,
        id_text: &str,
        new_text: Option<String>,
        invoker: u64,
        config: &Config,
    ) -> (r: (StaffAction, Option<Request>))
        ensures
            r.0.invoker == invoker,
            r.0.new_text == new_text,
            match modmail_thread(channel_id, parent_id, config.forum_channel_id) {
                None => r.0.phase == StaffPhase::Finished(CommandResult::NotInThread) && r.1 is None,
                Some(thread) => match parsed_id(id_text@) {
                    None => r.0.phase == StaffPhase::Finished(CommandResult::InvalidId) && r.1 is None,
                    Some(id) => r.0.phase == (StaffPhase::AwaitFetch { thread_id: thread, thread_msg_id: id })
                        && r.1 == Some(Request::FetchMessage { channel_id: thread, message_id: id }),
                },
            },
    {
        let thread_id = match only_in_modmail_thread(channel_id, parent_id, config) {
            Some(t) => t,
            None => {
                return (
                    StaffAction { invoker, new_text, phase: StaffPhase::Finished(CommandResult::NotInThread) },
                    None,
                );
            },
        };
        match parse_id(id_text) {
            Some(id) => (
                StaffAction { invoker, new_text, phase: StaffPhase::AwaitFetch { thread_id, thread_msg_id: id } },
                Some(Request::FetchMessage { channel_id: thread_id, message_id: id }),
            ),
            None => (
                StaffAction { invoker, new_text, phase: StaffPhase::Finished(CommandResult::InvalidId) },
                None,
            ),
        }
    }

    /// Takes the outcome of the last request and moves on. The fetched
    /// message must be a reply the bot sent; the private message it mirrors
    /// is deleted or edited, then the staff-side message is marked with who
    /// did it.
    pub fn resume(&mut self, ev: Outcome, bot_user_id: u64, db: &Database) -> (r: Option<Request>)
        ensures
            final(self).invoker == old(self).invoker,
            final(self).new_text == old(self).new_text,
            match (old(self).phase, ev) {
                (StaffPhase::AwaitFetch { thread_id, thread_msg_id }, Outcome::Fetched(m)) => if !sent_by_command(m, bot_user_id) {
                    final(self).phase == StaffPhase::Finished(CommandResult::NotMine) && r is None
                } else {
                    match find_ticket(db.ticket_rows(), TicketKey::Thread(thread_id)) {
                        None => final(self).phase == StaffPhase::Finished(CommandResult::Failed(Failure::MissingTicket)) && r is None,
                        Some(t) => match dm_for_thread(db.message_rows(), t.user_id, thread_msg_id) {
                            None => final(self).phase == StaffPhase::Finished(CommandResult::Failed(Failure::MissingMapping)) && r is None,
                            Some(dm) => {
                                &&& final(self).phase == (StaffPhase::AwaitApply {
                                    thread_id,
                                    thread_msg_id,
                                    mark: mark_for(old(self).new_text is Some, old(self).invoker, m.command->0.user_id),
                                    ready: m.has_embed && (old(self).new_text is Some ==> m.embed_description is Some),
                                })
                                &&& match (old(self).new_text, r) {
                                    (None, Some(Request::DeleteMessage { channel_id, message_id })) => channel_id == t.dm_channel_id && message_id == dm,
                                    (Some(text), Some(Request::EditMessage { channel_id, message_id, content })) => channel_id == t.dm_channel_id && message_id == dm && content@ == text@,
                                    _ => false,
                                }
                            },
                        },
                    }
                },
                (StaffPhase::AwaitFetch { .. }, _) => final(self).phase == StaffPhase::Finished(CommandResult::NotFound) && r is None,
                (StaffPhase::AwaitApply { .. }, Outcome::Failed) => final(self).phase == StaffPhase::Finished(CommandResult::Failed(Failure::Remote)) && r is None,
                (StaffPhase::AwaitApply { thread_id, thread_msg_id, mark, ready }, _) => if !ready {
                    final(self).phase == StaffPhase::Finished(CommandResult::Failed(Failure::MissingEmbed)) && r is None
                } else {
                    &&& final(self).phase == StaffPhase::AwaitMark
                    &&& match r {
                        Some(Request::MarkMessage { channel_id, message_id, mark: k, content }) => {
                            &&& channel_id == thread_id
                            &&& message_id == thread_msg_id
                            &&& k == mark
                            &&& content == old(self).new_text
                        },
                        _ => false,
                    }
                },
                (StaffPhase::AwaitMark, Outcome::Failed) => final(self).phase == StaffPhase::Finished(CommandResult::Failed(Failure::Remote)) && r is None,
                (StaffPhase::AwaitMark, _) => final(self).phase == StaffPhase::Finished(CommandResult::Done) && r is None,
                (StaffPhase::Finished(_), _) => final(self).phase == old(self).phase && r is None,
            },
    {
        match self.phase {
            StaffPhase::AwaitFetch { thread_id, thread_msg_id } => match ev {
                Outcome::Fetched(m) => {
                    if !is_sending_command(&m, bot_user_id) {
                        self.phase = StaffPhase::Finished(CommandResult::NotMine);
                        return None;
                    }
                    let ticket = match db.ticket_by_thread(thread_id) {
                        Some(t) => t,
                        None => {
                            self.phase = StaffPhase::Finished(CommandResult::Failed(Failure::MissingTicket));
                            return None;
                        },
                    };
                    let dm = match db.dm_msg_for_thread_msg(ticket.user_id, thread_msg_id) {
                        Some(d) => d,
                        None => {
                            self.phase = StaffPhase::Finished(CommandResult::Failed(Failure::MissingMapping));
                            return None;
                        },
                    };
                    let sender = match &m.command {
                        Some(c) => c.user_id,
                        None => 0,
                    };
                    let editing = self.new_text.is_some();
                    let mark = if editing {
                        if self.invoker == sender {
                            Mark::EditedBySender
                        } else {
                            Mark::EditedBy(self.invoker)
                        }
                    } else if self.invoker == sender {
                        Mark::DeletedBySender
                    } else {
                        Mark::DeletedBy(self.invoker)
                    };
                    let ready = m.has_embed && (!editing || m.embed_description.is_some());
                    self.phase = StaffPhase::AwaitApply { thread_id, thread_msg_id, mark, ready };
                    match &self.new_text {
                        None => Some(Request::DeleteMessage { channel_id: ticket.dm_channel_id, message_id: dm }),
                        Some(text) => Some(
                            Request::EditMessage {
                                channel_id: ticket.dm_channel_id,
                                message_id: dm,
                                content: text.clone(),
                            },
                        ),
                    }
                },
                _ => {
                    self.phase = StaffPhase::Finished(CommandResult::NotFound);
                    None
                },
            },
            StaffPhase::AwaitApply { thread_id, thread_msg_id, mark, ready } => match ev {
                Outcome::Failed => {
                    self.phase = StaffPhase::Finished(CommandResult::Failed(Failure::Remote));
                    None
                },
                _ => {
                    if !ready {
                        self.phase = StaffPhase::Finished(CommandResult::Failed(Failure::MissingEmbed));
                        return None;
                    }
                    self.phase = StaffPhase::AwaitMark;
                    let content = match &self.new_text {
                        Some(t) => Some(t.clone()),
                        None => None,
                    };
                    Some(Request::MarkMessage { channel_id: thread_id, message_id: thread_msg_id, mark, content })
                },
            },
            StaffPhase::AwaitMark => {
                self.phase = match ev {
                    Outcome::Failed => StaffPhase::Finished(CommandResult::Failed(Failure::Remote)),
                    _ => StaffPhase::Finished(CommandResult::Done),
                };
                None
            },
            StaffPhase::Finished(_) => None,
        }
    }
}

/// Where a staff reply stands.
#[derive(Clone, Copy, Debug, PartialEq, Eq, Structural)]
pub enum ReplyPhase {
    /// Waiting for the private message to be sent.
    AwaitDm { ticket: Ticket },
    /// Waiting for the command's response, which mirrors the reply on the
    /// staff side.
    AwaitConfirm { ticket: Ticket, dm_msg_id: u64 },
    Finished(CommandResult),
}

/// A staff member replying to the user of a ticket.
pub struct StaffReply {
    pub text: String,
    pub phase: ReplyPhase,
}

impl StaffReply {
    /// Begins a reply from the thread `channel_id`: the text is sent to the
    /// user's private channel.
    pub fn start(channel_id: u64, parent_id: Option<u64>, text: String, config: &Config, db: &Database) -> (r: (StaffReply, Option<Request>))
        ensures
            r.0.text == text,
            match modmail_thread(channel_id, parent_id, config.forum_channel_id) {
                None => r.0.phase == ReplyPhase::Finished(CommandResult::NotInThread) && r.1 is None,
                Some(thread) => match find_ticket(db.ticket_rows(), TicketKey::Thread(thread)) {
                    None => r.0.phase == ReplyPhase::Finished(CommandResult::Failed(Failure::MissingTicket)) && r.1 is None,
                    Some(t) => r.0.phase == (ReplyPhase::AwaitDm { ticket: t }) && match r.1 {
                        Some(Request::SendText { channel_id: c, text: s }) => c == t.dm_channel_id && s@ == text@,
                        _ => false,
                    },
                },
            },
    {
        let thread_id = match only_in_modmail_thread(channel_id, parent_id, config) {
            Some(t) => t,
            None => {
                return (StaffReply { text, phase: ReplyPhase::Finished(CommandResult::NotInThread) }, None);
            },
        };
        match db.ticket_by_thread(thread_id) {
            Some(ticket) => {
                let send = Request::SendText { channel_id: ticket.dm_channel_id, text: text.clone() };
                (StaffReply { text, phase: ReplyPhase::AwaitDm { ticket } }, Some(send))
            },
            None => (
                StaffReply { text, phase: ReplyPhase::Finished(CommandResult::Failed(Failure::MissingTicket)) },
                None,
            ),
        }
    }

    /// Takes the outcome of the last request and moves on. Once the
    /// response that mirrors the reply exists, the pair is recorded.
    pub fn resume(&mut self, ev: Outcome, db: &mut Database) -> (r: Step)
        requires
            old(db).wf(),
        ensures
            final(db).wf(),
            final(self).text == old(self).text,
            final(db).ticket_rows() == old(db).ticket_rows(),
            match (old(self).phase, ev) {
                (ReplyPhase::AwaitDm { ticket }, Outcome::Created(dm)) => {
                    &&& final(self).phase == (ReplyPhase::AwaitConfirm { ticket, dm_msg_id: dm })
                    &&& final(db).message_rows() == old(db).message_rows()
                    &&& r.write is None
                    &&& match r.request {
                        Some(Request::ConfirmReply { content }) => content@ == old(self).text@,
                        _ => false,
                    }
                },
                (ReplyPhase::AwaitDm { .. }, _) => final(self).phase == ReplyPhase::Finished(CommandResult::DmFailed)
                    && final(db).message_rows() == old(db).message_rows() && r.write is None && r.request is None,
                (ReplyPhase::AwaitConfirm { ticket, dm_msg_id }, Outcome::Created(id)) => {
                    let row = MessageRow { user_id: ticket.user_id, dm_msg_id, thread_msg_id: id, thread_update_msg_id: None };
                    &&& final(self).phase == ReplyPhase::Finished(CommandResult::Done)
                    &&& final(db).message_rows() == old(db).message_rows().push(row)
                    &&& r.write == Some(StoreWrite::InsertMessage(row))
                    &&& r.request is None
                },
                (ReplyPhase::AwaitConfirm { .. }, _) => final(self).phase == ReplyPhase::Finished(CommandResult::Failed(Failure::Remote))
                    && final(db).message_rows() == old(db).message_rows() && r.write is None && r.request is None,
                (ReplyPhase::Finished(_), _) => final(self).phase == old(self).phase
                    && final(db).message_rows() == old(db).message_rows() && r.write is None && r.request is None,
            },
    {
        let none = Step { write: None, request: None };
        match self.phase {
            ReplyPhase::AwaitDm { ticket } => match ev {
                Outcome::Created(dm) => {
                    self.phase = ReplyPhase::AwaitConfirm { ticket, dm_msg_id: dm };
                    Step {
                        write: None,
                        request: Some(Request::ConfirmReply { content: self.text.clone() }),
                    }
                },
                _ => {
                    self.phase = ReplyPhase::Finished(CommandResult::DmFailed);
                    none
                },
            },
            ReplyPhase::AwaitConfirm { ticket, dm_msg_id } => match ev {
                Outcome::Created(id) => {
                    let row = MessageRow { user_id: ticket.user_id, dm_msg_id, thread_msg_id: id, thread_update_msg_id: None };
                    db.insert_message(row);
                    self.phase = ReplyPhase::Finished(CommandResult::Done);
                    Step { write: Some(StoreWrite::InsertMessage(row)), request: None }
                },
                _ => {
                    self.phase = ReplyPhase::Finished(CommandResult::Failed(Failure::Remote));
                    none
                },
            },
            ReplyPhase::Finished(_) => none,
        }
    }
}

/// `https://discord.com/channels/{guild}/{channel}/{message}`.
pub open spec fn message_link(guild: Seq<char>, channel: u64, message: u64) -> Seq<char> {
    "https://discord.com/channels/"@ + guild + "/"@ + decimal(channel as nat) + "/"@ + decimal(message as nat)
}

fn link_to(guild: &str, channel: u64, message: u64) -> (r: String)
    ensures
        r@ == message_link(guild@, channel, message),
{
    let mut s = String::from_str("https://discord.com/channels/");
    s.append(guild);
    s.append("/");
    let c = decimal_text(channel);
    s.append(c.as_str());
    s.append("/");
    let m = decimal_text(message);
    s.append(m.as_str());
    s
}

/// The link to a message in a guild channel.
pub fn guild_message_link(guild_id: u64, channel: u64, message: u64) -> (r: String)
    ensures
        r@ == message_link(decimal(guild_id as nat), channel, message),
{
    let g = decimal_text(guild_id);
    link_to(g.as_str(), channel, message)
}

pub open spec fn dm_link_text(dm_channel: u64, dm_msg: u64) -> Seq<char> {
    message_link("@me"@, dm_channel, dm_msg) + "\n^ Right-click (or hold on mobile) to copy that as a link."@
}

/// The answer to the link command: a link to the private message that a
/// staff-side message of the ticket mirrors.
pub fn link(channel_id: u64, parent_id: Option<u64>, id_text: &str, config: &Config, db: &Database) -> (r: Result<String, CommandResult>)
    ensures
        match modmail_thread(channel_id, parent_id, config.forum_channel_id) {
            None => r == Err::<String, CommandResult>(CommandResult::NotInThread),
            Some(thread) => match parsed_id(id_text@) {
                None => r == Err::<String, CommandResult>(CommandResult::InvalidId),
                Some(id) => match find_ticket(db.ticket_rows(), TicketKey::Thread(thread)) {
                    None => r == Err::<String, CommandResult>(CommandResult::Failed(Failure::MissingTicket)),
                    Some(t) => match dm_for_thread(db.message_rows(), t.user_id, id) {
                        None => r == Err::<String, CommandResult>(CommandResult::NotFound),
                        Some(dm) => r matches Ok(s) && s@ == dm_link_text(t.dm_channel_id, dm),
                    },
                },
            },
        },
{
    let thread_id = match only_in_modmail_thread(channel_id, parent_id, config) {
        Some(t) => t,
        None => {
            return Err(CommandResult::NotInThread);
        },
    };
    let id = match parse_id(id_text) {
        Some(i) => i,
        None => {
            return Err(CommandResult::InvalidId);
        },
    };
    let ticket = match db.ticket_by_thread(thread_id) {
        Some(t) => t,
        None => {
            return Err(CommandResult::Failed(Failure::MissingTicket));
        },
    };
    match db.dm_msg_for_thread_msg(ticket.user_id, id) {
        Some(dm) => {
            let mut s = link_to("@me", ticket.dm_channel_id, dm);
            s.append("\n^ Right-click (or hold on mobile) to copy that as a link.");
            Ok(s)
        },
        None => Err(CommandResult::NotFound),
    }
}

} // verus!
