//! Relaying edits and deletions of private messages to the staff side.

use crate::formatting::{embed_author, ImageHash};
use crate::protocol::{
    author_fits, Failure, MessageKind, Outcome, Reaction, Request, Status, Step,
};
use crate::relay::{after_lookup, CreatePhase};
use crate::store::{
    find_ticket, lemma_find_some, resolve, updated_rows, users_unique, without_dm, Database,
    MessageRow, StoreWrite, Ticket, TicketKey,
};
use vstd::prelude::*;

verus! {

/// A private message whose text changed.
#[derive(Clone, Debug)]
pub struct EditedMessage {
    pub id: u64,
    pub channel_id: u64,
    pub in_guild: bool,
    /// The message type, when the update carries it.
    pub kind: Option<MessageKind>,
    /// The author, when the update carries it.
    pub author_id: Option<u64>,
    pub author_name: String,
    pub author_avatar: Option<ImageHash>,
    pub author_is_bot: bool,
    /// The new text, when the update carries it.
    pub content: Option<String>,
}

/// Where the relay of an edit stands.
#[derive(Clone, Copy, Debug, PartialEq, Eq, Structural)]
pub enum EditPhase {
    /// Waiting for the follow-up to be posted on the staff side.
    AwaitPost { ticket: Ticket },
    /// Waiting for the acknowledging reaction (its failure is ignored).
    AwaitReact { ticket: Ticket },
    /// Waiting for that reaction to be taken back (its failure is ignored).
    AwaitUnreact { ticket: Ticket },
    Finished(Status),
}

/// Whether an update is one to relay: a private regular message or reply,
/// by a known author who is not a bot, with non-empty text.
pub open spec fn edit_qualifies(m: EditedMessage) -> bool {
    &&& !m.in_guild
    &&& match m.kind {
        Some(k) => k == MessageKind::Regular || k == MessageKind::Reply,
        None => true,
    }
    &&& m.author_id is Some
    &&& !m.author_is_bot
    &&& m.content matches Some(c) && c@.len() > 0
}

/// The first phase of relaying an edit: nothing unless the update
/// qualifies and its author has an open, unblocked ticket; a failure when
/// the message was never relayed.
pub open spec fn edit_start(m: EditedMessage, ts: Seq<Ticket>, rows: Seq<crate::store::MessageRow>) -> EditPhase {
    if !edit_qualifies(m) {
        EditPhase::Finished(Status::Ignored)
    } else {
        let user = m.author_id->0;
        match find_ticket(ts, TicketKey::User(user)) {
            Some(t) => if !t.is_open || t.blocked {
                EditPhase::Finished(Status::Ignored)
            } else if resolve(rows, user, m.id) is None {
                EditPhase::Finished(Status::Failed(Failure::MissingMapping))
            } else {
                EditPhase::AwaitPost { ticket: t }
            },
            None => EditPhase::Finished(Status::Ignored),
        }
    }
}

/// The relay of an edit of a private message.
pub struct ForwardEdit {
    pub msg: EditedMessage,
    pub phase: EditPhase,
}

impl ForwardEdit {
    /// Begins relaying an edit: the new text is posted on the staff side as
    /// a reply to the message that currently stands for the edited one.
    pub fn start(msg: EditedMessage, db: &Database) -> (r: (ForwardEdit, Step))
        ensures
            r.0.msg == msg,
            r.0.phase == edit_start(msg, db.ticket_rows(), db.message_rows()),
            r.1.write is None,
            match r.0.phase {
                EditPhase::AwaitPost { ticket } => match (r.1.request, msg.content) {
                    (Some(Request::PostEdit { thread_id, reply_to, author, content }), Some(c)) => {
                        &&& thread_id == ticket.thread_id
                        &&& Some(reply_to) == resolve(db.message_rows(), ticket.user_id, msg.id)
                        &&& author_fits(author, ticket.user_id, msg.author_name@, msg.author_avatar)
                        &&& content@ == c@
                    },
                    _ => false,
                },
                _ => r.1.request is None,
            },
    {
        let ok = !msg.in_guild && match msg.kind {
            Some(MessageKind::Other) => false,
            _ => true,
        } && !msg.author_is_bot && match &msg.content {
            Some(c) => !c.as_str().is_empty(),
            None => false,
        };
        let user_id = match msg.author_id {
            Some(u) => u,
            None => {
                return (
                    ForwardEdit { msg, phase: EditPhase::Finished(Status::Ignored) },
                    Step { write: None, request: None },
                );
            },
        };
        if !ok {
            return (
                ForwardEdit { msg, phase: EditPhase::Finished(Status::Ignored) },
                Step { write: None, request: None },
            );
        }
        let ticket = match db.ticket_by_user(user_id) {
            Some(t) => t,
            None => {
                return (
                    ForwardEdit { msg, phase: EditPhase::Finished(Status::Ignored) },
                    Step { write: None, request: None },
                );
            },
        };
        if !ticket.is_open || ticket.blocked {
            return (
                ForwardEdit { msg, phase: EditPhase::Finished(Status::Ignored) },
                Step { write: None, request: None },
            );
        }
        let reply_to = match db.resolve_thread_msg(user_id, msg.id) {
            Some(r) => r,
            None => {
                return (
                    ForwardEdit {
                        msg,
                        phase: EditPhase::Finished(Status::Failed(Failure::MissingMapping)),
                    },
                    Step { write: None, request: None },
                );
            },
        };
        proof {
            crate::store::lemma_find_some(db.ticket_rows(), TicketKey::User(user_id), 0);
        }
        let author = embed_author(user_id, msg.author_name.as_str(), msg.author_avatar);
        let content = match &msg.content {
            Some(c) => c.clone(),
            None => String::new(),
        };
        let request = Request::PostEdit { thread_id: ticket.thread_id, reply_to, author, content };
        (
            ForwardEdit { msg, phase: EditPhase::AwaitPost { ticket } },
            Step { write: None, request: Some(request) },
        )
    }

    /// Takes the outcome of the last request and moves on. Once the
    /// follow-up is posted it is recorded for the edited message; the
    /// acknowledging reaction is best-effort.
    pub fn resume(&mut self, ev: Outcome, db: &mut Database) -> (r: Step)
        requires
            old(db).wf(),
        ensures
            final(db).wf(),
            final(self).msg == old(self).msg,
            final(db).ticket_rows() == old(db).ticket_rows(),
            match (old(self).phase, ev) {
                (EditPhase::AwaitPost { ticket }, Outcome::Created(id)) => {
                    &&& final(self).phase == (EditPhase::AwaitReact { ticket })
                    &&& final(db).message_rows() == updated_rows(old(db).message_rows(), ticket.user_id, old(self).msg.id, id)
                    &&& r.write == Some(StoreWrite::SetUpdate { user_id: ticket.user_id, dm_msg_id: old(self).msg.id, thread_update_msg_id: id })
                    &&& r.request == Some(Request::React { channel_id: old(self).msg.channel_id, message_id: old(self).msg.id, reaction: Reaction::Edited })
                },
                (EditPhase::AwaitPost { .. }, _) => {
                    &&& final(self).phase == EditPhase::Finished(Status::Failed(Failure::Remote))
                    &&& final(db).message_rows() == old(db).message_rows()
                    &&& r.write is None && r.request is None
                },
                (EditPhase::AwaitReact { ticket }, _) => {
                    &&& final(self).phase == (EditPhase::AwaitUnreact { ticket })
                    &&& final(db).message_rows() == old(db).message_rows()
                    &&& r.write is None
                    &&& r.request == Some(Request::Unreact { channel_id: old(self).msg.channel_id, message_id: old(self).msg.id, reaction: Reaction::Edited })
                },
                (EditPhase::AwaitUnreact { .. }, _) => {
                    &&& final(self).phase == EditPhase::Finished(Status::Completed)
                    &&& final(db).message_rows() == old(db).message_rows()
                    &&& r.write is None && r.request is None
                },
                (EditPhase::Finished(s), _) => {
                    &&& final(self).phase == old(self).phase
                    &&& final(db).message_rows() == old(db).message_rows()
                    &&& r.write is None && r.request is None
                },
            },
    {
        let react = Request::React {
            channel_id: self.msg.channel_id,
            message_id: self.msg.id,
            reaction: Reaction::Edited,
        };
        match self.phase {
            EditPhase::AwaitPost { ticket } => match ev {
                Outcome::Created(id) => {
                    db.set_update(ticket.user_id, self.msg.id, id);
                    self.phase = EditPhase::AwaitReact { ticket };
                    Step {
                        write: Some(
                            StoreWrite::SetUpdate {
                                user_id: ticket.user_id,
                                dm_msg_id: self.msg.id,
                                thread_update_msg_id: id,
                            },
                        ),
                        request: Some(react),
                    }
                },
                _ => {
                    self.phase = EditPhase::Finished(Status::Failed(Failure::Remote));
                    Step { write: None, request: None }
                },
            },
            EditPhase::AwaitReact { ticket } => {
                self.phase = EditPhase::AwaitUnreact { ticket };
                Step {
                    write: None,
                    request: Some(
                        Request::Unreact {
                            channel_id: self.msg.channel_id,
                            message_id: self.msg.id,
                            reaction: Reaction::Edited,
                        },
                    ),
                }
            },
            EditPhase::AwaitUnreact { .. } => {
                self.phase = EditPhase::Finished(Status::Completed);
                Step { write: None, request: None }
            },
            EditPhase::Finished(_) => Step { write: None, request: None },
        }
    }
}

/// A private message that was deleted.
#[derive(Clone, Copy, Debug, PartialEq, Eq, Structural)]
pub struct DeletedMessage {
    pub id: u64,
    pub channel_id: u64,
    pub in_guild: bool,
}

/// Where the relay of a deletion stands.
#[derive(Clone, Copy, Debug, PartialEq, Eq, Structural)]
pub enum DeletePhase {
    /// Waiting for the staff-side message that stood for the deleted one.
    AwaitFetch { ticket: Ticket, thread_msg_id: u64 },
    /// Waiting for the deletion notice to be posted.
    AwaitNotice { ticket: Ticket },
    Finished(Status),
}

/// The first phase of relaying a deletion: nothing unless the message was
/// private and its channel belongs to an open, unblocked ticket; a failure
/// when the message was never relayed.
pub open spec fn delete_start(m: DeletedMessage, ts: Seq<Ticket>, rows: Seq<crate::store::MessageRow>) -> DeletePhase {
    if m.in_guild {
        DeletePhase::Finished(Status::Ignored)
    } else {
        match find_ticket(ts, TicketKey::DmChannel(m.channel_id)) {
            Some(t) => if !t.is_open || t.blocked {
                DeletePhase::Finished(Status::Ignored)
            } else {
                match resolve(rows, t.user_id, m.id) {
                    Some(rep) => DeletePhase::AwaitFetch { ticket: t, thread_msg_id: rep },
                    None => DeletePhase::Finished(Status::Failed(Failure::MissingMapping)),
                }
            },
            None => DeletePhase::Finished(Status::Ignored),
        }
    }
}

/// The relay of the deletion of a private message.
pub struct ForwardDelete {
    pub msg: DeletedMessage,
    pub phase: DeletePhase,
}

impl ForwardDelete {
    /// Begins relaying a deletion: the rows of the message are deleted at
    /// once, and the staff-side message that stood for it is fetched.
    pub fn start(msg: DeletedMessage, db: &mut Database) -> (r: (ForwardDelete, Step))
        requires
            old(db).wf(),
        ensures
            final(db).wf(),
            r.0.msg == msg,
            r.0.phase == delete_start(msg, old(db).ticket_rows(), old(db).message_rows()),
            final(db).ticket_rows() == old(db).ticket_rows(),
            match r.0.phase {
                DeletePhase::AwaitFetch { ticket, thread_msg_id } => {
                    &&& final(db).message_rows() == without_dm(old(db).message_rows(), ticket.user_id, msg.id)
                    &&& r.1.write == Some(StoreWrite::DeleteMessages { user_id: ticket.user_id, dm_msg_id: msg.id })
                    &&& r.1.request == Some(Request::FetchMessage { channel_id: ticket.thread_id, message_id: thread_msg_id })
                },
                _ => final(db).message_rows() == old(db).message_rows() && r.1.write is None
                    && r.1.request is None,
            },
    {
        let ignored = (
            ForwardDelete { msg, phase: DeletePhase::Finished(Status::Ignored) },
            Step { write: None, request: None },
        );
        if msg.in_guild {
            return ignored;
        }
        let ticket = match db.ticket_by_dm_channel(msg.channel_id) {
            Some(t) => t,
            None => {
                return ignored;
            },
        };
        if !ticket.is_open || ticket.blocked {
            return ignored;
        }
        match db.delete_message(ticket.user_id, msg.id) {
            Some(rep) => (
                ForwardDelete { msg, phase: DeletePhase::AwaitFetch { ticket, thread_msg_id: rep } },
                Step {
                    write: Some(StoreWrite::DeleteMessages { user_id: ticket.user_id, dm_msg_id: msg.id }),
                    request: Some(Request::FetchMessage { channel_id: ticket.thread_id, message_id: rep }),
                },
            ),
            None => {
                proof {
                    crate::store::lemma_without_absent(old(db).message_rows(), ticket.user_id, msg.id);
                }
                (
                    ForwardDelete {
                        msg,
                        phase: DeletePhase::Finished(Status::Failed(Failure::MissingMapping)),
                    },
                    Step { write: None, request: None },
                )
            },
        }
    }

    /// Takes the outcome of the last request and moves on. A message that a
    /// staff command produced gets no notice: staff already know; any other
    /// gets a notice that replies to it with the text it had.
    pub fn resume(&mut self, ev: Outcome) -> (r: Step)
        ensures
            final(self).msg == old(self).msg,
            r.write is None,
            match (old(self).phase, ev) {
                (DeletePhase::AwaitFetch { ticket, thread_msg_id }, Outcome::Fetched(m)) => if m.command is Some {
                    final(self).phase == DeletePhase::Finished(Status::Completed) && r.request is None
                } else if !m.has_embed {
                    final(self).phase == DeletePhase::Finished(Status::Failed(Failure::MissingEmbed)) && r.request is None
                } else {
                    &&& final(self).phase == (DeletePhase::AwaitNotice { ticket })
                    &&& match r.request {
                        Some(Request::PostDeleteNotice { thread_id, reply_to, content }) => {
                            &&& thread_id == ticket.thread_id
                            &&& reply_to == thread_msg_id
                            &&& content == m.embed_description
                        },
                        _ => false,
                    }
                },
                (DeletePhase::AwaitFetch { .. }, _) => final(self).phase == DeletePhase::Finished(Status::Failed(Failure::Remote)) && r.request is None,
                (DeletePhase::AwaitNotice { .. }, Outcome::Failed) => final(self).phase == DeletePhase::Finished(Status::Failed(Failure::Remote)) && r.request is None,
                (DeletePhase::AwaitNotice { .. }, _) => final(self).phase == DeletePhase::Finished(Status::Completed) && r.request is None,
                (DeletePhase::Finished(_), _) => final(self).phase == old(self).phase && r.request is None,
            },
    {
        let none = Step { write: None, request: None };
        match self.phase {
            DeletePhase::AwaitFetch { ticket, thread_msg_id } => match ev {
                Outcome::Fetched(m) => {
                    if m.command.is_some() {
                        self.phase = DeletePhase::Finished(Status::Completed);
                        none
                    } else if !m.has_embed {
                        self.phase = DeletePhase::Finished(Status::Failed(Failure::MissingEmbed));
                        none
                    } else {
                        self.phase = DeletePhase::AwaitNotice { ticket };
                        Step {
                            write: None,
                            request: Some(
                                Request::PostDeleteNotice {
                                    thread_id: ticket.thread_id,
                                    reply_to: thread_msg_id,
                                    content: m.embed_description,
                                },
                            ),
                        }
                    }
                },
                _ => {
                    self.phase = DeletePhase::Finished(Status::Failed(Failure::Remote));
                    none
                },
            },
            DeletePhase::AwaitNotice { .. } => {
                self.phase = match ev {
                    Outcome::Failed => DeletePhase::Finished(Status::Failed(Failure::Remote)),
                    _ => DeletePhase::Finished(Status::Completed),
                };
                none
            },
            DeletePhase::Finished(_) => none,
        }
    }
}

/// A blocked ticket suppresses relaying: a new message of its user is
/// ignored (whether or not a private message asks for one), and so are an
/// edit by its user and a deletion in the private channel that resolves to
/// it, whatever the message.
pub proof fn lemma_blocked_ignores(
    ts: Seq<Ticket>,
    rows: Seq<MessageRow>,
    i: int,
    has_notice: bool,
    edit: EditedMessage,
    deletion: DeletedMessage,
)
    requires
        users_unique(ts),
        0 <= i < ts.len(),
        ts[i].blocked,
        edit.author_id == Some(ts[i].user_id),
        find_ticket(ts, TicketKey::DmChannel(deletion.channel_id)) == Some(ts[i]),
    ensures
        find_ticket(ts, TicketKey::User(ts[i].user_id)) == Some(ts[i]),
        after_lookup(ts[i], has_notice) == CreatePhase::Finished(Status::Ignored),
        edit_start(edit, ts, rows) == EditPhase::Finished(Status::Ignored),
        delete_start(deletion, ts, rows) == DeletePhase::Finished(Status::Ignored),
{
    if find_ticket(ts, TicketKey::User(ts[i].user_id)) is None {
        crate::store::lemma_find_none(ts, TicketKey::User(ts[i].user_id), 0);
        assert(crate::store::ticket_matches(ts[i], TicketKey::User(ts[i].user_id)));
    }
    lemma_find_some(ts, TicketKey::User(ts[i].user_id), 0);
    let j = choose|j: int|
        0 <= j < ts.len() && crate::store::ticket_matches(ts[j], TicketKey::User(ts[i].user_id))
            && find_ticket(ts, TicketKey::User(ts[i].user_id)) == Some(ts[j]);
    assert(j == i);
}

} // verus!
