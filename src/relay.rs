//! Relaying a private message to the staff side: the ticket is found, or
//! created and opened, then the message is mirrored and its pair recorded.

use crate::config::Config;
use crate::protocol::{
    announce_text, attachments_text, qualifies, relayed_fits, render_announcement,
    render_attachments, render_message, Failure, InboundMessage, MessageKind, Outcome, Reaction,
    Request, Status, Step,
};
use crate::store::{
    find_ticket, has_user, lemma_find_none, lemma_find_some, opened, resolve, users_unique, Database, MessageRow, StoreWrite, Ticket, TicketKey,
};
use vstd::prelude::*;

verus! {

/// Where a relay of a new private message stands.
#[derive(Clone, Copy, Debug, PartialEq, Eq, Structural)]
pub enum CreatePhase {
    /// Waiting for the private channel of a user who had no ticket.
    AwaitChannel,
    /// Waiting for the new staff thread.
    AwaitThread { dm_channel_id: u64 },
    /// Waiting for the open notice to the user (its failure is ignored).
    AwaitOpenNotice { ticket: Ticket },
    /// Waiting for the announcement on the staff side.
    AwaitAnnounce { ticket: Ticket },
    /// Waiting for the mirror to be posted.
    AwaitMirror { ticket: Ticket },
    /// Waiting for the attachments message.
    AwaitAttachments { ticket: Ticket, thread_msg_id: u64 },
    /// Waiting for the acknowledging reaction (its failure is ignored).
    AwaitReaction { ticket: Ticket, thread_msg_id: u64 },
    Finished(Status),
}

/// The phase that follows finding `t` as the user's ticket: nothing for a
/// blocked ticket, the relay itself for an open one, else opening it.
pub open spec fn after_lookup(t: Ticket, has_notice: bool) -> CreatePhase {
    if t.blocked {
        CreatePhase::Finished(Status::Ignored)
    } else if t.is_open {
        CreatePhase::AwaitMirror { ticket: t }
    } else if has_notice {
        CreatePhase::AwaitOpenNotice { ticket: t }
    } else {
        CreatePhase::AwaitAnnounce { ticket: t }
    }
}

/// The facts about a relay that its transitions depend on.
pub struct CreateFacts {
    pub user_id: u64,
    pub dm_msg_id: u64,
    pub has_attachments: bool,
    pub has_notice: bool,
}

pub open spec fn create_failed(ts: Seq<Ticket>, rows: Seq<MessageRow>) -> (CreatePhase, Seq<Ticket>, Seq<MessageRow>, Option<StoreWrite>) {
    (CreatePhase::Finished(Status::Failed(Failure::Remote)), ts, rows, None)
}

/// One transition of a relay: the next phase, the store's tickets and rows
/// after it, and the change written.
pub open spec fn create_next(
    p: CreatePhase,
    ts: Seq<Ticket>,
    rows: Seq<MessageRow>,
    ev: Outcome,
    f: CreateFacts,
) -> (CreatePhase, Seq<Ticket>, Seq<MessageRow>, Option<StoreWrite>) {
    match p {
        CreatePhase::AwaitChannel => match ev {
            Outcome::Created(dm) => (CreatePhase::AwaitThread { dm_channel_id: dm }, ts, rows, None),
            _ => create_failed(ts, rows),
        },
        CreatePhase::AwaitThread { dm_channel_id } => match ev {
            Outcome::Created(thread) => {
                let t = Ticket {
                    user_id: f.user_id,
                    dm_channel_id,
                    thread_id: thread,
                    is_open: false,
                    blocked: false,
                };
                match find_ticket(ts, TicketKey::User(f.user_id)) {
                    Some(e) => (after_lookup(e, f.has_notice), ts, rows, None),
                    None => (
                        after_lookup(t, f.has_notice),
                        ts.push(t),
                        rows,
                        Some(StoreWrite::InsertTicket(t)),
                    ),
                }
            },
            _ => create_failed(ts, rows),
        },
        CreatePhase::AwaitOpenNotice { ticket } => (
            CreatePhase::AwaitAnnounce { ticket },
            ts,
            rows,
            None,
        ),
        CreatePhase::AwaitAnnounce { ticket } => match ev {
            Outcome::Failed => create_failed(ts, rows),
            _ => (
                CreatePhase::AwaitMirror { ticket: Ticket { is_open: true, ..ticket } },
                opened(ts, f.user_id, true),
                rows,
                Some(StoreWrite::SetOpen { user_id: f.user_id, is_open: true }),
            ),
        },
        CreatePhase::AwaitMirror { ticket } => match ev {
            Outcome::Created(id) => (
                if f.has_attachments {
                    CreatePhase::AwaitAttachments { ticket, thread_msg_id: id }
                } else {
                    CreatePhase::AwaitReaction { ticket, thread_msg_id: id }
                },
                ts,
                rows,
                None,
            ),
            _ => create_failed(ts, rows),
        },
        CreatePhase::AwaitAttachments { ticket, thread_msg_id } => match ev {
            Outcome::Failed => create_failed(ts, rows),
            _ => (CreatePhase::AwaitReaction { ticket, thread_msg_id }, ts, rows, None),
        },
        CreatePhase::AwaitReaction { ticket, thread_msg_id } => {
            let row = MessageRow {
                user_id: f.user_id,
                dm_msg_id: f.dm_msg_id,
                thread_msg_id,
                thread_update_msg_id: None,
            };
            (
                CreatePhase::Finished(Status::Completed),
                ts,
                rows.push(row),
                Some(StoreWrite::InsertMessage(row)),
            )
        },
        CreatePhase::Finished(_) => (p, ts, rows, None),
    }
}

/// The staff-side message that a relayed reply answers, if the message it
/// replies to was relayed.
pub open spec fn reply_target(rows: Seq<MessageRow>, user_id: u64, reply_to: Option<u64>) -> Option<u64> {
    match reply_to {
        Some(r) => resolve(rows, user_id, r),
        None => None,
    }
}

/// What a relay asks for on entering phase `p`.
pub open spec fn create_request(
    p: CreatePhase,
    req: Option<Request>,
    msg: InboundMessage,
    config: Config,
    rows: Seq<MessageRow>,
) -> bool {
    match p {
        CreatePhase::AwaitChannel => req == Some(
            Request::CreatePrivateChannel { user_id: msg.author_id },
        ),
        CreatePhase::AwaitThread { .. } => req == Some(
            Request::CreateThread {
                forum_channel_id: config.forum_channel_id,
                user_id: msg.author_id,
            },
        ),
        CreatePhase::AwaitOpenNotice { ticket } => match (req, config.open_message) {
            (Some(Request::SendText { channel_id, text }), Some(m)) => channel_id
                == ticket.dm_channel_id && text@ == m@,
            _ => false,
        },
        CreatePhase::AwaitAnnounce { ticket } => match req {
            Some(Request::Announce { thread_id, user_id, content }) => thread_id
                == ticket.thread_id && user_id == ticket.user_id && content@ == announce_text(
                config.ping_roles@,
                ticket.user_id,
            ),
            _ => false,
        },
        CreatePhase::AwaitMirror { ticket } => match req {
            Some(Request::Mirror { thread_id, message, reply_to }) => thread_id == ticket.thread_id
                && reply_to == reply_target(rows, msg.author_id, msg.reply_to) && relayed_fits(
                message,
                msg,
            ),
            _ => false,
        },
        CreatePhase::AwaitAttachments { ticket, .. } => match req {
            Some(Request::SendText { channel_id, text }) => channel_id == ticket.thread_id && text@
                == attachments_text(msg.attachment_urls@),
            _ => false,
        },
        CreatePhase::AwaitReaction { .. } => req == Some(
            Request::React { channel_id: msg.channel_id, message_id: msg.id, reaction: Reaction::Sent },
        ),
        CreatePhase::Finished(_) => req is None,
    }
}

/// The relay of one private message to the staff side.
pub struct ForwardCreate {
    pub msg: InboundMessage,
    pub phase: CreatePhase,
}

impl ForwardCreate {
    pub open spec fn facts(&self, config: Config) -> CreateFacts {
        CreateFacts {
            user_id: self.msg.author_id,
            dm_msg_id: self.msg.id,
            has_attachments: self.msg.attachment_urls@.len() > 0,
            has_notice: config.open_message is Some,
        }
    }

    fn request_for(
        msg: &InboundMessage,
        phase: CreatePhase,
        config: &Config,
        db: &Database,
    ) -> (r: Option<Request>)
        requires
            phase matches CreatePhase::AwaitOpenNotice { .. } ==> config.open_message is Some,
        ensures
            create_request(phase, r, *msg, *config, db.message_rows()),
    {
        let request = match phase {
            CreatePhase::AwaitChannel => Some(
                Request::CreatePrivateChannel { user_id: msg.author_id },
            ),
            CreatePhase::AwaitThread { .. } => Some(
                Request::CreateThread {
                    forum_channel_id: config.forum_channel_id,
                    user_id: msg.author_id,
                },
            ),
            CreatePhase::AwaitOpenNotice { ticket } => {
                let text = match &config.open_message {
                    Some(m) => m.clone(),
                    None => String::new(),
                };
                Some(Request::SendText { channel_id: ticket.dm_channel_id, text })
            },
            CreatePhase::AwaitAnnounce { ticket } => Some(
                Request::Announce {
                    thread_id: ticket.thread_id,
                    user_id: ticket.user_id,
                    content: render_announcement(&config.ping_roles, ticket.user_id),
                },
            ),
            CreatePhase::AwaitMirror { ticket } => {
                let reply_to = match msg.reply_to {
                    Some(r) => db.resolve_thread_msg(msg.author_id, r),
                    None => None,
                };
                Some(
                    Request::Mirror {
                        thread_id: ticket.thread_id,
                        message: render_message(msg),
                        reply_to,
                    },
                )
            },
            CreatePhase::AwaitAttachments { ticket, .. } => Some(
                Request::SendText {
                    channel_id: ticket.thread_id,
                    text: render_attachments(&msg.attachment_urls),
                },
            ),
            CreatePhase::AwaitReaction { .. } => Some(
                Request::React {
                    channel_id: msg.channel_id,
                    message_id: msg.id,
                    reaction: Reaction::Sent,
                },
            ),
            CreatePhase::Finished(_) => None,
        };
        request
    }

    fn lookup_phase(t: Ticket, config: &Config) -> (p: CreatePhase)
        ensures
            p == after_lookup(t, config.open_message is Some),
    {
        if t.blocked {
            CreatePhase::Finished(Status::Ignored)
        } else if t.is_open {
            CreatePhase::AwaitMirror { ticket: t }
        } else if config.open_message.is_some() {
            CreatePhase::AwaitOpenNotice { ticket: t }
        } else {
            CreatePhase::AwaitAnnounce { ticket: t }
        }
    }

    /// Begins relaying `msg`. A message that does not qualify, or whose
    /// author's ticket is blocked, is ignored; a user without a ticket gets
    /// one created; a closed ticket is opened first.
    pub fn start(msg: InboundMessage, config: &Config, db: &Database) -> (r: (ForwardCreate, Step))
        ensures
            r.0.msg == msg,
            r.1.write is None,
            r.0.phase == if !qualifies(msg.author_is_bot, msg.in_guild, msg.kind) {
                CreatePhase::Finished(Status::Ignored)
            } else {
                match find_ticket(db.ticket_rows(), TicketKey::User(msg.author_id)) {
                    None => CreatePhase::AwaitChannel,
                    Some(t) => after_lookup(t, config.open_message is Some),
                }
            },
            create_request(r.0.phase, r.1.request, msg, *config, db.message_rows()),
    {
        let ok = !msg.author_is_bot && !msg.in_guild && match msg.kind {
            MessageKind::Regular | MessageKind::Reply => true,
            MessageKind::Other => false,
        };
        let phase = if !ok {
            CreatePhase::Finished(Status::Ignored)
        } else {
            match db.ticket_by_user(msg.author_id) {
                None => CreatePhase::AwaitChannel,
                Some(t) => Self::lookup_phase(t, config),
            }
        };
        let request = Self::request_for(&msg, phase, config, db);
        (ForwardCreate { msg, phase }, Step { write: None, request })
    }

    /// Takes the outcome of the last request and moves on. The ticket row is
    /// inserted only once its thread exists; if another relay inserted one
    /// for the same user meanwhile, the insertion is refused and that ticket
    /// is used instead, so a user never has two.
    pub fn resume(&mut self, ev: Outcome, config: &Config, db: &mut Database) -> (r: Step)
        requires
            old(db).wf(),
        ensures
            final(db).wf(),
            final(self).msg == old(self).msg,
            (final(self).phase, final(db).ticket_rows(), final(db).message_rows(), r.write)
                == create_next(
                old(self).phase,
                old(db).ticket_rows(),
                old(db).message_rows(),
                ev,
                old(self).facts(*config),
            ),
            create_request(final(self).phase, r.request, final(self).msg, *config, final(db).message_rows()),
    {
        let user_id = self.msg.author_id;
        let (phase, write) = match self.phase {
            CreatePhase::AwaitChannel => match ev {
                Outcome::Created(dm) => (CreatePhase::AwaitThread { dm_channel_id: dm }, None),
                _ => (CreatePhase::Finished(Status::Failed(Failure::Remote)), None),
            },
            CreatePhase::AwaitThread { dm_channel_id } => match ev {
                Outcome::Created(thread) => {
                    let t = Ticket {
                        user_id,
                        dm_channel_id,
                        thread_id: thread,
                        is_open: false,
                        blocked: false,
                    };
                    match db.insert_ticket(t) {
                        Ok(()) => (Self::lookup_phase(t, config), Some(StoreWrite::InsertTicket(t))),
                        Err(e) => (Self::lookup_phase(e, config), None),
                    }
                },
                _ => (CreatePhase::Finished(Status::Failed(Failure::Remote)), None),
            },
            CreatePhase::AwaitOpenNotice { ticket } => (CreatePhase::AwaitAnnounce { ticket }, None),
            CreatePhase::AwaitAnnounce { ticket } => match ev {
                Outcome::Failed => (CreatePhase::Finished(Status::Failed(Failure::Remote)), None),
                _ => {
                    db.set_open(user_id, true);
                    (
                        CreatePhase::AwaitMirror { ticket: Ticket { is_open: true, ..ticket } },
                        Some(StoreWrite::SetOpen { user_id, is_open: true }),
                    )
                },
            },
            CreatePhase::AwaitMirror { ticket } => match ev {
                Outcome::Created(id) => (
                    if self.msg.attachment_urls.len() > 0 {
                        CreatePhase::AwaitAttachments { ticket, thread_msg_id: id }
                    } else {
                        CreatePhase::AwaitReaction { ticket, thread_msg_id: id }
                    },
                    None,
                ),
                _ => (CreatePhase::Finished(Status::Failed(Failure::Remote)), None),
            },
            CreatePhase::AwaitAttachments { ticket, thread_msg_id } => match ev {
                Outcome::Failed => (CreatePhase::Finished(Status::Failed(Failure::Remote)), None),
                _ => (CreatePhase::AwaitReaction { ticket, thread_msg_id }, None),
            },
            CreatePhase::AwaitReaction { ticket, thread_msg_id } => {
                let row = MessageRow {
                    user_id,
                    dm_msg_id: self.msg.id,
                    thread_msg_id,
                    thread_update_msg_id: None,
                };
                db.insert_message(row);
                (CreatePhase::Finished(Status::Completed), Some(StoreWrite::InsertMessage(row)))
            },
            CreatePhase::Finished(s) => (CreatePhase::Finished(s), None),
        };
        let request = Self::request_for(&self.msg, phase, config, db);
        self.phase = phase;
        Step { write, request }
    }
}

/// Exactly one ticket row belongs to `user`, and it is open.
pub open spec fn one_open_ticket(ts: Seq<Ticket>, user: u64) -> bool {
    exists|i: int|
        0 <= i < ts.len() && #[trigger] ts[i].user_id == user && ts[i].is_open && forall|j: int|
            0 <= j < ts.len() && j != i ==> ts[j].user_id != user
}

/// The phases of a relay run one after another on the given outcomes, with
/// no other change to the store in between.
pub open spec fn create_run(
    p: CreatePhase,
    ts: Seq<Ticket>,
    rows: Seq<MessageRow>,
    evs: Seq<Outcome>,
    f: CreateFacts,
) -> (CreatePhase, Seq<Ticket>, Seq<MessageRow>)
    decreases evs.len(),
{
    if evs.len() == 0 {
        (p, ts, rows)
    } else {
        let n = create_next(p, ts, rows, evs[0], f);
        create_run(n.0, n.1, n.2, evs.drop_first(), f)
    }
}

/// What holds of the tickets in each phase of a relay for `user`.
pub open spec fn create_inv(p: CreatePhase, ts: Seq<Ticket>, user: u64) -> bool {
    &&& users_unique(ts)
    &&& match p {
        CreatePhase::AwaitChannel => !has_user(ts, user),
        CreatePhase::AwaitThread { .. } => !has_user(ts, user),
        CreatePhase::AwaitOpenNotice { ticket } => has_user(ts, user),
        CreatePhase::AwaitAnnounce { ticket } => has_user(ts, user),
        CreatePhase::AwaitMirror { .. } => one_open_ticket(ts, user),
        CreatePhase::AwaitAttachments { .. } => one_open_ticket(ts, user),
        CreatePhase::AwaitReaction { .. } => one_open_ticket(ts, user),
        CreatePhase::Finished(s) => s == Status::Completed ==> one_open_ticket(ts, user),
    }
}

proof fn lemma_lookup_inv(ts: Seq<Ticket>, t: Ticket, user: u64, has_notice: bool)
    requires
        users_unique(ts),
        t.user_id == user,
        exists|i: int| 0 <= i < ts.len() && ts[i] == t,
    ensures
        create_inv(after_lookup(t, has_notice), ts, user),
{
    let i = choose|i: int| 0 <= i < ts.len() && ts[i] == t;
    assert(ts[i].user_id == user);
}

proof fn lemma_opened_one(ts: Seq<Ticket>, user: u64)
    requires
        users_unique(ts),
        has_user(ts, user),
    ensures
        users_unique(opened(ts, user, true)),
        one_open_ticket(opened(ts, user, true), user),
{
    let o = opened(ts, user, true);
    let i = choose|i: int| 0 <= i < ts.len() && ts[i].user_id == user;
    assert(o[i].user_id == user && o[i].is_open);
}

proof fn lemma_create_step_inv(
    p: CreatePhase,
    ts: Seq<Ticket>,
    rows: Seq<MessageRow>,
    ev: Outcome,
    f: CreateFacts,
)
    requires
        create_inv(p, ts, f.user_id),
    ensures
        create_inv(create_next(p, ts, rows, ev, f).0, create_next(p, ts, rows, ev, f).1, f.user_id),
{
    let user = f.user_id;
    match p {
        CreatePhase::AwaitThread { dm_channel_id } => {
            if let Outcome::Created(thread) = ev {
                let t = Ticket {
                    user_id: user,
                    dm_channel_id,
                    thread_id: thread,
                    is_open: false,
                    blocked: false,
                };
                match find_ticket(ts, TicketKey::User(user)) {
                    Some(e) => {
                        lemma_find_some(ts, TicketKey::User(user), 0);
                        lemma_lookup_inv(ts, e, user, f.has_notice);
                    },
                    None => {
                        let n = ts.push(t);
                        assert(n[ts.len() as int] == t);
                        assert(users_unique(n));
                        lemma_lookup_inv(n, t, user, f.has_notice);
                    },
                }
            }
        },
        CreatePhase::AwaitAnnounce { ticket } => {
            if !(ev is Failed) {
                lemma_opened_one(ts, user);
            }
        },
        _ => {},
    }
}

proof fn lemma_create_run_inv(
    p: CreatePhase,
    ts: Seq<Ticket>,
    rows: Seq<MessageRow>,
    evs: Seq<Outcome>,
    f: CreateFacts,
)
    requires
        create_inv(p, ts, f.user_id),
    ensures
        create_inv(create_run(p, ts, rows, evs, f).0, create_run(p, ts, rows, evs, f).1, f.user_id),
    decreases evs.len(),
{
    if evs.len() > 0 {
        lemma_create_step_inv(p, ts, rows, evs[0], f);
        let n = create_next(p, ts, rows, evs[0], f);
        lemma_create_run_inv(n.0, n.1, n.2, evs.drop_first(), f);
    }
}

/// A qualifying message from a user who has no ticket starts a relay that
/// waits for a private channel; once that relay has run to completion, on
/// whatever outcomes, exactly one ticket row belongs to the user, and it is
/// open.
pub proof fn lemma_first_message_opens_one_ticket(
    ts: Seq<Ticket>,
    rows: Seq<MessageRow>,
    evs: Seq<Outcome>,
    f: CreateFacts,
)
    requires
        users_unique(ts),
        find_ticket(ts, TicketKey::User(f.user_id)) is None,
        create_run(CreatePhase::AwaitChannel, ts, rows, evs, f).0 == CreatePhase::Finished(
            Status::Completed,
        ),
    ensures
        one_open_ticket(create_run(CreatePhase::AwaitChannel, ts, rows, evs, f).1, f.user_id),
{
    lemma_find_none(ts, TicketKey::User(f.user_id), 0);
    lemma_create_run_inv(CreatePhase::AwaitChannel, ts, rows, evs, f);
}

} // verus!
