//! Closing tickets, and what the engine does when a staff thread is deleted
//! or archived behind its back, when a member leaves or rejoins, and when a
//! moderator acts on a member.

use crate::config::Config;
use crate::ids::{signed_decimal, signed_text};
use crate::protocol::{mention_user, user_mention, Failure, Outcome, Request, Status, Step};
use crate::store::{
    find_ticket, first_ticket, lemma_kept_tickets_unique, opened, ticket_matches,
    users_unique, with_open, without_thread, kept_tickets, Database, StoreWrite, Ticket, TicketKey,
};
use vstd::prelude::*;
use vstd::string::*;

verus! {

/// Where the closing of a ticket stands.
#[derive(Clone, Copy, Debug, PartialEq, Eq, Structural)]
pub enum ClosePhase {
    /// Waiting for the close notice to the user (its failure is ignored).
    AwaitNotice { ticket: Ticket },
    /// Waiting for the staff thread to be archived (its failure is ignored).
    AwaitArchive { ticket: Ticket },
    Finished(Status),
}

/// The first phase of closing the ticket of staff thread `thread`: nothing
/// for a closed ticket; the notice first when one is to be sent; else the
/// ticket is closed at once and its thread archived.
pub open spec fn close_start(ts: Seq<Ticket>, thread: u64, notify: bool, has_notice: bool) -> ClosePhase {
    match find_ticket(ts, TicketKey::Thread(thread)) {
        None => ClosePhase::Finished(Status::Failed(Failure::MissingTicket)),
        Some(t) => if !t.is_open {
            ClosePhase::Finished(Status::Ignored)
        } else if notify && has_notice {
            ClosePhase::AwaitNotice { ticket: t }
        } else {
            ClosePhase::AwaitArchive { ticket: t }
        },
    }
}

/// The tickets once closing has reached phase `p`.
pub open spec fn close_start_tickets(ts: Seq<Ticket>, p: ClosePhase) -> Seq<Ticket> {
    match p {
        ClosePhase::AwaitArchive { ticket } => opened(ts, ticket.user_id, false),
        _ => ts,
    }
}

/// One transition of closing: the next phase and the tickets after it.
pub open spec fn close_next(p: ClosePhase, ts: Seq<Ticket>) -> (ClosePhase, Seq<Ticket>) {
    match p {
        ClosePhase::AwaitNotice { ticket } => (
            ClosePhase::AwaitArchive { ticket },
            opened(ts, ticket.user_id, false),
        ),
        ClosePhase::AwaitArchive { .. } => (ClosePhase::Finished(Status::Completed), ts),
        ClosePhase::Finished(_) => (p, ts),
    }
}

/// What closing asks for on entering phase `p`.
pub open spec fn close_request(p: ClosePhase, req: Option<Request>, config: Config) -> bool {
    match p {
        ClosePhase::AwaitNotice { ticket } => match (req, config.close_message) {
            (Some(Request::SendText { channel_id, text }), Some(m)) => channel_id
                == ticket.dm_channel_id && text@ == m@,
            _ => false,
        },
        ClosePhase::AwaitArchive { ticket } => req == Some(
            Request::ArchiveThread { thread_id: ticket.thread_id },
        ),
        ClosePhase::Finished(_) => req is None,
    }
}

/// The closing of a ticket by staff.
pub struct CloseTicket {
    pub phase: ClosePhase,
}

impl CloseTicket {
    fn request_for(phase: ClosePhase, config: &Config) -> (r: Option<Request>)
        requires
            phase matches ClosePhase::AwaitNotice { .. } ==> config.close_message is Some,
        ensures
            close_request(phase, r, *config),
    {
        match phase {
            ClosePhase::AwaitNotice { ticket } => {
                let text = match &config.close_message {
                    Some(m) => m.clone(),
                    None => String::new(),
                };
                Some(Request::SendText { channel_id: ticket.dm_channel_id, text })
            },
            ClosePhase::AwaitArchive { ticket } => Some(
                Request::ArchiveThread { thread_id: ticket.thread_id },
            ),
            ClosePhase::Finished(_) => None,
        }
    }

    /// Begins closing the ticket of staff thread `thread_id`; `notify` says
    /// whether the user is told (when a close notice is configured).
    pub fn start(thread_id: u64, notify: bool, config: &Config, db: &mut Database) -> (r: (
        CloseTicket,
        Step,
    ))
        requires
            old(db).wf(),
        ensures
            final(db).wf(),
            r.0.phase == close_start(
                old(db).ticket_rows(),
                thread_id,
                notify,
                config.close_message is Some,
            ),
            final(db).ticket_rows() == close_start_tickets(old(db).ticket_rows(), r.0.phase),
            final(db).message_rows() == old(db).message_rows(),
            r.1.write == match r.0.phase {
                ClosePhase::AwaitArchive { ticket } => Some(
                    StoreWrite::SetOpen { user_id: ticket.user_id, is_open: false },
                ),
                _ => None,
            },
            close_request(r.0.phase, r.1.request, *config),
    {
        let (phase, write) = match db.ticket_by_thread(thread_id) {
            None => (ClosePhase::Finished(Status::Failed(Failure::MissingTicket)), None),
            Some(t) => {
                if !t.is_open {
                    (ClosePhase::Finished(Status::Ignored), None)
                } else if notify && config.close_message.is_some() {
                    (ClosePhase::AwaitNotice { ticket: t }, None)
                } else {
                    db.set_open(t.user_id, false);
                    (
                        ClosePhase::AwaitArchive { ticket: t },
                        Some(StoreWrite::SetOpen { user_id: t.user_id, is_open: false }),
                    )
                }
            },
        };
        let request = Self::request_for(phase, config);
        (CloseTicket { phase }, Step { write, request })
    }

    /// Takes the outcome of the last request and moves on; the notice and
    /// the archiving are best-effort, so their outcome does not matter.
    pub fn resume(&mut self, ev: Outcome, config: &Config, db: &mut Database) -> (r: Step)
        requires
            old(db).wf(),
        ensures
            final(db).wf(),
            (final(self).phase, final(db).ticket_rows()) == close_next(
                old(self).phase,
                old(db).ticket_rows(),
            ),
            final(db).message_rows() == old(db).message_rows(),
            r.write == match old(self).phase {
                ClosePhase::AwaitNotice { ticket } => Some(
                    StoreWrite::SetOpen { user_id: ticket.user_id, is_open: false },
                ),
                _ => None,
            },
            close_request(final(self).phase, r.request, *config),
    {
        let (phase, write) = match self.phase {
            ClosePhase::AwaitNotice { ticket } => {
                db.set_open(ticket.user_id, false);
                (
                    ClosePhase::AwaitArchive { ticket },
                    Some(StoreWrite::SetOpen { user_id: ticket.user_id, is_open: false }),
                )
            },
            ClosePhase::AwaitArchive { .. } => (ClosePhase::Finished(Status::Completed), None),
            ClosePhase::Finished(s) => (ClosePhase::Finished(s), None),
        };
        self.phase = phase;
        Step { write, request: Self::request_for(phase, config) }
    }
}

/// The phases of closing run one after another, with no other change to
/// the store in between.
pub open spec fn close_run(p: ClosePhase, ts: Seq<Ticket>, n: nat) -> (ClosePhase, Seq<Ticket>)
    decreases n,
{
    if n == 0 {
        (p, ts)
    } else {
        let s = close_next(p, ts);
        close_run(s.0, s.1, (n - 1) as nat)
    }
}

proof fn lemma_first_ticket_opened(ts: Seq<Ticket>, thread: u64, user: u64, i: int)
    requires
        0 <= i,
    ensures
        first_ticket(opened(ts, user, false), TicketKey::Thread(thread), i) == match first_ticket(
            ts,
            TicketKey::Thread(thread),
            i,
        ) {
            Some(t) => Some(with_open(t, user, false)),
            None => None,
        },
    decreases ts.len() - i,
{
    if i < ts.len() {
        lemma_first_ticket_opened(ts, thread, user, i + 1);
    }
}

/// Closing a ticket twice in a row: once the first closing has finished,
/// the second finds the ticket closed (or gone) and asks for nothing, so the
/// user gets one notice and the thread is archived once.
pub proof fn lemma_close_twice(ts: Seq<Ticket>, thread: u64, notify: bool, has_notice: bool, n: nat, notify2: bool)
    requires
        users_unique(ts),
        close_run(close_start(ts, thread, notify, has_notice), close_start_tickets(ts, close_start(ts, thread, notify, has_notice)), n).0 is Finished,
    ensures
        close_start(
            close_run(close_start(ts, thread, notify, has_notice), close_start_tickets(ts, close_start(ts, thread, notify, has_notice)), n).1,
            thread,
            notify2,
            has_notice,
        ) is Finished,
{
    let p0 = close_start(ts, thread, notify, has_notice);
    match find_ticket(ts, TicketKey::Thread(thread)) {
        None => {
            lemma_close_run_keeps(p0, ts, n, thread);
        },
        Some(t) => {
            if !t.is_open {
                lemma_close_run_keeps(p0, ts, n, thread);
            } else {
                lemma_first_ticket_opened(ts, thread, t.user_id, 0);
                let closed = opened(ts, t.user_id, false);
                lemma_first_ticket_opened(closed, thread, t.user_id, 0);
                assert(opened(closed, t.user_id, false) =~= closed);
                lemma_close_run_closed(p0, ts, n, thread, t);
            }
        },
    }
}

proof fn lemma_close_run_keeps(p: ClosePhase, ts: Seq<Ticket>, n: nat, thread: u64)
    requires
        p is Finished,
    ensures
        close_run(p, close_start_tickets(ts, p), n).1 == ts,
    decreases n,
{
    if n > 0 {
        lemma_close_run_keeps(p, ts, (n - 1) as nat, thread);
    }
}

proof fn lemma_close_run_closed(p: ClosePhase, ts: Seq<Ticket>, n: nat, thread: u64, t: Ticket)
    requires
        p == (ClosePhase::AwaitNotice { ticket: t }) || p == (ClosePhase::AwaitArchive { ticket: t }),
        (close_run(p, close_start_tickets(ts, p), n).0 is Finished),
        opened(opened(ts, t.user_id, false), t.user_id, false) == opened(ts, t.user_id, false),
    ensures
        close_run(p, close_start_tickets(ts, p), n).1 == opened(ts, t.user_id, false),
    decreases n,
{
    if n > 0 {
        let s = close_next(p, close_start_tickets(ts, p));
        match s.0 {
            ClosePhase::AwaitArchive { ticket } => {
                lemma_close_run_closed(s.0, ts, (n - 1) as nat, thread, t);
            },
            _ => {
                lemma_close_run_finished(s.0, s.1, (n - 1) as nat);
            },
        }
    }
}

proof fn lemma_close_run_finished(p: ClosePhase, ts: Seq<Ticket>, n: nat)
    requires
        p is Finished,
    ensures
        close_run(p, ts, n) == (p, ts),
    decreases n,
{
    if n > 0 {
        lemma_close_run_finished(p, ts, (n - 1) as nat);
    }
}

/// When a staff thread of the forum is deleted, its ticket row goes too.
pub fn thread_deleted(parent_id: u64, thread_id: u64, config: &Config, db: &mut Database) -> (r: Option<StoreWrite>)
    requires
        old(db).wf(),
    ensures
        final(db).wf(),
        final(db).message_rows() == old(db).message_rows(),
        parent_id == config.forum_channel_id ==> r == Some(StoreWrite::DeleteTicket { thread_id })
            && final(db).ticket_rows() == without_thread(old(db).ticket_rows(), thread_id),
        parent_id != config.forum_channel_id ==> r is None && final(db).ticket_rows() == old(db).ticket_rows(),
{
    if parent_id != config.forum_channel_id {
        return None;
    }
    db.delete_ticket(thread_id);
    Some(StoreWrite::DeleteTicket { thread_id })
}

proof fn lemma_find_absent(ts: Seq<Ticket>, k: TicketKey, i: int)
    requires
        0 <= i,
        forall|j: int| 0 <= j < ts.len() ==> !ticket_matches(#[trigger] ts[j], k),
    ensures
        first_ticket(ts, k, i) is None,
    decreases ts.len() - i,
{
    if i < ts.len() {
        lemma_find_absent(ts, k, i + 1);
    }
}

proof fn lemma_kept_tickets_thread(ts: Seq<Ticket>, thread: u64, n: int)
    requires
        0 <= n <= ts.len(),
    ensures
        forall|a: int|
            0 <= a < kept_tickets(ts, thread, n).len() ==> (#[trigger] kept_tickets(ts, thread, n)[a]).thread_id != thread,
    decreases n,
{
    if n > 0 {
        lemma_kept_tickets_thread(ts, thread, n - 1);
        let prev = kept_tickets(ts, thread, n - 1);
        if ts[n - 1].thread_id != thread {
            let cur = prev.push(ts[n - 1]);
            assert forall|a: int| 0 <= a < cur.len() implies (#[trigger] cur[a]).thread_id != thread by {
                if a < prev.len() {
                    assert(cur[a] == prev[a]);
                }
            }
        }
    }
}

/// Once the staff thread of a user's ticket is deleted, the user has no
/// ticket, so their next message creates a new one.
pub proof fn lemma_deleted_thread_frees_user(ts: Seq<Ticket>, i: int)
    requires
        users_unique(ts),
        0 <= i < ts.len(),
    ensures
        find_ticket(without_thread(ts, ts[i].thread_id), TicketKey::User(ts[i].user_id)) is None,
{
    let th = ts[i].thread_id;
    let u = ts[i].user_id;
    let kept = without_thread(ts, th);
    lemma_kept_tickets_unique(ts, th, ts.len() as int);
    lemma_kept_tickets_thread(ts, th, ts.len() as int);
    assert forall|j: int| 0 <= j < kept.len() implies !ticket_matches(#[trigger] kept[j], TicketKey::User(u)) by {
        let b = choose|b: int| 0 <= b < ts.len() && kept[j] == ts[b];
        if b != i {
            assert(ts[b].user_id != u);
        }
    }
    lemma_find_absent(kept, TicketKey::User(u), 0);
}

pub open spec fn reopen_due(parent_id: Option<u64>, state: Option<(bool, bool)>, forum: u64, ticket: Option<Ticket>) -> bool {
    match (state, ticket) {
        (Some((archived, locked)), Some(t)) => parent_id == Some(forum) && (archived || locked) && t.is_open,
        _ => false,
    }
}

/// Whether an update of a staff thread calls for reopening it: a thread of
/// the forum, belonging to an open ticket, found archived or locked. Only
/// closing a ticket may archive its thread.
pub fn should_reopen(parent_id: Option<u64>, thread_id: u64, state: Option<(bool, bool)>, config: &Config, db: &Database) -> (r: bool)
    ensures
        r == reopen_due(
            parent_id,
            state,
            config.forum_channel_id,
            find_ticket(db.ticket_rows(), TicketKey::Thread(thread_id)),
        ),
{
    if parent_id != Some(config.forum_channel_id) {
        return false;
    }
    let (archived, locked) = match state {
        Some(s) => s,
        None => {
            return false;
        },
    };
    match db.ticket_by_thread(thread_id) {
        Some(t) => t.is_open && (archived || locked),
        None => false,
    }
}

pub open spec fn member_text(joined: bool) -> Seq<char> {
    if joined {
        "👋 User rejoined the server."@
    } else {
        "👋 User left the server."@
    }
}

/// The notice posted on the staff side when the user of an open, unblocked
/// ticket leaves or rejoins the guild.
pub fn member_notice(user_id: u64, joined: bool, db: &Database) -> (r: Option<Request>)
    ensures
        match find_ticket(db.ticket_rows(), TicketKey::User(user_id)) {
            Some(t) if t.is_open && !t.blocked => r matches Some(Request::SendText { channel_id, text })
                && channel_id == t.thread_id && text@ == member_text(joined),
            _ => r is None,
        },
{
    match db.ticket_by_user(user_id) {
        Some(t) => {
            if t.is_open && !t.blocked {
                let text = if joined {
                    String::from_str("👋 User rejoined the server.")
                } else {
                    String::from_str("👋 User left the server.")
                };
                Some(Request::SendText { channel_id: t.thread_id, text })
            } else {
                None
            }
        },
        None => None,
    }
}

/// A moderator's action on a member, from the guild's audit log.
#[derive(Clone, Copy, Debug, PartialEq, Eq, Structural)]
pub enum ModAction {
    Ban,
    Kick,
    /// A timeout that ends at this time, in seconds since the epoch.
    Mute { until: i64 },
    Other,
}

/// An entry of the guild's audit log.
#[derive(Clone, Debug)]
pub struct AuditEntry {
    pub guild_id: Option<u64>,
    /// Who acted.
    pub user_id: Option<u64>,
    /// Whom it was done to.
    pub target_id: Option<u64>,
    pub action: ModAction,
    pub reason: Option<String>,
}

pub open spec fn reason_text(reason: Option<String>) -> Seq<char> {
    match reason {
        Some(r) => " for `"@ + r@ + "`."@,
        None => "."@,
    }
}

/// The notice of a moderator's action, for the actions that get one.
pub open spec fn mod_text(action: ModAction, moderator: u64, reason: Option<String>) -> Option<Seq<char>> {
    match action {
        ModAction::Ban => Some("🔨 User was banned by "@ + user_mention(moderator) + reason_text(reason)),
        ModAction::Kick => Some("👢 User was kicked by "@ + user_mention(moderator) + reason_text(reason)),
        ModAction::Mute { until } => Some(
            "🔇 User was muted by "@ + user_mention(moderator) + reason_text(reason)
                + "\nThe mute expires <t:"@ + signed_decimal(until as int) + ":R>"@,
        ),
        ModAction::Other => None,
    }
}

/// The notice posted on the staff side when a moderator other than the bot
/// bans, kicks or mutes, in the members' guild, the user of an open ticket.
pub fn audit_notice(entry: &AuditEntry, bot_user_id: u64, config: &Config, db: &Database) -> (r: Option<Request>)
    ensures
        match (entry.user_id, entry.target_id) {
            (Some(moderator), Some(target)) => {
                let relevant = entry.guild_id == Some(config.guild_id) && moderator != bot_user_id;
                match (mod_text(entry.action, moderator, entry.reason), find_ticket(db.ticket_rows(), TicketKey::User(target))) {
                    (Some(text), Some(t)) if relevant && t.is_open => r matches Some(Request::SendText { channel_id, text: s })
                        && channel_id == t.thread_id && s@ == text,
                    _ => r is None,
                }
            },
            _ => r is None,
        },
{
    if entry.guild_id != Some(config.guild_id) {
        return None;
    }
    let (moderator, target) = match (entry.user_id, entry.target_id) {
        (Some(m), Some(t)) => (m, t),
        _ => {
            return None;
        },
    };
    if moderator == bot_user_id {
        return None;
    }
    let mut text = match entry.action {
        ModAction::Ban => String::from_str("🔨 User was banned by "),
        ModAction::Kick => String::from_str("👢 User was kicked by "),
        ModAction::Mute { .. } => String::from_str("🔇 User was muted by "),
        ModAction::Other => {
            return None;
        },
    };
    let ticket = match db.ticket_by_user(target) {
        Some(t) => t,
        None => {
            return None;
        },
    };
    if !ticket.is_open {
        return None;
    }
    let m = mention_user(moderator);
    text.append(m.as_str());
    match &entry.reason {
        Some(reason) => {
            text.append(" for `");
            text.append(reason.as_str());
            text.append("`.");
        },
        None => {
            text.append(".");
        },
    }
    if let ModAction::Mute { until } = entry.action {
        text.append("\nThe mute expires <t:");
        let secs = signed_text(until);
        text.append(secs.as_str());
        text.append(":R>");
    }
    Some(Request::SendText { channel_id: ticket.thread_id, text })
}

} // verus!
