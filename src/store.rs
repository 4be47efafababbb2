//! The identity store: one ticket row per user, and the log of relayed
//! messages that pairs each private-side message with its staff-side mirror.

use vstd::prelude::*;

verus! {

/// The relay session of one user.
#[derive(Clone, Copy, Debug, PartialEq, Eq, Structural)]
pub struct Ticket {
    pub user_id: u64,
    pub dm_channel_id: u64,
    pub thread_id: u64,
    pub is_open: bool,
    pub blocked: bool,
}

/// One relayed message: the private-side message and its staff-side mirror,
/// and the follow-up posted on the staff side when the private message was
/// edited.
#[derive(Clone, Copy, Debug, PartialEq, Eq, Structural)]
pub struct MessageRow {
    pub user_id: u64,
    pub dm_msg_id: u64,
    pub thread_msg_id: u64,
    pub thread_update_msg_id: Option<u64>,
}

impl MessageRow {
    /// The staff-side message that currently stands for this row: the
    /// follow-up when there is one, else the mirror.
    pub open spec fn representative(self) -> u64 {
        match self.thread_update_msg_id {
            Some(u) => u,
            None => self.thread_msg_id,
        }
    }
}

/// A column by which a ticket is looked up.
#[derive(Clone, Copy, Debug, PartialEq, Eq, Structural)]
pub enum TicketKey {
    User(u64),
    DmChannel(u64),
    Thread(u64),
}

/// A column by which a message row is looked up, besides its user.
#[derive(Clone, Copy, Debug, PartialEq, Eq, Structural)]
pub enum RowKey {
    Dm(u64),
    Thread(u64),
}

pub open spec fn ticket_matches(t: Ticket, k: TicketKey) -> bool {
    match k {
        TicketKey::User(u) => t.user_id == u,
        TicketKey::DmChannel(c) => t.dm_channel_id == c,
        TicketKey::Thread(c) => t.thread_id == c,
    }
}

pub open spec fn row_matches(r: MessageRow, user: u64, k: RowKey) -> bool {
    r.user_id == user && match k {
        RowKey::Dm(m) => r.dm_msg_id == m,
        RowKey::Thread(m) => r.thread_msg_id == m,
    }
}

/// The first ticket from position `i` on that matches `k`.
pub open spec fn first_ticket(ts: Seq<Ticket>, k: TicketKey, i: int) -> Option<Ticket>
    decreases ts.len() - i,
{
    if i < 0 || i >= ts.len() {
        None
    } else if ticket_matches(ts[i], k) {
        Some(ts[i])
    } else {
        first_ticket(ts, k, i + 1)
    }
}

/// The ticket found by `k`, the first in insertion order.
pub open spec fn find_ticket(ts: Seq<Ticket>, k: TicketKey) -> Option<Ticket> {
    first_ticket(ts, k, 0)
}

/// No two tickets belong to the same user.
pub open spec fn users_unique(ts: Seq<Ticket>) -> bool {
    forall|i: int, j: int|
        0 <= i < ts.len() && 0 <= j < ts.len() && i != j ==> ts[i].user_id != ts[j].user_id
}

/// Whether a ticket row exists for `user`.
pub open spec fn has_user(ts: Seq<Ticket>, user: u64) -> bool {
    exists|i: int| 0 <= i < ts.len() && ts[i].user_id == user
}

/// The position of the most recent row among the first `n` that matches
/// `user` and `k`, or -1.
pub open spec fn last_row(rows: Seq<MessageRow>, user: u64, k: RowKey, n: int) -> int
    decreases n,
{
    if n <= 0 || n > rows.len() {
        -1
    } else if row_matches(rows[n - 1], user, k) {
        n - 1
    } else {
        last_row(rows, user, k, n - 1)
    }
}

/// The staff-side message that stands for private message `dm` of `user`:
/// the most recent row wins, and its follow-up is preferred to its mirror.
pub open spec fn resolve(rows: Seq<MessageRow>, user: u64, dm: u64) -> Option<u64> {
    let i = last_row(rows, user, RowKey::Dm(dm), rows.len() as int);
    if i < 0 {
        None
    } else {
        Some(rows[i].representative())
    }
}

/// The private message mirrored by staff-side message `thread_msg` of `user`,
/// the most recent row winning.
pub open spec fn dm_for_thread(rows: Seq<MessageRow>, user: u64, thread_msg: u64) -> Option<u64> {
    let i = last_row(rows, user, RowKey::Thread(thread_msg), rows.len() as int);
    if i < 0 {
        None
    } else {
        Some(rows[i].dm_msg_id)
    }
}

/// The first `n` rows without those of private message `dm` of `user`.
pub open spec fn kept_rows(rows: Seq<MessageRow>, user: u64, dm: u64, n: int) -> Seq<MessageRow>
    decreases n,
{
    if n <= 0 || n > rows.len() {
        Seq::empty()
    } else if row_matches(rows[n - 1], user, RowKey::Dm(dm)) {
        kept_rows(rows, user, dm, n - 1)
    } else {
        kept_rows(rows, user, dm, n - 1).push(rows[n - 1])
    }
}

/// The rows after private message `dm` of `user` is deleted.
pub open spec fn without_dm(rows: Seq<MessageRow>, user: u64, dm: u64) -> Seq<MessageRow> {
    kept_rows(rows, user, dm, rows.len() as int)
}

pub open spec fn with_update(r: MessageRow, user: u64, dm: u64, update: u64) -> MessageRow {
    if row_matches(r, user, RowKey::Dm(dm)) {
        MessageRow { thread_update_msg_id: Some(update), ..r }
    } else {
        r
    }
}

/// The rows after the follow-up `update` is recorded for message `dm` of `user`.
pub open spec fn updated_rows(rows: Seq<MessageRow>, user: u64, dm: u64, update: u64) -> Seq<
    MessageRow,
> {
    rows.map_values(|r: MessageRow| with_update(r, user, dm, update))
}

/// The first `n` tickets without those of staff thread `thread`.
pub open spec fn kept_tickets(ts: Seq<Ticket>, thread: u64, n: int) -> Seq<Ticket>
    decreases n,
{
    if n <= 0 || n > ts.len() {
        Seq::empty()
    } else if ts[n - 1].thread_id == thread {
        kept_tickets(ts, thread, n - 1)
    } else {
        kept_tickets(ts, thread, n - 1).push(ts[n - 1])
    }
}

/// The tickets after staff thread `thread` is deleted.
pub open spec fn without_thread(ts: Seq<Ticket>, thread: u64) -> Seq<Ticket> {
    kept_tickets(ts, thread, ts.len() as int)
}

pub open spec fn with_open(t: Ticket, user: u64, open: bool) -> Ticket {
    if t.user_id == user {
        Ticket { is_open: open, ..t }
    } else {
        t
    }
}

/// The tickets after the ticket of `user` is marked open or closed.
pub open spec fn opened(ts: Seq<Ticket>, user: u64, open: bool) -> Seq<Ticket> {
    ts.map_values(|t: Ticket| with_open(t, user, open))
}

/// A change to the store, as it is written to persistent storage.
#[derive(Clone, Copy, Debug, PartialEq, Eq, Structural)]
pub enum StoreWrite {
    InsertTicket(Ticket),
    SetOpen { user_id: u64, is_open: bool },
    DeleteTicket { thread_id: u64 },
    InsertMessage(MessageRow),
    SetUpdate { user_id: u64, dm_msg_id: u64, thread_update_msg_id: u64 },
    DeleteMessages { user_id: u64, dm_msg_id: u64 },
}

/// The tickets and the message log.
pub struct Database {
    tickets: Vec<Ticket>,
    messages: Vec<MessageRow>,
}

impl Database {
    /// The ticket rows, in insertion order.
    pub closed spec fn ticket_rows(&self) -> Seq<Ticket> {
        self.tickets@
    }

    /// The message rows, in insertion order.
    pub closed spec fn message_rows(&self) -> Seq<MessageRow> {
        self.messages@
    }

    pub open spec fn wf(&self) -> bool {
        users_unique(self.ticket_rows())
    }

    /// An empty store.
    pub fn new() -> (db: Database)
        ensures
            db.wf(),
            db.ticket_rows() == Seq::<Ticket>::empty(),
            db.message_rows() == Seq::<MessageRow>::empty(),
    {
        Database { tickets: Vec::new(), messages: Vec::new() }
    }

    /// A store holding rows read back from storage; `None` when two tickets
    /// belong to one user.
    pub fn from_rows(tickets: Vec<Ticket>, messages: Vec<MessageRow>) -> (r: Option<Database>)
        ensures
            r is Some <==> users_unique(tickets@),
            r matches Some(db) ==> db.wf() && db.ticket_rows() == tickets@ && db.message_rows()
                == messages@,
    {
        let n = tickets.len();
        let mut i: usize = 0;
        while i < n
            invariant
                n == tickets@.len(),
                0 <= i <= n,
                forall|a: int, b: int|
                    0 <= a < i && 0 <= b < n && a != b ==> tickets@[a].user_id
                        != tickets@[b].user_id,
            decreases n - i,
        {
            let mut j: usize = 0;
            while j < n
                invariant
                    n == tickets@.len(),
                    0 <= i < n,
                    0 <= j <= n,
                    forall|a: int, b: int|
                        0 <= a < i && 0 <= b < n && a != b ==> tickets@[a].user_id
                            != tickets@[b].user_id,
                    forall|b: int| 0 <= b < j && i != b ==> tickets@[i as int].user_id != tickets@[b].user_id,
                decreases n - j,
            {
                if j != i && tickets[i].user_id == tickets[j].user_id {
                    return None;
                }
                j += 1;
            }
            i += 1;
        }
        Some(Database { tickets, messages })
    }

    /// The ticket rows, in insertion order.
    pub fn tickets(&self) -> (r: &Vec<Ticket>)
        ensures
            r@ == self.ticket_rows(),
    {
        &self.tickets
    }

    /// The message rows, in insertion order.
    pub fn messages(&self) -> (r: &Vec<MessageRow>)
        ensures
            r@ == self.message_rows(),
    {
        &self.messages
    }

    fn find(&self, k: TicketKey) -> (r: Option<Ticket>)
        ensures
            r == find_ticket(self.ticket_rows(), k),
    {
        let mut i: usize = 0;
        while i < self.tickets.len()
            invariant
                0 <= i <= self.tickets@.len(),
                first_ticket(self.tickets@, k, 0) == first_ticket(self.tickets@, k, i as int),
            decreases self.tickets@.len() - i,
        {
            let t = self.tickets[i];
            let hit = match k {
                TicketKey::User(u) => t.user_id == u,
                TicketKey::DmChannel(c) => t.dm_channel_id == c,
                TicketKey::Thread(c) => t.thread_id == c,
            };
            if hit {
                return Some(t);
            }
            i += 1;
        }
        None
    }

    /// The ticket of `user_id`.
    pub fn ticket_by_user(&self, user_id: u64) -> (r: Option<Ticket>)
        ensures
            r == find_ticket(self.ticket_rows(), TicketKey::User(user_id)),
    {
        self.find(TicketKey::User(user_id))
    }

    /// The ticket whose private side is channel `dm_channel_id`.
    pub fn ticket_by_dm_channel(&self, dm_channel_id: u64) -> (r: Option<Ticket>)
        ensures
            r == find_ticket(self.ticket_rows(), TicketKey::DmChannel(dm_channel_id)),
    {
        self.find(TicketKey::DmChannel(dm_channel_id))
    }

    /// The ticket whose staff side is thread `thread_id`.
    pub fn ticket_by_thread(&self, thread_id: u64) -> (r: Option<Ticket>)
        ensures
            r == find_ticket(self.ticket_rows(), TicketKey::Thread(thread_id)),
    {
        self.find(TicketKey::Thread(thread_id))
    }

    fn last(&self, user: u64, k: RowKey) -> (r: Option<usize>)
        ensures
            r is None <==> last_row(self.message_rows(), user, k, self.message_rows().len() as int)
                < 0,
            r matches Some(i) ==> i == last_row(
                self.message_rows(),
                user,
                k,
                self.message_rows().len() as int,
            ),
    {
        let mut i: usize = self.messages.len();
        while i > 0
            invariant
                0 <= i <= self.messages@.len(),
                last_row(self.messages@, user, k, self.messages@.len() as int) == last_row(
                    self.messages@,
                    user,
                    k,
                    i as int,
                ),
            decreases i,
        {
            let r = self.messages[i - 1];
            let hit = r.user_id == user && match k {
                RowKey::Dm(m) => r.dm_msg_id == m,
                RowKey::Thread(m) => r.thread_msg_id == m,
            };
            if hit {
                return Some(i - 1);
            }
            i -= 1;
        }
        None
    }

    /// The staff-side message that stands for private message `dm_msg_id` of
    /// `user_id` (its follow-up if it was edited).
    pub fn resolve_thread_msg(&self, user_id: u64, dm_msg_id: u64) -> (r: Option<u64>)
        ensures
            r == resolve(self.message_rows(), user_id, dm_msg_id),
    {
        proof {
            lemma_last_row_range(self.messages@, user_id, RowKey::Dm(dm_msg_id), self.messages@.len() as int);
        }
        match self.last(user_id, RowKey::Dm(dm_msg_id)) {
            None => None,
            Some(i) => {
                let row = self.messages[i];
                match row.thread_update_msg_id {
                    Some(u) => Some(u),
                    None => Some(row.thread_msg_id),
                }
            },
        }
    }

    /// The private message that staff-side message `thread_msg_id` of
    /// `user_id` mirrors.
    pub fn dm_msg_for_thread_msg(&self, user_id: u64, thread_msg_id: u64) -> (r: Option<u64>)
        ensures
            r == dm_for_thread(self.message_rows(), user_id, thread_msg_id),
    {
        proof {
            lemma_last_row_range(self.messages@, user_id, RowKey::Thread(thread_msg_id), self.messages@.len() as int);
        }
        match self.last(user_id, RowKey::Thread(thread_msg_id)) {
            None => None,
            Some(i) => Some(self.messages[i].dm_msg_id),
        }
    }

    /// Adds a ticket; when `ticket.user_id` already has one, nothing changes
    /// and that one is returned.
    pub fn insert_ticket(&mut self, ticket: Ticket) -> (r: Result<(), Ticket>)
        requires
            old(self).wf(),
        ensures
            final(self).wf(),
            final(self).message_rows() == old(self).message_rows(),
            r is Ok <==> !has_user(old(self).ticket_rows(), ticket.user_id),
            r is Ok <==> find_ticket(old(self).ticket_rows(), TicketKey::User(ticket.user_id)) is None,
            r is Ok ==> final(self).ticket_rows() == old(self).ticket_rows().push(ticket),
            r matches Err(t) ==> final(self).ticket_rows() == old(self).ticket_rows() && Some(t)
                == find_ticket(old(self).ticket_rows(), TicketKey::User(ticket.user_id)),
    {
        match self.find(TicketKey::User(ticket.user_id)) {
            Some(t) => {
                proof {
                    lemma_find_some(self.tickets@, TicketKey::User(ticket.user_id), 0);
                }
                Err(t)
            },
            None => {
                proof {
                    lemma_find_none(self.tickets@, TicketKey::User(ticket.user_id), 0);
                }
                self.tickets.push(ticket);
                Ok(())
            },
        }
    }

    /// Marks the ticket of `user_id` open or closed.
    pub fn set_open(&mut self, user_id: u64, is_open: bool)
        requires
            old(self).wf(),
        ensures
            final(self).wf(),
            final(self).message_rows() == old(self).message_rows(),
            final(self).ticket_rows() == opened(old(self).ticket_rows(), user_id, is_open),
    {
        let n = self.tickets.len();
        let mut i: usize = 0;
        while i < n
            invariant
                n == self.tickets@.len(),
                n == old(self).tickets@.len(),
                0 <= i <= n,
                self.messages == old(self).messages,
                forall|j: int| 0 <= j < i ==> self.tickets@[j] == with_open(old(self).tickets@[j], user_id, is_open),
                forall|j: int| i <= j < n ==> self.tickets@[j] == old(self).tickets@[j],
            decreases n - i,
        {
            let t = self.tickets[i];
            if t.user_id == user_id {
                self.tickets[i] = Ticket { is_open, ..t };
            }
            i += 1;
        }
        assert(self.tickets@ =~= opened(old(self).tickets@, user_id, is_open));
    }

    /// Removes the tickets whose staff thread is `thread_id`.
    pub fn delete_ticket(&mut self, thread_id: u64)
        requires
            old(self).wf(),
        ensures
            final(self).wf(),
            final(self).message_rows() == old(self).message_rows(),
            final(self).ticket_rows() == without_thread(old(self).ticket_rows(), thread_id),
    {
        let n = self.tickets.len();
        let mut kept: Vec<Ticket> = Vec::new();
        let mut i: usize = 0;
        while i < n
            invariant
                n == self.tickets@.len(),
                0 <= i <= n,
                kept@ == kept_tickets(self.tickets@, thread_id, i as int),
            decreases n - i,
        {
            let t = self.tickets[i];
            if t.thread_id != thread_id {
                kept.push(t);
            }
            i += 1;
        }
        proof {
            lemma_kept_tickets_unique(self.tickets@, thread_id, n as int);
        }
        self.tickets = kept;
    }

    /// Appends a message row.
    pub fn insert_message(&mut self, row: MessageRow)
        requires
            old(self).wf(),
        ensures
            final(self).wf(),
            final(self).ticket_rows() == old(self).ticket_rows(),
            final(self).message_rows() == old(self).message_rows().push(row),
    {
        self.messages.push(row);
    }

    /// Records `update` as the follow-up of private message `dm_msg_id` of
    /// `user_id`, on every row of that message.
    pub fn set_update(&mut self, user_id: u64, dm_msg_id: u64, update: u64)
        requires
            old(self).wf(),
        ensures
            final(self).wf(),
            final(self).ticket_rows() == old(self).ticket_rows(),
            final(self).message_rows() == updated_rows(old(self).message_rows(), user_id, dm_msg_id, update),
    {
        let n = self.messages.len();
        let mut i: usize = 0;
        while i < n
            invariant
                n == self.messages@.len(),
                n == old(self).messages@.len(),
                0 <= i <= n,
                self.tickets == old(self).tickets,
                forall|j: int| 0 <= j < i ==> self.messages@[j] == with_update(old(self).messages@[j], user_id, dm_msg_id, update),
                forall|j: int| i <= j < n ==> self.messages@[j] == old(self).messages@[j],
            decreases n - i,
        {
            let r = self.messages[i];
            if r.user_id == user_id && r.dm_msg_id == dm_msg_id {
                self.messages[i] = MessageRow { thread_update_msg_id: Some(update), ..r };
            }
            i += 1;
        }
        assert(self.messages@ =~= updated_rows(old(self).messages@, user_id, dm_msg_id, update));
    }

    /// Deletes the rows of private message `dm_msg_id` of `user_id`, and
    /// returns the staff-side message that stood for it before.
    pub fn delete_message(&mut self, user_id: u64, dm_msg_id: u64) -> (r: Option<u64>)
        requires
            old(self).wf(),
        ensures
            final(self).wf(),
            final(self).ticket_rows() == old(self).ticket_rows(),
            final(self).message_rows() == without_dm(old(self).message_rows(), user_id, dm_msg_id),
            r == resolve(old(self).message_rows(), user_id, dm_msg_id),
    {
        let r = self.resolve_thread_msg(user_id, dm_msg_id);
        let n = self.messages.len();
        let mut kept: Vec<MessageRow> = Vec::new();
        let mut i: usize = 0;
        while i < n
            invariant
                n == self.messages@.len(),
                0 <= i <= n,
                kept@ == kept_rows(self.messages@, user_id, dm_msg_id, i as int),
            decreases n - i,
        {
            let row = self.messages[i];
            if !(row.user_id == user_id && row.dm_msg_id == dm_msg_id) {
                kept.push(row);
            }
            i += 1;
        }
        self.messages = kept;
        r
    }
}

pub proof fn lemma_last_row_range(rows: Seq<MessageRow>, user: u64, k: RowKey, n: int)
    ensures
        -1 <= last_row(rows, user, k, n) < rows.len(),
        last_row(rows, user, k, n) >= 0 ==> last_row(rows, user, k, n) < n && row_matches(
            rows[last_row(rows, user, k, n)],
            user,
            k,
        ),
    decreases n,
{
    if n > 0 && n <= rows.len() && !row_matches(rows[n - 1], user, k) {
        lemma_last_row_range(rows, user, k, n - 1);
    }
}

pub proof fn lemma_find_some(ts: Seq<Ticket>, k: TicketKey, i: int)
    requires
        0 <= i,
        first_ticket(ts, k, i) is Some,
    ensures
        exists|j: int|
            i <= j < ts.len() && ticket_matches(ts[j], k) && first_ticket(ts, k, i) == Some(
                ts[j],
            ),
    decreases ts.len() - i,
{
    if i < ts.len() && !ticket_matches(ts[i], k) {
        lemma_find_some(ts, k, i + 1);
    }
}

pub proof fn lemma_find_none(ts: Seq<Ticket>, k: TicketKey, i: int)
    requires
        0 <= i,
        first_ticket(ts, k, i) is None,
    ensures
        forall|j: int| i <= j < ts.len() ==> !ticket_matches(ts[j], k),
    decreases ts.len() - i,
{
    if i < ts.len() {
        lemma_find_none(ts, k, i + 1);
    }
}

pub proof fn lemma_kept_tickets_unique(ts: Seq<Ticket>, thread: u64, n: int)
    requires
        users_unique(ts),
        0 <= n <= ts.len(),
    ensures
        users_unique(kept_tickets(ts, thread, n)),
        forall|a: int|
            0 <= a < kept_tickets(ts, thread, n).len() ==> exists|b: int|
                0 <= b < n && #[trigger] kept_tickets(ts, thread, n)[a] == #[trigger] ts[b],
    decreases n,
{
    if n > 0 {
        lemma_kept_tickets_unique(ts, thread, n - 1);
        let prev = kept_tickets(ts, thread, n - 1);
        if ts[n - 1].thread_id != thread {
            let cur = prev.push(ts[n - 1]);
            assert forall|a: int| 0 <= a < cur.len() implies exists|b: int|
                0 <= b < n && #[trigger] cur[a] == #[trigger] ts[b] by {
                if a == prev.len() {
                    assert(cur[a] == ts[n - 1]);
                } else {
                    assert(cur[a] == prev[a]);
                }
            }
            assert forall|a: int, c: int|
                0 <= a < cur.len() && 0 <= c < cur.len() && a != c implies cur[a].user_id
                != cur[c].user_id by {
                if a < prev.len() && c < prev.len() {
                    assert(cur[a] == prev[a] && cur[c] == prev[c]);
                } else if a < prev.len() {
                    let b = choose|b: int| 0 <= b < n - 1 && prev[a] == ts[b];
                    assert(cur[a] == ts[b]);
                } else if c < prev.len() {
                    let b = choose|b: int| 0 <= b < n - 1 && prev[c] == ts[b];
                    assert(cur[c] == ts[b]);
                }
            }
        }
    }
}

proof fn lemma_last_row_is(rows: Seq<MessageRow>, user: u64, k: RowKey, i: int, n: int)
    requires
        0 <= i < n <= rows.len(),
        row_matches(rows[i], user, k),
        forall|j: int| i < j < n ==> !row_matches(#[trigger] rows[j], user, k),
    ensures
        last_row(rows, user, k, n) == i,
    decreases n,
{
    if n - 1 > i {
        lemma_last_row_is(rows, user, k, i, n - 1);
    }
}

proof fn lemma_kept_rows_exclude(rows: Seq<MessageRow>, user: u64, dm: u64, n: int)
    requires
        0 <= n <= rows.len(),
    ensures
        forall|a: int|
            0 <= a < kept_rows(rows, user, dm, n).len() ==> !row_matches(
                #[trigger] kept_rows(rows, user, dm, n)[a],
                user,
                RowKey::Dm(dm),
            ),
        forall|j: int|
            0 <= j < n && !row_matches(#[trigger] rows[j], user, RowKey::Dm(dm)) ==> kept_rows(
                rows,
                user,
                dm,
                n,
            ).contains(rows[j]),
    decreases n,
{
    if n > 0 {
        lemma_kept_rows_exclude(rows, user, dm, n - 1);
        let prev = kept_rows(rows, user, dm, n - 1);
        if !row_matches(rows[n - 1], user, RowKey::Dm(dm)) {
            let cur = prev.push(rows[n - 1]);
            assert forall|a: int| 0 <= a < cur.len() implies !row_matches(
                #[trigger] cur[a],
                user,
                RowKey::Dm(dm),
            ) by {
                if a < prev.len() {
                    assert(cur[a] == prev[a]);
                }
            }
            assert forall|j: int|
                0 <= j < n && !row_matches(#[trigger] rows[j], user, RowKey::Dm(dm)) implies cur.contains(
                rows[j],
            ) by {
                if j < n - 1 {
                    let a = choose|a: int| 0 <= a < prev.len() && prev[a] == rows[j];
                    assert(cur[a] == rows[j]);
                } else {
                    assert(cur[prev.len() as int] == rows[j]);
                }
            }
        }
    }
}

/// Deleting a private message removes every row of it and keeps every row of
/// other messages; what it hands back is the follow-up of the message's most
/// recent row when that row has one, else that row's mirror: always exactly
/// one of the two.
pub proof fn lemma_delete_returns_representative(rows: Seq<MessageRow>, i: int)
    requires
        0 <= i < rows.len(),
        forall|j: int|
            i < j < rows.len() ==> !row_matches(
                #[trigger] rows[j],
                rows[i].user_id,
                RowKey::Dm(rows[i].dm_msg_id),
            ),
    ensures
        resolve(rows, rows[i].user_id, rows[i].dm_msg_id) == Some(
            match rows[i].thread_update_msg_id {
                Some(u) => u,
                None => rows[i].thread_msg_id,
            },
        ),
        forall|a: int|
            0 <= a < without_dm(rows, rows[i].user_id, rows[i].dm_msg_id).len() ==> !row_matches(
                #[trigger] without_dm(rows, rows[i].user_id, rows[i].dm_msg_id)[a],
                rows[i].user_id,
                RowKey::Dm(rows[i].dm_msg_id),
            ),
        forall|j: int|
            0 <= j < rows.len() && !row_matches(
                #[trigger] rows[j],
                rows[i].user_id,
                RowKey::Dm(rows[i].dm_msg_id),
            ) ==> without_dm(rows, rows[i].user_id, rows[i].dm_msg_id).contains(rows[j]),
{
    let user = rows[i].user_id;
    let dm = rows[i].dm_msg_id;
    lemma_last_row_is(rows, user, RowKey::Dm(dm), i, rows.len() as int);
    lemma_kept_rows_exclude(rows, user, dm, rows.len() as int);
}

proof fn lemma_update_keeps_last_row(
    rows: Seq<MessageRow>,
    user: u64,
    dm: u64,
    update: u64,
    k: RowKey,
    n: int,
)
    requires
        0 <= n <= rows.len(),
    ensures
        last_row(updated_rows(rows, user, dm, update), user, k, n) == last_row(rows, user, k, n),
    decreases n,
{
    if n > 0 {
        lemma_update_keeps_last_row(rows, user, dm, update, k, n - 1);
    }
}

/// Recording a follow-up for a private message changes no row's user,
/// private message or mirror, leaves the rows of every other message as they
/// were, and from then on the message resolves to the follow-up; which
/// private message a staff-side mirror stands for is unchanged.
pub proof fn lemma_update_redirects(rows: Seq<MessageRow>, user: u64, dm: u64, update: u64)
    ensures
        updated_rows(rows, user, dm, update).len() == rows.len(),
        forall|a: int|
            0 <= a < rows.len() ==> {
                let r = #[trigger] updated_rows(rows, user, dm, update)[a];
                &&& r.user_id == rows[a].user_id
                &&& r.dm_msg_id == rows[a].dm_msg_id
                &&& r.thread_msg_id == rows[a].thread_msg_id
                &&& !row_matches(rows[a], user, RowKey::Dm(dm)) ==> r == rows[a]
            },
        resolve(rows, user, dm) is Some ==> resolve(updated_rows(rows, user, dm, update), user, dm)
            == Some(update),
        resolve(rows, user, dm) is None ==> resolve(updated_rows(rows, user, dm, update), user, dm)
            is None,
        forall|t: u64|
            dm_for_thread(updated_rows(rows, user, dm, update), user, t) == dm_for_thread(
                rows,
                user,
                t,
            ),
{
    let up = updated_rows(rows, user, dm, update);
    lemma_update_keeps_last_row(rows, user, dm, update, RowKey::Dm(dm), rows.len() as int);
    lemma_last_row_range(rows, user, RowKey::Dm(dm), rows.len() as int);
    assert forall|t: u64|
        dm_for_thread(updated_rows(rows, user, dm, update), user, t) == dm_for_thread(
            rows,
            user,
            t,
        ) by {
        lemma_update_keeps_last_row(rows, user, dm, update, RowKey::Thread(t), rows.len() as int);
        lemma_last_row_range(rows, user, RowKey::Thread(t), rows.len() as int);
    }
}

/// Deleting a private message that has no rows leaves the rows as they were.
pub proof fn lemma_without_absent(rows: Seq<MessageRow>, user: u64, dm: u64)
    requires
        resolve(rows, user, dm) is None,
    ensures
        without_dm(rows, user, dm) == rows,
{
    lemma_no_match_kept(rows, user, dm, rows.len() as int);
    assert(rows.subrange(0, rows.len() as int) == rows);
}

proof fn lemma_no_match_kept(rows: Seq<MessageRow>, user: u64, dm: u64, n: int)
    requires
        0 <= n <= rows.len(),
        last_row(rows, user, RowKey::Dm(dm), rows.len() as int) < 0,
    ensures
        kept_rows(rows, user, dm, n) == rows.subrange(0, n),
    decreases n,
{
    if n > 0 {
        lemma_no_match_kept(rows, user, dm, n - 1);
        lemma_no_match_before(rows, user, RowKey::Dm(dm), rows.len() as int, n - 1);
        assert(rows.subrange(0, n - 1).push(rows[n - 1]) == rows.subrange(0, n));
    }
}

proof fn lemma_no_match_before(rows: Seq<MessageRow>, user: u64, k: RowKey, n: int, j: int)
    requires
        0 <= j < n <= rows.len(),
        last_row(rows, user, k, n) < 0,
    ensures
        !row_matches(rows[j], user, k),
    decreases n,
{
    if n - 1 > j {
        lemma_no_match_before(rows, user, k, n - 1, j);
    }
}

} // verus!
