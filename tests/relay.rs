use modmail::config::Config;
use modmail::edits::{DeletePhase, DeletedMessage, EditPhase, EditedMessage, ForwardDelete, ForwardEdit};
use modmail::lifecycle::{thread_deleted, ClosePhase, CloseTicket};
use modmail::protocol::{
    FetchedMessage, Failure, InboundMessage, MessageKind, Outcome, Reaction, Request, Status,
};
use modmail::relay::{CreatePhase, ForwardCreate};
use modmail::store::{Database, MessageRow, StoreWrite, Ticket};

const USER: u64 = 7;
const FORUM: u64 = 2;

fn config(open_message: Option<&str>, close_message: Option<&str>) -> Config {
    Config::new(
        "token".to_string(),
        1,
        FORUM,
        None,
        vec![],
        open_message.map(|s| s.to_string()),
        close_message.map(|s| s.to_string()),
    )
    .unwrap()
}

fn dm(id: u64, content: &str) -> InboundMessage {
    InboundMessage {
        id,
        channel_id: 50,
        author_id: USER,
        author_name: "alice".to_string(),
        author_avatar: None,
        author_is_bot: false,
        in_guild: false,
        kind: MessageKind::Regular,
        content: content.to_string(),
        sticker: None,
        attachment_urls: vec![],
        reply_to: None,
    }
}

fn edited(id: u64, content: &str) -> EditedMessage {
    EditedMessage {
        id,
        channel_id: 50,
        in_guild: false,
        kind: Some(MessageKind::Regular),
        author_id: Some(USER),
        author_name: "alice".to_string(),
        author_avatar: None,
        author_is_bot: false,
        content: Some(content.to_string()),
    }
}

/// Runs the first message "hello" (id 5) of a user without a ticket.
fn first_message(db: &mut Database, cfg: &Config) -> ForwardCreate {
    let (mut op, step) = ForwardCreate::start(dm(5, "hello"), cfg, db);
    assert!(matches!(step.request, Some(Request::CreatePrivateChannel { user_id: USER })));
    let step = op.resume(Outcome::Created(50), cfg, db);
    assert!(matches!(step.request, Some(Request::CreateThread { forum_channel_id: FORUM, user_id: USER })));
    let step = op.resume(Outcome::Created(100), cfg, db);
    assert!(matches!(step.write, Some(StoreWrite::InsertTicket(_))));
    if cfg.open_message.is_some() {
        assert!(matches!(step.request, Some(Request::SendText { channel_id: 50, .. })));
        op.resume(Outcome::Failed, cfg, db);
    }
    let step = op.resume(Outcome::Done, cfg, db);
    assert!(matches!(step.write, Some(StoreWrite::SetOpen { user_id: USER, is_open: true })));
    match &step.request {
        Some(Request::Mirror { thread_id, message, reply_to }) => {
            assert_eq!(*thread_id, 100);
            assert_eq!(message.description.as_deref(), Some("hello"));
            assert_eq!(*reply_to, None);
        },
        _ => panic!("expected the mirror"),
    }
    let step = op.resume(Outcome::Created(101), cfg, db);
    assert!(matches!(
        step.request,
        Some(Request::React { channel_id: 50, message_id: 5, reaction: Reaction::Sent })
    ));
    let step = op.resume(Outcome::Done, cfg, db);
    assert!(step.request.is_none());
    op
}

#[test]
fn first_message_creates_open_ticket() {
    let cfg = config(None, None);
    let mut db = Database::new();
    let op = first_message(&mut db, &cfg);
    assert_eq!(op.phase, CreatePhase::Finished(Status::Completed));
    let t = db.ticket_by_user(USER).unwrap();
    assert!(t.is_open);
    assert_eq!((t.dm_channel_id, t.thread_id), (50, 100));
    assert_eq!(db.tickets().len(), 1);
    assert_eq!(
        db.messages(),
        &vec![MessageRow { user_id: USER, dm_msg_id: 5, thread_msg_id: 101, thread_update_msg_id: None }]
    );
}

#[test]
fn first_message_sends_open_notice_first() {
    let cfg = config(Some("Hi, staff will answer soon."), None);
    let mut db = Database::new();
    first_message(&mut db, &cfg);
    assert!(db.ticket_by_user(USER).unwrap().is_open);
}

#[test]
fn failed_thread_creation_persists_nothing() {
    let cfg = config(None, None);
    let mut db = Database::new();
    let (mut op, _) = ForwardCreate::start(dm(5, "hello"), &cfg, &db);
    op.resume(Outcome::Created(50), &cfg, &mut db);
    let step = op.resume(Outcome::Failed, &cfg, &mut db);
    assert!(step.request.is_none() && step.write.is_none());
    assert_eq!(op.phase, CreatePhase::Finished(Status::Failed(Failure::Remote)));
    assert!(db.tickets().is_empty());
}

#[test]
fn bot_and_guild_messages_are_ignored() {
    let cfg = config(None, None);
    let db = Database::new();
    let mut m = dm(5, "hello");
    m.author_is_bot = true;
    let (op, step) = ForwardCreate::start(m, &cfg, &db);
    assert_eq!(op.phase, CreatePhase::Finished(Status::Ignored));
    assert!(step.request.is_none());
    let mut m = dm(5, "hello");
    m.kind = MessageKind::Other;
    let (op, _) = ForwardCreate::start(m, &cfg, &db);
    assert_eq!(op.phase, CreatePhase::Finished(Status::Ignored));
}

#[test]
fn reply_is_mirrored_as_reply() {
    let cfg = config(None, None);
    let mut db = Database::new();
    first_message(&mut db, &cfg);
    let mut m = dm(6, "");
    m.reply_to = Some(5);
    m.attachment_urls = vec!["https://a/1.png".to_string(), "https://a/2.png".to_string()];
    let (mut op, step) = ForwardCreate::start(m, &cfg, &db);
    match &step.request {
        Some(Request::Mirror { reply_to, message, .. }) => {
            assert_eq!(*reply_to, Some(101));
            assert_eq!(message.description, None);
        },
        _ => panic!("expected the mirror"),
    }
    let step = op.resume(Outcome::Created(110), &cfg, &mut db);
    match &step.request {
        Some(Request::SendText { channel_id, text }) => {
            assert_eq!(*channel_id, 100);
            assert_eq!(text, "Attachments:\nhttps://a/1.png\nhttps://a/2.png");
        },
        _ => panic!("expected the attachments"),
    }
    op.resume(Outcome::Done, &cfg, &mut db);
    op.resume(Outcome::Failed, &cfg, &mut db);
    assert_eq!(op.phase, CreatePhase::Finished(Status::Completed));
    assert_eq!(db.messages().len(), 2);
}

fn edit_message_5(db: &mut Database) -> ForwardEdit {
    let (mut op, step) = ForwardEdit::start(edited(5, "hello world"), db);
    match &step.request {
        Some(Request::PostEdit { thread_id, reply_to, content, author }) => {
            assert_eq!((*thread_id, *reply_to), (100, 101));
            assert_eq!(content, "hello world");
            assert_eq!(author.name, "alice");
        },
        _ => panic!("expected the follow-up"),
    }
    let step = op.resume(Outcome::Created(102), db);
    assert!(matches!(
        step.write,
        Some(StoreWrite::SetUpdate { user_id: USER, dm_msg_id: 5, thread_update_msg_id: 102 })
    ));
    assert!(matches!(step.request, Some(Request::React { reaction: Reaction::Edited, .. })));
    let step = op.resume(Outcome::Done, db);
    assert!(matches!(step.request, Some(Request::Unreact { message_id: 5, .. })));
    op.resume(Outcome::Failed, db);
    op
}

#[test]
fn edit_redirects_lookups_to_follow_up() {
    let cfg = config(None, None);
    let mut db = Database::new();
    first_message(&mut db, &cfg);
    let op = edit_message_5(&mut db);
    assert_eq!(op.phase, EditPhase::Finished(Status::Completed));
    assert_eq!(db.resolve_thread_msg(USER, 5), Some(102));
    assert_eq!(db.messages()[0].thread_msg_id, 101);
    assert_eq!(db.messages()[0].thread_update_msg_id, Some(102));
    // a second edit replies to the follow-up
    let (_, step) = ForwardEdit::start(edited(5, "hello again"), &db);
    assert!(matches!(step.request, Some(Request::PostEdit { reply_to: 102, .. })));
}

#[test]
fn edit_of_unknown_message_fails() {
    let cfg = config(None, None);
    let mut db = Database::new();
    first_message(&mut db, &cfg);
    let (op, step) = ForwardEdit::start(edited(99, "x"), &db);
    assert_eq!(op.phase, EditPhase::Finished(Status::Failed(Failure::MissingMapping)));
    assert!(step.request.is_none());
    let (op, _) = ForwardEdit::start(edited(5, ""), &db);
    assert_eq!(op.phase, EditPhase::Finished(Status::Ignored));
}

fn fetched(command: Option<&str>) -> FetchedMessage {
    FetchedMessage {
        author_id: 900,
        command: command.map(|n| modmail::protocol::CommandUse { name: n.to_string(), user_id: 3 }),
        has_embed: true,
        embed_description: Some("hello world".to_string()),
    }
}

#[test]
fn delete_returns_follow_up_and_removes_row() {
    let cfg = config(None, None);
    let mut db = Database::new();
    first_message(&mut db, &cfg);
    edit_message_5(&mut db);
    let (mut op, step) = ForwardDelete::start(DeletedMessage { id: 5, channel_id: 50, in_guild: false }, &mut db);
    assert!(matches!(step.write, Some(StoreWrite::DeleteMessages { user_id: USER, dm_msg_id: 5 })));
    assert!(matches!(step.request, Some(Request::FetchMessage { channel_id: 100, message_id: 102 })));
    assert!(db.messages().is_empty());
    let step = op.resume(Outcome::Fetched(fetched(None)));
    match &step.request {
        Some(Request::PostDeleteNotice { thread_id, reply_to, content }) => {
            assert_eq!((*thread_id, *reply_to), (100, 102));
            assert_eq!(content.as_deref(), Some("hello world"));
        },
        _ => panic!("expected the notice"),
    }
    op.resume(Outcome::Done);
    assert_eq!(op.phase, DeletePhase::Finished(Status::Completed));
}

#[test]
fn delete_without_edit_returns_mirror() {
    let cfg = config(None, None);
    let mut db = Database::new();
    first_message(&mut db, &cfg);
    let (mut op, step) = ForwardDelete::start(DeletedMessage { id: 5, channel_id: 50, in_guild: false }, &mut db);
    assert!(matches!(step.request, Some(Request::FetchMessage { message_id: 101, .. })));
    // a message produced by a staff command gets no notice
    let step = op.resume(Outcome::Fetched(fetched(Some("reply"))));
    assert!(step.request.is_none());
    assert_eq!(op.phase, DeletePhase::Finished(Status::Completed));
    let (op, _) = ForwardDelete::start(DeletedMessage { id: 5, channel_id: 50, in_guild: false }, &mut db);
    assert_eq!(op.phase, DeletePhase::Finished(Status::Failed(Failure::MissingMapping)));
}

#[test]
fn close_silently() {
    let cfg = config(None, Some("Closed, thanks."));
    let mut db = Database::new();
    first_message(&mut db, &cfg);
    let (mut op, step) = CloseTicket::start(100, false, &cfg, &mut db);
    assert!(matches!(step.request, Some(Request::ArchiveThread { thread_id: 100 })));
    assert!(matches!(step.write, Some(StoreWrite::SetOpen { user_id: USER, is_open: false })));
    assert!(!db.ticket_by_user(USER).unwrap().is_open);
    let step = op.resume(Outcome::Failed, &cfg, &mut db);
    assert!(step.request.is_none());
    assert_eq!(op.phase, ClosePhase::Finished(Status::Completed));
}

#[test]
fn close_twice_notifies_once() {
    let cfg = config(None, Some("Closed, thanks."));
    let mut db = Database::new();
    first_message(&mut db, &cfg);
    let (mut op, step) = CloseTicket::start(100, true, &cfg, &mut db);
    match &step.request {
        Some(Request::SendText { channel_id, text }) => {
            assert_eq!(*channel_id, 50);
            assert_eq!(text, "Closed, thanks.");
        },
        _ => panic!("expected the notice"),
    }
    assert!(db.ticket_by_user(USER).unwrap().is_open);
    let step = op.resume(Outcome::Done, &cfg, &mut db);
    assert!(matches!(step.request, Some(Request::ArchiveThread { thread_id: 100 })));
    op.resume(Outcome::Done, &cfg, &mut db);
    let (op, step) = CloseTicket::start(100, true, &cfg, &mut db);
    assert_eq!(op.phase, ClosePhase::Finished(Status::Ignored));
    assert!(step.request.is_none() && step.write.is_none());
    let (op, _) = CloseTicket::start(999, true, &cfg, &mut db);
    assert_eq!(op.phase, ClosePhase::Finished(Status::Failed(Failure::MissingTicket)));
}

#[test]
fn deleted_thread_removes_ticket() {
    let cfg = config(None, None);
    let mut db = Database::new();
    first_message(&mut db, &cfg);
    assert_eq!(thread_deleted(77, 100, &cfg, &mut db), None);
    assert_eq!(db.tickets().len(), 1);
    assert_eq!(thread_deleted(FORUM, 100, &cfg, &mut db), Some(StoreWrite::DeleteTicket { thread_id: 100 }));
    assert!(db.ticket_by_user(USER).is_none());
    let (op, step) = ForwardCreate::start(dm(8, "hi again"), &cfg, &db);
    assert_eq!(op.phase, CreatePhase::AwaitChannel);
    assert!(matches!(step.request, Some(Request::CreatePrivateChannel { user_id: USER })));
}

#[test]
fn blocked_ticket_ignores_relay() {
    let cfg = config(None, None);
    let ticket = Ticket { user_id: USER, dm_channel_id: 50, thread_id: 100, is_open: true, blocked: true };
    let row = MessageRow { user_id: USER, dm_msg_id: 5, thread_msg_id: 101, thread_update_msg_id: None };
    let mut db = Database::from_rows(vec![ticket], vec![row]).unwrap();
    let (op, step) = ForwardCreate::start(dm(6, "hello"), &cfg, &db);
    assert_eq!(op.phase, CreatePhase::Finished(Status::Ignored));
    assert!(step.request.is_none());
    let (op, step) = ForwardEdit::start(edited(5, "changed"), &db);
    assert_eq!(op.phase, EditPhase::Finished(Status::Ignored));
    assert!(step.request.is_none());
    let (op, step) = ForwardDelete::start(DeletedMessage { id: 5, channel_id: 50, in_guild: false }, &mut db);
    assert_eq!(op.phase, DeletePhase::Finished(Status::Ignored));
    assert!(step.request.is_none());
    assert_eq!(db.messages().len(), 1);
}

#[test]
fn closed_ticket_is_reopened_by_new_message() {
    let cfg = config(None, None);
    let ticket = Ticket { user_id: USER, dm_channel_id: 50, thread_id: 100, is_open: false, blocked: false };
    let mut db = Database::from_rows(vec![ticket], vec![]).unwrap();
    let (mut op, step) = ForwardCreate::start(dm(6, "back"), &cfg, &db);
    match &step.request {
        Some(Request::Announce { thread_id, user_id, content }) => {
            assert_eq!((*thread_id, *user_id), (100, USER));
            assert_eq!(content, "<@7>");
        },
        _ => panic!("expected the announcement"),
    }
    op.resume(Outcome::Done, &cfg, &mut db);
    assert!(db.ticket_by_user(USER).unwrap().is_open);
    assert_eq!(db.tickets().len(), 1);
}

