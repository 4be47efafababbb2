use modmail::commands::{self, OptionKind};
use modmail::config::{Config, ConfigError};
use modmail::lifecycle::{audit_notice, member_notice, should_reopen, AuditEntry, ModAction};
use modmail::protocol::{CommandUse, FetchedMessage, Failure, Mark, Outcome, Request};
use modmail::staff::{guild_message_link, link, only_in_modmail_thread, CommandResult, ReplyPhase, StaffAction, StaffPhase, StaffReply};
use modmail::store::{Database, MessageRow, StoreWrite, Ticket};
use modmail::tasks::{OnceLatch, TaskCounter};

const FORUM: u64 = 2;
const BOT: u64 = 900;

fn config() -> Config {
    Config::new("token".to_string(), 1, FORUM, None, vec![], None, None).unwrap()
}

fn db() -> Database {
    let open = Ticket { user_id: 7, dm_channel_id: 50, thread_id: 100, is_open: true, blocked: false };
    let closed = Ticket { user_id: 8, dm_channel_id: 60, thread_id: 200, is_open: false, blocked: false };
    let rows = vec![
        MessageRow { user_id: 7, dm_msg_id: 5, thread_msg_id: 101, thread_update_msg_id: None },
        MessageRow { user_id: 7, dm_msg_id: 6, thread_msg_id: 103, thread_update_msg_id: None },
        MessageRow { user_id: 7, dm_msg_id: 9, thread_msg_id: 103, thread_update_msg_id: None },
    ];
    Database::from_rows(vec![open, closed], rows).unwrap()
}

fn sent_reply(by: u64) -> FetchedMessage {
    FetchedMessage {
        author_id: BOT,
        command: Some(CommandUse { name: "reply".to_string(), user_id: by }),
        has_embed: true,
        embed_description: Some("old text".to_string()),
    }
}

#[test]
fn config_checks_notices() {
    let c = Config::new("t".to_string(), 1, 2, None, vec![3], Some("hi".to_string()), None).unwrap();
    assert_eq!(c.forum_guild_id, 1);
    let c = Config::new("t".to_string(), 1, 2, Some(4), vec![], None, None).unwrap();
    assert_eq!(c.forum_guild_id, 4);
    let e = Config::new("t".to_string(), 1, 2, None, vec![], Some(String::new()), None);
    assert_eq!(e.err(), Some(ConfigError::OpenMessageLength));
    let e = Config::new("t".to_string(), 1, 2, None, vec![], None, Some("x".repeat(2001)));
    assert_eq!(e.err(), Some(ConfigError::CloseMessageLength));
    assert!(Config::new("t".to_string(), 1, 2, None, vec![], None, Some("é".repeat(2000))).is_ok());
}

#[test]
fn duplicate_users_are_refused() {
    let t = Ticket { user_id: 7, dm_channel_id: 50, thread_id: 100, is_open: true, blocked: false };
    assert!(Database::from_rows(vec![t, Ticket { thread_id: 300, ..t }], vec![]).is_none());
}

#[test]
fn lookups_prefer_latest_row() {
    let db = db();
    assert_eq!(db.dm_msg_for_thread_msg(7, 103), Some(9));
    assert_eq!(db.dm_msg_for_thread_msg(7, 999), None);
    assert_eq!(db.resolve_thread_msg(7, 6), Some(103));
    assert_eq!(db.ticket_by_dm_channel(60).map(|t| t.user_id), Some(8));
    assert_eq!(db.ticket_by_thread(200).map(|t| t.user_id), Some(8));
}

#[test]
fn commands_only_in_threads() {
    let c = config();
    assert_eq!(only_in_modmail_thread(100, Some(FORUM), &c), Some(100));
    assert_eq!(only_in_modmail_thread(100, Some(3), &c), None);
    assert_eq!(only_in_modmail_thread(100, None, &c), None);
}

#[test]
fn staff_delete_by_other_member() {
    let c = config();
    let db = db();
    let (mut op, req) = StaffAction::start(100, Some(FORUM), "101", None, 3, &c);
    assert!(matches!(req, Some(Request::FetchMessage { channel_id: 100, message_id: 101 })));
    let req = op.resume(Outcome::Fetched(sent_reply(4)), BOT, &db);
    assert!(matches!(req, Some(Request::DeleteMessage { channel_id: 50, message_id: 5 })));
    let req = op.resume(Outcome::Done, BOT, &db);
    assert!(matches!(
        req,
        Some(Request::MarkMessage { channel_id: 100, message_id: 101, mark: Mark::DeletedBy(3), content: None })
    ));
    op.resume(Outcome::Done, BOT, &db);
    assert_eq!(op.phase, StaffPhase::Finished(CommandResult::Done));
}

#[test]
fn staff_edit_by_sender() {
    let c = config();
    let db = db();
    let (mut op, _) = StaffAction::start(100, Some(FORUM), "+101", Some("new text".to_string()), 3, &c);
    match op.resume(Outcome::Fetched(sent_reply(3)), BOT, &db) {
        Some(Request::EditMessage { channel_id, message_id, content }) => {
            assert_eq!((channel_id, message_id), (50, 5));
            assert_eq!(content, "new text");
        },
        _ => panic!("expected the edit"),
    }
    match op.resume(Outcome::Done, BOT, &db) {
        Some(Request::MarkMessage { mark, content, .. }) => {
            assert_eq!(mark, Mark::EditedBySender);
            assert_eq!(content.as_deref(), Some("new text"));
        },
        _ => panic!("expected the mark"),
    }
}

#[test]
fn staff_action_refusals() {
    let c = config();
    let db = db();
    let (op, req) = StaffAction::start(100, Some(3), "101", None, 3, &c);
    assert_eq!(op.phase, StaffPhase::Finished(CommandResult::NotInThread));
    assert!(req.is_none());
    for bad in ["", "0", "abc", "-5", "18446744073709551616"] {
        let (op, _) = StaffAction::start(100, Some(FORUM), bad, None, 3, &c);
        assert_eq!(op.phase, StaffPhase::Finished(CommandResult::InvalidId));
    }
    let (mut op, _) = StaffAction::start(100, Some(FORUM), "101", None, 3, &c);
    op.resume(Outcome::Failed, BOT, &db);
    assert_eq!(op.phase, StaffPhase::Finished(CommandResult::NotFound));
    let (mut op, _) = StaffAction::start(100, Some(FORUM), "101", None, 3, &c);
    let mut relayed = sent_reply(3);
    relayed.command = None;
    op.resume(Outcome::Fetched(relayed), BOT, &db);
    assert_eq!(op.phase, StaffPhase::Finished(CommandResult::NotMine));
    let (mut op, _) = StaffAction::start(100, Some(FORUM), "555", None, 3, &c);
    op.resume(Outcome::Fetched(sent_reply(3)), BOT, &db);
    assert_eq!(op.phase, StaffPhase::Finished(CommandResult::Failed(Failure::MissingMapping)));
    let (mut op, _) = StaffAction::start(100, Some(FORUM), "101", None, 3, &c);
    let mut bare = sent_reply(3);
    bare.has_embed = false;
    op.resume(Outcome::Fetched(bare), BOT, &db);
    op.resume(Outcome::Done, BOT, &db);
    assert_eq!(op.phase, StaffPhase::Finished(CommandResult::Failed(Failure::MissingEmbed)));
}

#[test]
fn staff_reply_records_pair() {
    let c = config();
    let mut db = db();
    let (mut op, req) = StaffReply::start(100, Some(FORUM), "hello".to_string(), &c, &db);
    assert!(matches!(req, Some(Request::SendText { channel_id: 50, .. })));
    let step = op.resume(Outcome::Created(70), &mut db);
    assert!(matches!(step.request, Some(Request::ConfirmReply { .. })));
    let step = op.resume(Outcome::Created(104), &mut db);
    assert!(matches!(step.write, Some(StoreWrite::InsertMessage(_))));
    assert_eq!(op.phase, ReplyPhase::Finished(CommandResult::Done));
    assert_eq!(db.dm_msg_for_thread_msg(7, 104), Some(70));
    let (mut op, _) = StaffReply::start(100, Some(FORUM), "hello".to_string(), &c, &db);
    op.resume(Outcome::Failed, &mut db);
    assert_eq!(op.phase, ReplyPhase::Finished(CommandResult::DmFailed));
    let (op, _) = StaffReply::start(555, Some(FORUM), "hello".to_string(), &c, &db);
    assert_eq!(op.phase, ReplyPhase::Finished(CommandResult::Failed(Failure::MissingTicket)));
}

#[test]
fn link_command() {
    let c = config();
    let db = db();
    assert_eq!(
        link(100, Some(FORUM), "101", &c, &db).unwrap(),
        "https://discord.com/channels/@me/50/5\n^ Right-click (or hold on mobile) to copy that as a link."
    );
    assert_eq!(link(100, Some(FORUM), "999", &c, &db), Err(CommandResult::NotFound));
    assert_eq!(link(100, Some(FORUM), "x", &c, &db), Err(CommandResult::InvalidId));
    assert_eq!(link(100, None, "101", &c, &db), Err(CommandResult::NotInThread));
    assert_eq!(guild_message_link(1, 100, 101), "https://discord.com/channels/1/100/101");
}

#[test]
fn thread_reopen_decision() {
    let c = config();
    let db = db();
    assert!(should_reopen(Some(FORUM), 100, Some((true, false)), &c, &db));
    assert!(should_reopen(Some(FORUM), 100, Some((false, true)), &c, &db));
    assert!(!should_reopen(Some(FORUM), 100, Some((false, false)), &c, &db));
    assert!(!should_reopen(Some(FORUM), 200, Some((true, false)), &c, &db));
    assert!(!should_reopen(Some(3), 100, Some((true, false)), &c, &db));
    assert!(!should_reopen(Some(FORUM), 100, None, &c, &db));
}

#[test]
fn member_notices() {
    let db = db();
    match member_notice(7, false, &db) {
        Some(Request::SendText { channel_id, text }) => {
            assert_eq!(channel_id, 100);
            assert_eq!(text, "👋 User left the server.");
        },
        _ => panic!("expected a notice"),
    }
    assert!(matches!(member_notice(7, true, &db), Some(Request::SendText { text, .. }) if text == "👋 User rejoined the server."));
    assert!(member_notice(8, true, &db).is_none());
    assert!(member_notice(99, true, &db).is_none());
}

fn entry(action: ModAction, reason: Option<&str>) -> AuditEntry {
    AuditEntry { guild_id: Some(1), user_id: Some(3), target_id: Some(7), action, reason: reason.map(|s| s.to_string()) }
}

#[test]
fn moderation_notices() {
    let c = config();
    let db = db();
    let text = |e: AuditEntry| match audit_notice(&e, BOT, &c, &db) {
        Some(Request::SendText { channel_id: 100, text }) => Some(text),
        _ => None,
    };
    assert_eq!(text(entry(ModAction::Ban, Some("spam"))).as_deref(), Some("🔨 User was banned by <@3> for `spam`."));
    assert_eq!(text(entry(ModAction::Kick, None)).as_deref(), Some("👢 User was kicked by <@3>."));
    assert_eq!(
        text(entry(ModAction::Mute { until: 1700000000 }, None)).as_deref(),
        Some("🔇 User was muted by <@3>.\nThe mute expires <t:1700000000:R>")
    );
    assert_eq!(text(entry(ModAction::Other, None)), None);
    let mut e = entry(ModAction::Ban, None);
    e.user_id = Some(BOT);
    assert_eq!(text(e), None);
    let mut e = entry(ModAction::Ban, None);
    e.target_id = Some(8);
    assert_eq!(text(e), None);
    let mut e = entry(ModAction::Ban, None);
    e.guild_id = Some(5);
    assert_eq!(text(e), None);
}

#[test]
fn command_descriptions() {
    let all = commands::info();
    let names: Vec<&str> = all.iter().map(|c| c.name.as_str()).collect();
    assert_eq!(names, vec!["about", "close", "delete", "edit", "info", "link", "modmail", "ping", "reply"]);
    let edit = commands::edit::info();
    assert!(edit.admin_only);
    assert_eq!(edit.options[1].name, "to");
    assert_eq!(edit.options[1].max_length, Some(2000));
    let close = commands::close::info();
    assert_eq!(close.options[0].kind, OptionKind::Boolean);
    assert!(!close.options[0].required);
    assert!(!commands::ping::info().admin_only);
    assert_eq!(commands::delete::info().options[0].max_length, Some(20));
    assert_eq!(commands::reply::info().options[0].name, "with");
    assert_eq!(commands::link::info().description, "Get a message link from this modmail thread (useful for reporting)");
    assert_eq!(commands::about::info().description, "View information about the bot");
    assert_eq!(commands::info::info().name, "info");
    assert_eq!(commands::modmail::info().name, "modmail");
}

#[test]
fn task_counter_drains() {
    let mut c = TaskCounter::new();
    assert!(c.is_idle());
    assert!(c.task_started());
    assert!(c.task_started());
    assert!(!c.task_finished());
    assert!(!c.is_idle());
    assert!(c.task_finished());
    assert!(c.is_idle());
    assert!(!c.task_finished());
    assert_eq!(c.running(), 0);
}

#[test]
fn latch_fires_once() {
    let mut l = OnceLatch::new();
    assert!(l.fire());
    assert!(!l.fire());
    assert!(!l.fire());
}
