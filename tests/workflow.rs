use raidprotect::context::{CommandContext, CommandData, PartialMember, User};
use raidprotect::permission::{Permissions, BAN_MEMBERS, KICK_MEMBERS};
use raidprotect::policy::DenyReason;
use raidprotect::resolver::{Guild, GuildCache, Member, Role};
use raidprotect::sanction::SanctionKind;
use raidprotect::store::{PendingSanction, PendingSanctionStore, StoreError, PENDING_TTL_SECS};
use raidprotect::workflow::{
    after_pending_consumed, after_pending_created, check_submission, finish_sanction, handle_command,
    handle_submission, plan_command, CommandStep, Completion, CommandOutcome,
    EnforcementError, ModlogEntry, NotificationResults, Rejection, SanctionRequest,
    SubmitOutcome,
};

const GUILD: u64 = 500;
const BOT: u64 = 900;
const KEY: &[u8] = b"sanction:4242";

fn cache(author_rank: i64, target_rank: i64, bot_rank: i64, bot_bits: u64) -> GuildCache {
    let roles = vec![
        Role { id: 1, position: author_rank, permissions: Permissions::empty() },
        Role { id: 2, position: target_rank, permissions: Permissions::empty() },
        Role { id: 3, position: bot_rank, permissions: Permissions::from_bits(bot_bits) },
    ];
    let members = vec![
        Member { user_id: 10, roles: vec![1] },
        Member { user_id: 20, roles: vec![2] },
        Member { user_id: BOT, roles: vec![3] },
    ];
    GuildCache {
        guilds: vec![Guild { id: GUILD, owner_id: 1, everyone: Permissions::empty(), roles, members }],
    }
}

fn ctx(kind: SanctionKind, reason: Option<&str>) -> CommandContext {
    CommandContext {
        id: 4242,
        application_id: 1,
        token: "t".to_string(),
        data: CommandData { kind, target_id: 20, target_is_member: true, reason: reason.map(|r| r.to_string()) },
        channel: 2,
        guild_id: Some(GUILD),
        user: User { id: 10, name: "mod".to_string() },
        member: Some(PartialMember { user: Some(User { id: 10, name: "mod".to_string() }), roles: vec![1] }),
        locale: "en-US".to_string(),
    }
}

#[test]
fn inline_reason_goes_straight_to_enforcement() {
    let c = cache(8, 2, 9, BAN_MEMBERS);
    let mut store = PendingSanctionStore::new();
    let out = handle_command(&c, &mut store, &ctx(SanctionKind::Ban, Some("spamming")), BOT, false, 50);
    match out {
        CommandOutcome::ReasonReady(req) => {
            assert_eq!(req.reason, Some("spamming".to_string()));
            assert_eq!(req.kind, SanctionKind::Ban);
            assert_eq!(req.target_id, 20);
            assert_eq!(req.author_id, 10);
            assert_eq!(req.guild_id, GUILD);
            assert_eq!(req.created_at, 50);
            assert_eq!(req.notes, None);
        }
        other => panic!("unexpected outcome {:?}", other),
    }
    // No pending record was created.
    assert!(!store.live(4242, 50));
    assert_eq!(store.consume(4242, 50), Err(StoreError::NotFound));
}

#[test]
fn enforced_reason_rejects_an_empty_submission() {
    let c = cache(8, 2, 9, KICK_MEMBERS);
    let mut store = PendingSanctionStore::new();
    let out = handle_command(&c, &mut store, &ctx(SanctionKind::Kick, None), BOT, true, 50);
    match out {
        CommandOutcome::AwaitingReason { custom_id, reason_required } => {
            assert_eq!(custom_id, b"sanction:4242".to_vec());
            assert!(reason_required);
        }
        other => panic!("unexpected outcome {:?}", other),
    }
    let sub = handle_submission(&mut store, KEY, 10, GUILD, String::new(), "n".to_string(), true, 60);
    match sub {
        SubmitOutcome::Rejected(r) => assert_eq!(r, Rejection::MissingReason),
        other => panic!("unexpected outcome {:?}", other),
    }
    // The record is still there for a proper submission.
    assert!(store.live(4242, 60));
}

#[test]
fn submission_consumes_the_pending_record_once() {
    let c = cache(8, 2, 9, KICK_MEMBERS);
    let mut store = PendingSanctionStore::new();
    let out = handle_command(&c, &mut store, &ctx(SanctionKind::Warn, None), BOT, false, 50);
    match out {
        CommandOutcome::AwaitingReason { custom_id, reason_required } => {
            assert_eq!(custom_id, b"sanction:4242".to_vec());
            assert!(!reason_required);
        }
        other => panic!("unexpected outcome {:?}", other),
    }
    let sub = handle_submission(&mut store, KEY, 10, GUILD, "rude".to_string(), String::new(), false, 70);
    match sub {
        SubmitOutcome::ReasonReady(req) => {
            assert_eq!(req.kind, SanctionKind::Warn);
            assert_eq!(req.target_id, 20);
            assert_eq!(req.reason, Some("rude".to_string()));
            assert_eq!(req.notes, None);
            assert_eq!(req.created_at, 70);
        }
        other => panic!("unexpected outcome {:?}", other),
    }
    let again = handle_submission(&mut store, KEY, 10, GUILD, "rude".to_string(), String::new(), false, 71);
    assert!(matches!(again, SubmitOutcome::Rejected(Rejection::Expired)));
}

#[test]
fn optional_reason_may_be_left_empty() {
    let c = cache(8, 2, 9, KICK_MEMBERS);
    let mut store = PendingSanctionStore::new();
    handle_command(&c, &mut store, &ctx(SanctionKind::Kick, None), BOT, false, 0);
    let sub = handle_submission(&mut store, KEY, 10, GUILD, String::new(), "x".to_string(), false, 1);
    match sub {
        SubmitOutcome::ReasonReady(req) => {
            assert_eq!(req.reason, None);
            assert_eq!(req.notes, Some("x".to_string()));
        }
        other => panic!("unexpected outcome {:?}", other),
    }
}

#[test]
fn late_submission_is_expired() {
    let c = cache(8, 2, 9, KICK_MEMBERS);
    let mut store = PendingSanctionStore::new();
    handle_command(&c, &mut store, &ctx(SanctionKind::Kick, None), BOT, false, 0);
    let sub = handle_submission(&mut store, KEY, 10, GUILD, "r".to_string(), String::new(), false, PENDING_TTL_SECS);
    assert!(matches!(sub, SubmitOutcome::Rejected(Rejection::Expired)));
}

#[test]
fn duplicate_command_delivery_is_rejected() {
    let c = cache(8, 2, 9, KICK_MEMBERS);
    let mut store = PendingSanctionStore::new();
    handle_command(&c, &mut store, &ctx(SanctionKind::Kick, None), BOT, false, 0);
    let out = handle_command(&c, &mut store, &ctx(SanctionKind::Kick, None), BOT, false, 1);
    assert!(matches!(out, CommandOutcome::Rejected(Rejection::DuplicateDelivery)));
}

#[test]
fn equal_rank_command_is_denied_without_a_record() {
    let c = cache(5, 5, 10, BAN_MEMBERS);
    let mut store = PendingSanctionStore::new();
    let out = handle_command(&c, &mut store, &ctx(SanctionKind::Ban, None), BOT, false, 0);
    assert!(matches!(
        out,
        CommandOutcome::Rejected(Rejection::Denied(DenyReason::AuthorHierarchyViolation))
    ));
    assert!(!store.live(4242, 0));
}

#[test]
fn bot_without_ban_permission_is_denied() {
    let c = cache(8, 2, 9, KICK_MEMBERS);
    let mut store = PendingSanctionStore::new();
    let out = handle_command(&c, &mut store, &ctx(SanctionKind::Ban, Some("x")), BOT, false, 0);
    assert!(matches!(
        out,
        CommandOutcome::Rejected(Rejection::Denied(DenyReason::BotMissingPermission))
    ));
}

#[test]
fn uncached_target_and_direct_messages_are_rejected() {
    let c = cache(8, 2, 9, KICK_MEMBERS);
    let mut store = PendingSanctionStore::new();
    let mut cx = ctx(SanctionKind::Kick, None);
    cx.data.target_id = 31;
    let out = handle_command(&c, &mut store, &cx, BOT, false, 0);
    assert!(matches!(out, CommandOutcome::Rejected(Rejection::ActorResolutionFailed)));
    let mut dm = ctx(SanctionKind::Kick, None);
    dm.guild_id = None;
    let out = handle_command(&c, &mut store, &dm, BOT, false, 0);
    assert!(matches!(out, CommandOutcome::Rejected(Rejection::NotInGuild)));
    let mut gone = ctx(SanctionKind::Kick, None);
    gone.data.target_is_member = false;
    let out = handle_command(&c, &mut store, &gone, BOT, false, 0);
    assert!(matches!(out, CommandOutcome::Rejected(Rejection::NotMember)));
}

fn request() -> SanctionRequest {
    SanctionRequest {
        kind: SanctionKind::Ban,
        target_id: 20,
        reason: Some("spam".to_string()),
        notes: None,
        author_id: 10,
        guild_id: GUILD,
        created_at: 77,
    }
}

#[test]
fn enforced_sanction_is_logged_once_even_when_notifications_fail() {
    let mut log: Vec<ModlogEntry> = Vec::new();
    let none = NotificationResults { target: false, log_channel: false, author: false };
    let c = finish_sanction(request(), Ok(()), none, &mut log);
    assert_eq!(c, Completion::Done { failed_notifications: 3 });
    assert_eq!(log.len(), 1);
    assert_eq!(log[0].guild_id, GUILD);
    assert_eq!(log[0].kind, SanctionKind::Ban);
    assert_eq!(log[0].target_id, 20);
    assert_eq!(log[0].author_id, 10);
    assert_eq!(log[0].reason, Some("spam".to_string()));
    assert_eq!(log[0].created_at, 77);
    let all = NotificationResults { target: true, log_channel: true, author: true };
    let c = finish_sanction(request(), Ok(()), all, &mut log);
    assert_eq!(c, Completion::Done { failed_notifications: 0 });
    assert_eq!(log.len(), 2);
}

#[test]
fn refused_sanction_is_not_logged() {
    let mut log: Vec<ModlogEntry> = Vec::new();
    let some = NotificationResults { target: true, log_channel: false, author: true };
    let c = finish_sanction(request(), Err(EnforcementError::PlatformRejected), some, &mut log);
    assert_eq!(c, Completion::Failed(EnforcementError::PlatformRejected));
    assert!(log.is_empty());
}

#[test]
fn sanction_kinds_need_their_permission() {
    assert_eq!(SanctionKind::Ban.default_permissions().bits, BAN_MEMBERS);
    assert_eq!(SanctionKind::Kick.default_permissions().bits, KICK_MEMBERS);
    assert_eq!(SanctionKind::Warn.default_permissions().bits, KICK_MEMBERS);
}

#[test]
fn malformed_custom_id_is_treated_as_expired() {
    let c = cache(8, 2, 9, KICK_MEMBERS);
    let mut store = PendingSanctionStore::new();
    handle_command(&c, &mut store, &ctx(SanctionKind::Kick, None), BOT, false, 0);
    let sub = handle_submission(&mut store, b"other:4242", 10, GUILD, "r".to_string(), String::new(), false, 1);
    assert!(matches!(sub, SubmitOutcome::Rejected(Rejection::Expired)));
    // The real record is untouched.
    assert!(store.live(4242, 1));
}

#[test]
fn empty_inline_reason_asks_for_the_form() {
    let c = cache(8, 2, 9, KICK_MEMBERS);
    let mut store = PendingSanctionStore::new();
    let out = handle_command(&c, &mut store, &ctx(SanctionKind::Kick, Some("")), BOT, true, 0);
    match out {
        CommandOutcome::AwaitingReason { custom_id, reason_required } => {
            assert_eq!(custom_id, KEY.to_vec());
            assert!(reason_required);
        }
        other => panic!("unexpected outcome {:?}", other),
    }
    assert!(store.live(4242, 0));
}

#[test]
fn steps_work_with_an_outside_store() {
    let c = cache(8, 2, 9, KICK_MEMBERS);
    match plan_command(&c, &ctx(SanctionKind::Mute, None), BOT, 3) {
        CommandStep::Rejected(r) => assert_eq!(r, Rejection::Denied(DenyReason::BotMissingPermission)),
        other => panic!("unexpected step {:?}", other),
    }
    match plan_command(&c, &ctx(SanctionKind::Kick, None), BOT, 3) {
        CommandStep::CreatePending { key, kind, target_id } => {
            assert_eq!((key, kind, target_id), (4242, SanctionKind::Kick, 20));
        }
        other => panic!("unexpected step {:?}", other),
    }
    match after_pending_created(Ok(()), 4242, false) {
        CommandOutcome::AwaitingReason { custom_id, reason_required } => {
            assert_eq!(custom_id, KEY.to_vec());
            assert!(!reason_required);
        }
        other => panic!("unexpected outcome {:?}", other),
    }
    assert!(matches!(
        after_pending_created(Err(StoreError::AlreadyExists), 4242, false),
        CommandOutcome::Rejected(Rejection::DuplicateDelivery)
    ));
    assert_eq!(check_submission(KEY, &String::new(), true), Err(Rejection::MissingReason));
    assert_eq!(check_submission(b"junk", &"r".to_string(), true), Err(Rejection::Expired));
    assert_eq!(check_submission(KEY, &String::new(), false), Ok(4242));
    let pending = PendingSanction { interaction_id: 4242, kind: SanctionKind::Ban, target_id: 20, created_at: 1 };
    match after_pending_consumed(Ok(pending), 10, GUILD, "r".to_string(), String::new(), 5) {
        SubmitOutcome::ReasonReady(req) => {
            assert_eq!(req.kind, SanctionKind::Ban);
            assert_eq!(req.reason, Some("r".to_string()));
            assert_eq!(req.created_at, 5);
        }
        other => panic!("unexpected outcome {:?}", other),
    }
    assert!(matches!(
        after_pending_consumed(Err(StoreError::NotFound), 10, GUILD, "r".to_string(), String::new(), 5),
        SubmitOutcome::Rejected(Rejection::Expired)
    ));
}
