//! The sanction workflow: from an invoked command, through authorization and
//! the collection of a reason, to enforcement and the audit log.
//!
//! Each step is a function from what is known and what just happened to the
//! next outcome; the caller performs the platform calls in between.
use vstd::prelude::*;

use crate::context::CommandContext;
use crate::key::{correlation_key, key_of, parse_correlation_key, parse_key};
use crate::policy::{authorize, decide, Decision, DenyReason};
use crate::resolver::{resolved, Guild, GuildCache, ResolveError};
use crate::sanction::{required_bits, SanctionKind};
use crate::store::{has_live, after_consume, after_create, consume_result, create_result, PendingSanction, PendingSanctionStore, StoreError};
use crate::permission::Permissions;

verus! {

/// Moderation settings of a guild.
#[derive(Clone, Copy, Debug, PartialEq, Eq, Structural)]
pub struct GuildPolicy {
    /// Whether a sanction needs a reason.
    pub enforce_reason: bool,
}

/// Why a sanction did not go ahead.
#[derive(Clone, Copy, Debug, PartialEq, Eq, Structural)]
pub enum Rejection {
    /// The command was not invoked in a guild.
    NotInGuild,
    /// The target is not a member of the guild.
    NotMember,
    /// An actor is not in the cache; invoking again may succeed.
    ActorResolutionFailed,
    /// The authorization policy refused the sanction.
    Denied(DenyReason),
    /// A pending record for this command exists already.
    DuplicateDelivery,
    /// The guild requires a reason and none was given.
    MissingReason,
    /// The pending record is gone: expired, consumed or unknown.
    Expired,
}

/// A sanction ready to be enforced.
#[derive(Debug)]
pub struct SanctionRequest {
    pub kind: SanctionKind,
    pub target_id: u64,
    pub reason: Option<String>,
    pub notes: Option<String>,
    pub author_id: u64,
    pub guild_id: u64,
    /// Time, in seconds, at which the request was built.
    pub created_at: u64,
}

/// An audit record of an enforced sanction.
#[derive(Debug)]
pub struct ModlogEntry {
    pub guild_id: u64,
    pub kind: SanctionKind,
    pub target_id: u64,
    pub author_id: u64,
    pub reason: Option<String>,
    pub notes: Option<String>,
    pub created_at: u64,
}

/// What follows an invoked command.
#[derive(Debug)]
pub enum CommandOutcome {
    Rejected(Rejection),
    /// Show the reason form; its submission carries `custom_id` back.
    AwaitingReason { custom_id: Vec<u8>, reason_required: bool },
    /// Enforce at once: the reason was given with the command.
    ReasonReady(SanctionRequest),
}

/// What follows the submission of a reason form.
#[derive(Debug)]
pub enum SubmitOutcome {
    Rejected(Rejection),
    ReasonReady(SanctionRequest),
}

/// The platform refused to apply a sanction.
#[derive(Clone, Copy, Debug, PartialEq, Eq, Structural)]
pub enum EnforcementError {
    PlatformRejected,
}

/// Which of the three notifications of an enforced sanction were delivered.
#[derive(Clone, Copy, Debug, PartialEq, Eq, Structural)]
pub struct NotificationResults {
    pub target: bool,
    pub log_channel: bool,
    pub author: bool,
}

/// How a sanction ended.
#[derive(Clone, Copy, Debug, PartialEq, Eq, Structural)]
pub enum Completion {
    /// The platform refused the sanction; nothing was logged.
    Failed(EnforcementError),
    /// The sanction was applied and logged; some notifications may have failed.
    Done { failed_notifications: u8 },
}

/// The checks before a reason is collected: a guild, a target that is a
/// member of it, the three actors, and the authorization policy.
pub open spec fn command_check(
    guilds: Seq<Guild>,
    guild_id: Option<u64>,
    author_id: u64,
    target_id: u64,
    target_is_member: bool,
    bot_id: u64,
    kind: SanctionKind,
) -> Result<(), Rejection> {
    match guild_id {
        None => Err(Rejection::NotInGuild),
        Some(_) if !target_is_member => Err(Rejection::NotMember),
        Some(g) => match (resolved(guilds, g, author_id), resolved(guilds, g, target_id), resolved(guilds, g, bot_id)) {
            (Some(a), Some(t), Some(b)) => match decide(a, t, b, Permissions { bits: required_bits(kind) }) {
                Decision::Allowed => Ok(()),
                Decision::Denied(reason) => Err(Rejection::Denied(reason)),
            },
            _ => Err(Rejection::ActorResolutionFailed),
        },
    }
}

/// An empty text counts as no text.
pub open spec fn text_or_none(s: String) -> Option<String> {
    if s@.len() == 0 {
        None
    } else {
        Some(s)
    }
}

fn optional_text(s: String) -> (r: Option<String>)
    ensures
        r == text_or_none(s),
{
    if s.as_str().is_empty() {
        None
    } else {
        Some(s)
    }
}

/// The reason given inline with the command of `ctx`; an empty one counts
/// as none.
pub open spec fn inline_reason(ctx: CommandContext) -> Option<String> {
    match ctx.data.reason {
        Some(s) => text_or_none(s),
        None => None,
    }
}

fn inline_reason_of(ctx: &CommandContext) -> (r: Option<String>)
    ensures
        r == inline_reason(*ctx),
{
    match &ctx.data.reason {
        Some(s) => if s.as_str().is_empty() {
            None
        } else {
            Some(s.clone())
        },
        None => None,
    }
}

/// What an invoked command calls for, before any pending record is touched.
#[derive(Debug)]
pub enum CommandStep {
    Rejected(Rejection),
    /// Enforce at once with the inline reason.
    ReasonReady(SanctionRequest),
    /// Create a pending record under `key`, then ask for the reason form.
    CreatePending { key: u64, kind: SanctionKind, target_id: u64 },
}

/// The step that the command of `ctx` calls for.
pub open spec fn command_step(guilds: Seq<Guild>, ctx: CommandContext, bot_id: u64, now: u64) -> CommandStep {
    match command_check(guilds, ctx.guild_id, ctx.user.id, ctx.data.target_id, ctx.data.target_is_member, bot_id, ctx.data.kind) {
        Err(rejection) => CommandStep::Rejected(rejection),
        Ok(()) => match inline_reason(ctx) {
            Some(reason) => CommandStep::ReasonReady(SanctionRequest {
                kind: ctx.data.kind,
                target_id: ctx.data.target_id,
                reason: Some(reason),
                notes: None,
                author_id: ctx.user.id,
                guild_id: ctx.guild_id.unwrap(),
                created_at: now,
            }),
            None => CommandStep::CreatePending { key: ctx.id, kind: ctx.data.kind, target_id: ctx.data.target_id },
        },
    }
}

/// Whether `r` is what follows a pending record under `key` whose creation
/// the store answered with `created`.
pub open spec fn created_outcome(created: Result<(), StoreError>, key: u64, enforce_reason: bool, r: CommandOutcome) -> bool {
    match created {
        Ok(()) => r is AwaitingReason && r->custom_id@ == key_of(key) && r->reason_required == enforce_reason,
        Err(_) => r == CommandOutcome::Rejected(Rejection::DuplicateDelivery),
    }
}

/// How `handle_command` on `ctx` ends: `before` and `after` are the
/// pending records around the call, `r` what it returned.
pub open spec fn command_done(
    guilds: Seq<Guild>,
    before: Map<u64, PendingSanction>,
    after: Map<u64, PendingSanction>,
    ctx: CommandContext,
    bot_id: u64,
    enforce_reason: bool,
    now: u64,
    r: CommandOutcome,
) -> bool {
    match command_step(guilds, ctx, bot_id, now) {
        CommandStep::Rejected(rejection) => r == CommandOutcome::Rejected(rejection) && after == before,
        CommandStep::ReasonReady(request) => r == CommandOutcome::ReasonReady(request) && after == before,
        CommandStep::CreatePending { key, kind, target_id } => {
            &&& after == after_create(before, key, kind, target_id, now)
            &&& created_outcome(create_result(before, key, now), key, enforce_reason, r)
        },
    }
}

/// Checks an invoked sanction command and says what it calls for: a
/// rejection, a request with the inline reason, or a pending record. The
/// caller creates the record in whichever store it uses.
pub fn plan_command(cache: &GuildCache, ctx: &CommandContext, bot_id: u64, now: u64) -> (r: CommandStep)
    ensures
        r == command_step(cache.guilds@, *ctx, bot_id, now),
{
    let guild_id = match ctx.guild_id {
        Some(g) => g,
        None => return CommandStep::Rejected(Rejection::NotInGuild),
    };
    if !ctx.data.target_is_member {
        return CommandStep::Rejected(Rejection::NotMember);
    }
    let kind = ctx.data.kind;
    let target_id = ctx.data.target_id;
    let (author, target, bot) = match cache.get_permissions(guild_id, ctx.user.id, target_id, bot_id) {
        Ok(actors) => actors,
        Err(ResolveError::ActorResolutionFailed) => return CommandStep::Rejected(Rejection::ActorResolutionFailed),
    };
    match authorize(&author, &target, &bot, kind.default_permissions()) {
        Decision::Denied(reason) => return CommandStep::Rejected(Rejection::Denied(reason)),
        Decision::Allowed => {},
    }
    match inline_reason_of(ctx) {
        Some(reason) => CommandStep::ReasonReady(SanctionRequest {
            kind,
            target_id,
            reason: Some(reason),
            notes: None,
            author_id: ctx.user.id,
            guild_id,
            created_at: now,
        }),
        None => CommandStep::CreatePending { key: ctx.id, kind, target_id },
    }
}

/// What follows the creation of a pending record under `key`, given the
/// store's answer: the reason form, or a rejection of a duplicate delivery.
pub fn after_pending_created(created: Result<(), StoreError>, key: u64, enforce_reason: bool) -> (r: CommandOutcome)
    ensures
        created_outcome(created, key, enforce_reason, r),
{
    match created {
        Ok(()) => CommandOutcome::AwaitingReason { custom_id: correlation_key(key), reason_required: enforce_reason },
        Err(StoreError::AlreadyExists) | Err(StoreError::NotFound) => CommandOutcome::Rejected(Rejection::DuplicateDelivery),
    }
}

/// Handles an invoked sanction command: checks it, then either makes a
/// request at once with a non-empty inline reason, or records a pending
/// sanction under the command's id and asks for the reason form.
pub fn handle_command(
    cache: &GuildCache,
    store: &mut PendingSanctionStore,
    ctx: &CommandContext,
    bot_id: u64,
    enforce_reason: bool,
    now: u64,
) -> (r: CommandOutcome)
    requires
        old(store).wf(),
    ensures
        final(store).wf(),
        command_done(cache.guilds@, old(store)@, final(store)@, *ctx, bot_id, enforce_reason, now, r),
{
    match plan_command(cache, ctx, bot_id, now) {
        CommandStep::Rejected(rejection) => CommandOutcome::Rejected(rejection),
        CommandStep::ReasonReady(request) => CommandOutcome::ReasonReady(request),
        CommandStep::CreatePending { key, kind, target_id } => {
            let created = store.create(key, kind, target_id, now);
            after_pending_created(created, key, enforce_reason)
        },
    }
}

/// The key of the pending record that a submitted form asks for, or why
/// the submission is refused before the store is touched.
pub open spec fn submission_key(custom_id: Seq<u8>, reason: String, enforce_reason: bool) -> Result<u64, Rejection> {
    if enforce_reason && reason@.len() == 0 {
        Err(Rejection::MissingReason)
    } else {
        match parse_key(custom_id) {
            None => Err(Rejection::Expired),
            Some(key) => Ok(key),
        }
    }
}

/// What follows a submission whose record the store answered with `consumed`.
pub open spec fn consumed_outcome(
    consumed: Result<PendingSanction, StoreError>,
    author_id: u64,
    guild_id: u64,
    reason: String,
    notes: String,
    now: u64,
) -> SubmitOutcome {
    match consumed {
        Ok(pending) => SubmitOutcome::ReasonReady(SanctionRequest {
            kind: pending.kind,
            target_id: pending.target_id,
            reason: text_or_none(reason),
            notes: text_or_none(notes),
            author_id,
            guild_id,
            created_at: now,
        }),
        Err(_) => SubmitOutcome::Rejected(Rejection::Expired),
    }
}

/// How `handle_submission` ends: `before` and `after` are the pending
/// records around the call, `r` what it returned.
pub open spec fn submission_done(
    before: Map<u64, PendingSanction>,
    after: Map<u64, PendingSanction>,
    custom_id: Seq<u8>,
    author_id: u64,
    guild_id: u64,
    reason: String,
    notes: String,
    enforce_reason: bool,
    now: u64,
    r: SubmitOutcome,
) -> bool {
    match submission_key(custom_id, reason, enforce_reason) {
        Err(rejection) => r == SubmitOutcome::Rejected(rejection) && after == before,
        Ok(key) => {
            &&& after == after_consume(before, key)
            &&& r == consumed_outcome(consume_result(before, key, now), author_id, guild_id, reason, notes, now)
        },
    }
}

/// Checks a submitted reason form before its record is consumed: a
/// required reason must not be empty, and the form must carry a key.
pub fn check_submission(custom_id: &[u8], reason: &String, enforce_reason: bool) -> (r: Result<u64, Rejection>)
    ensures
        r == submission_key(custom_id@, *reason, enforce_reason),
{
    if enforce_reason && reason.as_str().is_empty() {
        return Err(Rejection::MissingReason);
    }
    match parse_correlation_key(custom_id) {
        Some(key) => Ok(key),
        None => Err(Rejection::Expired),
    }
}

/// Builds the request from what the store's consume returned; a record
/// that is gone is not authorized again: the command must be invoked anew.
pub fn after_pending_consumed(
    consumed: Result<PendingSanction, StoreError>,
    author_id: u64,
    guild_id: u64,
    reason: String,
    notes: String,
    now: u64,
) -> (r: SubmitOutcome)
    ensures
        r == consumed_outcome(consumed, author_id, guild_id, reason, notes, now),
{
    match consumed {
        Ok(pending) => SubmitOutcome::ReasonReady(SanctionRequest {
            kind: pending.kind,
            target_id: pending.target_id,
            reason: optional_text(reason),
            notes: optional_text(notes),
            author_id,
            guild_id,
            created_at: now,
        }),
        Err(StoreError::NotFound) | Err(StoreError::AlreadyExists) => SubmitOutcome::Rejected(Rejection::Expired),
    }
}

/// Handles the submission of a reason form: a required reason must not be
/// empty, then the pending record whose key `custom_id` carries is consumed
/// and the request built from it.
pub fn handle_submission(
    store: &mut PendingSanctionStore,
    custom_id: &[u8],
    author_id: u64,
    guild_id: u64,
    reason: String,
    notes: String,
    enforce_reason: bool,
    now: u64,
) -> (r: SubmitOutcome)
    requires
        old(store).wf(),
    ensures
        final(store).wf(),
        submission_done(old(store)@, final(store)@, custom_id@, author_id, guild_id, reason, notes, enforce_reason, now, r),
{
    let key = match check_submission(custom_id, &reason, enforce_reason) {
        Ok(key) => key,
        Err(rejection) => return SubmitOutcome::Rejected(rejection),
    };
    let consumed = store.consume(key, now);
    after_pending_consumed(consumed, author_id, guild_id, reason, notes, now)
}

/// The audit record of an enforced `request`.
pub open spec fn entry_of(request: SanctionRequest) -> ModlogEntry {
    ModlogEntry {
        guild_id: request.guild_id,
        kind: request.kind,
        target_id: request.target_id,
        author_id: request.author_id,
        reason: request.reason,
        notes: request.notes,
        created_at: request.created_at,
    }
}

/// How many of the three notifications failed.
pub open spec fn failed_count(n: NotificationResults) -> u8 {
    ((if n.target { 0u8 } else { 1u8 }) + (if n.log_channel { 0u8 } else { 1u8 }) + (if n.author { 0u8 } else { 1u8 })) as u8
}

/// Ends a sanction once the platform has answered and the notifications
/// that `notifications_for` gives were attempted: an applied sanction is
/// logged exactly once, whatever became of the notifications; a refused one
/// is logged not at all, and `notified` is then not read.
pub fn finish_sanction(
    request: SanctionRequest,
    enforced: Result<(), EnforcementError>,
    notified: NotificationResults,
    modlog: &mut Vec<ModlogEntry>,
) -> (r: Completion)
    ensures
        match enforced {
            Ok(()) => {
                &&& final(modlog)@ == old(modlog)@.push(entry_of(request))
                &&& r == Completion::Done { failed_notifications: failed_count(notified) }
            },
            Err(e) => final(modlog)@ == old(modlog)@ && r == Completion::Failed(e),
        },
{
    match enforced {
        Err(e) => Completion::Failed(e),
        Ok(()) => {
            let entry = ModlogEntry {
                guild_id: request.guild_id,
                kind: request.kind,
                target_id: request.target_id,
                author_id: request.author_id,
                reason: request.reason,
                notes: request.notes,
                created_at: request.created_at,
            };
            modlog.push(entry);
            let mut failed: u8 = 0;
            if !notified.target {
                failed = failed + 1;
            }
            if !notified.log_channel {
                failed = failed + 1;
            }
            if !notified.author {
                failed = failed + 1;
            }
            Completion::Done { failed_notifications: failed }
        },
    }
}

/// A command that the checks refuse is rejected and leaves the pending
/// records as they were: no request and no reason form come of it.
pub proof fn refused_command_leaves_no_trace(
    guilds: Seq<Guild>,
    before: Map<u64, PendingSanction>,
    after: Map<u64, PendingSanction>,
    ctx: CommandContext,
    bot_id: u64,
    enforce_reason: bool,
    now: u64,
    r: CommandOutcome,
)
    requires
        command_done(guilds, before, after, ctx, bot_id, enforce_reason, now, r),
        command_check(guilds, ctx.guild_id, ctx.user.id, ctx.data.target_id, ctx.data.target_is_member, bot_id, ctx.data.kind) is Err,
    ensures
        r is Rejected,
        after == before,
{
}

/// Of two submissions of one reason form, at most one yields a request,
/// whatever their reasons and times.
pub proof fn submission_enforced_at_most_once(
    m0: Map<u64, PendingSanction>,
    m1: Map<u64, PendingSanction>,
    m2: Map<u64, PendingSanction>,
    custom_id: Seq<u8>,
    author_id: u64,
    guild_id: u64,
    reasons: (String, String),
    notes: (String, String),
    enforce_reason: bool,
    times: (u64, u64),
    r1: SubmitOutcome,
    r2: SubmitOutcome,
)
    requires
        submission_done(m0, m1, custom_id, author_id, guild_id, reasons.0, notes.0, enforce_reason, times.0, r1),
        submission_done(m1, m2, custom_id, author_id, guild_id, reasons.1, notes.1, enforce_reason, times.1, r2),
    ensures
        !(r1 is ReasonReady && r2 is ReasonReady),
{
    if r1 is ReasonReady {
        let key = parse_key(custom_id)->Some_0;
        assert(!m1.contains_key(key));
    }
}

/// A submission whose required reason is empty, or whose record is expired,
/// consumed or unknown, yields no request: nothing is enforced or logged,
/// and the command is not authorized again. An empty required reason leaves
/// the record in place.
pub proof fn refused_submission_yields_no_request(
    before: Map<u64, PendingSanction>,
    after: Map<u64, PendingSanction>,
    custom_id: Seq<u8>,
    author_id: u64,
    guild_id: u64,
    reason: String,
    notes: String,
    enforce_reason: bool,
    now: u64,
    r: SubmitOutcome,
)
    requires
        submission_done(before, after, custom_id, author_id, guild_id, reason, notes, enforce_reason, now, r),
        (enforce_reason && reason@.len() == 0) || parse_key(custom_id) is None
            || !has_live(before, parse_key(custom_id)->Some_0, now),
    ensures
        r is Rejected,
        enforce_reason && reason@.len() == 0 ==> r == SubmitOutcome::Rejected(Rejection::MissingReason)
            && after == before,
        !(enforce_reason && reason@.len() == 0) ==> r == SubmitOutcome::Rejected(Rejection::Expired),
{
}

} // verus!
