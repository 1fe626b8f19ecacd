//! What to send once a sanction request is ready: the platform action that
//! enforces it, and the three notifications that follow it.
use vstd::prelude::*;

use crate::sanction::SanctionKind;
use crate::workflow::{EnforcementError, SanctionRequest};

verus! {

/// A call to the platform that applies a sanction.
#[derive(Clone, Copy, Debug, PartialEq, Eq, Structural)]
pub enum PlatformAction {
    Kick { guild_id: u64, user_id: u64 },
    Ban { guild_id: u64, user_id: u64 },
    Timeout { guild_id: u64, user_id: u64 },
    /// A warning is only recorded; the platform is not called.
    Nothing,
}

/// Where a notification goes.
#[derive(Clone, Copy, Debug, PartialEq, Eq, Structural)]
pub enum Recipient {
    /// A direct message to a user.
    User(u64),
    /// The log channel of a guild.
    LogChannel(u64),
}

/// A notification about an enforced sanction, to be rendered by the caller.
#[derive(Debug)]
pub struct Notification {
    pub recipient: Recipient,
    pub kind: SanctionKind,
    pub guild_id: u64,
    pub target_id: u64,
    pub author_id: u64,
    pub reason: Option<String>,
}

/// The platform action that enforces `request`.
pub open spec fn action_of(request: SanctionRequest) -> PlatformAction {
    match request.kind {
        SanctionKind::Kick => PlatformAction::Kick { guild_id: request.guild_id, user_id: request.target_id },
        SanctionKind::Ban => PlatformAction::Ban { guild_id: request.guild_id, user_id: request.target_id },
        SanctionKind::Mute => PlatformAction::Timeout { guild_id: request.guild_id, user_id: request.target_id },
        SanctionKind::Warn => PlatformAction::Nothing,
    }
}

/// The notification of `request` that goes to `recipient`.
pub open spec fn notification_of(request: SanctionRequest, recipient: Recipient) -> Notification {
    Notification {
        recipient,
        kind: request.kind,
        guild_id: request.guild_id,
        target_id: request.target_id,
        author_id: request.author_id,
        reason: request.reason,
    }
}

fn notification(request: &SanctionRequest, recipient: Recipient) -> (r: Notification)
    ensures
        r == notification_of(*request, recipient),
{
    let reason = match &request.reason {
        Some(s) => Some(s.clone()),
        None => None,
    };
    Notification {
        recipient,
        kind: request.kind,
        guild_id: request.guild_id,
        target_id: request.target_id,
        author_id: request.author_id,
        reason,
    }
}

/// The platform action to dispatch for `request`.
pub fn _perform_command(request: &SanctionRequest) -> (r: PlatformAction)
    ensures
        r == action_of(*request),
{
    match request.kind {
        SanctionKind::Kick => PlatformAction::Kick { guild_id: request.guild_id, user_id: request.target_id },
        SanctionKind::Ban => PlatformAction::Ban { guild_id: request.guild_id, user_id: request.target_id },
        SanctionKind::Mute => PlatformAction::Timeout { guild_id: request.guild_id, user_id: request.target_id },
        SanctionKind::Warn => PlatformAction::Nothing,
    }
}

/// The direct message that tells the target of `request` about it.
pub fn _message_target(request: &SanctionRequest) -> (r: Notification)
    ensures
        r == notification_of(*request, Recipient::User(request.target_id)),
{
    notification(request, Recipient::User(request.target_id))
}

/// The message for the log channel of the guild of `request`.
pub fn _message_log(request: &SanctionRequest) -> (r: Notification)
    ensures
        r == notification_of(*request, Recipient::LogChannel(request.guild_id)),
{
    notification(request, Recipient::LogChannel(request.guild_id))
}

/// The confirmation for the author of `request`.
pub fn _message_user(request: &SanctionRequest) -> (r: Notification)
    ensures
        r == notification_of(*request, Recipient::User(request.author_id)),
{
    notification(request, Recipient::User(request.author_id))
}

/// The notifications that follow `request` once the platform answered
/// `enforced`: none after a refusal; after success the target, the log
/// channel and the author, in that order.
pub fn notifications_for(request: &SanctionRequest, enforced: Result<(), EnforcementError>) -> (r: Vec<Notification>)
    ensures
        enforced is Err ==> r@.len() == 0,
        enforced is Ok ==> r@ == seq![
            notification_of(*request, Recipient::User(request.target_id)),
            notification_of(*request, Recipient::LogChannel(request.guild_id)),
            notification_of(*request, Recipient::User(request.author_id)),
        ],
{
    let mut out: Vec<Notification> = Vec::new();
    if enforced.is_ok() {
        out.push(_message_target(request));
        out.push(_message_log(request));
        out.push(_message_user(request));
    }
    proof {
        if enforced is Ok {
            assert(out@ =~= seq![
                notification_of(*request, Recipient::User(request.target_id)),
                notification_of(*request, Recipient::LogChannel(request.guild_id)),
                notification_of(*request, Recipient::User(request.author_id)),
            ]);
        }
    }
    out
}

} // verus!
