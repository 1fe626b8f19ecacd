//! The authorization policy: may an author sanction a target, through the bot?
use vstd::prelude::*;

use crate::permission::{holds_all, Permissions};

verus! {

/// A member resolved for one authorization check.
#[derive(Clone, Copy, Debug, PartialEq, Eq, Structural)]
pub struct Actor {
    pub user_id: u64,
    pub permissions: Permissions,
    pub is_owner: bool,
    /// Position of the member's highest role; higher is more senior.
    pub hierarchy_rank: i64,
}

/// Why a sanction was refused.
#[derive(Clone, Copy, Debug, PartialEq, Eq, Structural)]
pub enum DenyReason {
    /// The target owns the guild.
    OwnerBypass,
    /// The bot lacks a permission the sanction needs.
    BotMissingPermission,
    /// The target ranks at or above the author.
    AuthorHierarchyViolation,
    /// The target ranks at or above the bot.
    BotHierarchyViolation,
}

/// Result of an authorization check.
#[derive(Clone, Copy, Debug, PartialEq, Eq, Structural)]
pub enum Decision {
    Allowed,
    Denied(DenyReason),
}

/// The checks on ownership and on the bot's permissions, in that order.
pub open spec fn permission_denial(target: Actor, bot: Actor, required: Permissions) -> Option<DenyReason> {
    if target.is_owner {
        Some(DenyReason::OwnerBypass)
    } else if !holds_all(bot.permissions.bits, required.bits) {
        Some(DenyReason::BotMissingPermission)
    } else {
        None
    }
}

/// The checks on the role hierarchy: the author first, then the bot.
pub open spec fn hierarchy_denial(author: Actor, target: Actor, bot: Actor) -> Option<DenyReason> {
    if target.hierarchy_rank >= author.hierarchy_rank {
        Some(DenyReason::AuthorHierarchyViolation)
    } else if target.hierarchy_rank >= bot.hierarchy_rank {
        Some(DenyReason::BotHierarchyViolation)
    } else {
        None
    }
}

/// The decision: the first check that fails gives the reason.
pub open spec fn decide(author: Actor, target: Actor, bot: Actor, required: Permissions) -> Decision {
    match permission_denial(target, bot, required) {
        Some(reason) => Decision::Denied(reason),
        None => match hierarchy_denial(author, target, bot) {
            Some(reason) => Decision::Denied(reason),
            None => Decision::Allowed,
        },
    }
}

/// Refuses a target that owns the guild, then a bot without `required`.
pub fn check_user_permissions(target: &Actor, bot: &Actor, required: Permissions) -> (r: Option<DenyReason>)
    ensures
        r == permission_denial(*target, *bot, required),
{
    if target.is_owner {
        return Some(DenyReason::OwnerBypass);
    }
    if !bot.permissions.contains(required) {
        return Some(DenyReason::BotMissingPermission);
    }
    None
}

/// Refuses a target that does not rank strictly below both the author and the bot.
pub fn check_command_permissions(target: &Actor, author: &Actor, bot: &Actor) -> (r: Option<DenyReason>)
    ensures
        r == hierarchy_denial(*author, *target, *bot),
{
    let target_rank = target.hierarchy_rank;
    if target_rank >= author.hierarchy_rank {
        return Some(DenyReason::AuthorHierarchyViolation);
    }
    if target_rank >= bot.hierarchy_rank {
        return Some(DenyReason::BotHierarchyViolation);
    }
    None
}

/// Decides whether `author` may sanction `target`, the bot needing `required`.
pub fn authorize(author: &Actor, target: &Actor, bot: &Actor, required: Permissions) -> (r: Decision)
    ensures
        r == decide(*author, *target, *bot, required),
{
    match check_user_permissions(target, bot, required) {
        Some(reason) => Decision::Denied(reason),
        None => match check_command_permissions(target, author, bot) {
            Some(reason) => Decision::Denied(reason),
            None => Decision::Allowed,
        },
    }
}

/// A guild owner can never be sanctioned, whatever the other fields hold.
pub proof fn owner_is_never_sanctioned(author: Actor, target: Actor, bot: Actor, required: Permissions)
    requires
        target.is_owner,
    ensures
        decide(author, target, bot, required) == Decision::Denied(DenyReason::OwnerBypass),
{
}

/// When the bot lacks a required permission the refusal names that, even
/// where the hierarchy would allow the sanction.
pub proof fn missing_permission_comes_before_hierarchy(
    author: Actor,
    target: Actor,
    bot: Actor,
    required: Permissions,
)
    requires
        !target.is_owner,
        bot.permissions.bits & required.bits != required.bits,
    ensures
        decide(author, target, bot, required) == Decision::Denied(DenyReason::BotMissingPermission),
{
}

/// A sanction is allowed exactly when the target is no owner, the bot holds
/// every required permission and the target ranks strictly below both the
/// author and the bot.
pub proof fn allowed_iff_all_checks_pass(author: Actor, target: Actor, bot: Actor, required: Permissions)
    ensures
        (decide(author, target, bot, required) == Decision::Allowed) <==> (
            target.hierarchy_rank < author.hierarchy_rank
            && target.hierarchy_rank < bot.hierarchy_rank
            && bot.permissions.bits & required.bits == required.bits
            && !target.is_owner
        ),
{
}

} // verus!
