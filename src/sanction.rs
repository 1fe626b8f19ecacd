//! Kinds of sanctions and the records built around them.
use vstd::prelude::*;

use crate::permission::{Permissions, BAN_MEMBERS, KICK_MEMBERS, MODERATE_MEMBERS};

verus! {

/// A moderation action against a member.
#[derive(Clone, Copy, Debug, PartialEq, Eq, Structural)]
pub enum SanctionKind {
    Kick,
    Ban,
    Mute,
    Warn,
}

/// Bits of the permission the bot needs to apply a sanction of `kind`.
pub open spec fn required_bits(kind: SanctionKind) -> u64 {
    match kind {
        SanctionKind::Kick => KICK_MEMBERS,
        SanctionKind::Ban => BAN_MEMBERS,
        SanctionKind::Mute => MODERATE_MEMBERS,
        SanctionKind::Warn => KICK_MEMBERS,
    }
}

impl SanctionKind {
    /// The permission the bot needs to apply this sanction.
    pub fn default_permissions(&self) -> (r: Permissions)
        ensures
            r.bits == required_bits(*self),
    {
        match self {
            SanctionKind::Kick => Permissions::from_bits(KICK_MEMBERS),
            SanctionKind::Ban => Permissions::from_bits(BAN_MEMBERS),
            SanctionKind::Mute => Permissions::from_bits(MODERATE_MEMBERS),
            SanctionKind::Warn => Permissions::from_bits(KICK_MEMBERS),
        }
    }
}

} // verus!
