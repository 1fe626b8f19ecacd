//! The state shared by the instances of a cluster: the guild cache, the
//! guilds' moderation settings and the pending-sanction store.
use vstd::prelude::*;
use std::collections::HashMap;

use crate::context::CommandContext;
use crate::resolver::{Guild, GuildCache};
use crate::store::{PendingSanction, PendingSanctionStore};
use crate::workflow::{
    command_done, handle_command, handle_submission, submission_done, CommandOutcome, GuildPolicy,
    SubmitOutcome,
};

verus! {

broadcast use vstd::std_specs::hash::group_hash_axioms;

/// The settings a guild gets when it has none.
pub open spec fn default_policy() -> GuildPolicy {
    GuildPolicy { enforce_reason: false }
}

/// The cluster's shared state; the workflow reaches the cache, the settings
/// and the store only through it.
pub struct ClusterState {
    cache: GuildCache,
    policies: HashMap<u64, GuildPolicy>,
    pending: PendingSanctionStore,
    bot_id: u64,
}

impl ClusterState {
    /// The cached guilds.
    pub closed spec fn guilds(&self) -> Seq<Guild> {
        self.cache.guilds@
    }

    /// The stored settings, by guild id.
    pub closed spec fn policies(&self) -> Map<u64, GuildPolicy> {
        self.policies@
    }

    /// The pending sanctions, by interaction id.
    pub closed spec fn pending(&self) -> Map<u64, PendingSanction> {
        self.pending@
    }

    /// The user id of the bot.
    pub closed spec fn bot(&self) -> u64 {
        self.bot_id
    }

    pub closed spec fn wf(&self) -> bool {
        self.pending.wf()
    }

    /// A state over `cache`, for the bot `bot_id`, with no settings stored
    /// and no sanction pending.
    pub fn new(cache: GuildCache, bot_id: u64) -> (r: ClusterState)
        ensures
            r.wf(),
            r.guilds() == cache.guilds@,
            r.policies() == Map::<u64, GuildPolicy>::empty(),
            r.pending() == Map::<u64, PendingSanction>::empty(),
            r.bot() == bot_id,
    {
        ClusterState { cache, policies: HashMap::new(), pending: PendingSanctionStore::new(), bot_id }
    }

    /// The guild cache.
    pub fn cache(&self) -> (r: &GuildCache)
        ensures
            r.guilds@ == self.guilds(),
    {
        &self.cache
    }

    /// Stores the settings of a guild.
    pub fn set_policy(&mut self, guild_id: u64, policy: GuildPolicy)
        requires
            old(self).wf(),
        ensures
            final(self).wf(),
            final(self).policies() == old(self).policies().insert(guild_id, policy),
            final(self).pending() == old(self).pending(),
            final(self).guilds() == old(self).guilds(),
            final(self).bot() == old(self).bot(),
    {
        self.policies.insert(guild_id, policy);
    }

    /// The settings of a guild; a guild without any gets the default ones,
    /// which are stored.
    pub fn guild_policy(&mut self, guild_id: u64) -> (r: GuildPolicy)
        requires
            old(self).wf(),
        ensures
            final(self).wf(),
            old(self).policies().contains_key(guild_id) ==> r == old(self).policies()[guild_id]
                && final(self).policies() == old(self).policies(),
            !old(self).policies().contains_key(guild_id) ==> r == default_policy()
                && final(self).policies() == old(self).policies().insert(guild_id, default_policy()),
            final(self).pending() == old(self).pending(),
            final(self).guilds() == old(self).guilds(),
            final(self).bot() == old(self).bot(),
    {
        match self.policies.get(&guild_id) {
            Some(p) => *p,
            None => {
                let p = GuildPolicy { enforce_reason: false };
                self.policies.insert(guild_id, p);
                p
            },
        }
    }

    /// Whether a guild requires a reason for its sanctions.
    pub fn reason_enforced(&mut self, guild_id: u64) -> (r: bool)
        requires
            old(self).wf(),
        ensures
            final(self).wf(),
            r == old(self).enforces_reason(guild_id),
            old(self).policies().contains_key(guild_id) ==> final(self).policies() == old(self).policies(),
            !old(self).policies().contains_key(guild_id) ==> final(self).policies()
                == old(self).policies().insert(guild_id, default_policy()),
            final(self).pending() == old(self).pending(),
            final(self).guilds() == old(self).guilds(),
            final(self).bot() == old(self).bot(),
    {
        self.guild_policy(guild_id).enforce_reason
    }
    /// Whether the stored settings of `guild_id`, or the default ones, ask
    /// for a reason.
    pub open spec fn enforces_reason(&self, guild_id: u64) -> bool {
        if self.policies().contains_key(guild_id) {
            self.policies()[guild_id].enforce_reason
        } else {
            default_policy().enforce_reason
        }
    }

    /// The stored settings once `guild_id` has some: unchanged where it had,
    /// else with the default ones added.
    pub open spec fn stored_with_default(&self, guild_id: u64) -> Map<u64, GuildPolicy> {
        if self.policies().contains_key(guild_id) {
            self.policies()
        } else {
            self.policies().insert(guild_id, default_policy())
        }
    }

    /// Handles an invoked sanction command against this state, with the
    /// settings of the command's guild.
    pub fn on_command(&mut self, ctx: &CommandContext, now: u64) -> (r: CommandOutcome)
        requires
            old(self).wf(),
        ensures
            final(self).wf(),
            final(self).guilds() == old(self).guilds(),
            final(self).bot() == old(self).bot(),
            ctx.guild_id is None ==> final(self).policies() == old(self).policies(),
            ctx.guild_id is Some ==> final(self).policies() == old(self).stored_with_default(ctx.guild_id->Some_0),
            command_done(
                old(self).guilds(),
                old(self).pending(),
                final(self).pending(),
                *ctx,
                old(self).bot(),
                match ctx.guild_id {
                    Some(g) => old(self).enforces_reason(g),
                    None => false,
                },
                now,
                r,
            ),
    {
        let enforce_reason = match ctx.guild_id {
            Some(g) => self.reason_enforced(g),
            None => false,
        };
        handle_command(&self.cache, &mut self.pending, ctx, self.bot_id, enforce_reason, now)
    }

    /// Handles the submission of a reason form in guild `guild_id`, with
    /// that guild's settings.
    pub fn on_submission(
        &mut self,
        custom_id: &[u8],
        author_id: u64,
        guild_id: u64,
        reason: String,
        notes: String,
        now: u64,
    ) -> (r: SubmitOutcome)
        requires
            old(self).wf(),
        ensures
            final(self).wf(),
            final(self).guilds() == old(self).guilds(),
            final(self).bot() == old(self).bot(),
            final(self).policies() == old(self).stored_with_default(guild_id),
            submission_done(
                old(self).pending(),
                final(self).pending(),
                custom_id@,
                author_id,
                guild_id,
                reason,
                notes,
                old(self).enforces_reason(guild_id),
                now,
                r,
            ),
    {
        let enforce_reason = self.reason_enforced(guild_id);
        handle_submission(&mut self.pending, custom_id, author_id, guild_id, reason, notes, enforce_reason, now)
    }
}

} // verus!
