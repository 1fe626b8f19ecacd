//! Resolving a member of a cached guild into an [`Actor`].
use vstd::prelude::*;

use crate::permission::Permissions;
use crate::policy::Actor;

verus! {

/// Rank of a member that holds no role.
pub const LOWEST_RANK: i64 = -9223372036854775808;

/// A role of a guild.
#[derive(Clone, Copy, Debug, PartialEq, Eq, Structural)]
pub struct Role {
    pub id: u64,
    /// Place of the role in the hierarchy; higher is more senior.
    pub position: i64,
    pub permissions: Permissions,
}

/// A member of a guild and the ids of the roles assigned to it.
#[derive(Debug)]
pub struct Member {
    pub user_id: u64,
    pub roles: Vec<u64>,
}

/// What the cache holds of a guild.
#[derive(Debug)]
pub struct Guild {
    pub id: u64,
    pub owner_id: u64,
    /// Permissions of the `@everyone` role, which every member has.
    pub everyone: Permissions,
    pub roles: Vec<Role>,
    pub members: Vec<Member>,
}

/// The cached guilds.
#[derive(Debug)]
pub struct GuildCache {
    pub guilds: Vec<Guild>,
}

/// An actor could not be resolved: its guild or member is not cached.
#[derive(Clone, Copy, Debug, PartialEq, Eq, Structural)]
pub enum ResolveError {
    ActorResolutionFailed,
}

/// Permissions granted by those of `roles` that are in `assigned`.
pub open spec fn granted(roles: Seq<Role>, assigned: Seq<u64>) -> u64
    decreases roles.len(),
{
    if roles.len() == 0 {
        0
    } else {
        let last = roles.last();
        let rest = granted(roles.drop_last(), assigned);
        if assigned.contains(last.id) {
            rest | last.permissions.bits
        } else {
            rest
        }
    }
}

/// Highest position among those of `roles` that are in `assigned`.
pub open spec fn top_rank(roles: Seq<Role>, assigned: Seq<u64>) -> i64
    decreases roles.len(),
{
    if roles.len() == 0 {
        LOWEST_RANK
    } else {
        let last = roles.last();
        let rest = top_rank(roles.drop_last(), assigned);
        if assigned.contains(last.id) && last.position > rest {
            last.position
        } else {
            rest
        }
    }
}

/// The actor that `member` of `guild` resolves to.
pub open spec fn actor_of(guild: Guild, member: Member) -> Actor {
    Actor {
        user_id: member.user_id,
        permissions: Permissions { bits: guild.everyone.bits | granted(guild.roles@, member.roles@) },
        is_owner: member.user_id == guild.owner_id,
        hierarchy_rank: top_rank(guild.roles@, member.roles@),
    }
}

/// Index of the first member from `i` on whose user is `user_id`.
pub open spec fn find_member(members: Seq<Member>, user_id: u64, i: int) -> Option<int>
    decreases members.len() - i,
{
    if i < 0 || i >= members.len() {
        None
    } else if members[i].user_id == user_id {
        Some(i)
    } else {
        find_member(members, user_id, i + 1)
    }
}

/// Index of the first guild from `i` on whose id is `guild_id`.
pub open spec fn find_guild(guilds: Seq<Guild>, guild_id: u64, i: int) -> Option<int>
    decreases guilds.len() - i,
{
    if i < 0 || i >= guilds.len() {
        None
    } else if guilds[i].id == guild_id {
        Some(i)
    } else {
        find_guild(guilds, guild_id, i + 1)
    }
}

/// The actor that user `user_id` of guild `guild_id` resolves to, if cached.
pub open spec fn resolved(guilds: Seq<Guild>, guild_id: u64, user_id: u64) -> Option<Actor> {
    match find_guild(guilds, guild_id, 0) {
        Some(i) => match find_member(guilds[i].members@, user_id, 0) {
            Some(j) => Some(actor_of(guilds[i], guilds[i].members@[j])),
            None => None,
        },
        None => None,
    }
}

/// The result of resolving an actor, as a `Result`.
pub open spec fn resolve_result(guilds: Seq<Guild>, guild_id: u64, user_id: u64) -> Result<Actor, ResolveError> {
    match resolved(guilds, guild_id, user_id) {
        Some(a) => Ok(a),
        None => Err(ResolveError::ActorResolutionFailed),
    }
}

fn has_role(assigned: &Vec<u64>, id: u64) -> (r: bool)
    ensures
        r == assigned@.contains(id),
{
    let mut i: usize = 0;
    while i < assigned.len()
        invariant
            i <= assigned.len(),
            forall|k: int| 0 <= k < i ==> assigned@[k] != id,
        decreases assigned.len() - i,
    {
        if assigned[i] == id {
            return true;
        }
        i = i + 1;
    }
    false
}

impl Guild {
    /// Permissions and rank that the roles `assigned` give in this guild.
    pub fn role_grants(&self, assigned: &Vec<u64>) -> (r: (Permissions, i64))
        ensures
            r.0.bits == granted(self.roles@, assigned@),
            r.1 == top_rank(self.roles@, assigned@),
    {
        let mut bits: u64 = 0;
        let mut rank: i64 = LOWEST_RANK;
        let mut i: usize = 0;
        while i < self.roles.len()
            invariant
                i <= self.roles.len(),
                bits == granted(self.roles@.take(i as int), assigned@),
                rank == top_rank(self.roles@.take(i as int), assigned@),
            decreases self.roles.len() - i,
        {
            let role = self.roles[i];
            proof {
                assert(self.roles@.take(i + 1).drop_last() =~= self.roles@.take(i as int));
            }
            if has_role(assigned, role.id) {
                bits = bits | role.permissions.bits;
                if role.position > rank {
                    rank = role.position;
                }
            }
            i = i + 1;
        }
        proof {
            assert(self.roles@.take(i as int) =~= self.roles@);
        }
        (Permissions { bits }, rank)
    }

    /// Resolves the member whose user is `user_id`.
    pub fn resolve_member(&self, user_id: u64) -> (r: Option<Actor>)
        ensures
            r == (match find_member(self.members@, user_id, 0) {
                Some(j) => Some(actor_of(*self, self.members@[j])),
                None => None,
            }),
    {
        let mut i: usize = 0;
        while i < self.members.len()
            invariant
                i <= self.members.len(),
                find_member(self.members@, user_id, 0) == find_member(self.members@, user_id, i as int),
            decreases self.members.len() - i,
        {
            if self.members[i].user_id == user_id {
                let member = &self.members[i];
                let (granted_bits, rank) = self.role_grants(&member.roles);
                return Some(Actor {
                    user_id,
                    permissions: self.everyone.union(granted_bits),
                    is_owner: user_id == self.owner_id,
                    hierarchy_rank: rank,
                });
            }
            i = i + 1;
        }
        None
    }
}

impl GuildCache {
    /// Resolves user `user_id` of guild `guild_id`; fails when either is not cached.
    pub fn resolve_actor(&self, guild_id: u64, user_id: u64) -> (r: Result<Actor, ResolveError>)
        ensures
            r == resolve_result(self.guilds@, guild_id, user_id),
    {
        let mut i: usize = 0;
        while i < self.guilds.len()
            invariant
                i <= self.guilds.len(),
                find_guild(self.guilds@, guild_id, 0) == find_guild(self.guilds@, guild_id, i as int),
            decreases self.guilds.len() - i,
        {
            if self.guilds[i].id == guild_id {
                return match self.guilds[i].resolve_member(user_id) {
                    Some(a) => Ok(a),
                    None => Err(ResolveError::ActorResolutionFailed),
                };
            }
            i = i + 1;
        }
        Err(ResolveError::ActorResolutionFailed)
    }

    /// Resolves the author, the target and the bot of a sanction in one guild.
    pub fn get_permissions(&self, guild_id: u64, author_id: u64, target_id: u64, bot_id: u64) -> (r: Result<(Actor, Actor, Actor), ResolveError>)
        ensures
            r == (match (resolved(self.guilds@, guild_id, author_id), resolved(self.guilds@, guild_id, target_id), resolved(self.guilds@, guild_id, bot_id)) {
                (Some(a), Some(t), Some(b)) => Ok((a, t, b)),
                _ => Err(ResolveError::ActorResolutionFailed),
            }),
    {
        let author = match self.resolve_actor(guild_id, author_id) {
            Ok(a) => a,
            Err(e) => return Err(e),
        };
        let target = match self.resolve_actor(guild_id, target_id) {
            Ok(a) => a,
            Err(e) => return Err(e),
        };
        let bot = match self.resolve_actor(guild_id, bot_id) {
            Ok(a) => a,
            Err(e) => return Err(e),
        };
        Ok((author, target, bot))
    }
}

} // verus!
