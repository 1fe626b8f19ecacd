//! The context of an invoked sanction command.
use vstd::prelude::*;

use crate::sanction::SanctionKind;

verus! {

/// A platform user.
#[derive(Debug)]
pub struct User {
    pub id: u64,
    pub name: String,
}

impl User {
    /// A copy of this user.
    pub fn copy(&self) -> (r: User)
        ensures
            r == *self,
    {
        User { id: self.id, name: self.name.clone() }
    }
}

/// The guild member that invoked a command, as the interaction carries it.
#[derive(Debug)]
pub struct PartialMember {
    pub user: Option<User>,
    pub roles: Vec<u64>,
}

/// What a sanction command asks for.
#[derive(Debug)]
pub struct CommandData {
    pub kind: SanctionKind,
    pub target_id: u64,
    /// Whether the target is a member of the guild the command came from.
    pub target_is_member: bool,
    /// The reason given inline with the command, if any.
    pub reason: Option<String>,
}

/// A command interaction as it was received.
#[derive(Debug)]
pub struct ApplicationCommand {
    pub id: u64,
    pub application_id: u64,
    pub token: String,
    pub guild_id: Option<u64>,
    pub channel_id: u64,
    pub user: Option<User>,
    pub member: Option<PartialMember>,
    pub data: CommandData,
    pub locale: String,
}

/// An invoked command, with the user that invoked it known.
#[derive(Debug)]
pub struct CommandContext {
    pub id: u64,
    pub application_id: u64,
    pub token: String,
    pub data: CommandData,
    pub channel: u64,
    pub guild_id: Option<u64>,
    pub user: User,
    /// The invoking member, when the command came from a guild.
    pub member: Option<PartialMember>,
    pub locale: String,
}

/// Why a [`CommandContext`] could not be built.
#[derive(Clone, Copy, Debug, PartialEq, Eq, Structural)]
pub enum CommandContextError {
    MissingUser,
    MissingMember,
}

/// The error `from_command` gives on `c`, if any.
pub open spec fn context_error(c: ApplicationCommand) -> Option<CommandContextError> {
    if c.guild_id is Some {
        match c.member {
            None => Some(CommandContextError::MissingMember),
            Some(m) => if m.user is None { Some(CommandContextError::MissingUser) } else { None },
        }
    } else if c.user is None {
        Some(CommandContextError::MissingUser)
    } else {
        None
    }
}

/// The invoking user of `c`: the member's user in a guild, else the user.
pub open spec fn invoker(c: ApplicationCommand) -> User {
    if c.guild_id is Some {
        c.member.unwrap().user.unwrap()
    } else {
        c.user.unwrap()
    }
}

impl CommandContext {
    /// Builds the context of `command`; in a guild the member and its user
    /// must be present, elsewhere the user must be.
    pub fn from_command(command: ApplicationCommand) -> (r: Result<CommandContext, CommandContextError>)
        ensures
            match context_error(command) {
                Some(e) => r == Err::<CommandContext, CommandContextError>(e),
                None => r is Ok && {
                    let ctx = r->Ok_0;
                    &&& ctx.id == command.id
                    &&& ctx.application_id == command.application_id
                    &&& ctx.token == command.token
                    &&& ctx.data == command.data
                    &&& ctx.channel == command.channel_id
                    &&& ctx.guild_id == command.guild_id
                    &&& ctx.user == invoker(command)
                    &&& ctx.member == (if command.guild_id is Some { command.member } else { None })
                    &&& ctx.locale == command.locale
                },
            },
    {
        let ApplicationCommand { id, application_id, token, guild_id, channel_id, user, member, data, locale } = command;
        let (user, member) = if guild_id.is_some() {
            let member = match member {
                Some(m) => m,
                None => return Err(CommandContextError::MissingMember),
            };
            let user = match &member.user {
                Some(u) => u.copy(),
                None => return Err(CommandContextError::MissingUser),
            };
            (user, Some(member))
        } else {
            let user = match user {
                Some(u) => u,
                None => return Err(CommandContextError::MissingUser),
            };
            (user, None)
        };
        Ok(CommandContext { id, application_id, token, data, channel: channel_id, guild_id, user, member, locale })
    }
}

} // verus!
