//! Slash commands (aka chat input)

use crate::deploy::{
    moderating, moderating_and_posting, posting, within_limits, Command, CommandType, Permissions,
    StringOption,
};
use vstd::prelude::*;

verus! {

/// The option of a slash command that names an actor by URL.
pub open spec fn url_option(description: &'static str) -> StringOption {
    StringOption { name: "url", description, autocomplete: false, required: true }
}

/// A slash command that takes the URL of an actor, and cannot be used in
/// direct messages.
pub open spec fn actor_command(
    name: &'static str,
    description: &'static str,
    option_description: &'static str,
    permissions: Permissions,
) -> Command {
    Command {
        name,
        description,
        kind: CommandType::ChatInput,
        option: Some(url_option(option_description)),
        dm_permission: false,
        default_member_permissions: Some(permissions),
    }
}

pub open spec fn block_spec() -> Command {
    actor_command(
        "block",
        "Block all posts from an actor from appearing in this channel",
        "The URL of the actor to block",
        moderating(),
    )
}

pub open spec fn follow_spec() -> Command {
    actor_command(
        "follow",
        "Follow an actor in this channel",
        "The URL of the actor to follow",
        posting(),
    )
}

pub open spec fn unblock_spec() -> Command {
    actor_command(
        "unblock",
        "Unblock an actor, allowing their posts to be shown in this channel",
        "The URL of the actor to unblock",
        moderating_and_posting(),
    )
}

pub open spec fn unfollow_spec() -> Command {
    actor_command(
        "unfollow",
        "Unfollow an actor in this channel. Their posts will still appear if shared.",
        "The URL of the actor to unfollow",
        moderating(),
    )
}

/// The slash commands, in the order in which they are registered.
pub open spec fn slash_commands_spec() -> Seq<Command> {
    seq![block_spec(), follow_spec(), unblock_spec(), unfollow_spec()]
}

fn make(
    name: &'static str,
    description: &'static str,
    option_description: &'static str,
    permissions: Permissions,
) -> (command: Command)
    ensures
        command == actor_command(name, description, option_description, permissions),
{
    Command {
        name,
        description,
        kind: CommandType::ChatInput,
        option: Some(
            StringOption {
                name: "url",
                description: option_description,
                autocomplete: false,
                required: true,
            },
        ),
        dm_permission: false,
        default_member_permissions: Some(permissions),
    }
}

/// Slash command for /block <url>.
/// Requires permissions to manage messages, because this will prevent some
/// messages from appearing in this channel that otherwise would have appeared.
pub fn block() -> (command: Command)
    ensures
        command == block_spec(),
        within_limits(command),
{
    proof {
        reveal_strlit("url");
        reveal_strlit("block");
        reveal_strlit("Block all posts from an actor from appearing in this channel");
        reveal_strlit("The URL of the actor to block");
    }
    make(
        "block",
        "Block all posts from an actor from appearing in this channel",
        "The URL of the actor to block",
        Permissions::moderating(),
    )
}

/// Slash command for /follow <url>.
/// Requires permissions to send messages with links and files, because this
/// will follow posts that are sent to this channel which may have links/files.
pub fn follow() -> (command: Command)
    ensures
        command == follow_spec(),
        within_limits(command),
{
    proof {
        reveal_strlit("url");
        reveal_strlit("follow");
        reveal_strlit("Follow an actor in this channel");
        reveal_strlit("The URL of the actor to follow");
    }
    make(
        "follow",
        "Follow an actor in this channel",
        "The URL of the actor to follow",
        Permissions::posting(),
    )
}

/// Slash command for /unblock <url>.
/// Requires all of the permissions for both block and follow,
/// since this will undo a block and permit new messages to appear.
pub fn unblock() -> (command: Command)
    ensures
        command == unblock_spec(),
        within_limits(command),
{
    proof {
        reveal_strlit("url");
        reveal_strlit("unblock");
        reveal_strlit("Unblock an actor, allowing their posts to be shown in this channel");
        reveal_strlit("The URL of the actor to unblock");
    }
    make(
        "unblock",
        "Unblock an actor, allowing their posts to be shown in this channel",
        "The URL of the actor to unblock",
        Permissions::moderating_and_posting(),
    )
}

/// Slash command for /unfollow <url>.
/// Requires permissions to manage messages, because this will prevent some
/// messages from appearing in this channel that otherwise would have appeared.
pub fn unfollow() -> (command: Command)
    ensures
        command == unfollow_spec(),
        within_limits(command),
{
    proof {
        reveal_strlit("url");
        reveal_strlit("unfollow");
        reveal_strlit("Unfollow an actor in this channel. Their posts will still appear if shared.");
        reveal_strlit("The URL of the actor to unfollow");
    }
    make(
        "unfollow",
        "Unfollow an actor in this channel. Their posts will still appear if shared.",
        "The URL of the actor to unfollow",
        Permissions::moderating(),
    )
}

/// These slash commands, in this order:
/// /block <url>
/// /follow <url>
/// /unblock <url>
/// /unfollow <url>
pub fn slash_commands() -> (commands: Vec<Command>)
    ensures
        commands@ == slash_commands_spec(),
        forall|i: int| 0 <= i < commands@.len() ==> within_limits(#[trigger] commands@[i]),
{
    let mut commands: Vec<Command> = Vec::new();
    commands.push(block());
    commands.push(follow());
    commands.push(unblock());
    commands.push(unfollow());
    assert(commands@ =~= slash_commands_spec());
    commands
}

} // verus!
