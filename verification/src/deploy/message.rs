//! Message commands (right-click on a message)

use crate::deploy::{
    moderating, moderating_and_posting, posting, Command, CommandType, Permissions, NAME_LENGTH_MAX,
};
use vstd::prelude::*;

verus! {

/// A command in the menu of a message.
pub open spec fn message_command(
    name: &'static str,
    description: &'static str,
    dm_permission: bool,
    default_member_permissions: Option<Permissions>,
) -> Command {
    Command {
        name,
        description,
        kind: CommandType::Message,
        option: None,
        dm_permission,
        default_member_permissions,
    }
}

pub open spec fn block_in_channel_spec() -> Command {
    message_command(
        "Block in channel",
        "Block the original poster of this message in this channel",
        false,
        Some(moderating()),
    )
}

pub open spec fn delete_post_spec() -> Command {
    message_command("Delete post", "Delete your post (on all channels)", true, None)
}

pub open spec fn follow_in_channel_spec() -> Command {
    message_command(
        "Follow in channel",
        "Follow the original poster of this message in this channel",
        false,
        Some(posting()),
    )
}

pub open spec fn like_spec() -> Command {
    message_command("Like", "Like this post", true, None)
}

pub open spec fn post_spec() -> Command {
    message_command("Post", "Upgrade this message into a post", true, None)
}

pub open spec fn share_spec() -> Command {
    message_command("Share", "Share this post with your followers", true, None)
}

pub open spec fn unblock_in_channel_spec() -> Command {
    message_command(
        "Unblock in channel",
        "Unblock the original poster of this message in this channel",
        false,
        Some(moderating_and_posting()),
    )
}

pub open spec fn unfollow_in_channel_spec() -> Command {
    message_command(
        "Unfollow in channel",
        "Stop following the original poster of this message in this channel",
        false,
        Some(moderating()),
    )
}

pub open spec fn unlike_spec() -> Command {
    message_command("Like", "Stop liking this post", true, None)
}

/// The message commands, in the order in which they are registered.
pub open spec fn message_commands_spec() -> Seq<Command> {
    seq![
        block_in_channel_spec(),
        delete_post_spec(),
        follow_in_channel_spec(),
        like_spec(),
        post_spec(),
        share_spec(),
        unblock_in_channel_spec(),
        unfollow_in_channel_spec(),
        unlike_spec(),
    ]
}

fn make(
    name: &'static str,
    description: &'static str,
    dm_permission: bool,
    default_member_permissions: Option<Permissions>,
) -> (command: Command)
    ensures
        command == message_command(name, description, dm_permission, default_member_permissions),
{
    Command {
        name,
        description,
        kind: CommandType::Message,
        option: None,
        dm_permission,
        default_member_permissions,
    }
}

/// Message command alternative to [`crate::deploy::slash::block`]
pub fn block_in_channel() -> (command: Command)
    ensures
        command == block_in_channel_spec(),
        1 <= command.name@.len() <= NAME_LENGTH_MAX,
{
    proof {
        reveal_strlit("Block in channel");
    }
    make(
        "Block in channel",
        "Block the original poster of this message in this channel",
        false,
        Some(Permissions::moderating()),
    )
}

/// Deletes a post. Fails if used on anything other than a post
/// attributed to the person using the command.
pub fn delete_post() -> (command: Command)
    ensures
        command == delete_post_spec(),
        1 <= command.name@.len() <= NAME_LENGTH_MAX,
{
    proof {
        reveal_strlit("Delete post");
    }
    make("Delete post", "Delete your post (on all channels)", true, None)
}

/// Message command alternative to [`crate::deploy::slash::follow`]
pub fn follow_in_channel() -> (command: Command)
    ensures
        command == follow_in_channel_spec(),
        1 <= command.name@.len() <= NAME_LENGTH_MAX,
{
    proof {
        reveal_strlit("Follow in channel");
    }
    make(
        "Follow in channel",
        "Follow the original poster of this message in this channel",
        false,
        Some(Permissions::posting()),
    )
}

/// Likes a post. Fails if used on a message that is not a post.
pub fn like() -> (command: Command)
    ensures
        command == like_spec(),
        1 <= command.name@.len() <= NAME_LENGTH_MAX,
{
    proof {
        reveal_strlit("Like");
    }
    make("Like", "Like this post", true, None)
}

/// Upgrades a Discord message into a post. Fails if used on a message
/// not originally posted by the person using the command.
pub fn post() -> (command: Command)
    ensures
        command == post_spec(),
        1 <= command.name@.len() <= NAME_LENGTH_MAX,
{
    proof {
        reveal_strlit("Post");
    }
    make("Post", "Upgrade this message into a post", true, None)
}

/// Shares the post. Fails if used on a message that is not a post.
pub fn share() -> (command: Command)
    ensures
        command == share_spec(),
        1 <= command.name@.len() <= NAME_LENGTH_MAX,
{
    proof {
        reveal_strlit("Share");
    }
    make("Share", "Share this post with your followers", true, None)
}

/// Message command alternative to [`crate::deploy::slash::unblock`]
pub fn unblock_in_channel() -> (command: Command)
    ensures
        command == unblock_in_channel_spec(),
        1 <= command.name@.len() <= NAME_LENGTH_MAX,
{
    proof {
        reveal_strlit("Unblock in channel");
    }
    make(
        "Unblock in channel",
        "Unblock the original poster of this message in this channel",
        false,
        Some(Permissions::moderating_and_posting()),
    )
}

/// Message command alternative to [`crate::deploy::slash::unfollow`]
pub fn unfollow_in_channel() -> (command: Command)
    ensures
        command == unfollow_in_channel_spec(),
        1 <= command.name@.len() <= NAME_LENGTH_MAX,
{
    proof {
        reveal_strlit("Unfollow in channel");
    }
    make(
        "Unfollow in channel",
        "Stop following the original poster of this message in this channel",
        false,
        Some(Permissions::moderating()),
    )
}

/// Removes a like from a post. Fails if it was not a post the user had
/// previously liked.
pub fn unlike() -> (command: Command)
    ensures
        command == unlike_spec(),
        1 <= command.name@.len() <= NAME_LENGTH_MAX,
{
    proof {
        reveal_strlit("Like");
    }
    make("Like", "Stop liking this post", true, None)
}

/// Message commands (right-click on message) for the following user actions:
/// "Block in channel"
/// "Delete Post"
/// "Follow in channel"
/// "Like"
/// "Post"
/// "Share"
/// "Unblock in channel"
/// "Unfollow in channel"
/// "Unlike"
pub fn message_commands() -> (commands: Vec<Command>)
    ensures
        commands@ == message_commands_spec(),
{
    let mut commands: Vec<Command> = Vec::new();
    commands.push(block_in_channel());
    commands.push(delete_post());
    commands.push(follow_in_channel());
    commands.push(like());
    commands.push(post());
    commands.push(share());
    commands.push(unblock_in_channel());
    commands.push(unfollow_in_channel());
    commands.push(unlike());
    assert(commands@ =~= message_commands_spec());
    commands
}

} // verus!
