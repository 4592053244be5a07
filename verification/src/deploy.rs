//! The application commands that are registered with Discord.
//!
//! A command is described here as plain data. Building Discord's own command
//! object from the description, and sending it, is left to the caller.

use vstd::prelude::*;

pub mod message;
pub mod slash;

verus! {

/// How a command is invoked.
#[derive(Debug, Clone, Copy, PartialEq, Eq, Structural)]
pub enum CommandType {
    /// A slash command, typed into the chat.
    ChatInput,
    /// A command in the menu of a message.
    Message,
}

/// The permissions that a member needs by default to use a command.
#[derive(Debug, Clone, Copy, PartialEq, Eq, Structural)]
pub struct Permissions {
    pub use_slash_commands: bool,
    pub manage_messages: bool,
    pub send_messages: bool,
    pub embed_links: bool,
    pub attach_files: bool,
}

/// An option of a slash command that takes a string.
#[derive(Debug, Clone, Copy, PartialEq, Eq)]
pub struct StringOption {
    pub name: &'static str,
    pub description: &'static str,
    pub autocomplete: bool,
    pub required: bool,
}

/// An application command.
#[derive(Debug, Clone, Copy, PartialEq, Eq)]
pub struct Command {
    pub name: &'static str,
    pub description: &'static str,
    pub kind: CommandType,
    /// The one option of the command, if it has one.
    pub option: Option<StringOption>,
    /// Whether the command can be used in direct messages.
    pub dm_permission: bool,
    /// `None` where the command is open to every member.
    pub default_member_permissions: Option<Permissions>,
}

/// The longest name that Discord takes for a command or an option.
pub const NAME_LENGTH_MAX: usize = 32;

/// The longest description that Discord takes for a slash command or an
/// option.
pub const DESCRIPTION_LENGTH_MAX: usize = 100;

/// No permission at all.
pub open spec fn no_permissions() -> Permissions {
    Permissions {
        use_slash_commands: false,
        manage_messages: false,
        send_messages: false,
        embed_links: false,
        attach_files: false,
    }
}

/// What it takes to hide posts from a channel.
pub open spec fn moderating() -> Permissions {
    Permissions { use_slash_commands: true, manage_messages: true, ..no_permissions() }
}

/// What it takes to bring posts, with their links and files, into a channel.
pub open spec fn posting() -> Permissions {
    Permissions {
        use_slash_commands: true,
        send_messages: true,
        embed_links: true,
        attach_files: true,
        ..no_permissions()
    }
}

/// What it takes to do both.
pub open spec fn moderating_and_posting() -> Permissions {
    Permissions { manage_messages: true, ..posting() }
}

impl Permissions {
    /// What it takes to hide posts from a channel: using slash commands and
    /// managing messages.
    pub fn moderating() -> (permissions: Self)
        ensures
            permissions == moderating(),
    {
        Permissions {
            use_slash_commands: true,
            manage_messages: true,
            send_messages: false,
            embed_links: false,
            attach_files: false,
        }
    }

    /// What it takes to bring posts into a channel: using slash commands,
    /// sending messages, embedding links and attaching files.
    pub fn posting() -> (permissions: Self)
        ensures
            permissions == posting(),
    {
        Permissions {
            use_slash_commands: true,
            manage_messages: false,
            send_messages: true,
            embed_links: true,
            attach_files: true,
        }
    }

    /// What it takes to do both.
    pub fn moderating_and_posting() -> (permissions: Self)
        ensures
            permissions == moderating_and_posting(),
    {
        Permissions {
            use_slash_commands: true,
            manage_messages: true,
            send_messages: true,
            embed_links: true,
            attach_files: true,
        }
    }
}

/// Whether the command has a name of 1 to 32 characters and, where it is a
/// slash command, a description of 1 to 100.
pub open spec fn within_limits(command: Command) -> bool {
    &&& 1 <= command.name@.len() <= NAME_LENGTH_MAX
    &&& command.kind == CommandType::ChatInput ==> 1 <= command.description@.len()
        <= DESCRIPTION_LENGTH_MAX
    &&& command.option matches Some(option) ==> 1 <= option.name@.len() <= NAME_LENGTH_MAX && 1
        <= option.description@.len() <= DESCRIPTION_LENGTH_MAX
}

/// The status of a deployment that worked: a code in `[200, 300)`.
pub open spec fn is_success_spec(status: u16) -> bool {
    200 <= status < 300
}

/// Whether a deployment that Discord answered with `status` worked: whether
/// the status is in `[200, 300)`.
#[verifier::when_used_as_spec(is_success_spec)]
pub fn is_success(status: u16) -> (success: bool)
    ensures
        success == is_success_spec(status),
{
    status >= 200 && status < 300
}

/// All the commands of the application: the slash commands, then the message
/// commands.
pub fn commands() -> (all: Vec<Command>)
    ensures
        all@ == slash::slash_commands_spec() + message::message_commands_spec(),
{
    let mut all = slash::slash_commands();
    let mut message_commands = message::message_commands();
    all.append(&mut message_commands);
    all
}

} // verus!
