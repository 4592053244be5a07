use eris_lib::deploy::message::{
    block_in_channel, delete_post, follow_in_channel, like, message_commands, post, share,
    unblock_in_channel, unfollow_in_channel, unlike,
};
use eris_lib::deploy::slash::{block, follow, slash_commands, unblock, unfollow};
use eris_lib::deploy::{commands, is_success, Command, CommandType, Permissions, StringOption};

fn moderating() -> Permissions {
    Permissions {
        use_slash_commands: true,
        manage_messages: true,
        send_messages: false,
        embed_links: false,
        attach_files: false,
    }
}

fn posting() -> Permissions {
    Permissions {
        use_slash_commands: true,
        manage_messages: false,
        send_messages: true,
        embed_links: true,
        attach_files: true,
    }
}

fn both() -> Permissions {
    Permissions { manage_messages: true, ..posting() }
}

#[test]
fn permission_sets_hold_what_they_name() {
    assert_eq!(Permissions::moderating(), moderating());
    assert_eq!(Permissions::posting(), posting());
    assert_eq!(Permissions::moderating_and_posting(), both());
}

#[test]
fn block_is_a_slash_command_for_moderators() {
    assert_eq!(
        block(),
        Command {
            name: "block",
            description: "Block all posts from an actor from appearing in this channel",
            kind: CommandType::ChatInput,
            option: Some(StringOption {
                name: "url",
                description: "The URL of the actor to block",
                autocomplete: false,
                required: true,
            }),
            dm_permission: false,
            default_member_permissions: Some(moderating()),
        }
    );
}

#[test]
fn slash_commands_come_in_their_order() {
    let commands = slash_commands();
    let names: Vec<&str> = commands.iter().map(|c| c.name).collect();
    assert_eq!(names, vec!["block", "follow", "unblock", "unfollow"]);
    assert_eq!(commands, vec![block(), follow(), unblock(), unfollow()]);
    for command in &commands {
        assert_eq!(command.kind, CommandType::ChatInput);
        assert!(!command.dm_permission);
        assert!((1..=32).contains(&command.name.chars().count()));
        assert!((1..=100).contains(&command.description.chars().count()));
        let option = command.option.unwrap();
        assert_eq!(option.name, "url");
        assert!(option.required);
        assert!(!option.autocomplete);
    }
    assert_eq!(follow().description, "Follow an actor in this channel");
    assert_eq!(follow().default_member_permissions, Some(posting()));
    assert_eq!(follow().option.unwrap().description, "The URL of the actor to follow");
    assert_eq!(
        unblock().description,
        "Unblock an actor, allowing their posts to be shown in this channel"
    );
    assert_eq!(unblock().default_member_permissions, Some(both()));
    assert_eq!(
        unfollow().description,
        "Unfollow an actor in this channel. Their posts will still appear if shared."
    );
    assert_eq!(unfollow().default_member_permissions, Some(moderating()));
}

#[test]
fn message_commands_come_in_their_order() {
    let commands = message_commands();
    let names: Vec<&str> = commands.iter().map(|c| c.name).collect();
    assert_eq!(
        names,
        vec![
            "Block in channel",
            "Delete post",
            "Follow in channel",
            "Like",
            "Post",
            "Share",
            "Unblock in channel",
            "Unfollow in channel",
            "Like",
        ]
    );
    assert_eq!(
        commands,
        vec![
            block_in_channel(),
            delete_post(),
            follow_in_channel(),
            like(),
            post(),
            share(),
            unblock_in_channel(),
            unfollow_in_channel(),
            unlike(),
        ]
    );
    for command in &commands {
        assert_eq!(command.kind, CommandType::Message);
        assert!(command.option.is_none());
        assert!((1..=32).contains(&command.name.chars().count()));
    }
}

#[test]
fn message_commands_in_channels_need_permissions() {
    assert_eq!(block_in_channel().default_member_permissions, Some(moderating()));
    assert!(!block_in_channel().dm_permission);
    assert_eq!(follow_in_channel().default_member_permissions, Some(posting()));
    assert_eq!(unblock_in_channel().default_member_permissions, Some(both()));
    assert_eq!(unfollow_in_channel().default_member_permissions, Some(moderating()));
    for command in [delete_post(), like(), post(), share(), unlike()] {
        assert!(command.dm_permission);
        assert_eq!(command.default_member_permissions, None);
    }
    assert_eq!(unlike().description, "Stop liking this post");
    assert_eq!(like().description, "Like this post");
    assert_eq!(post().description, "Upgrade this message into a post");
    assert_eq!(share().description, "Share this post with your followers");
    assert_eq!(delete_post().description, "Delete your post (on all channels)");
}

#[test]
fn all_commands_are_slash_then_message() {
    let all = commands();
    assert_eq!(all.len(), 13);
    assert_eq!(&all[..4], &slash_commands()[..]);
    assert_eq!(&all[4..], &message_commands()[..]);
}

#[test]
fn deployment_worked_on_a_2xx_status() {
    assert!(is_success(200));
    assert!(is_success(204));
    assert!(is_success(299));
    assert!(!is_success(199));
    assert!(!is_success(300));
    assert!(!is_success(401));
}
