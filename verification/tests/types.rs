use discline::channel::{Channel, ChannelId};
use discline::guild::{Guild, GuildId};
use discline::message::{Message, MessageId};
use discline::user::{User, UserId};

#[test]
fn test_channel_id_display() {
    let id = ChannelId(12345);
    assert_eq!(id.display(), "12345");
}

#[test]
fn test_channel_id_from_u64() {
    let id: ChannelId = 12345.into();
    assert_eq!(id, ChannelId(12345));
}

#[test]
fn test_channel_display() {
    let channel = Channel { id: ChannelId(1), name: "general".to_string() };
    assert_eq!(channel.display(), "#general");
}

#[test]
fn test_guild_id_display() {
    let id = GuildId(12345);
    assert_eq!(id.display(), "12345");
}

#[test]
fn test_guild_id_from_u64() {
    let id: GuildId = 12345.into();
    assert_eq!(id, GuildId(12345));
}

#[test]
fn test_guild_display() {
    let guild = Guild { id: GuildId(1), name: "Test Guild".to_string(), description: None };
    assert_eq!(guild.display(), "Test Guild");
}

#[test]
fn test_message_id_display() {
    let id = MessageId(12345);
    assert_eq!(id.display(), "12345");
}

#[test]
fn test_message_id_from_u64() {
    let id: MessageId = 12345.into();
    assert_eq!(id, MessageId(12345));
}

#[test]
fn test_message_display() {
    let user = User {
        id: UserId(1),
        email: "test@example.com".to_string(),
        username: "testuser".to_string(),
        discriminator: "0".to_string(),
        global_name: None,
    };
    let message = Message {
        id: MessageId(1),
        author: user,
        content: "Hello, world!".to_string(),
        channel_id: ChannelId(1),
        timestamp: "2026-02-17 12:00:00".to_string(),
    };
    assert_eq!(message.display(), "[2026-02-17 12:00:00] testuser: Hello, world!");
}

#[test]
fn test_message_display_renders_utc_timestamp() {
    let user = User {
        id: UserId(1),
        email: "test@example.com".to_string(),
        username: "testuser".to_string(),
        discriminator: "0".to_string(),
        global_name: None,
    };
    let mut message = Message {
        id: MessageId(1),
        author: user,
        content: "Hello, world!".to_string(),
        channel_id: ChannelId(1),
        timestamp: "2026-02-17T12:00:00Z".to_string(),
    };
    assert_eq!(message.display(), "[2026-02-17 12:00:00] testuser: Hello, world!");

    message.timestamp = "2026-02-17T12:00:00.123456+00:00".to_string();
    assert_eq!(message.display(), "[2026-02-17 12:00:00] testuser: Hello, world!");

    // An offset the library does not translate is shown as it stands.
    message.timestamp = "2026-02-17T12:00:00+02:00".to_string();
    assert_eq!(message.display(), "[2026-02-17T12:00:00+02:00] testuser: Hello, world!");
}

#[test]
fn test_user_id_display() {
    let id = UserId(12345);
    assert_eq!(id.display(), "12345");
}

#[test]
fn test_user_id_from_u64() {
    let id: UserId = 12345.into();
    assert_eq!(id, UserId(12345));
}

#[test]
fn test_user_display_new_style() {
    let user = User {
        id: UserId(1),
        email: "test@example.com".to_string(),
        username: "testuser".to_string(),
        discriminator: "0".to_string(),
        global_name: None,
    };
    assert_eq!(user.display(), "testuser");
}

#[test]
fn test_user_display_old_style() {
    let user = User {
        id: UserId(1),
        email: "test@example.com".to_string(),
        username: "testuser".to_string(),
        discriminator: "1234".to_string(),
        global_name: None,
    };
    assert_eq!(user.display(), "testuser#1234");
}
