use discline::channel::ChannelId;
use discline::errors::ClientError;
use discline::guild::GuildId;
use discline::queries::GetMessagesQuery;
use discline::rest::{
    get_channels_request, get_messages_request, parse_channel_list_response,
    parse_message_list_response, parse_message_response, send_message_request, HttpMethod,
};

#[test]
fn test_get_channels_request_shape() {
    let req = get_channels_request(GuildId(77));
    assert_eq!(req.method, HttpMethod::Get);
    assert_eq!(req.endpoint, "/guilds/77/channels");
    assert!(req.body.is_none());
    assert!(req.query.is_empty());
}

#[test]
fn test_get_messages_request_shape() {
    let req = get_messages_request(ChannelId(456), GetMessagesQuery::with_limit(2));
    assert_eq!(req.method, HttpMethod::Get);
    assert_eq!(req.endpoint, "/channels/456/messages");
    assert!(req.body.is_none());
    assert_eq!(req.query, vec![("limit".to_string(), "2".to_string())]);
}

#[test]
fn test_query_pairs_keep_declaration_order() {
    let query = GetMessagesQuery {
        around: Some(1.into()),
        before: Some(2.into()),
        after: Some(3.into()),
        limit: Some(50),
    };
    assert_eq!(
        query.to_pairs(),
        vec![
            ("around".to_string(), "1".to_string()),
            ("before".to_string(), "2".to_string()),
            ("after".to_string(), "3".to_string()),
            ("limit".to_string(), "50".to_string()),
        ]
    );
    let empty = GetMessagesQuery::default();
    assert!(empty.to_pairs().is_empty());
}

#[test]
fn test_query_string_values() {
    let req = get_messages_request(ChannelId(456), GetMessagesQuery::with_limit(2));
    assert_eq!(req.query_string(), "limit=2");
    let full = GetMessagesQuery {
        around: Some(1.into()),
        before: Some(2.into()),
        after: Some(3.into()),
        limit: Some(50),
    };
    assert_eq!(get_messages_request(ChannelId(1), full).query_string(), "around=1&before=2&after=3&limit=50");
    assert_eq!(get_channels_request(GuildId(1)).query_string(), "");
}

#[test]
fn test_send_message_request_shape() {
    let req = send_message_request(ChannelId(123), "Hello from test!").unwrap();
    assert_eq!(req.method, HttpMethod::Post);
    assert_eq!(req.endpoint, "/channels/123/messages");
    assert_eq!(req.body.as_deref(), Some("{\"content\":\"Hello from test!\"}"));
    assert!(req.query.is_empty());
    let parsed: serde_json::Value = serde_json::from_str(req.body.as_deref().unwrap()).unwrap();
    assert_eq!(parsed.get("content").and_then(|v| v.as_str()), Some("Hello from test!"));
}

#[test]
fn test_send_message_escapes_content() {
    let content = "line one\nline \"two\" \\ end";
    let req = send_message_request(ChannelId(1), content).unwrap();
    let parsed: serde_json::Value = serde_json::from_str(req.body.as_deref().unwrap()).unwrap();
    assert_eq!(parsed.get("content").and_then(|v| v.as_str()), Some(content));
}

#[test]
fn test_send_message_too_long() {
    let content = "a".repeat(2001);
    let result = send_message_request(ChannelId(123), &content);
    match result {
        Err(ClientError::MessageTooLong) => (),
        _ => panic!("Expected MessageTooLong error"),
    }
}

#[test]
fn test_send_message_at_limit_is_accepted() {
    let content = "a".repeat(2000);
    assert!(send_message_request(ChannelId(123), &content).is_ok());
}

#[test]
fn test_parse_message_response_fields() {
    let body = "{\"id\":1,\"author\":{\"id\":1,\"username\":\"testuser\",\
        \"discriminator\":\"0000\",\"email\":\"test@test.com\",\"global_name\":null},\
        \"content\":\"Hello from test!\",\"channel_id\":123,\
        \"timestamp\":\"2026-02-17T12:00:00Z\"}";
    let message = parse_message_response(body).unwrap();
    assert_eq!(message.id.0, 1);
    assert_eq!(message.content, "Hello from test!");
    assert_eq!(message.channel_id, ChannelId(123));
    assert_eq!(message.author.discriminator, "0000");
    assert!(message.author.global_name.is_none());
}

#[test]
fn test_parse_message_response_rejects_wrong_shape() {
    assert!(matches!(
        parse_message_response("{\"id\":\"not a number\"}"),
        Err(ClientError::ParseError(_))
    ));
    assert!(matches!(parse_message_response("not json"), Err(ClientError::ParseError(_))));
}

#[test]
fn test_parse_message_list_response_order() {
    let body = "[{\"id\":10,\"author\":{\"id\":1,\"username\":\"testuser\",\
        \"discriminator\":\"0000\",\"email\":\"test@test.com\"},\"content\":\"Message 1\",\
        \"channel_id\":456,\"timestamp\":\"2026-02-17T12:00:00Z\"},\
        {\"id\":11,\"author\":{\"id\":1,\"username\":\"testuser\",\
        \"discriminator\":\"0000\",\"email\":\"test@test.com\"},\"content\":\"Message 2\",\
        \"channel_id\":456,\"timestamp\":\"2026-02-17T12:00:00Z\"}]";
    let msgs = parse_message_list_response(body).unwrap();
    assert_eq!(msgs.len(), 2);
    assert_eq!(msgs[0].content, "Message 1");
    assert_eq!(msgs[1].content, "Message 2");
}

#[test]
fn test_parse_channel_list_response_fields() {
    let body = "[{\"id\":1,\"name\":\"general\"},{\"id\":2,\"name\":\"random\"}]";
    let channels = parse_channel_list_response(body).unwrap();
    assert_eq!(channels.len(), 2);
    assert_eq!(channels[0].name, "general");
    assert_eq!(channels[1].id.0, 2);
}

#[test]
fn test_parse_channel_list_rejects_bad_element() {
    let body = "[{\"id\":1,\"name\":\"general\"},{\"id\":\"two\"}]";
    assert!(matches!(parse_channel_list_response(body), Err(ClientError::ParseError(_))));
}
