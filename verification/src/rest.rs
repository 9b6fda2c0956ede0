//! The REST endpoints the client speaks to: building each request (path,
//! method, body, query) and decoding each response body. The transport
//! performs the prepared request; the executor in `client` decides on
//! retries; everything else about an endpoint is settled here.

use vstd::prelude::*;
use crate::channel::{Channel, ChannelId, ChannelView};
use crate::decode::{
    decode_channel_list, decode_message, decode_message_list, spec_decode_channel_list,
    spec_decode_message, spec_decode_message_list,
};
use crate::errors::ClientError;
use crate::guild::GuildId;
use crate::json::{json_parse, spec_json_parse};
use crate::message::{Message, MessageView};
use crate::queries::{spec_join_pairs, spec_query_pairs, GetMessagesQuery};
use crate::text::{escape_json, spec_escape_json, spec_u64_str, u64_to_string};
use vstd::string::StringSliceAdditionalSpecFns;

verus! {

/// The two HTTP methods the REST surface is called with.
#[derive(Clone, Copy, Debug, PartialEq, Eq, Structural)]
pub enum HttpMethod {
    Get,
    Post,
}

/// One fully prepared REST request, ready for the transport: everything
/// the caller needs except the base URL and the headers, which the client
/// configuration supplies.
#[derive(Debug)]
pub struct RestRequest {
    pub method: HttpMethod,
    pub endpoint: String,
    pub body: Option<String>,
    pub query: Vec<(String, String)>,
}

impl RestRequest {
    /// The query string this request appends to its URL: the pairs, each as
    /// `key=value`, joined with `&`; empty when there are none.
    pub fn query_string(&self) -> (r: String)
        ensures
            r@ == spec_join_pairs(
                self.query@.map_values(|p: (String, String)| (p.0@, p.1@)),
            ),
    {
        let ghost spec_pairs: Seq<(Seq<char>, Seq<char>)> = self.query@.map_values(
            |p: (String, String)| (p.0@, p.1@),
        );
        let mut out = String::new();
        let mut i: usize = 0;
        proof {
            assert(spec_pairs.take(0) =~= Seq::<(Seq<char>, Seq<char>)>::empty());
        }
        while i < self.query.len()
            invariant
                i <= self.query.len(),
                spec_pairs == self.query@.map_values(|p: (String, String)| (p.0@, p.1@)),
                spec_pairs.len() == self.query@.len(),
                out@ == spec_join_pairs(spec_pairs.take(i as int)),
            decreases self.query.len() - i,
        {
            proof {
                assert(spec_pairs[i as int] == (self.query@[i as int].0@,
                self.query@[i as int].1@));
                assert(spec_pairs.take(i + 1).drop_last() =~= spec_pairs.take(i as int));
                assert(spec_pairs.take(i + 1).last() == spec_pairs[i as int]);
            }
            if i > 0 {
                out.append("&");
            }
            out.append(self.query[i].0.as_str());
            out.append("=");
            out.append(self.query[i].1.as_str());
            i += 1;
        }
        proof {
            assert(spec_pairs.take(self.query@.len() as int) =~= spec_pairs);
        }
        out
    }
}

/// The endpoint listing a guild's channels.
pub fn channels_endpoint(guild_id: GuildId) -> (r: String)
    ensures
        r@ == "/guilds/"@ + spec_u64_str(guild_id.0 as nat) + "/channels"@,
{
    "/guilds/".to_owned().concat(u64_to_string(guild_id.0).as_str()).concat("/channels")
}

/// The endpoint listing or posting a channel's messages.
pub fn messages_endpoint(channel_id: ChannelId) -> (r: String)
    ensures
        r@ == "/channels/"@ + spec_u64_str(channel_id.0 as nat) + "/messages"@,
{
    "/channels/".to_owned().concat(u64_to_string(channel_id.0).as_str()).concat("/messages")
}

/// The request that lists a guild's channels.
pub fn get_channels_request(guild_id: GuildId) -> (r: RestRequest)
    ensures
        r.method == HttpMethod::Get,
        r.endpoint@ == "/guilds/"@ + spec_u64_str(guild_id.0 as nat) + "/channels"@,
        r.body is None,
        r.query@.len() == 0,
{
    RestRequest {
        method: HttpMethod::Get,
        endpoint: channels_endpoint(guild_id),
        body: None,
        query: Vec::new(),
    }
}

/// The request that lists a channel's messages under the given filters.
pub fn get_messages_request(channel_id: ChannelId, query: GetMessagesQuery) -> (r: RestRequest)
    ensures
        r.method == HttpMethod::Get,
        r.endpoint@ == "/channels/"@ + spec_u64_str(channel_id.0 as nat) + "/messages"@,
        r.body is None,
        r.query@.map_values(|p: (String, String)| (p.0@, p.1@)) == spec_query_pairs(query),
{
    RestRequest {
        method: HttpMethod::Get,
        endpoint: messages_endpoint(channel_id),
        body: None,
        query: query.to_pairs(),
    }
}

/// The JSON body that posts a message: the content as a JSON string.
pub open spec fn spec_message_body(content: Seq<char>) -> Seq<char> {
    "{\"content\":\""@ + spec_escape_json(content) + "\"}"@
}

/// The request that posts a message, after the client-side preflight:
/// content longer than 2000 bytes is rejected with the dedicated error
/// before any request exists, mirroring the server's own ceiling.
pub fn send_message_request(channel_id: ChannelId, content: &str) -> (r: Result<
    RestRequest,
    ClientError,
>)
    ensures
        content.spec_bytes().len() > 2000 ==> r == Err::<RestRequest, ClientError>(
            ClientError::MessageTooLong,
        ),
        content.spec_bytes().len() <= 2000 ==> (r matches Ok(req) && {
            &&& req.method == HttpMethod::Post
            &&& req.endpoint@ == "/channels/"@ + spec_u64_str(channel_id.0 as nat)
                + "/messages"@
            &&& req.body matches Some(b) && b@ == spec_message_body(content@)
            &&& req.query@.len() == 0
        }),
{
    if content.as_bytes().len() > 2000 {
        return Err(ClientError::MessageTooLong);
    }
    let body = "{\"content\":\"".to_owned().concat(escape_json(content).as_str()).concat("\"}");
    Ok(
        RestRequest {
            method: HttpMethod::Post,
            endpoint: messages_endpoint(channel_id),
            body: Some(body),
            query: Vec::new(),
        },
    )
}

/// What a response body decodes to as a message record, if anything.
pub open spec fn spec_parse_message_body(text: Seq<char>) -> Option<MessageView> {
    match spec_json_parse(text) {
        Some(v) => spec_decode_message(v),
        None => None,
    }
}

/// What a response body decodes to as a list of message records, if
/// anything.
pub open spec fn spec_parse_message_list_body(text: Seq<char>) -> Option<Seq<MessageView>> {
    match spec_json_parse(text) {
        Some(v) => spec_decode_message_list(v),
        None => None,
    }
}

/// What a response body decodes to as a list of channel records, if
/// anything.
pub open spec fn spec_parse_channel_list_body(text: Seq<char>) -> Option<Seq<ChannelView>> {
    match spec_json_parse(text) {
        Some(v) => spec_decode_channel_list(v),
        None => None,
    }
}

/// Decodes a successful message-send or message-fetch body into exactly
/// the modelled message record; a body of the wrong shape is a parse
/// error, never anything else.
pub fn parse_message_response(body: &str) -> (r: Result<Message, ClientError>)
    ensures
        match spec_parse_message_body(body@) {
            Some(m) => r matches Ok(msg) && msg@ == m,
            None => r matches Err(ClientError::ParseError(_)),
        },
{
    let v = match json_parse(body) {
        Ok(v) => v,
        Err(e) => return Err(ClientError::ParseError(e)),
    };
    match decode_message(&v) {
        Some(m) => Ok(m),
        None => Err(ClientError::ParseError("response is not a message record".to_owned())),
    }
}

/// Decodes a successful message-list body into exactly the modelled
/// records, complete and in the response array's order; a body of the
/// wrong shape is a parse error, never anything else.
pub fn parse_message_list_response(body: &str) -> (r: Result<Vec<Message>, ClientError>)
    ensures
        match spec_parse_message_list_body(body@) {
            Some(ms) => r matches Ok(msgs) && msgs@.map_values(|m: Message| m@) == ms,
            None => r matches Err(ClientError::ParseError(_)),
        },
{
    let v = match json_parse(body) {
        Ok(v) => v,
        Err(e) => return Err(ClientError::ParseError(e)),
    };
    match decode_message_list(&v) {
        Some(m) => Ok(m),
        None => Err(ClientError::ParseError("response is not a list of messages".to_owned())),
    }
}

/// Decodes a successful channel-list body into exactly the modelled
/// records, complete and in the response array's order; a body of the
/// wrong shape is a parse error, never anything else.
pub fn parse_channel_list_response(body: &str) -> (r: Result<Vec<Channel>, ClientError>)
    ensures
        match spec_parse_channel_list_body(body@) {
            Some(cs) => r matches Ok(channels) && channels@.map_values(|c: Channel| c@) == cs,
            None => r matches Err(ClientError::ParseError(_)),
        },
{
    let v = match json_parse(body) {
        Ok(v) => v,
        Err(e) => return Err(ClientError::ParseError(e)),
    };
    match decode_channel_list(&v) {
        Some(c) => Ok(c),
        None => Err(ClientError::ParseError("response is not a list of channels".to_owned())),
    }
}

} // verus!
