//! Verified decoders from parsed JSON values to the library's records.
//! Each decoder checks the shape the platform documents: required fields
//! must be present with the right type, optional fields may be absent or
//! null. What each one returns is fixed, over the JSON model, by a spec
//! decoder of the same shape: a value of the wrong shape decodes to `None`,
//! any other to exactly the modelled record.

use vstd::prelude::*;
use crate::channel::{Channel, ChannelId, ChannelView};
use crate::json::{
    json_array, json_get, json_is_null, json_str, json_u64, json_model, spec_get,
    spec_opt_str_field, spec_str_field, spec_u64_field, JsonData,
};
use crate::message::{Message, MessageId, MessageView};
use crate::user::{User, UserId, UserView};

verus! {

/// What a JSON value decodes to as a user record, if anything: numeric
/// `id`, string `email`, `username` and `discriminator`, optional string
/// `global_name`.
pub open spec fn spec_decode_user(d: JsonData) -> Option<UserView> {
    match spec_u64_field(d, "id"@) {
        Some(id) => match spec_str_field(d, "email"@) {
            Some(email) => match spec_str_field(d, "username"@) {
                Some(username) => match spec_str_field(d, "discriminator"@) {
                    Some(discriminator) => match spec_opt_str_field(d, "global_name"@) {
                        Some(global_name) => Some(
                            UserView { id, email, username, discriminator, global_name },
                        ),
                        None => None,
                    },
                    None => None,
                },
                None => None,
            },
            None => None,
        },
        None => None,
    }
}

/// What a JSON value decodes to as a message record, if anything: numeric
/// `id` and `channel_id`, a nested `author` user record, string `content`
/// and `timestamp`.
pub open spec fn spec_decode_message(d: JsonData) -> Option<MessageView> {
    match spec_u64_field(d, "id"@) {
        Some(id) => match spec_get(d, "author"@) {
            Some(a) => match spec_decode_user(a) {
                Some(author) => match spec_str_field(d, "content"@) {
                    Some(content) => match spec_u64_field(d, "channel_id"@) {
                        Some(channel_id) => match spec_str_field(d, "timestamp"@) {
                            Some(timestamp) => Some(
                                MessageView { id, author, content, channel_id, timestamp },
                            ),
                            None => None,
                        },
                        None => None,
                    },
                    None => None,
                },
                None => None,
            },
            None => None,
        },
        None => None,
    }
}

/// What a JSON value decodes to as a channel record, if anything: numeric
/// `id`, string `name`.
pub open spec fn spec_decode_channel(d: JsonData) -> Option<ChannelView> {
    match spec_u64_field(d, "id"@) {
        Some(id) => match spec_str_field(d, "name"@) {
            Some(name) => Some(ChannelView { id, name }),
            None => None,
        },
        None => None,
    }
}

/// What a JSON value decodes to as a list of channel records: the array's
/// elements decoded in order, complete, and nothing when the value is not
/// an array or any element is malformed.
pub open spec fn spec_decode_channel_list(d: JsonData) -> Option<Seq<ChannelView>> {
    match d {
        JsonData::Arr(elems) => if forall|i: int|
            0 <= i < elems.len() ==> spec_decode_channel(#[trigger] elems[i]) is Some {
            Some(Seq::new(elems.len(), |i: int| spec_decode_channel(elems[i])->0))
        } else {
            None
        },
        _ => None,
    }
}

/// What a JSON value decodes to as a list of message records: the array's
/// elements decoded in order, complete, and nothing when the value is not
/// an array or any element is malformed.
pub open spec fn spec_decode_message_list(d: JsonData) -> Option<Seq<MessageView>> {
    match d {
        JsonData::Arr(elems) => if forall|i: int|
            0 <= i < elems.len() ==> spec_decode_message(#[trigger] elems[i]) is Some {
            Some(Seq::new(elems.len(), |i: int| spec_decode_message(elems[i])->0))
        } else {
            None
        },
        _ => None,
    }
}

/// The integer under `key`, when present and representable as `u64`.
pub(crate) fn get_u64_field(v: &serde_json::Value, key: &str) -> (r: Option<u64>)
    ensures
        r == spec_u64_field(json_model(*v), key@),
{
    match json_get(v, key) {
        Some(x) => json_u64(x),
        None => None,
    }
}

/// The text under `key`, when present and a JSON string.
pub(crate) fn get_str_field(v: &serde_json::Value, key: &str) -> (r: Option<String>)
    ensures
        match spec_str_field(json_model(*v), key@) {
            Some(s) => r matches Some(t) && t@ == s,
            None => r is None,
        },
{
    match json_get(v, key) {
        Some(x) => match json_str(x) {
            Some(s) => Some(s.to_owned()),
            None => None,
        },
        None => None,
    }
}

/// The text under `key` as an optional field: `Ok(None)` when the field is
/// absent or null, `Err(())` when it is present but not a string.
fn get_opt_str_field(v: &serde_json::Value, key: &str) -> (r: Result<Option<String>, ()>)
    ensures
        match spec_opt_str_field(json_model(*v), key@) {
            Some(None) => r == Ok::<Option<String>, ()>(None),
            Some(Some(s)) => r matches Ok(Some(t)) && t@ == s,
            None => r == Err::<Option<String>, ()>(()),
        },
{
    match json_get(v, key) {
        None => Ok(None),
        Some(x) => {
            if json_is_null(x) {
                Ok(None)
            } else {
                match json_str(x) {
                    Some(s) => Ok(Some(s.to_owned())),
                    None => Err(()),
                }
            }
        },
    }
}

/// Decodes a user record, returning exactly what `spec_decode_user` says
/// of the value's model.
pub fn decode_user(v: &serde_json::Value) -> (r: Option<User>)
    ensures
        match spec_decode_user(json_model(*v)) {
            Some(m) => r matches Some(u) && u@ == m,
            None => r is None,
        },
{
    let id = match get_u64_field(v, "id") {
        Some(n) => n,
        None => return None,
    };
    let email = match get_str_field(v, "email") {
        Some(s) => s,
        None => return None,
    };
    let username = match get_str_field(v, "username") {
        Some(s) => s,
        None => return None,
    };
    let discriminator = match get_str_field(v, "discriminator") {
        Some(s) => s,
        None => return None,
    };
    let global_name = match get_opt_str_field(v, "global_name") {
        Ok(g) => g,
        Err(()) => return None,
    };
    Some(User { id: UserId(id), email, username, discriminator, global_name })
}

/// Decodes a message record, returning exactly what `spec_decode_message`
/// says of the value's model.
pub fn decode_message(v: &serde_json::Value) -> (r: Option<Message>)
    ensures
        match spec_decode_message(json_model(*v)) {
            Some(m) => r matches Some(msg) && msg@ == m,
            None => r is None,
        },
{
    let id = match get_u64_field(v, "id") {
        Some(n) => n,
        None => return None,
    };
    let author = match json_get(v, "author") {
        Some(a) => match decode_user(a) {
            Some(u) => u,
            None => return None,
        },
        None => return None,
    };
    let content = match get_str_field(v, "content") {
        Some(s) => s,
        None => return None,
    };
    let channel_id = match get_u64_field(v, "channel_id") {
        Some(n) => n,
        None => return None,
    };
    let timestamp = match get_str_field(v, "timestamp") {
        Some(s) => s,
        None => return None,
    };
    Some(
        Message {
            id: MessageId(id),
            author,
            content,
            channel_id: ChannelId(channel_id),
            timestamp,
        },
    )
}

/// Decodes a channel record, returning exactly what `spec_decode_channel`
/// says of the value's model.
pub fn decode_channel(v: &serde_json::Value) -> (r: Option<Channel>)
    ensures
        match spec_decode_channel(json_model(*v)) {
            Some(m) => r matches Some(c) && c@ == m,
            None => r is None,
        },
{
    let id = match get_u64_field(v, "id") {
        Some(n) => n,
        None => return None,
    };
    let name = match get_str_field(v, "name") {
        Some(s) => s,
        None => return None,
    };
    Some(Channel { id: ChannelId(id), name })
}

/// Decodes a JSON array of channel records, element-wise and in order;
/// any malformed element rejects the whole list.
pub fn decode_channel_list(v: &serde_json::Value) -> (r: Option<Vec<Channel>>)
    ensures
        match spec_decode_channel_list(json_model(*v)) {
            Some(ms) => r matches Some(cs) && cs@.map_values(|c: Channel| c@) == ms,
            None => r is None,
        },
{
    let items = match json_array(v) {
        Some(a) => a,
        None => return None,
    };
    let ghost elems: Seq<JsonData> = json_model(*v)->Arr_0;
    let mut out: Vec<Channel> = Vec::new();
    let mut i: usize = 0;
    while i < items.len()
        invariant
            i <= items.len(),
            json_model(*v) is Arr,
            elems == json_model(*v)->Arr_0,
            items@.len() == elems.len(),
            forall|j: int| 0 <= j < elems.len() ==> json_model(#[trigger] items@[j]) == elems[j],
            out@.len() == i,
            forall|j: int|
                0 <= j < i ==> spec_decode_channel(#[trigger] elems[j]) is Some && out@[j]@
                    == spec_decode_channel(elems[j])->0,
        decreases items.len() - i,
    {
        match decode_channel(&items[i]) {
            Some(c) => out.push(c),
            None => {
                return None;
            },
        }
        i += 1;
    }
    proof {
        let ms = spec_decode_channel_list(json_model(*v))->0;
        assert(out@.map_values(|c: Channel| c@) =~= ms);
    }
    Some(out)
}

/// Decodes a JSON array of message records, element-wise and in order;
/// any malformed element rejects the whole list.
pub fn decode_message_list(v: &serde_json::Value) -> (r: Option<Vec<Message>>)
    ensures
        match spec_decode_message_list(json_model(*v)) {
            Some(ms) => r matches Some(msgs) && msgs@.map_values(|m: Message| m@) == ms,
            None => r is None,
        },
{
    let items = match json_array(v) {
        Some(a) => a,
        None => return None,
    };
    let ghost elems: Seq<JsonData> = json_model(*v)->Arr_0;
    let mut out: Vec<Message> = Vec::new();
    let mut i: usize = 0;
    while i < items.len()
        invariant
            i <= items.len(),
            json_model(*v) is Arr,
            elems == json_model(*v)->Arr_0,
            items@.len() == elems.len(),
            forall|j: int| 0 <= j < elems.len() ==> json_model(#[trigger] items@[j]) == elems[j],
            out@.len() == i,
            forall|j: int|
                0 <= j < i ==> spec_decode_message(#[trigger] elems[j]) is Some && out@[j]@
                    == spec_decode_message(elems[j])->0,
        decreases items.len() - i,
    {
        match decode_message(&items[i]) {
            Some(m) => out.push(m),
            None => {
                return None;
            },
        }
        i += 1;
    }
    proof {
        let ms = spec_decode_message_list(json_model(*v))->0;
        assert(out@.map_values(|m: Message| m@) =~= ms);
    }
    Some(out)
}

} // verus!
