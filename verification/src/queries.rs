//! Query parameters for listing messages. The executor serialises them as
//! key/value pairs; absent fields produce no pair.

use vstd::prelude::*;
use crate::message::MessageId;
use crate::text::{spec_u64_str, u64_to_string};

verus! {

/// The optional filters of a message-list request.
#[derive(Clone, Copy, Debug, PartialEq, Eq)]
pub struct GetMessagesQuery {
    pub around: Option<MessageId>,
    pub before: Option<MessageId>,
    pub after: Option<MessageId>,
    pub limit: Option<u8>,
}

impl Default for GetMessagesQuery {
    fn default() -> (r: Self)
        ensures
            r == (GetMessagesQuery { around: None, before: None, after: None, limit: None }),
    {
        GetMessagesQuery { around: None, before: None, after: None, limit: None }
    }
}

/// What `to_pairs` returns, as character sequences: one `key=value` pair per
/// present field, in declaration order, each value in decimal.
pub open spec fn spec_query_pairs(q: GetMessagesQuery) -> Seq<(Seq<char>, Seq<char>)> {
    let with_around = match q.around {
        Some(id) => Seq::empty().push(("around"@, spec_u64_str(id.0 as nat))),
        None => Seq::empty(),
    };
    let with_before = match q.before {
        Some(id) => with_around.push(("before"@, spec_u64_str(id.0 as nat))),
        None => with_around,
    };
    let with_after = match q.after {
        Some(id) => with_before.push(("after"@, spec_u64_str(id.0 as nat))),
        None => with_before,
    };
    if q.limit is Some {
        with_after.push(("limit"@, spec_u64_str(q.limit->0 as nat)))
    } else {
        with_after
    }
}

/// Key/value pairs joined as a query string: `key=value`, separated by `&`.
pub open spec fn spec_join_pairs(pairs: Seq<(Seq<char>, Seq<char>)>) -> Seq<char>
    decreases pairs.len(),
{
    if pairs.len() == 0 {
        Seq::empty()
    } else if pairs.len() == 1 {
        pairs[0].0 + "="@ + pairs[0].1
    } else {
        spec_join_pairs(pairs.drop_last()) + "&"@ + pairs.last().0 + "="@ + pairs.last().1
    }
}

impl GetMessagesQuery {
    /// A query that only caps the number of returned messages.
    pub fn with_limit(limit: u8) -> (r: Self)
        ensures
            r == (GetMessagesQuery { around: None, before: None, after: None, limit: Some(limit) }),
    {
        GetMessagesQuery { around: None, before: None, after: None, limit: Some(limit) }
    }

    /// The key/value pairs this query adds to the request URL.
    pub fn to_pairs(&self) -> (r: Vec<(String, String)>)
        ensures
            r@.map_values(|p: (String, String)| (p.0@, p.1@)) == spec_query_pairs(*self),
    {
        let mut v: Vec<(String, String)> = Vec::new();
        if let Some(a) = self.around {
            v.push(("around".to_owned(), u64_to_string(a.0)));
        }
        if let Some(b) = self.before {
            v.push(("before".to_owned(), u64_to_string(b.0)));
        }
        if let Some(a) = self.after {
            v.push(("after".to_owned(), u64_to_string(a.0)));
        }
        if let Some(l) = self.limit {
            v.push(("limit".to_owned(), u64_to_string(l as u64)));
        }
        proof {
            assert(v@.map_values(|p: (String, String)| (p.0@, p.1@)) =~= spec_query_pairs(
                *self,
            ));
        }
        v
    }
}

} // verus!
