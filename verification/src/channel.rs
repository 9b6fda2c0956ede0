//! The channel record and its numeric identifier.

use vstd::prelude::*;
use crate::text::{spec_u64_str, u64_to_string};

verus! {

/// A channel's stable numeric identifier.
#[derive(Clone, Copy, Debug, PartialEq, Eq, Structural)]
pub struct ChannelId(pub u64);

impl ChannelId {
    /// Renders the identifier in decimal.
    pub fn display(&self) -> (r: String)
        ensures
            r@ == spec_u64_str(self.0 as nat),
    {
        u64_to_string(self.0)
    }
}

impl From<u64> for ChannelId {
    fn from(id: u64) -> (r: Self) {
        ChannelId(id)
    }
}

impl vstd::std_specs::convert::FromSpecImpl<u64> for ChannelId {
    open spec fn obeys_from_spec() -> bool {
        true
    }

    open spec fn from_spec(id: u64) -> Self {
        ChannelId(id)
    }
}

/// A channel record as the platform reports it.
#[derive(Clone, Debug, PartialEq, Eq)]
pub struct Channel {
    pub id: ChannelId,
    pub name: String,
}

/// The mathematical view of a channel record.
pub struct ChannelView {
    pub id: u64,
    pub name: Seq<char>,
}

impl View for Channel {
    type V = ChannelView;

    open spec fn view(&self) -> ChannelView {
        ChannelView { id: self.id.0, name: self.name@ }
    }
}

impl Channel {
    /// Renders the channel as `#name`.
    pub fn display(&self) -> (r: String)
        ensures
            r@ == "#"@ + self.name@,
    {
        "#".to_owned().concat(self.name.as_str())
    }
}

} // verus!
