//! The guild record and its numeric identifier.

use vstd::prelude::*;
use crate::text::{spec_u64_str, u64_to_string};

verus! {

/// A guild's stable numeric identifier.
#[derive(Clone, Copy, Debug, PartialEq, Eq, Structural)]
pub struct GuildId(pub u64);

impl GuildId {
    /// Renders the identifier in decimal.
    pub fn display(&self) -> (r: String)
        ensures
            r@ == spec_u64_str(self.0 as nat),
    {
        u64_to_string(self.0)
    }
}

impl From<u64> for GuildId {
    fn from(id: u64) -> (r: Self) {
        GuildId(id)
    }
}

impl vstd::std_specs::convert::FromSpecImpl<u64> for GuildId {
    open spec fn obeys_from_spec() -> bool {
        true
    }

    open spec fn from_spec(id: u64) -> Self {
        GuildId(id)
    }
}

/// A guild record as the platform reports it.
#[derive(Clone, Debug, PartialEq, Eq)]
pub struct Guild {
    pub id: GuildId,
    pub name: String,
    pub description: Option<String>,
}

impl Guild {
    /// Renders the guild by its name.
    pub fn display(&self) -> (r: String)
        ensures
            r@ == self.name@,
    {
        self.name.clone()
    }
}

} // verus!
