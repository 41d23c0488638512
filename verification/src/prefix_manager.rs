//! The prefix store: the activation prefix per guild, falling back to a
//! process-wide default for guilds that never set one. Prefixes are only
//! overwritten, never deleted.

use std::collections::HashMap;
use vstd::prelude::*;

verus! {

broadcast use vstd::std_specs::hash::group_hash_axioms;

/// Per-guild activation prefixes over a configured default.
pub struct PrefixManager {
    default_prefix: String,
    prefixes: HashMap<u64, String>,
}

impl PrefixManager {
    /// The prefix a lookup yields: the guild's own, or the default.
    pub closed spec fn spec_get(self, guild_id: u64) -> Seq<char> {
        if self.prefixes@.contains_key(guild_id) {
            self.prefixes@[guild_id]@
        } else {
            self.default_prefix@
        }
    }

    /// A store with no per-guild prefixes: every guild resolves to the
    /// configured default.
    pub fn new(default_prefix: &str) -> (s: Self)
        ensures
            forall|g: u64| #[trigger] s.spec_get(g) == default_prefix@,
    {
        PrefixManager {
            default_prefix: default_prefix.to_owned(),
            prefixes: HashMap::new(),
        }
    }

    /// The guild's activation prefix; the configured default for a guild
    /// that never set one.
    pub fn get(&self, guild_id: u64) -> (r: String)
        ensures
            r@ == self.spec_get(guild_id),
    {
        match self.prefixes.get(&guild_id) {
            Some(p) => p.clone(),
            None => self.default_prefix.clone(),
        }
    }

    /// Overwrites the guild's prefix; no other guild's prefix moves, and
    /// the configured default stays what it was.
    pub fn set(&mut self, guild_id: u64, prefix: &str)
        ensures
            forall|g: u64|
                #[trigger] final(self).spec_get(g) == if g == guild_id {
                    prefix@
                } else {
                    old(self).spec_get(g)
                },
    {
        self.prefixes.insert(guild_id, prefix.to_owned());
    }
}

} // verus!
