//! The mute store: a boolean per (guild, user) pair. A pair never set is
//! not muted; set and unset are last-writer-wins and touch no other pair.

use std::collections::{HashMap, HashSet};
use vstd::prelude::*;

verus! {

broadcast use vstd::std_specs::hash::group_hash_axioms;

/// Per-guild sets of muted users.
pub struct MuteManager {
    mutes: HashMap<u64, HashSet<u64>>,
}

impl MuteManager {
    /// Whether the user is muted in the guild.
    pub closed spec fn spec_muted(self, guild_id: u64, user_id: u64) -> bool {
        self.mutes@.contains_key(guild_id) && self.mutes@[guild_id]@.contains(user_id)
    }

    /// An empty store: nobody is muted anywhere.
    pub fn new() -> (s: Self)
        ensures
            forall|g: u64, u: u64| !(#[trigger] s.spec_muted(g, u)),
    {
        MuteManager { mutes: HashMap::new() }
    }

    /// The mute flag of the pair; `false` for any pair never set.
    pub fn get(&self, guild_id: u64, user_id: u64) -> (r: bool)
        ensures
            r == self.spec_muted(guild_id, user_id),
    {
        let mutes = match self.mutes.get(&guild_id) {
            Some(mutes) => mutes,
            None => {
                return false;
            },
        };
        mutes.contains(&user_id)
    }

    /// Sets or clears the pair's mute flag; no other pair moves.
    pub fn set(&mut self, guild_id: u64, user_id: u64, muted: bool)
        ensures
            forall|g: u64, u: u64|
                #[trigger] final(self).spec_muted(g, u) == if g == guild_id && u == user_id {
                    muted
                } else {
                    old(self).spec_muted(g, u)
                },
    {
        let mut guild_mutes = match self.mutes.remove(&guild_id) {
            Some(m) => m,
            None => HashSet::new(),
        };
        if muted {
            guild_mutes.insert(user_id);
        } else {
            guild_mutes.remove(&user_id);
        }
        self.mutes.insert(guild_id, guild_mutes);
    }
}

} // verus!
