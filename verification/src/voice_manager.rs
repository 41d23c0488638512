//! The voice profile store: maps a user id to a synthesis parameter set,
//! with last-writer-wins get/set/remove. A user without a stored profile
//! gets the fixed default; a candidate profile is validated whole before
//! commit, and a rejected candidate leaves the store untouched, so every
//! stored profile satisfies every field range at all times.

use std::collections::HashMap;
use vstd::prelude::*;
use crate::dectalk::{DECtalkVoice, ValidationError, default_voice_spec};

verus! {

broadcast use vstd::std_specs::hash::group_hash_axioms;

/// Per-user voice profiles, keyed by user id.
pub struct VoiceManager {
    voices: HashMap<u64, DECtalkVoice>,
}

impl VoiceManager {
    /// The stored mapping.
    pub closed spec fn map_spec(self) -> Map<u64, DECtalkVoice> {
        self.voices@
    }

    /// The profile a lookup yields: the stored one, or the default.
    pub open spec fn spec_get(self, id: u64) -> DECtalkVoice {
        if self.map_spec().contains_key(id) {
            self.map_spec()[id]
        } else {
            default_voice_spec()
        }
    }

    /// Every stored profile satisfies every field range.
    pub open spec fn inv(self) -> bool {
        forall|id: u64|
            self.map_spec().contains_key(id) ==> (#[trigger] self.map_spec()[id]).valid_spec()
    }

    /// An empty store: every user maps to the default profile.
    pub fn new() -> (s: Self)
        ensures
            s.map_spec() == Map::<u64, DECtalkVoice>::empty(),
            s.inv(),
            forall|id: u64| #[trigger] s.spec_get(id) == default_voice_spec(),
    {
        let s = VoiceManager { voices: HashMap::new() };
        proof {
            assert(s.map_spec() =~= Map::<u64, DECtalkVoice>::empty());
        }
        s
    }

    /// The user's profile; never fails, the default stands in for a user
    /// that has none stored.
    pub fn get(&self, id: u64) -> (v: DECtalkVoice)
        ensures
            v == self.spec_get(id),
    {
        match self.voices.get(&id) {
            Some(v) => *v,
            None => DECtalkVoice::default(),
        }
    }

    /// Replaces the user's profile with `voice`, whole: when the candidate
    /// is valid it is committed and later lookups return exactly it; when
    /// any field is out of range the call fails and the store is left
    /// unchanged.
    pub fn set(&mut self, id: u64, voice: &DECtalkVoice) -> (r: Result<(), ValidationError>)
        ensures
            old(self).inv() ==> final(self).inv(),
            voice.valid_spec() ==> r is Ok && final(self).map_spec() == old(
                self,
            ).map_spec().insert(id, *voice),
            voice.valid_spec() ==> forall|u: u64|
                #[trigger] final(self).spec_get(u) == if u == id {
                    *voice
                } else {
                    old(self).spec_get(u)
                },
            !voice.valid_spec() ==> r is Err && *final(self) == *old(self),
    {
        if !voice.validate() {
            return Err(ValidationError);
        }
        self.voices.insert(id, *voice);
        proof {
            if old(self).inv() {
                assert forall|u: u64|
                    self.map_spec().contains_key(u) implies (
                #[trigger] self.map_spec()[u]).valid_spec() by {
                    if u != id {
                        assert(old(self).map_spec().contains_key(u));
                        assert(self.map_spec()[u] == old(self).map_spec()[u]);
                    }
                }
            }
        }
        Ok(())
    }

    /// Reverts the user to the default profile; never fails.
    pub fn remove(&mut self, id: u64)
        ensures
            old(self).inv() ==> final(self).inv(),
            final(self).map_spec() == old(self).map_spec().remove(id),
            forall|u: u64|
                #[trigger] final(self).spec_get(u) == if u == id {
                    default_voice_spec()
                } else {
                    old(self).spec_get(u)
                },
    {
        self.voices.remove(&id);
        proof {
            if old(self).inv() {
                assert forall|u: u64|
                    self.map_spec().contains_key(u) implies (
                #[trigger] self.map_spec()[u]).valid_spec() by {
                    assert(old(self).map_spec().contains_key(u));
                    assert(self.map_spec()[u] == old(self).map_spec()[u]);
                }
            }
        }
    }
}

/// Every lookup of a store whose invariant holds yields a profile within
/// range — stored or default alike.
pub proof fn lemma_stored_profiles_valid(s: VoiceManager, id: u64)
    requires
        s.inv(),
    ensures
        s.spec_get(id).valid_spec(),
{
}

/// Round trip: after a successful `set(id, v)` — which commits the map
/// `old.insert(id, v)` — a `get(id)` returns exactly the committed value,
/// and every other user's profile is unmoved.
pub proof fn lemma_set_then_get(
    prior: VoiceManager,
    committed: VoiceManager,
    id: u64,
    v: DECtalkVoice,
)
    requires
        committed.map_spec() == prior.map_spec().insert(id, v),
    ensures
        committed.spec_get(id) == v,
        forall|u: u64| u != id ==> #[trigger] committed.spec_get(u) == prior.spec_get(u),
{
}

/// After a `remove(id)` — which commits the map `old.remove(id)` — a
/// `get(id)` returns the default profile, and every other user's profile
/// is unmoved.
pub proof fn lemma_remove_then_get(prior: VoiceManager, committed: VoiceManager, id: u64)
    requires
        committed.map_spec() == prior.map_spec().remove(id),
    ensures
        committed.spec_get(id) == default_voice_spec(),
        forall|u: u64| u != id ==> #[trigger] committed.spec_get(u) == prior.spec_get(u),
{
}

} // verus!
