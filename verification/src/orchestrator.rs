//! The per-message gating pipeline: decides, from the facts about one
//! inbound message, whether speech is synthesized, which shaped text is
//! spoken, and which visible reaction marker is emitted. The gates
//! short-circuit in order: bot author, guild membership, activation prefix,
//! mute flag, text shaping, length cap, and voice-channel occupancy.

use vstd::prelude::*;
use crate::text;

verus! {

/// A visible reaction marker emitted while handling a message.
#[derive(Debug, Clone, Copy, PartialEq, Eq, Structural)]
pub enum Marker {
    /// The author is muted: the message is rejected.
    Rejected,
    /// The text was truncated to the configured cap.
    Truncated,
}

/// What handling one message amounts to: at most one visible marker, and
/// the text to synthesize when the pipeline proceeds.
#[derive(Debug)]
pub struct GateOutcome {
    /// The reaction marker to emit, if any.
    pub marker: Option<Marker>,
    /// The shaped (and possibly truncated) text to synthesize; `None` when
    /// the pipeline stops without speaking.
    pub speak: Option<String>,
}

/// Whether `content` starts with `prefix`.
pub open spec fn has_prefix_spec(content: Seq<char>, prefix: Seq<char>) -> bool {
    prefix.len() <= content.len() && content.subrange(0, prefix.len() as int) == prefix
}

/// The marker the pipeline emits for a message, `None` for silence.
/// A muted author's prefixed message draws the rejection marker; a
/// non-privileged author's over-long text draws the truncation marker.
pub open spec fn gate_marker_spec(
    author_is_bot: bool,
    in_guild: bool,
    prefix: Seq<char>,
    content: Seq<char>,
    muted: bool,
    privileged: bool,
    max_len: int,
) -> Option<Marker> {
    if author_is_bot || !in_guild || !has_prefix_spec(content, prefix) {
        None
    } else if muted {
        Some(Marker::Rejected)
    } else {
        let shaped = text::shape_spec(content.skip(prefix.len() as int));
        if shaped.len() > 0 && shaped.len() > max_len && !privileged {
            Some(Marker::Truncated)
        } else {
            None
        }
    }
}

/// The text the pipeline hands to synthesis, `None` when it stops short:
/// the message must come from a non-bot author in a guild, start with the
/// prefix, survive shaping non-empty, and sit in a voice-capable channel
/// with at least one non-bot occupant; the shaped text is truncated to the
/// cap unless the author is privileged.
pub open spec fn gate_speak_spec(
    author_is_bot: bool,
    in_guild: bool,
    prefix: Seq<char>,
    content: Seq<char>,
    muted: bool,
    privileged: bool,
    max_len: int,
    channel_is_voice: bool,
    nonbot_occupants: int,
) -> Option<Seq<char>> {
    if author_is_bot || !in_guild || !has_prefix_spec(content, prefix) || muted {
        None
    } else {
        let shaped = text::shape_spec(content.skip(prefix.len() as int));
        if shaped.len() == 0 {
            None
        } else if !(channel_is_voice && nonbot_occupants > 0) {
            None
        } else if shaped.len() > max_len && !privileged {
            Some(shaped.take(max_len))
        } else {
            Some(shaped)
        }
    }
}

/// Whether `content` starts with `prefix`.
pub fn has_prefix(content: &Vec<char>, prefix: &Vec<char>) -> (r: bool)
    ensures
        r == has_prefix_spec(content@, prefix@),
{
    if prefix.len() > content.len() {
        proof {
            assert(!has_prefix_spec(content@, prefix@));
        }
        return false;
    }
    let n = prefix.len();
    let mut i: usize = 0;
    while i < n
        invariant
            i <= n,
            n == prefix@.len(),
            n <= content@.len(),
            forall|t: int| 0 <= t < i ==> content@[t] == prefix@[t],
        decreases n - i,
    {
        if content[i] != prefix[i] {
            proof {
                assert(content@.subrange(0, n as int)[i as int] != prefix@[i as int]);
            }
            return false;
        }
        i = i + 1;
    }
    proof {
        assert(content@.subrange(0, n as int) =~= prefix@);
    }
    true
}

/// Runs the gates for one inbound message and decides what to do.
///
/// The caller supplies the facts the gates need: whether the author is an
/// automated account, whether the message belongs to a guild, the guild's
/// resolved prefix, the author's mute flag, whether the author is on the
/// privileged allow-list, the text length cap, and whether the channel is
/// voice-capable with at least one non-bot occupant. The decision says
/// which marker to emit and what text, if any, to synthesize.
pub fn gate_message(
    author_is_bot: bool,
    in_guild: bool,
    prefix: &str,
    content: &str,
    muted: bool,
    privileged: bool,
    max_len: usize,
    channel_is_voice: bool,
    nonbot_occupants: usize,
) -> (r: GateOutcome)
    ensures
        r.marker == gate_marker_spec(
            author_is_bot,
            in_guild,
            prefix@,
            content@,
            muted,
            privileged,
            max_len as int,
        ),
        (match r.speak {
            Some(s) => Some(s@),
            None => None,
        }) == gate_speak_spec(
            author_is_bot,
            in_guild,
            prefix@,
            content@,
            muted,
            privileged,
            max_len as int,
            channel_is_voice,
            nonbot_occupants as int,
        ),
{
    if author_is_bot || !in_guild {
        return GateOutcome { marker: None, speak: None };
    }
    let pc = text::str_to_chars(prefix);
    let cc = text::str_to_chars(content);
    if !has_prefix(&cc, &pc) {
        return GateOutcome { marker: None, speak: None };
    }
    if muted {
        return GateOutcome { marker: Some(Marker::Rejected), speak: None };
    }
    // strip the prefix
    let mut rest: Vec<char> = Vec::new();
    let mut i: usize = pc.len();
    while i < cc.len()
        invariant
            pc@.len() <= i <= cc@.len(),
            rest@ == cc@.subrange(pc@.len() as int, i as int),
        decreases cc@.len() - i,
    {
        rest.push(cc[i]);
        i = i + 1;
        proof {
            assert(rest@ =~= cc@.subrange(pc@.len() as int, i as int));
        }
    }
    proof {
        assert(rest@ =~= cc@.skip(pc@.len() as int));
    }
    let mut shaped = text::shape_chars(&rest);
    if shaped.len() == 0 {
        return GateOutcome { marker: None, speak: None };
    }
    let mut marker: Option<Marker> = None;
    let ghost whole = shaped@;
    if shaped.len() > max_len && !privileged {
        shaped.truncate(max_len);
        marker = Some(Marker::Truncated);
        proof {
            assert(shaped@ =~= whole.take(max_len as int));
        }
    }
    if !(channel_is_voice && nonbot_occupants > 0) {
        return GateOutcome { marker, speak: None };
    }
    let spoken = text::chars_to_string(&shaped);
    GateOutcome { marker, speak: Some(spoken) }
}

} // verus!
