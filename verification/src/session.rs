//! The per-guild voice-session state machine: a session is either absent or
//! connected to one voice channel, deafened or not. Qualifying messages
//! drive join/switch/deafen; roster changes drive leave; playback is
//! accepted only while connected. The transition table here is the single
//! source of truth for session lifecycle decisions.

use vstd::prelude::*;

verus! {

/// Per-guild live voice-connection state.
#[derive(Debug, Clone, Copy, PartialEq, Eq, Structural)]
pub enum SessionState {
    /// No live connection.
    Absent,
    /// Bound to one voice channel.
    Connected { channel: u64, deafened: bool },
}

/// What the connection boundary is asked to do for a qualifying message.
#[derive(Debug, Clone, Copy, PartialEq, Eq, Structural)]
pub enum JoinAction {
    /// Already bound to the message's channel: nothing to do.
    Stay,
    /// Absent: join the channel.
    Join { channel: u64 },
    /// Bound to a different channel: switch to the message's channel.
    Switch { channel: u64 },
}

/// The state after a qualifying message for `channel`: always connected to
/// that channel and deafened.
pub open spec fn message_transition(state: SessionState, channel: u64) -> SessionState {
    SessionState::Connected { channel, deafened: true }
}

/// The join action a qualifying message for `channel` requires.
pub open spec fn message_action(state: SessionState, channel: u64) -> JoinAction {
    match state {
        SessionState::Absent => JoinAction::Join { channel },
        SessionState::Connected { channel: bound, deafened } => if bound == channel {
            JoinAction::Stay
        } else {
            JoinAction::Switch { channel }
        },
    }
}

/// Whether a deafen call is needed: deafening is idempotent and never
/// undone, so it is requested exactly when the session is not already
/// deafened.
pub open spec fn needs_deafen(state: SessionState) -> bool {
    match state {
        SessionState::Absent => true,
        SessionState::Connected { channel, deafened } => !deafened,
    }
}

/// The state after a roster change that leaves `nonbot_occupants`
/// non-bot occupants in the session's bound channel: a connected session
/// whose channel has emptied is left; anything else is unchanged.
pub open spec fn roster_transition(state: SessionState, nonbot_occupants: int) -> SessionState {
    if state is Connected && nonbot_occupants == 0 {
        SessionState::Absent
    } else {
        state
    }
}

impl SessionState {
    /// Decides what a qualifying message for `channel` does to the
    /// session: the resulting state, the join action to perform, and
    /// whether to deafen. Absent sessions join; sessions bound elsewhere
    /// switch; sessions bound to the channel stay.
    pub fn on_qualifying_message(&self, channel: u64) -> (r: (SessionState, JoinAction, bool))
        ensures
            r.0 == message_transition(*self, channel),
            r.1 == message_action(*self, channel),
            r.2 == needs_deafen(*self),
    {
        let action = match *self {
            SessionState::Absent => JoinAction::Join { channel },
            SessionState::Connected { channel: bound, deafened } => if bound == channel {
                JoinAction::Stay
            } else {
                JoinAction::Switch { channel }
            },
        };
        let deafen = match *self {
            SessionState::Absent => true,
            SessionState::Connected { channel: _, deafened } => !deafened,
        };
        (SessionState::Connected { channel, deafened: true }, action, deafen)
    }

    /// Decides what a roster change in the session's bound channel does:
    /// when no non-bot occupant is left, the session leaves (the returned
    /// flag asks the connection boundary to disconnect); otherwise nothing
    /// changes.
    pub fn on_roster_change(&self, nonbot_occupants: usize) -> (r: (SessionState, bool))
        ensures
            r.0 == roster_transition(*self, nonbot_occupants as int),
            r.1 == (*self is Connected && nonbot_occupants == 0),
    {
        match *self {
            SessionState::Connected { channel, deafened } => {
                if nonbot_occupants == 0 {
                    (SessionState::Absent, true)
                } else {
                    (*self, false)
                }
            },
            SessionState::Absent => (SessionState::Absent, false),
        }
    }

    /// The state after a failed join or switch: a failure may not leave the
    /// session half-connected, so it is absent.
    pub fn on_join_failure(&self) -> (r: SessionState)
        ensures
            r is Absent,
    {
        SessionState::Absent
    }

    /// Playback is accepted exactly while the session is connected.
    pub fn can_play(&self) -> (r: bool)
        ensures
            r == (*self is Connected),
    {
        match *self {
            SessionState::Connected { channel, deafened } => true,
            SessionState::Absent => false,
        }
    }
}

/// Two qualifying messages for the same channel in a row ask for at most
/// one join: after the first, the session is bound to the channel and
/// deafened, so the second changes nothing and requests no action.
pub proof fn lemma_message_idempotent(state: SessionState, channel: u64)
    ensures
        message_transition(message_transition(state, channel), channel) == message_transition(
            state,
            channel,
        ),
        message_action(message_transition(state, channel), channel) == JoinAction::Stay,
        !needs_deafen(message_transition(state, channel)),
{
}

} // verus!
