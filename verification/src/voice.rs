//! The voice session's state.

use crate::protocol::VoiceState;
use vstd::prelude::*;

verus! {

/// The state of the push-to-talk voice session.
#[derive(Clone, Debug)]
pub struct VoiceSession {
    state: VoiceState,
}

impl Default for VoiceSession {
    fn default() -> (r: Self)
        ensures
            r.state_spec() == VoiceState::Idle,
    {
        VoiceSession { state: VoiceState::Idle }
    }
}

impl VoiceSession {
    /// The current state.
    pub closed spec fn state_spec(&self) -> VoiceState {
        self.state
    }

    /// The current state.
    pub fn state(&self) -> (r: &VoiceState)
        ensures
            *r == self.state_spec(),
    {
        &self.state
    }

    /// Moves the session to `state`; reading the state afterwards gives `state`.
    pub fn set_state(&mut self, state: VoiceState)
        ensures
            final(self).state_spec() == state,
    {
        self.state = state;
    }
}

} // verus!
