//! What the application shows of itself: whether it listens, thinks or
//! speaks.

use vstd::prelude::*;

verus! {

/// The flags of the application and the session it talks to.
#[derive(Debug)]
pub struct AppState {
    pub is_listening: bool,
    pub is_speaking: bool,
    pub is_processing: bool,
    pub current_session_id: Option<String>,
}

impl Default for AppState {
    /// No flag is raised and there is no session.
    fn default() -> (state: Self)
        ensures
            !state.is_listening,
            !state.is_speaking,
            !state.is_processing,
            state.current_session_id is None,
    {
        AppState {
            is_listening: false,
            is_speaking: false,
            is_processing: false,
            current_session_id: None,
        }
    }
}

/// The one thing that the application is doing.
#[derive(Clone, Copy, Debug, PartialEq, Eq, Structural)]
pub enum VoiceState {
    Idle,
    Listening,
    Processing,
    Speaking,
}

/// The voice state that the flags stand for: listening comes before
/// processing, and processing before speaking.
pub open spec fn voice_state_of(state: AppState) -> VoiceState {
    if state.is_listening {
        VoiceState::Listening
    } else if state.is_processing {
        VoiceState::Processing
    } else if state.is_speaking {
        VoiceState::Speaking
    } else {
        VoiceState::Idle
    }
}

/// The voice state that the flags stand for.
pub fn get_voice_state(state: &AppState) -> (voice_state: VoiceState)
    ensures
        voice_state == voice_state_of(*state),
{
    if state.is_listening {
        VoiceState::Listening
    } else if state.is_processing {
        VoiceState::Processing
    } else if state.is_speaking {
        VoiceState::Speaking
    } else {
        VoiceState::Idle
    }
}

/// Sets the flags to stand for `voice_state`: its flag alone is raised, and
/// none for `Idle`. The session stays.
pub fn set_voice_state(state: &mut AppState, voice_state: VoiceState)
    ensures
        final(state).is_listening == (voice_state == VoiceState::Listening),
        final(state).is_processing == (voice_state == VoiceState::Processing),
        final(state).is_speaking == (voice_state == VoiceState::Speaking),
        final(state).current_session_id == old(state).current_session_id,
        voice_state_of(*final(state)) == voice_state,
{
    match voice_state {
        VoiceState::Idle => {
            state.is_listening = false;
            state.is_processing = false;
            state.is_speaking = false;
        },
        VoiceState::Listening => {
            state.is_listening = true;
            state.is_processing = false;
            state.is_speaking = false;
        },
        VoiceState::Processing => {
            state.is_listening = false;
            state.is_processing = true;
            state.is_speaking = false;
        },
        VoiceState::Speaking => {
            state.is_listening = false;
            state.is_processing = false;
            state.is_speaking = true;
        },
    }
}

/// The file name of the tray icon that shows a voice state.
pub open spec fn tray_icon_of(voice_state: VoiceState) -> Seq<char> {
    match voice_state {
        VoiceState::Idle => "icon.png"@,
        VoiceState::Listening => "icon-listening.png"@,
        VoiceState::Processing => "icon-processing.png"@,
        VoiceState::Speaking => "icon-speaking.png"@,
    }
}

/// The file name of the tray icon that shows `voice_state`.
pub fn tray_icon_name(voice_state: VoiceState) -> (name: &'static str)
    ensures
        name@ == tray_icon_of(voice_state),
{
    match voice_state {
        VoiceState::Idle => "icon.png",
        VoiceState::Listening => "icon-listening.png",
        VoiceState::Processing => "icon-processing.png",
        VoiceState::Speaking => "icon-speaking.png",
    }
}

/// The name under which a voice state is announced.
pub open spec fn voice_state_label(voice_state: VoiceState) -> Seq<char> {
    match voice_state {
        VoiceState::Idle => "idle"@,
        VoiceState::Listening => "listening"@,
        VoiceState::Processing => "processing"@,
        VoiceState::Speaking => "speaking"@,
    }
}

/// The name under which `voice_state` is announced.
pub fn voice_state_name(voice_state: VoiceState) -> (name: &'static str)
    ensures
        name@ == voice_state_label(voice_state),
{
    match voice_state {
        VoiceState::Idle => "idle",
        VoiceState::Listening => "listening",
        VoiceState::Processing => "processing",
        VoiceState::Speaking => "speaking",
    }
}

} // verus!
