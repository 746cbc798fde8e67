//! Events that reach the interaction state machine.
use vstd::prelude::*;

verus! {

/// Device-local signals: wake word and button outcomes.
#[derive(Clone, Copy, Debug, PartialEq, Eq, Structural)]
pub enum Signal {
    /// The wake word.
    Gaia,
    No,
    Yes,
    Noise,
    Reset,
    Unknown,
    /// A short press of the main button; it acts as the wake word.
    K0,
    /// The main button released after being held for the long-press window.
    K0Long,
    K1,
    K2,
}

/// Events of the remote protocol, as decoded by the connection.
#[derive(Debug)]
pub enum ServerEvent {
    ASR { text: String },
    Action { action: String },
    StartAudio { text: String },
    AudioChunk { data: Vec<u8> },
    EndAudio,
    EndResponse,
    HelloStart,
    HelloChunk { data: Vec<u8> },
    HelloEnd,
    BGStart,
    BGChunk { data: Vec<u8> },
    BGEnd,
    StartVideo,
    EndVideo,
}

/// One event of the merged stream that the state machine consumes.
#[derive(Debug)]
pub enum Event {
    Event(Signal),
    ServerEvent(ServerEvent),
    /// A piece of detected speech from the microphone.
    MicAudioChunk(Vec<u8>),
    /// The end of a run of detected speech.
    MicAudioEnd,
}

impl Signal {
    /// The signal wakes the device (or puts a listening device back to idle).
    pub open spec fn wakes(self) -> bool {
        self == Signal::Gaia || self == Signal::K0
    }

    pub fn is_wake(&self) -> (r: bool)
        ensures
            r == self.wakes(),
    {
        matches!(self, Signal::Gaia | Signal::K0)
    }
}

} // verus!
