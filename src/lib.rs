//! Core of a voice-assistant appliance: the interaction state machine, the
//! speech segmenter, the playback command handling and the reply download
//! speed meter.
use vstd::prelude::*;

pub mod afe;
pub mod event;
pub mod interaction;
pub mod metrics;
pub mod player;
pub mod segmenter;

verus! {

/// Device settings kept in persistent storage.
#[derive(Debug)]
pub struct Setting {
    pub ssid: String,
    pub pass: String,
    pub server_url: String,
    /// Background image data, and whether it was received completely.
    pub background_gif: (Vec<u8>, bool),
}

impl Clone for Setting {
    fn clone(&self) -> (r: Setting)
        ensures
            r.ssid@ == self.ssid@,
            r.pass@ == self.pass@,
            r.server_url@ == self.server_url@,
            r.background_gif.0@ == self.background_gif.0@,
            r.background_gif.1 == self.background_gif.1,
    {
        Setting {
            ssid: self.ssid.clone(),
            pass: self.pass.clone(),
            server_url: self.server_url.clone(),
            background_gif: (self.background_gif.0.clone(), self.background_gif.1),
        }
    }
}

impl Setting {
    /// The device must be set up before it can run: a setting is missing, or
    /// the user holds the setup button at start.
    pub fn needs_setup(&self, button_held: bool) -> (r: bool)
        ensures
            r == (self.ssid@.len() == 0 || self.pass@.len() == 0 || self.server_url@.len() == 0
                || button_held),
    {
        self.ssid.as_str().is_empty() || self.pass.as_str().is_empty()
            || self.server_url.as_str().is_empty() || button_held
    }
}

} // verus!
