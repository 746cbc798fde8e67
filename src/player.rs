//! Decisions of the capture/playback loop: how each playback command changes
//! the loop's state and what it asks of the audio hardware.
use vstd::prelude::*;

verus! {

pub const SAMPLE_RATE: u32 = 16000;

/// One microphone read: 10 ms of 16-bit mono audio.
pub const MIC_FRAME_BYTES: usize = 320;

/// Microphone reads made in one turn while no command is waiting.
pub const MIC_BURST_READS: usize = 10;

/// Pause after the end of a reply, before capture resumes.
pub const END_GUARD_MS: u64 = 300;

/// Pause when a turn produced nothing.
pub const IDLE_BACKOFF_MS: u64 = 100;

/// Work for the capture/playback loop.
#[derive(Debug)]
pub enum PlayerCommand {
    /// Play the greeting clip, then acknowledge.
    Hello,
    /// Start a new greeting clip.
    SetHelloStart,
    /// Append to the greeting clip.
    SetHelloChunk(Vec<u8>),
    /// The greeting clip is complete: play it.
    SetHelloEnd,
    /// A reply starts: stop capturing.
    Start,
    /// Reply audio to play.
    Chunk(Vec<u8>),
    /// The reply is over: acknowledge and resume capture.
    End,
}

/// What the loop does for one command, in this order: play `play` on the
/// hardware, signal the acknowledgment if `ack`, then sleep `pause_ms`.
#[derive(Debug)]
pub struct Reaction {
    pub play: Option<Vec<u8>>,
    pub ack: bool,
    pub pause_ms: u64,
}

/// State of the capture/playback loop.
#[derive(Debug)]
pub struct Player {
    /// A reply is being rendered: the microphone is not read meanwhile.
    pub speaking: bool,
    /// The greeting clip.
    pub hello: Vec<u8>,
}

/// The reaction plays exactly `clip` and does nothing else.
pub open spec fn plays_only(r: Reaction, clip: Seq<u8>) -> bool {
    &&& r.play matches Some(v) && v@ == clip
    &&& !r.ack
    &&& r.pause_ms == 0
}

/// The reaction does nothing.
pub open spec fn idle(r: Reaction) -> bool {
    r.play is None && !r.ack && r.pause_ms == 0
}

/// How the loop's state changes on a command, and what it does.
pub open spec fn handles(pre: Player, cmd: PlayerCommand, post: Player, r: Reaction) -> bool {
    match cmd {
        PlayerCommand::Hello => {
            &&& r.play matches Some(v) && v@ == pre.hello@
            &&& r.ack
            &&& r.pause_ms == 0
            &&& !post.speaking
            &&& post.hello@ == pre.hello@
        },
        PlayerCommand::SetHelloStart => {
            &&& idle(r)
            &&& post.speaking == pre.speaking
            &&& post.hello@ == Seq::<u8>::empty()
        },
        PlayerCommand::SetHelloChunk(d) => {
            &&& idle(r)
            &&& post.speaking == pre.speaking
            &&& post.hello@ == pre.hello@ + d@
        },
        PlayerCommand::SetHelloEnd => {
            &&& plays_only(r, pre.hello@)
            &&& post.speaking == pre.speaking
            &&& post.hello@ == pre.hello@
        },
        PlayerCommand::Start => {
            &&& idle(r)
            &&& post.speaking
            &&& post.hello@ == pre.hello@
        },
        PlayerCommand::Chunk(d) => {
            &&& if pre.speaking {
                plays_only(r, d@)
            } else {
                idle(r)
            }
            &&& post.speaking == pre.speaking
            &&& post.hello@ == pre.hello@
        },
        PlayerCommand::End => {
            &&& r.play is None
            &&& r.ack
            &&& r.pause_ms == END_GUARD_MS
            &&& !post.speaking
            &&& post.hello@ == pre.hello@
        },
    }
}

impl Player {
    pub fn new(hello: Vec<u8>) -> (r: Player)
        ensures
            !r.speaking,
            r.hello@ == hello@,
    {
        Player { speaking: false, hello }
    }

    /// The loop reads the microphone only while no reply is rendering.
    pub fn reads_mic(&self) -> (r: bool)
        ensures
            r == !self.speaking,
    {
        !self.speaking
    }

    pub fn handle(&mut self, cmd: PlayerCommand) -> (r: Reaction)
        ensures
            handles(*old(self), cmd, *final(self), r),
    {
        match cmd {
            PlayerCommand::Hello => {
                self.speaking = false;
                Reaction { play: Some(self.hello.clone()), ack: true, pause_ms: 0 }
            },
            PlayerCommand::SetHelloStart => {
                self.hello = Vec::new();
                Reaction { play: None, ack: false, pause_ms: 0 }
            },
            PlayerCommand::SetHelloChunk(d) => {
                let mut d = d;
                self.hello.append(&mut d);
                Reaction { play: None, ack: false, pause_ms: 0 }
            },
            PlayerCommand::SetHelloEnd => {
                Reaction { play: Some(self.hello.clone()), ack: false, pause_ms: 0 }
            },
            PlayerCommand::Start => {
                self.speaking = true;
                Reaction { play: None, ack: false, pause_ms: 0 }
            },
            PlayerCommand::Chunk(d) => {
                if self.speaking {
                    Reaction { play: Some(d), ack: false, pause_ms: 0 }
                } else {
                    Reaction { play: None, ack: false, pause_ms: 0 }
                }
            },
            PlayerCommand::End => {
                self.speaking = false;
                Reaction { play: None, ack: true, pause_ms: END_GUARD_MS }
            },
        }
    }
}

} // verus!
