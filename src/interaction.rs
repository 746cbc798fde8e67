//! The interaction state machine: consumes the merged event stream, moves the
//! device between its states, and says what to send to the server, what to
//! hand to the playback loop and what to show.
//!
//! The machine does no I/O. Each call returns the actions to perform, in
//! order. After an action that asks for an acknowledgment from the playback
//! loop, the caller waits for it and reports it with `acknowledge` before the
//! next event.
use vstd::prelude::*;
use crate::event::{Event, ServerEvent, Signal};
use crate::metrics::{sat_add, DownloadMetrics, Speed};
use crate::player::PlayerCommand;

verus! {

/// Microphone audio is sent to the server in batches of at least this size.
pub const FLUSH_BYTES: usize = 8192;

/// An utterance shorter than one second of audio is dropped.
pub const MIN_SUBMIT_BYTES: u64 = 32000;

#[derive(Clone, Copy, Debug, PartialEq, Eq, Structural)]
pub enum State {
    Listening,
    Recording,
    Wait,
    Speaking,
    Idle,
}

/// An acknowledgment the machine waits for from the playback loop.
#[derive(Clone, Copy, Debug, PartialEq, Eq, Structural)]
pub enum Ack {
    /// The greeting clip has been played.
    Hello,
    /// The reply has been played.
    End,
}

/// Which end marker closes an utterance.
#[derive(Clone, Copy, Debug, PartialEq, Eq, Structural)]
pub enum EndKind {
    Normal,
    Recording,
}

impl EndKind {
    /// The text frame sent to the server.
    pub fn marker(&self) -> (r: &'static str)
        ensures
            *self == EndKind::Normal ==> r@ == "End:Normal"@,
            *self == EndKind::Recording ==> r@ == "End:Recording"@,
    {
        match self {
            EndKind::Normal => "End:Normal",
            EndKind::Recording => "End:Recording",
        }
    }
}

/// What the display shows.
#[derive(Debug)]
pub enum Screen {
    Idle,
    Listening,
    Recording,
    Asr(String),
    Action(String),
    Speaking { speed: Speed, text: String },
}

/// One thing for the caller to do.
#[derive(Debug)]
pub enum Action {
    /// Send a binary frame of microphone audio to the server.
    SendAudio(Vec<u8>),
    /// Send the end marker of an utterance to the server.
    SendEnd(EndKind),
    /// Hand a command to the playback loop.
    Play(PlayerCommand),
    /// Update the display.
    Show(Screen),
    /// Replace the display's background image.
    SetBackground(Vec<u8>),
}

pub enum CommandView {
    Hello,
    SetHelloStart,
    SetHelloChunk(Seq<u8>),
    SetHelloEnd,
    Start,
    Chunk(Seq<u8>),
    End,
}

pub enum ScreenView {
    Idle,
    Listening,
    Recording,
    Asr(Seq<char>),
    Action(Seq<char>),
    Speaking(Speed, Seq<char>),
}

pub enum ActionView {
    SendAudio(Seq<u8>),
    SendEnd(EndKind),
    Play(CommandView),
    Show(ScreenView),
    SetBackground(Seq<u8>),
}

impl View for PlayerCommand {
    type V = CommandView;

    open spec fn view(&self) -> CommandView {
        match self {
            PlayerCommand::Hello => CommandView::Hello,
            PlayerCommand::SetHelloStart => CommandView::SetHelloStart,
            PlayerCommand::SetHelloChunk(d) => CommandView::SetHelloChunk(d@),
            PlayerCommand::SetHelloEnd => CommandView::SetHelloEnd,
            PlayerCommand::Start => CommandView::Start,
            PlayerCommand::Chunk(d) => CommandView::Chunk(d@),
            PlayerCommand::End => CommandView::End,
        }
    }
}

impl View for Screen {
    type V = ScreenView;

    open spec fn view(&self) -> ScreenView {
        match self {
            Screen::Idle => ScreenView::Idle,
            Screen::Listening => ScreenView::Listening,
            Screen::Recording => ScreenView::Recording,
            Screen::Asr(t) => ScreenView::Asr(t@),
            Screen::Action(t) => ScreenView::Action(t@),
            Screen::Speaking { speed, text } => ScreenView::Speaking(*speed, text@),
        }
    }
}

impl View for Action {
    type V = ActionView;

    open spec fn view(&self) -> ActionView {
        match self {
            Action::SendAudio(d) => ActionView::SendAudio(d@),
            Action::SendEnd(k) => ActionView::SendEnd(*k),
            Action::Play(c) => ActionView::Play(c@),
            Action::Show(s) => ActionView::Show(s@),
            Action::SetBackground(d) => ActionView::SetBackground(d@),
        }
    }
}

/// The views of a list of actions.
pub open spec fn views(actions: Seq<Action>) -> Seq<ActionView> {
    actions.map_values(|a: Action| a@)
}

/// The machine as a mathematical value.
pub struct MachineView {
    pub state: State,
    pub pending: Option<Ack>,
    /// Bytes of microphone audio taken into the current utterance.
    pub submit_bytes: u64,
    /// Microphone audio not yet sent.
    pub mic_buffer: Seq<u8>,
    /// Reply audio held back for playback in one piece.
    pub reply_buffer: Seq<u8>,
    /// Background image being received.
    pub background: Seq<u8>,
    pub metrics: DownloadMetrics,
    /// The next reply is to be measured.
    pub need_compute: bool,
    /// The last measured speed ratio.
    pub speed: Speed,
}

/// The interaction state machine.
pub struct Machine {
    pub state: State,
    pub pending: Option<Ack>,
    pub submit_bytes: u64,
    pub mic_buffer: Vec<u8>,
    pub reply_buffer: Vec<u8>,
    pub background: Vec<u8>,
    pub metrics: DownloadMetrics,
    pub need_compute: bool,
    pub speed: Speed,
}

impl View for Machine {
    type V = MachineView;

    open spec fn view(&self) -> MachineView {
        MachineView {
            state: self.state,
            pending: self.pending,
            submit_bytes: self.submit_bytes,
            mic_buffer: self.mic_buffer@,
            reply_buffer: self.reply_buffer@,
            background: self.background@,
            metrics: self.metrics,
            need_compute: self.need_compute,
            speed: self.speed,
        }
    }
}

/// Microphone audio is taken in these states.
pub open spec fn capturing(s: State) -> bool {
    s == State::Listening || s == State::Recording
}

pub open spec fn end_kind(s: State) -> EndKind {
    if s == State::Listening {
        EndKind::Normal
    } else {
        EndKind::Recording
    }
}

pub open spec fn metrics_reset(m: DownloadMetrics, now_ms: u64) -> DownloadMetrics {
    DownloadMetrics { start_ms: now_ms, data_size: 0, started: true, ..m }
}

pub open spec fn metrics_added(m: DownloadMetrics, size: u64) -> DownloadMetrics {
    DownloadMetrics { data_size: sat_add(m.data_size, size), ..m }
}

/// A signal from the device.
pub open spec fn on_signal(v: MachineView, sig: Signal) -> (MachineView, Seq<ActionView>) {
    if sig.wakes() {
        if v.state == State::Listening {
            (MachineView { state: State::Idle, ..v }, seq![ActionView::Show(ScreenView::Idle)])
        } else {
            (
                MachineView { pending: Some(Ack::Hello), ..v },
                seq![ActionView::Play(CommandView::Hello)],
            )
        }
    } else if sig == Signal::K0Long && (v.state == State::Idle || v.state == State::Listening) {
        (
            MachineView { state: State::Recording, submit_bytes: 0, ..v },
            seq![ActionView::Show(ScreenView::Recording)],
        )
    } else {
        (v, seq![])
    }
}

/// A piece of detected speech.
pub open spec fn on_mic_chunk(v: MachineView, data: Seq<u8>) -> (MachineView, Seq<ActionView>) {
    if capturing(v.state) {
        let buf = v.mic_buffer + data;
        let submitted = sat_add(v.submit_bytes, data.len() as u64);
        if buf.len() >= FLUSH_BYTES {
            (
                MachineView { mic_buffer: seq![], submit_bytes: submitted, ..v },
                seq![ActionView::SendAudio(buf)],
            )
        } else {
            (MachineView { mic_buffer: buf, submit_bytes: submitted, ..v }, seq![])
        }
    } else {
        (v, seq![])
    }
}

/// The end of a run of detected speech.
pub open spec fn on_mic_end(v: MachineView, now_ms: u64) -> (MachineView, Seq<ActionView>) {
    if capturing(v.state) && v.submit_bytes >= MIN_SUBMIT_BYTES {
        let flush = if v.mic_buffer.len() > 0 {
            seq![ActionView::SendAudio(v.mic_buffer)]
        } else {
            seq![]
        };
        (
            MachineView {
                mic_buffer: seq![],
                submit_bytes: 0,
                need_compute: v.metrics.timed_out_at(now_ms),
                ..v
            },
            flush.push(ActionView::SendEnd(end_kind(v.state))),
        )
    } else {
        (MachineView { submit_bytes: 0, ..v }, seq![])
    }
}

/// The end of a reply's audio: measure if due, release held-back audio, and
/// ask the playback loop to finish.
pub open spec fn on_end_audio(v: MachineView, now_ms: u64) -> (MachineView, Seq<ActionView>) {
    let speed = if v.need_compute {
        v.metrics.speed_at(now_ms)
    } else {
        v.speed
    };
    let flush = speed.above_one() && v.reply_buffer.len() > 0;
    (
        MachineView {
            speed,
            need_compute: false,
            reply_buffer: if flush {
                seq![]
            } else {
                v.reply_buffer
            },
            pending: Some(Ack::End),
            ..v
        },
        (if flush {
            seq![ActionView::Play(CommandView::Chunk(v.reply_buffer))]
        } else {
            seq![]
        }).push(ActionView::Play(CommandView::End)),
    )
}

/// An event of the remote protocol.
pub open spec fn on_server(v: MachineView, e: ServerEvent, now_ms: u64) -> (
    MachineView,
    Seq<ActionView>,
) {
    match e {
        ServerEvent::ASR { text } => (v, seq![ActionView::Show(ScreenView::Asr(text@))]),
        ServerEvent::Action { action } => (
            v,
            seq![ActionView::Show(ScreenView::Action(action@))],
        ),
        ServerEvent::StartAudio { text } => (
            MachineView {
                state: State::Speaking,
                metrics: if v.need_compute {
                    metrics_reset(v.metrics, now_ms)
                } else {
                    v.metrics
                },
                ..v
            },
            seq![
                ActionView::Show(ScreenView::Speaking(v.speed, text@)),
                ActionView::Play(CommandView::Start),
            ],
        ),
        ServerEvent::AudioChunk { data } => if v.state != State::Speaking {
            (v, seq![])
        } else {
            let metrics = if v.need_compute {
                metrics_added(v.metrics, data@.len() as u64)
            } else {
                v.metrics
            };
            if v.speed.above_one() {
                (
                    MachineView { metrics, reply_buffer: v.reply_buffer + data@, ..v },
                    seq![],
                )
            } else {
                (
                    MachineView { metrics, ..v },
                    seq![ActionView::Play(CommandView::Chunk(data@))],
                )
            }
        },
        ServerEvent::EndAudio => on_end_audio(v, now_ms),
        ServerEvent::EndResponse => (
            MachineView { state: State::Listening, ..v },
            seq![ActionView::Show(ScreenView::Listening)],
        ),
        ServerEvent::HelloStart => (v, seq![ActionView::Play(CommandView::SetHelloStart)]),
        ServerEvent::HelloChunk { data } => (
            v,
            seq![ActionView::Play(CommandView::SetHelloChunk(data@))],
        ),
        ServerEvent::HelloEnd => (v, seq![ActionView::Play(CommandView::SetHelloEnd)]),
        ServerEvent::BGStart => (MachineView { background: seq![], ..v }, seq![]),
        ServerEvent::BGChunk { data } => (
            MachineView { background: v.background + data@, ..v },
            seq![],
        ),
        ServerEvent::BGEnd => if v.background.len() > 0 {
            (
                MachineView { background: seq![], ..v },
                seq![ActionView::SetBackground(v.background)],
            )
        } else {
            (v, seq![])
        },
        ServerEvent::StartVideo => (v, seq![]),
        ServerEvent::EndVideo => (v, seq![]),
    }
}

/// The machine's next value and its actions for one event.
pub open spec fn next(v: MachineView, evt: Event, now_ms: u64) -> (MachineView, Seq<ActionView>) {
    match evt {
        Event::Event(sig) => on_signal(v, sig),
        Event::MicAudioChunk(data) => on_mic_chunk(v, data@),
        Event::MicAudioEnd => on_mic_end(v, now_ms),
        Event::ServerEvent(e) => on_server(v, e, now_ms),
    }
}

/// The machine's next value and its actions when the awaited acknowledgment
/// arrives.
pub open spec fn acknowledged(v: MachineView) -> (MachineView, Seq<ActionView>) {
    match v.pending {
        Some(Ack::Hello) => (
            MachineView { state: State::Listening, pending: None, ..v },
            seq![ActionView::Show(ScreenView::Listening)],
        ),
        Some(Ack::End) => (MachineView { pending: None, ..v }, seq![]),
        None => (v, seq![]),
    }
}

fn none() -> (r: Vec<Action>)
    ensures
        views(r@) == Seq::<ActionView>::empty(),
{
    let r: Vec<Action> = Vec::new();
    assert(views(r@) =~= Seq::<ActionView>::empty());
    r
}

fn one(a: Action) -> (r: Vec<Action>)
    ensures
        views(r@) == seq![a@],
{
    let mut r: Vec<Action> = Vec::new();
    r.push(a);
    assert(views(r@) =~= seq![a@]);
    r
}

fn two(a: Action, b: Action) -> (r: Vec<Action>)
    ensures
        views(r@) == seq![a@, b@],
{
    let mut r: Vec<Action> = Vec::new();
    r.push(a);
    r.push(b);
    assert(views(r@) =~= seq![a@, b@]);
    r
}

impl Machine {
    pub fn new(now_ms: u64) -> (r: Machine)
        ensures
            r@.state == State::Idle,
            r@.pending is None,
            r@.submit_bytes == 0,
            r@.mic_buffer == Seq::<u8>::empty(),
            r@.reply_buffer == Seq::<u8>::empty(),
            r@.background == Seq::<u8>::empty(),
            r@.metrics == DownloadMetrics::new_spec(now_ms),
            r@.need_compute,
            r@.speed == (Speed { elapsed_ms: 800, audio_bytes: 32000 }),
    {
        Machine {
            state: State::Idle,
            pending: None,
            submit_bytes: 0,
            mic_buffer: Vec::new(),
            reply_buffer: Vec::new(),
            background: Vec::new(),
            metrics: DownloadMetrics::new(now_ms),
            need_compute: true,
            speed: Speed::initial(),
        }
    }
}

impl Machine {
    fn take_mic_buffer(&mut self) -> (r: Vec<u8>)
        ensures
            r@ == old(self).mic_buffer@,
            final(self)@ == (MachineView { mic_buffer: seq![], ..old(self)@ }),
    {
        let mut out: Vec<u8> = Vec::new();
        std::mem::swap(&mut self.mic_buffer, &mut out);
        assert(final(self)@ =~= (MachineView { mic_buffer: seq![], ..old(self)@ }));
        out
    }

    fn take_reply_buffer(&mut self) -> (r: Vec<u8>)
        ensures
            r@ == old(self).reply_buffer@,
            final(self)@ == (MachineView { reply_buffer: seq![], ..old(self)@ }),
    {
        let mut out: Vec<u8> = Vec::new();
        std::mem::swap(&mut self.reply_buffer, &mut out);
        assert(final(self)@ =~= (MachineView { reply_buffer: seq![], ..old(self)@ }));
        out
    }

    fn take_background(&mut self) -> (r: Vec<u8>)
        ensures
            r@ == old(self).background@,
            final(self)@ == (MachineView { background: seq![], ..old(self)@ }),
    {
        let mut out: Vec<u8> = Vec::new();
        std::mem::swap(&mut self.background, &mut out);
        assert(final(self)@ =~= (MachineView { background: seq![], ..old(self)@ }));
        out
    }

    fn handle_signal(&mut self, sig: Signal) -> (r: Vec<Action>)
        ensures
            (final(self)@, views(r@)) == on_signal(old(self)@, sig),
    {
        if sig.is_wake() {
            if self.state == State::Listening {
                self.state = State::Idle;
                one(Action::Show(Screen::Idle))
            } else {
                self.pending = Some(Ack::Hello);
                one(Action::Play(PlayerCommand::Hello))
            }
        } else if sig == Signal::K0Long && (self.state == State::Idle || self.state
            == State::Listening) {
            self.state = State::Recording;
            self.submit_bytes = 0;
            one(Action::Show(Screen::Recording))
        } else {
            none()
        }
    }

    fn handle_mic_chunk(&mut self, data: Vec<u8>) -> (r: Vec<Action>)
        ensures
            (final(self)@, views(r@)) == on_mic_chunk(old(self)@, data@),
    {
        if self.state == State::Listening || self.state == State::Recording {
            let len = data.len() as u64;
            self.submit_bytes = self.submit_bytes.saturating_add(len);
            let mut data = data;
            self.mic_buffer.append(&mut data);
            if self.mic_buffer.len() >= FLUSH_BYTES {
                let buf = self.take_mic_buffer();
                one(Action::SendAudio(buf))
            } else {
                none()
            }
        } else {
            none()
        }
    }

    fn handle_mic_end(&mut self, now_ms: u64) -> (r: Vec<Action>)
        ensures
            (final(self)@, views(r@)) == on_mic_end(old(self)@, now_ms),
    {
        let ghost v = self@;
        if (self.state == State::Listening || self.state == State::Recording) && self.submit_bytes
            >= MIN_SUBMIT_BYTES {
            let kind = if self.state == State::Listening {
                EndKind::Normal
            } else {
                EndKind::Recording
            };
            let mut out: Vec<Action> = Vec::new();
            if self.mic_buffer.len() > 0 {
                let buf = self.take_mic_buffer();
                out.push(Action::SendAudio(buf));
            }
            out.push(Action::SendEnd(kind));
            self.submit_bytes = 0;
            self.need_compute = self.metrics.is_timeout(now_ms);
            assert(self.mic_buffer@ =~= Seq::<u8>::empty());
            let ghost flush = if v.mic_buffer.len() > 0 {
                seq![ActionView::SendAudio(v.mic_buffer)]
            } else {
                seq![]
            };
            assert(views(out@) =~= flush.push(ActionView::SendEnd(end_kind(v.state))));
            out
        } else {
            self.submit_bytes = 0;
            none()
        }
    }

    fn handle_end_audio(&mut self, now_ms: u64) -> (r: Vec<Action>)
        ensures
            (final(self)@, views(r@)) == on_end_audio(old(self)@, now_ms),
    {
        let ghost v = self@;
        if self.need_compute {
            self.speed = self.metrics.speed(now_ms);
            self.need_compute = false;
        }
        let mut out: Vec<Action> = Vec::new();
        if self.speed.exceeds_one() && self.reply_buffer.len() > 0 {
            let buf = self.take_reply_buffer();
            out.push(Action::Play(PlayerCommand::Chunk(buf)));
        }
        out.push(Action::Play(PlayerCommand::End));
        self.pending = Some(Ack::End);
        let ghost flush = if self.speed.above_one() && v.reply_buffer.len() > 0 {
            seq![ActionView::Play(CommandView::Chunk(v.reply_buffer))]
        } else {
            seq![]
        };
        assert(views(out@) =~= flush.push(ActionView::Play(CommandView::End)));
        out
    }

    fn handle_server(&mut self, e: ServerEvent, now_ms: u64) -> (r: Vec<Action>)
        ensures
            (final(self)@, views(r@)) == on_server(old(self)@, e, now_ms),
    {
        match e {
            ServerEvent::ASR { text } => one(Action::Show(Screen::Asr(text))),
            ServerEvent::Action { action } => one(Action::Show(Screen::Action(action))),
            ServerEvent::StartAudio { text } => {
                if self.need_compute {
                    self.metrics.reset(now_ms);
                }
                self.state = State::Speaking;
                two(
                    Action::Show(Screen::Speaking { speed: self.speed, text }),
                    Action::Play(PlayerCommand::Start),
                )
            },
            ServerEvent::AudioChunk { data } => {
                if self.state != State::Speaking {
                    return none();
                }
                if self.need_compute {
                    self.metrics.add_data(data.len() as u64);
                }
                if self.speed.exceeds_one() {
                    let mut data = data;
                    self.reply_buffer.append(&mut data);
                    none()
                } else {
                    one(Action::Play(PlayerCommand::Chunk(data)))
                }
            },
            ServerEvent::EndAudio => self.handle_end_audio(now_ms),
            ServerEvent::EndResponse => {
                self.state = State::Listening;
                one(Action::Show(Screen::Listening))
            },
            ServerEvent::HelloStart => one(Action::Play(PlayerCommand::SetHelloStart)),
            ServerEvent::HelloChunk { data } => one(Action::Play(PlayerCommand::SetHelloChunk(data))),
            ServerEvent::HelloEnd => one(Action::Play(PlayerCommand::SetHelloEnd)),
            ServerEvent::BGStart => {
                self.background = Vec::new();
                none()
            },
            ServerEvent::BGChunk { data } => {
                let mut data = data;
                self.background.append(&mut data);
                none()
            },
            ServerEvent::BGEnd => {
                if self.background.len() > 0 {
                    let bg = self.take_background();
                    one(Action::SetBackground(bg))
                } else {
                    none()
                }
            },
            ServerEvent::StartVideo => none(),
            ServerEvent::EndVideo => none(),
        }
    }

    /// Takes one event of the merged stream and returns the actions to
    /// perform, in order. No event is taken while an acknowledgment is
    /// awaited.
    pub fn step(&mut self, evt: Event, now_ms: u64) -> (r: Vec<Action>)
        requires
            old(self).pending is None,
        ensures
            (final(self)@, views(r@)) == next(old(self)@, evt, now_ms),
    {
        match evt {
            Event::Event(sig) => self.handle_signal(sig),
            Event::MicAudioChunk(data) => self.handle_mic_chunk(data),
            Event::MicAudioEnd => self.handle_mic_end(now_ms),
            Event::ServerEvent(e) => self.handle_server(e, now_ms),
        }
    }

    /// Whether the machine waits for an acknowledgment from the playback loop.
    pub fn awaits_ack(&self) -> (r: bool)
        ensures
            r == self.pending is Some,
    {
        self.pending.is_some()
    }

    /// Reports the awaited acknowledgment and returns the actions it leads to.
    pub fn acknowledge(&mut self) -> (r: Vec<Action>)
        ensures
            (final(self)@, views(r@)) == acknowledged(old(self)@),
    {
        match self.pending {
            Some(Ack::Hello) => {
                self.state = State::Listening;
                self.pending = None;
                one(Action::Show(Screen::Listening))
            },
            Some(Ack::End) => {
                self.pending = None;
                none()
            },
            None => none(),
        }
    }
}

/// A wake signal while listening puts the device back to idle and asks for
/// no greeting. From any other state it asks for the greeting exactly once and
/// leaves the state as it was: the device starts listening only when the
/// playback loop acknowledges the greeting.
pub proof fn lemma_wake_toggles(v: MachineView, sig: Signal, now_ms: u64)
    requires
        sig.wakes(),
    ensures
        v.state == State::Listening ==> next(v, Event::Event(sig), now_ms) == (
            MachineView { state: State::Idle, ..v },
            seq![ActionView::Show(ScreenView::Idle)],
        ),
        v.state != State::Listening ==> {
            let (w, out) = next(v, Event::Event(sig), now_ms);
            &&& out == seq![ActionView::Play(CommandView::Hello)]
            &&& w.state == v.state
            &&& w.pending == Some(Ack::Hello)
            &&& acknowledged(w).0.state == State::Listening
            &&& acknowledged(w).0.pending is None
        },
{
}

/// The end of a reply always asks the playback loop to finish last, and the
/// machine then waits for its acknowledgment; the acknowledgment changes
/// nothing else.
pub proof fn lemma_end_waits_for_ack(v: MachineView, now_ms: u64)
    ensures
        ({
            let (w, out) = next(v, Event::ServerEvent(ServerEvent::EndAudio), now_ms);
            &&& out.len() >= 1
            &&& out.last() == ActionView::Play(CommandView::End)
            &&& w.pending == Some(Ack::End)
            &&& w.state == v.state
            &&& acknowledged(w) == (MachineView { pending: None, ..w }, Seq::<ActionView>::empty())
        }),
{
}

/// An utterance of less than a second of audio is dropped at its end: nothing
/// is sent, the buffer is kept as it is, and the submit counter goes back to
/// zero.
pub proof fn lemma_short_utterance_dropped(v: MachineView, now_ms: u64)
    requires
        v.submit_bytes < MIN_SUBMIT_BYTES,
    ensures
        next(v, Event::MicAudioEnd, now_ms) == (
            MachineView { submit_bytes: 0, ..v },
            Seq::<ActionView>::empty(),
        ),
{
}

/// Microphone audio goes out only in batches of at least `FLUSH_BYTES`, and
/// what stays buffered is shorter than that.
pub proof fn lemma_mic_batches(v: MachineView, data: Seq<u8>)
    requires
        v.mic_buffer.len() < FLUSH_BYTES,
    ensures
        ({
            let (w, out) = on_mic_chunk(v, data);
            &&& w.mic_buffer.len() < FLUSH_BYTES
            &&& forall|i: int|
                0 <= i < out.len() ==> (#[trigger] out[i] matches ActionView::SendAudio(b) && b.len()
                    >= FLUSH_BYTES)
        }),
{
}

} // verus!
