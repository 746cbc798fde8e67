use echokit::event::{Event, ServerEvent, Signal};
use echokit::interaction::{Ack, Action, EndKind, Machine, Screen, State, FLUSH_BYTES};
use echokit::metrics::Speed;
use echokit::player::PlayerCommand;

fn listening_machine() -> Machine {
    let mut m = Machine::new(0);
    let out = m.step(Event::Event(Signal::Gaia), 10);
    assert_eq!(out.len(), 1);
    m.acknowledge();
    assert_eq!(m.state, State::Listening);
    m
}

fn chunk(n: usize) -> Event {
    Event::MicAudioChunk(vec![7u8; n])
}

#[test]
fn wake_from_idle_asks_for_hello_once() {
    let mut m = Machine::new(0);
    let out = m.step(Event::Event(Signal::Gaia), 10);
    assert_eq!(out.len(), 1);
    assert!(matches!(out[0], Action::Play(PlayerCommand::Hello)));
    // Not listening until the greeting is acknowledged.
    assert_eq!(m.state, State::Idle);
    assert!(m.awaits_ack());
    assert_eq!(m.pending, Some(Ack::Hello));
    let after = m.acknowledge();
    assert_eq!(m.state, State::Listening);
    assert!(!m.awaits_ack());
    assert_eq!(after.len(), 1);
    assert!(matches!(after[0], Action::Show(Screen::Listening)));
}

#[test]
fn wake_while_listening_returns_to_idle() {
    let mut m = listening_machine();
    let out = m.step(Event::Event(Signal::K0), 20);
    assert_eq!(m.state, State::Idle);
    assert!(!m.awaits_ack());
    assert_eq!(out.len(), 1);
    assert!(matches!(out[0], Action::Show(Screen::Idle)));
}

#[test]
fn delayed_ack_holds_the_machine() {
    let mut m = Machine::new(0);
    m.step(Event::Event(Signal::K0), 10);
    // However long the acknowledgment takes, the state stays put.
    assert!(m.awaits_ack());
    assert_eq!(m.state, State::Idle);
    assert!(m.awaits_ack());
    m.acknowledge();
    assert_eq!(m.state, State::Listening);
}

#[test]
fn flush_threshold() {
    let mut m = listening_machine();
    let a = m.step(chunk(4096), 100);
    assert!(a.is_empty());
    assert_eq!(m.mic_buffer.len(), 4096);
    let b = m.step(chunk(4096), 200);
    assert_eq!(b.len(), 1);
    match &b[0] {
        Action::SendAudio(data) => assert_eq!(data.len(), 8192),
        other => panic!("unexpected action {:?}", other),
    }
    assert!(m.mic_buffer.is_empty());
    let c = m.step(chunk(1), 300);
    assert!(c.is_empty());
    assert_eq!(m.mic_buffer.len(), 1);
    assert_eq!(m.submit_bytes, 8193);
    assert_eq!(FLUSH_BYTES, 8192);
}

#[test]
fn mic_end_flushes_residue_and_marks_end() {
    let mut m = listening_machine();
    m.step(chunk(30000), 100);
    assert_eq!(m.mic_buffer.len(), 0);
    m.step(chunk(2000), 200);
    m.step(chunk(5), 250);
    assert_eq!(m.mic_buffer.len(), 2005);
    let out = m.step(Event::MicAudioEnd, 300);
    assert_eq!(out.len(), 2);
    match &out[0] {
        Action::SendAudio(data) => assert_eq!(data.len(), 2005),
        other => panic!("unexpected action {:?}", other),
    }
    assert!(matches!(out[1], Action::SendEnd(EndKind::Normal)));
    assert_eq!(m.submit_bytes, 0);
    assert!(m.mic_buffer.is_empty());
}

#[test]
fn mic_end_with_exactly_one_second_marks_end() {
    let mut m = listening_machine();
    m.step(chunk(32000), 100);
    let out = m.step(Event::MicAudioEnd, 200);
    assert_eq!(out.len(), 1);
    assert!(matches!(out[0], Action::SendEnd(EndKind::Normal)));
}

#[test]
fn short_mic_end_is_dropped() {
    let mut m = listening_machine();
    m.step(chunk(5000), 100);
    assert_eq!(m.submit_bytes, 5000);
    let out = m.step(Event::MicAudioEnd, 200);
    assert!(out.is_empty());
    assert_eq!(m.submit_bytes, 0);
    assert_eq!(m.mic_buffer.len(), 5000);
}

#[test]
fn recording_ends_with_recording_marker() {
    let mut m = Machine::new(0);
    let out = m.step(Event::Event(Signal::K0Long), 10);
    assert_eq!(m.state, State::Recording);
    assert!(matches!(out[0], Action::Show(Screen::Recording)));
    m.step(chunk(40000), 100);
    let out = m.step(Event::MicAudioEnd, 200);
    assert_eq!(out.len(), 1);
    assert!(matches!(out[0], Action::SendEnd(EndKind::Recording)));
    assert_eq!(EndKind::Recording.marker(), "End:Recording");
    assert_eq!(EndKind::Normal.marker(), "End:Normal");
}

#[test]
fn mic_audio_ignored_when_idle() {
    let mut m = Machine::new(0);
    let out = m.step(chunk(10000), 10);
    assert!(out.is_empty());
    assert_eq!(m.submit_bytes, 0);
    assert!(m.mic_buffer.is_empty());
}

#[test]
fn fast_reply_streams_directly() {
    let mut m = Machine::new(0);
    let out = m.step(Event::ServerEvent(ServerEvent::StartAudio { text: "hi".to_string() }), 1000);
    assert_eq!(m.state, State::Speaking);
    assert_eq!(out.len(), 2);
    assert!(matches!(out[1], Action::Play(PlayerCommand::Start)));
    let out = m.step(Event::ServerEvent(ServerEvent::AudioChunk { data: vec![1u8; 64000] }), 1500);
    assert_eq!(out.len(), 1);
    match &out[0] {
        Action::Play(PlayerCommand::Chunk(d)) => assert_eq!(d.len(), 64000),
        other => panic!("unexpected action {:?}", other),
    }
    assert_eq!(m.metrics.data_size, 64000);
    // 1.2 s for 2 s of audio: ratio 0.6.
    let out = m.step(Event::ServerEvent(ServerEvent::EndAudio), 2200);
    assert_eq!(out.len(), 1);
    assert!(matches!(out[0], Action::Play(PlayerCommand::End)));
    assert_eq!(m.speed, Speed { elapsed_ms: 1200, audio_bytes: 64000 });
    assert!(!m.need_compute);
    assert_eq!(m.pending, Some(Ack::End));
    assert!(m.acknowledge().is_empty());
    let out = m.step(Event::ServerEvent(ServerEvent::EndResponse), 2300);
    assert_eq!(m.state, State::Listening);
    assert!(matches!(out[0], Action::Show(Screen::Listening)));
}

#[test]
fn slow_reply_is_buffered_then_played() {
    let mut m = Machine::new(0);
    m.speed = Speed { elapsed_ms: 3000, audio_bytes: 32000 };
    m.need_compute = false;
    m.step(Event::ServerEvent(ServerEvent::StartAudio { text: String::new() }), 1000);
    let a = m.step(Event::ServerEvent(ServerEvent::AudioChunk { data: vec![1u8; 100] }), 1100);
    assert!(a.is_empty());
    let b = m.step(Event::ServerEvent(ServerEvent::AudioChunk { data: vec![2u8; 50] }), 1200);
    assert!(b.is_empty());
    assert_eq!(m.reply_buffer.len(), 150);
    let out = m.step(Event::ServerEvent(ServerEvent::EndAudio), 1300);
    assert_eq!(out.len(), 2);
    match &out[0] {
        Action::Play(PlayerCommand::Chunk(d)) => {
            assert_eq!(d.len(), 150);
            assert_eq!(d[0], 1);
            assert_eq!(d[149], 2);
        }
        other => panic!("unexpected action {:?}", other),
    }
    assert!(matches!(out[1], Action::Play(PlayerCommand::End)));
    assert!(m.reply_buffer.is_empty());
}

#[test]
fn reply_chunk_ignored_when_not_speaking() {
    let mut m = Machine::new(0);
    let out = m.step(Event::ServerEvent(ServerEvent::AudioChunk { data: vec![1u8; 10] }), 5);
    assert!(out.is_empty());
    assert_eq!(m.metrics.data_size, 0);
}

#[test]
fn speed_of_one_streams() {
    let mut m = Machine::new(0);
    m.speed = Speed { elapsed_ms: 1000, audio_bytes: 32000 };
    m.need_compute = false;
    m.step(Event::ServerEvent(ServerEvent::StartAudio { text: String::new() }), 0);
    let out = m.step(Event::ServerEvent(ServerEvent::AudioChunk { data: vec![1u8; 10] }), 5);
    assert_eq!(out.len(), 1);
    assert!(matches!(out[0], Action::Play(PlayerCommand::Chunk(_))));
}

#[test]
fn hello_and_background_forwarding() {
    let mut m = Machine::new(0);
    let out = m.step(Event::ServerEvent(ServerEvent::HelloStart), 1);
    assert!(matches!(out[0], Action::Play(PlayerCommand::SetHelloStart)));
    let out = m.step(Event::ServerEvent(ServerEvent::HelloChunk { data: vec![9u8; 3] }), 2);
    match &out[0] {
        Action::Play(PlayerCommand::SetHelloChunk(d)) => assert_eq!(d, &vec![9u8; 3]),
        other => panic!("unexpected action {:?}", other),
    }
    let out = m.step(Event::ServerEvent(ServerEvent::HelloEnd), 3);
    assert!(matches!(out[0], Action::Play(PlayerCommand::SetHelloEnd)));

    assert!(m.step(Event::ServerEvent(ServerEvent::BGEnd), 4).is_empty());
    m.step(Event::ServerEvent(ServerEvent::BGStart), 5);
    m.step(Event::ServerEvent(ServerEvent::BGChunk { data: vec![1u8, 2] }), 6);
    m.step(Event::ServerEvent(ServerEvent::BGChunk { data: vec![3u8] }), 7);
    let out = m.step(Event::ServerEvent(ServerEvent::BGEnd), 8);
    match &out[0] {
        Action::SetBackground(d) => assert_eq!(d, &vec![1u8, 2, 3]),
        other => panic!("unexpected action {:?}", other),
    }
    assert!(m.background.is_empty());
}

#[test]
fn asr_text_is_shown() {
    let mut m = Machine::new(0);
    let out = m.step(Event::ServerEvent(ServerEvent::ASR { text: "hello".to_string() }), 1);
    match &out[0] {
        Action::Show(Screen::Asr(t)) => assert_eq!(t, "hello"),
        other => panic!("unexpected action {:?}", other),
    }
    assert_eq!(m.state, State::Idle);
}

#[test]
fn long_press_ignored_while_speaking() {
    let mut m = Machine::new(0);
    m.step(Event::ServerEvent(ServerEvent::StartAudio { text: String::new() }), 0);
    let out = m.step(Event::Event(Signal::K0Long), 5);
    assert!(out.is_empty());
    assert_eq!(m.state, State::Speaking);
}
