//! Turns the stream of fetches from the voice-activity engine into speech
//! segments: a maximal run of speech fetches becomes one utterance, closed by
//! the first non-speech fetch after it.
use vstd::prelude::*;
use crate::afe::AFEResult;
use crate::event::Event;

verus! {

/// What the segmenter emits for one fetch.
#[derive(Clone, Copy, Debug, PartialEq, Eq, Structural)]
pub enum Mark {
    Chunk,
    End,
}

/// What a fetch tells the segmenter: nothing (an error, or no data yet), or
/// data with its speech flag.
pub open spec fn outcome(fetched: Result<AFEResult, i32>) -> Option<bool> {
    match fetched {
        Ok(res) => if res.data@.len() > 0 {
            Some(res.speech)
        } else {
            None
        },
        Err(_) => None,
    }
}

/// The mark emitted for one outcome, given whether speech was under way.
pub open spec fn emitted(in_speech: bool, o: Option<bool>) -> Option<Mark> {
    match o {
        None => None,
        Some(true) => Some(Mark::Chunk),
        Some(false) => if in_speech {
            Some(Mark::End)
        } else {
            None
        },
    }
}

/// Whether speech is under way after one outcome.
pub open spec fn after(in_speech: bool, o: Option<bool>) -> bool {
    match o {
        None => in_speech,
        Some(speech) => speech,
    }
}

/// The marks emitted for a sequence of outcomes, in order.
pub open spec fn marks(in_speech: bool, os: Seq<Option<bool>>) -> Seq<Mark>
    decreases os.len(),
{
    if os.len() == 0 {
        Seq::empty()
    } else {
        let rest = marks(after(in_speech, os[0]), os.drop_first());
        match emitted(in_speech, os[0]) {
            Some(m) => seq![m] + rest,
            None => rest,
        }
    }
}

/// The event that carries a mark: a chunk carries the fetched data; the end
/// of a segment carries none.
pub open spec fn event_for(m: Option<Mark>, fetched: Result<AFEResult, i32>) -> Option<Event> {
    match m {
        Some(Mark::Chunk) => match fetched {
            Ok(res) => Some(Event::MicAudioChunk(res.data)),
            Err(_) => None,
        },
        Some(Mark::End) => Some(Event::MicAudioEnd),
        None => None,
    }
}

/// The segmenter's state: whether a run of speech is under way.
#[derive(Debug)]
pub struct Segmenter {
    pub in_speech: bool,
}

impl Segmenter {
    pub fn new() -> (r: Segmenter)
        ensures
            !r.in_speech,
    {
        Segmenter { in_speech: false }
    }

    /// Takes one fetch and returns the event to pass on, if any. Errors and
    /// empty results are skipped; the data of the fetch that ends a segment is
    /// dropped.
    pub fn on_fetch(&mut self, fetched: Result<AFEResult, i32>) -> (r: Option<Event>)
        ensures
            final(self).in_speech == after(old(self).in_speech, outcome(fetched)),
            r == event_for(emitted(old(self).in_speech, outcome(fetched)), fetched),
    {
        match fetched {
            Err(_) => None,
            Ok(res) => {
                if res.data.len() == 0 {
                    None
                } else if res.speech {
                    self.in_speech = true;
                    Some(Event::MicAudioChunk(res.data))
                } else if self.in_speech {
                    self.in_speech = false;
                    Some(Event::MicAudioEnd)
                } else {
                    None
                }
            },
        }
    }
}

/// A run of `n` speech fetches followed by one non-speech fetch emits one
/// chunk per speech fetch and then exactly one end of segment (provided some
/// speech was under way by then).
pub proof fn lemma_speech_run_closes(in_speech: bool, n: nat)
    requires
        n > 0 || in_speech,
    ensures
        marks(in_speech, Seq::new(n, |i: int| Some(true)).push(Some(false))) == Seq::new(
            n,
            |i: int| Mark::Chunk,
        ).push(Mark::End),
    decreases n,
{
    let os = Seq::new(n, |i: int| Some(true)).push(Some(false));
    if n == 0 {
        assert(os.drop_first() =~= Seq::<Option<bool>>::empty());
        assert(os[0] == Some(false));
        assert(marks(false, os.drop_first()) == Seq::<Mark>::empty());
        assert(Seq::new(0, |i: int| Mark::Chunk).push(Mark::End) =~= seq![Mark::End]);
    } else {
        lemma_speech_run_closes(true, (n - 1) as nat);
        assert(os[0] == Some(true));
        assert(os.drop_first() =~= Seq::new((n - 1) as nat, |i: int| Some(true)).push(Some(false)));
        assert(Seq::new(n, |i: int| Mark::Chunk).push(Mark::End) =~= seq![Mark::Chunk]
            + Seq::new((n - 1) as nat, |i: int| Mark::Chunk).push(Mark::End));
    }
}

/// Non-speech fetches while no speech is under way emit nothing.
pub proof fn lemma_silence_is_quiet(n: nat)
    ensures
        marks(false, Seq::new(n, |i: int| Some(false))) == Seq::<Mark>::empty(),
    decreases n,
{
    if n > 0 {
        lemma_silence_is_quiet((n - 1) as nat);
        assert(Seq::new(n, |i: int| Some(false)).drop_first() =~= Seq::new(
            (n - 1) as nat,
            |i: int| Some(false),
        ));
    }
}

} // verus!
