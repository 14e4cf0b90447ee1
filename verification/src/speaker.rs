use vstd::prelude::*;

verus! {

/// One request made of a speaker.
#[derive(Debug, Clone, Copy, PartialEq, Eq, Structural)]
pub enum SpeakerEvent {
    Tone(u32),
    Stop,
    Volume(u8),
}

/// A piezo speaker that can hold one tone at a time.
pub trait Speaker {
    /// Whether this speaker keeps a record of its requests; one that does
    /// not (the real buzzer) states nothing about them.
    open spec fn records(&self) -> bool {
        false
    }

    /// The requests made so far, oldest first, for a speaker that records.
    open spec fn events(&self) -> Seq<SpeakerEvent> {
        Seq::empty()
    }

    fn play_tone(&mut self, freq_hz: u32)
        ensures
            old(self).records() ==> final(self).records() && final(self).events() == old(self).events() + seq![SpeakerEvent::Tone(freq_hz)],
    ;

    fn stop(&mut self)
        ensures
            old(self).records() ==> final(self).records() && final(self).events() == old(self).events() + seq![SpeakerEvent::Stop],
    ;

    fn set_volume(&mut self, volume: u8)
        ensures
            old(self).records() ==> final(self).records() && final(self).events() == old(self).events() + seq![SpeakerEvent::Volume(volume)],
    ;

    /// Starts a tone for `duration_ms`. The firmware speaker blocks for the
    /// duration and then stops; this default does nothing.
    fn beep(&mut self, freq_hz: u32, duration_ms: u32) {
    }
}

/// Between `before` and `after`, a recording speaker was asked `events`.
pub open spec fn heard<S: Speaker + ?Sized>(before: &S, after: &S, events: Seq<SpeakerEvent>) -> bool {
    before.records() ==> after.records() && after.events() == before.events() + events
}

pub proof fn lemma_heard_nothing<S: Speaker>(s: &S)
    ensures
        heard(s, s, Seq::empty()),
{
    assert(s.events() + Seq::<SpeakerEvent>::empty() =~= s.events());
}

pub proof fn lemma_heard_then<S: Speaker>(a: &S, b: &S, c: &S, x: Seq<SpeakerEvent>, y: Seq<SpeakerEvent>)
    requires
        heard(a, b, x),
        heard(b, c, y),
    ensures
        heard(a, c, x + y),
{
    if a.records() {
        assert(c.events() =~= a.events() + (x + y));
    }
}

/// A speaker that makes no sound.
#[derive(Debug, Clone, Copy, Default)]
pub struct SilentSpeaker;

impl Speaker for SilentSpeaker {
    fn play_tone(&mut self, freq_hz: u32) {
    }

    fn stop(&mut self) {
    }

    fn set_volume(&mut self, volume: u8) {
    }
}

/// A speaker that makes no sound but remembers every request.
#[derive(Debug, Clone)]
pub struct RecordingSpeaker {
    requests: Vec<SpeakerEvent>,
}

impl RecordingSpeaker {
    pub fn new() -> (r: Self)
        ensures
            r.records(),
            r.events() == Seq::<SpeakerEvent>::empty(),
    {
        RecordingSpeaker { requests: Vec::new() }
    }

    /// The requests made so far, oldest first.
    pub fn requests(&self) -> (r: &[SpeakerEvent])
        ensures
            r@ == self.events(),
    {
        self.requests.as_slice()
    }
}

impl Speaker for RecordingSpeaker {
    open spec fn records(&self) -> bool {
        true
    }

    closed spec fn events(&self) -> Seq<SpeakerEvent> {
        self.requests@
    }

    fn play_tone(&mut self, freq_hz: u32) {
        self.requests.push(SpeakerEvent::Tone(freq_hz));
        assert(old(self).requests@.push(SpeakerEvent::Tone(freq_hz)) =~= old(self).requests@ + seq![SpeakerEvent::Tone(freq_hz)]);
    }

    fn stop(&mut self) {
        self.requests.push(SpeakerEvent::Stop);
        assert(old(self).requests@.push(SpeakerEvent::Stop) =~= old(self).requests@ + seq![SpeakerEvent::Stop]);
    }

    fn set_volume(&mut self, volume: u8) {
        self.requests.push(SpeakerEvent::Volume(volume));
        assert(old(self).requests@.push(SpeakerEvent::Volume(volume)) =~= old(self).requests@ + seq![SpeakerEvent::Volume(volume)]);
    }
}

} // verus!
