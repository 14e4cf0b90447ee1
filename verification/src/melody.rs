use vstd::prelude::*;
use crate::speaker::{heard, lemma_heard_nothing, Speaker, SpeakerEvent};

verus! {

/// A tone (or a rest at frequency 0) and how long it lasts.
#[derive(Debug, Clone, Copy, PartialEq, Eq, Structural)]
pub struct Note {
    pub freq_hz: u32,
    pub duration_us: i64,
}

impl Note {
    pub fn rest(duration_us: i64) -> (r: Self)
        ensures
            r == (Note { freq_hz: 0, duration_us }),
    {
        Note { freq_hz: 0, duration_us }
    }

    pub fn tone(freq_hz: u32, duration_us: i64) -> (r: Self)
        ensures
            r == (Note { freq_hz, duration_us }),
    {
        Note { freq_hz, duration_us }
    }
}

/// The speaker request that sounds a note: a rest stops the speaker.
pub open spec fn note_event(note: Note) -> SpeakerEvent {
    if note.freq_hz == 0 { SpeakerEvent::Stop } else { SpeakerEvent::Tone(note.freq_hz) }
}

/// The abstract state of a melody player.
pub struct MelodyState {
    pub notes: Seq<Note>,
    pub index: usize,
    pub note_started_us: i64,
    pub active: bool,
}

/// Plays a melody in a loop, one note after another, without blocking.
#[derive(Debug, Clone)]
pub struct MelodyPlayer {
    notes: &'static [Note],
    index: usize,
    note_started_us: i64,
    active: bool,
}

impl View for MelodyPlayer {
    type V = MelodyState;

    closed spec fn view(&self) -> MelodyState {
        MelodyState {
            notes: self.notes@,
            index: self.index,
            note_started_us: self.note_started_us,
            active: self.active,
        }
    }
}

/// The player after an update at `now_us`, and what the speaker was asked:
/// once the current note has lasted its time the next one (after the last,
/// the first) sounds; otherwise nothing changes.
pub open spec fn spec_melody_update(o: MelodyState, now_us: i64) -> (MelodyState, Seq<SpeakerEvent>) {
    if !o.active || o.notes.len() == 0 || now_us - o.note_started_us < o.notes[o.index as int].duration_us {
        (o, Seq::empty())
    } else {
        let next = if o.index + 1 >= o.notes.len() { 0 } else { o.index + 1 };
        (MelodyState { index: next as usize, note_started_us: now_us, ..o }, seq![note_event(o.notes[next])])
    }
}

/// The player stopped, and what the speaker was asked: a playing tune is
/// silenced.
pub open spec fn spec_melody_stop(o: MelodyState) -> (MelodyState, Seq<SpeakerEvent>) {
    (MelodyState { active: false, ..o }, if o.active { seq![SpeakerEvent::Stop] } else { Seq::empty() })
}

pub open spec fn melody_valid(s: MelodyState) -> bool {
    s.notes.len() > 0 ==> s.index < s.notes.len()
}

impl MelodyPlayer {
    pub fn new() -> (r: Self)
        ensures
            r@ == (MelodyState { notes: Seq::empty(), index: 0, note_started_us: 0, active: false }),
    {
        let r = MelodyPlayer { notes: &[], index: 0, note_started_us: 0, active: false };
        assert(r@.notes =~= Seq::<Note>::empty());
        r
    }

    /// Starts `notes` from the first note; an empty melody changes nothing.
    pub fn start<S: Speaker>(&mut self, notes: &'static [Note], speaker: &mut S, now_us: i64)
        ensures
            notes@.len() == 0 ==> final(self)@ == old(self)@ && heard(old(speaker), final(speaker), Seq::empty()),
            notes@.len() > 0 ==> {
                &&& final(self)@ == (MelodyState { notes: notes@, index: 0, note_started_us: now_us, active: true })
                &&& heard(old(speaker), final(speaker), seq![note_event(notes@[0])])
            },
    {
        if notes.len() == 0 {
            proof { lemma_heard_nothing(&*speaker); }
            return;
        }
        self.notes = notes;
        self.index = 0;
        self.note_started_us = now_us;
        self.active = true;
        play_note(notes, 0, speaker);
    }

    /// Moves on to the next note, looping at the end, once the current note
    /// has lasted its duration.
    pub fn update<S: Speaker>(&mut self, speaker: &mut S, now_us: i64)
        requires
            melody_valid(old(self)@),
        ensures
            melody_valid(final(self)@),
            final(self)@ == spec_melody_update(old(self)@, now_us).0,
            heard(old(speaker), final(speaker), spec_melody_update(old(self)@, now_us).1),
    {
        proof { lemma_heard_nothing(&*speaker); }
        if !self.active || self.notes.len() == 0 {
            return;
        }
        if (now_us as i128) - (self.note_started_us as i128) >= self.notes[self.index].duration_us as i128 {
            self.index = self.index + 1;
            if self.index >= self.notes.len() {
                self.index = 0;
            }
            self.note_started_us = now_us;
            play_note(self.notes, self.index, speaker);
        }
    }

    /// Stops the melody, silencing the speaker if it was playing.
    pub fn stop<S: Speaker>(&mut self, speaker: &mut S)
        ensures
            final(self)@ == spec_melody_stop(old(self)@).0,
            heard(old(speaker), final(speaker), spec_melody_stop(old(self)@).1),
    {
        proof { lemma_heard_nothing(&*speaker); }
        if self.active {
            speaker.stop();
        }
        self.active = false;
    }

    pub fn is_active(&self) -> (r: bool)
        ensures
            r == self@.active,
    {
        self.active
    }
}

impl Default for MelodyPlayer {
    fn default() -> (r: Self)
        ensures
            r@.notes.len() == 0,
            !r@.active,
    {
        Self::new()
    }
}

fn play_note<S: Speaker>(notes: &[Note], index: usize, speaker: &mut S)
    requires
        index < notes@.len(),
    ensures
        heard(old(speaker), final(speaker), seq![note_event(notes@[index as int])]),
{
    let note = notes[index];
    if note.freq_hz == 0 {
        speaker.stop();
    } else {
        speaker.play_tone(note.freq_hz);
    }
}

} // verus!
