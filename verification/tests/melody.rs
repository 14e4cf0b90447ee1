use orion_core::melody::{MelodyPlayer, Note};
use orion_core::speaker::{SilentSpeaker, Speaker, SpeakerEvent};

#[derive(Default)]
struct RecordingSpeaker {
    tones: Vec<u32>,
    stops: usize,
}

impl Speaker for RecordingSpeaker {
    fn play_tone(&mut self, freq_hz: u32) {
        self.tones.push(freq_hz);
    }

    fn stop(&mut self) {
        self.stops += 1;
    }

    fn set_volume(&mut self, _volume: u8) {}
}

static SIMPLE_MELODY: [Note; 3] = [
    Note { freq_hz: 440, duration_us: 100_000 },
    Note { freq_hz: 880, duration_us: 200_000 },
    Note { freq_hz: 0, duration_us: 100_000 },
];

#[test]
fn melody_plays_notes_in_sequence() {
    let mut player = MelodyPlayer::new();
    let mut speaker = RecordingSpeaker::default();

    player.start(&SIMPLE_MELODY, &mut speaker, 0);
    assert_eq!(speaker.tones, [440]);
    assert!(player.is_active());

    player.update(&mut speaker, 50_000);
    assert_eq!(speaker.tones.len(), 1);

    player.update(&mut speaker, 100_000);
    assert_eq!(speaker.tones, [440, 880]);

    player.update(&mut speaker, 300_000);
    assert_eq!(speaker.stops, 1);

    player.update(&mut speaker, 400_000);
    assert_eq!(speaker.tones.len(), 3);
    assert_eq!(speaker.tones[2], 440);
}

#[test]
fn melody_stops() {
    let mut player = MelodyPlayer::new();
    let mut speaker = RecordingSpeaker::default();

    player.start(&SIMPLE_MELODY, &mut speaker, 0);
    assert!(player.is_active());

    player.stop(&mut speaker);
    assert!(!player.is_active());
    assert_eq!(speaker.stops, 1);

    player.update(&mut speaker, 200_000);
    assert_eq!(speaker.tones.len(), 1);
}

#[test]
fn empty_melody_is_no_op() {
    let mut player = MelodyPlayer::new();
    let mut speaker = RecordingSpeaker::default();

    player.start(&[], &mut speaker, 0);
    assert!(!player.is_active());
    assert_eq!(speaker.tones.len(), 0);
}

#[test]
fn silent_speaker_is_no_op() {
    let mut s = SilentSpeaker;
    s.play_tone(440);
    s.set_volume(200);
    s.stop();
    s.beep(440, 10);
}

#[test]
fn note_constructors() {
    assert_eq!(Note::rest(5), Note { freq_hz: 0, duration_us: 5 });
    assert_eq!(Note::tone(440, 7), Note { freq_hz: 440, duration_us: 7 });
}

#[test]
fn recording_speaker_keeps_the_requests_in_order() {
    let mut player = MelodyPlayer::new();
    let mut speaker = orion_core::speaker::RecordingSpeaker::new();
    player.start(&SIMPLE_MELODY, &mut speaker, 0);
    player.update(&mut speaker, 100_000);
    player.update(&mut speaker, 300_000);
    player.stop(&mut speaker);
    assert_eq!(
        speaker.requests(),
        &[
            SpeakerEvent::Tone(440),
            SpeakerEvent::Tone(880),
            SpeakerEvent::Stop,
            SpeakerEvent::Stop,
        ]
    );
}
