use text_to_midi::midi_action::MidiAction;
use text_to_midi::play::{
    can_play, choose_port, fits, play_event, play_file, selection_needed, start_clock, transmits,
    Cue, PlayError, PortError, SETTLING_MILLIS,
};
use text_to_midi::text_to_midi::Sheet;
use text_to_midi::time_state::{TimeSignature, TimeState};
use text_to_midi::track::{
    Format, Header, MetaMessage, MidiMessage, Smf, Timing, TrackEvent, TrackEventKind,
};

const QUARTER: u64 = 480 * 1041;

fn play_text(bpm: u16, text: &str) -> Vec<Cue> {
    let sheet = Sheet::new(bpm, text.to_string());
    let actions = sheet.process();
    let cues = play_file(&MidiAction::as_track(&actions)).unwrap();
    assert_eq!(cues.len(), MidiAction::as_track(&actions).tracks[0].len());
    cues
}

fn play(text: &str) -> Vec<Cue> {
    play_text(120, text)
}

fn sent(cues: &[Cue]) -> usize {
    cues.iter().filter(|cue| cue.transmit).count()
}

fn waited(cues: &[Cue]) -> u64 {
    cues.iter().map(|cue| cue.wait).sum()
}

fn note_on(delta: u32) -> TrackEvent {
    TrackEvent {
        delta,
        kind: TrackEventKind::Midi {
            channel: 0,
            message: MidiMessage::NoteOn { key: 60, vel: 63 },
        },
    }
}

fn meta(delta: u32, message: MetaMessage) -> TrackEvent {
    TrackEvent { delta, kind: TrackEventKind::Meta(message) }
}

fn file_of(timing: Timing, track: Vec<TrackEvent>) -> Smf {
    Smf { header: Header { format: Format::SingleTrack, timing }, tracks: vec![track] }
}

#[test]
fn scale_from_ours() {
    let cues = play("CDEFGABR+C");
    assert_eq!(sent(&cues), 2 + 16);
    assert_eq!(waited(&cues), 8 * QUARTER + 1041);
}

#[test]
fn scale_200_bpm() {
    let actions = Sheet::new(200, "CDEFGABR+C".to_string()).process();
    let file = MidiAction::as_track(&actions);
    let cues = play_file(&file).unwrap();
    assert_eq!(file.tracks[0][4], meta(0, MetaMessage::Tempo(300_000)));
    assert_eq!(sent(&cues), 2 + 16);
    assert_eq!(waited(&cues), 8 * 480 * 625 + 625);
}

#[test]
fn twinkle_ours() {
    let cues = play("CCGGAAG FFEEDDC GGFFEED GGFFEED CCGGAAG FFEEDDC");
    assert_eq!(sent(&cues), 2 + 2 * 47);
    assert_eq!(waited(&cues), 47 * QUARTER + 1041);
}

#[test]
fn descending_major_scale() {
    let cues = play("EDCR-BAGFEDCR-BAG");
    assert_eq!(sent(&cues), 2 + 2 * 13);
    assert_eq!(waited(&cues), 13 * QUARTER + 1041);
}

#[test]
fn tubular_bells() {
    let start = "BPM+BPM+R+".to_owned();
    let main_loop = "EAEBEGAER+CR-ER+DR-EBR+CR-EAEBEGAER+CR-ER+DR-EBR+CR-EB";
    let actions =
        Sheet::new(140, (0..10).fold(start, |acc, _| acc + main_loop + "\n")).process();
    let file = MidiAction::as_track(&actions);
    let cues = play_file(&file).unwrap();
    assert_eq!(actions[0], MidiAction::ChangeBPM(220));
    assert_eq!(cues.len(), file.tracks[0].len());
    assert!(2 + 2 * 300 <= sent(&cues) && sent(&cues) <= 2 + 2 * 300 + 10);
}

#[test]
fn pause() {
    let cues = play("C D E F");
    assert_eq!(sent(&cues), 2 + 2 * 7);
    assert_eq!(waited(&cues), 7 * QUARTER + 1041);
}

#[test]
fn scale_with_varying_cases() {
    assert_eq!(
        Sheet::new(120, "cDeFgAb".to_string()).process(),
        Sheet::new(120, "CDEFGAB".to_string()).process()
    );
    let cues = play("cDeFgAb");
    assert_eq!(waited(&cues), 7 * QUARTER + 1041);
}

#[test]
fn major_scale_with_volume() {
    let cues = play("C+D+E+F+G+A+B+");
    assert_eq!(sent(&cues), 2 + 2 * 7 + 7);
    assert_eq!(waited(&cues), 7 * QUARTER + 1041);
}

#[test]
fn remaining_vowels() {
    let actions = Sheet::new(120, "Ciiou".to_string()).process();
    assert_eq!(
        actions[3..],
        [
            MidiAction::PlayNote(60),
            MidiAction::ChangeInstrument(125),
            MidiAction::ChangeInstrument(0),
            MidiAction::EndOfSequence,
        ]
    );
    let cues = play("Ciiou");
    assert_eq!(sent(&cues), 2 + 2 + 2);
    assert_eq!(waited(&cues), QUARTER + 1041);
}

#[test]
fn random_notes() {
    let actions = Sheet::new(120, "??????".to_string()).process();
    assert_eq!(actions.len(), 3 + 6 + 1);
    for action in &actions[3..9] {
        assert!([60, 62, 64, 65, 67, 69, 71]
            .iter()
            .any(|pitch| *action == MidiAction::PlayNote(*pitch)));
    }
    let cues = play("??????");
    assert_eq!(waited(&cues), 6 * QUARTER + 1041);
}

#[test]
fn timecode_is_not_played() {
    let file = file_of(Timing::Timecode(25, 40), vec![note_on(0)]);
    assert_eq!(play_file(&file), Err(PlayError::NotMetrical));
    let header = Header { format: Format::SingleTrack, timing: Timing::Timecode(30, 80) };
    let without_track = Smf::new(header);
    assert!(can_play(&without_track));
    assert_eq!(play_file(&without_track), Err(PlayError::NotMetrical));
    let unfit = file_of(Timing::Timecode(24, 4), vec![meta(9, MetaMessage::Tempo(u32::MAX))]);
    assert!(can_play(&unfit));
    assert_eq!(play_file(&unfit), Err(PlayError::NotMetrical));
    assert!(start_clock(Timing::Timecode(24, 4)).is_err());
    assert_eq!(
        PlayError::NotMetrical.message(),
        "The timing of the received file is not coded with metrical."
    );
}

#[test]
fn clock_starts_at_the_resolution_of_the_file() {
    let clock = start_clock(Timing::Metrical(96)).unwrap();
    assert_eq!(clock.tpqn, 96);
    assert_eq!(clock.tpqn(), 96);
    assert_eq!(clock.mspqn(), 500_000);
    assert_eq!(clock.bpm(), 120);
    assert_eq!(clock.time_signature(), TimeSignature { numerator: 4, denominator: 4 });
}

#[test]
fn tempo_counts_from_the_next_event_on() {
    let track = vec![
        note_on(10),
        meta(10, MetaMessage::Tempo(1_000_000)),
        note_on(10),
        meta(0, MetaMessage::Tempo(250_000)),
        meta(0, MetaMessage::Tempo(96)),
        note_on(7),
        meta(3, MetaMessage::EndOfTrack),
    ];
    let cues = play_file(&file_of(Timing::Metrical(100), track)).unwrap();
    assert_eq!(
        cues,
        vec![
            Cue { wait: 50_000, transmit: true },
            Cue { wait: 50_000, transmit: false },
            Cue { wait: 100_000, transmit: true },
            Cue { wait: 0, transmit: false },
            Cue { wait: 0, transmit: false },
            Cue { wait: 0, transmit: true },
            Cue { wait: 0, transmit: false },
        ]
    );
}

#[test]
fn play_event_moves_the_clock() {
    let mut clock = TimeState::default();
    let cue = play_event(&mut clock, &meta(480, MetaMessage::TimeSignature(6, 3, 24, 8)));
    assert_eq!(cue, Cue { wait: 480 * 1041, transmit: false });
    assert_eq!(clock.time_signature(), TimeSignature { numerator: 6, denominator: 8 });
    assert_eq!(clock.mspqn(), 500_000);
    assert_eq!(clock.bpm(), 240);
    let cue = play_event(&mut clock, &meta(0, MetaMessage::Tempo(0xff_ffff)));
    assert_eq!(cue, Cue { wait: 0, transmit: false });
    assert_eq!(clock.mspqn(), 0xff_ffff);
    assert_eq!(clock.tpqn, 480);
    let cue = play_event(&mut clock, &note_on(u32::MAX));
    assert_eq!(cue, Cue { wait: u32::MAX as u64 * 34952, transmit: true });
    let cue = play_event(&mut clock, &meta(1, MetaMessage::KeySignature(-2, true)));
    assert_eq!(cue, Cue { wait: 34952, transmit: false });
    assert_eq!(clock.mspqn(), 0xff_ffff);
    assert_eq!(clock.time_signature(), TimeSignature { numerator: 6, denominator: 8 });
}

#[test]
fn resolution_of_zero_plays_what_has_no_delta() {
    let cues = play_file(&file_of(Timing::Metrical(0), vec![note_on(0), note_on(0)])).unwrap();
    assert_eq!(cues, vec![Cue { wait: 0, transmit: true }, Cue { wait: 0, transmit: true }]);
}

#[test]
fn empty_track_has_no_cue() {
    assert_eq!(play_file(&file_of(Timing::Metrical(480), Vec::new())), Ok(Vec::new()));
}

#[test]
fn what_goes_to_the_device() {
    let message = MidiMessage::PitchBend { bend: 0x2000 };
    assert!(transmits(&TrackEventKind::Midi { channel: 9, message }));
    assert!(transmits(&TrackEventKind::SysEx(vec![0x7e, 0x7f, 0x09, 0x01, 0xf7])));
    assert!(transmits(&TrackEventKind::SysEx(vec![0xf7])));
    assert!(!transmits(&TrackEventKind::SysEx(vec![0x7e, 0x7f, 0x09, 0x01])));
    assert!(!transmits(&TrackEventKind::SysEx(vec![0x7e, 0x80, 0xf7])));
    assert!(!transmits(&TrackEventKind::SysEx(vec![0xf7, 0xf7])));
    assert!(!transmits(&TrackEventKind::SysEx(Vec::new())));
    assert!(!transmits(&TrackEventKind::Escape));
    assert!(!transmits(&TrackEventKind::Meta(MetaMessage::EndOfTrack)));
    assert!(!transmits(&TrackEventKind::Meta(MetaMessage::Other(0x7f))));
}

#[test]
fn port_is_chosen_among_those_there_are() {
    assert_eq!(choose_port(0, None), Err(PortError::NoOutputPort));
    assert_eq!(choose_port(0, Some(0)), Err(PortError::NoOutputPort));
    assert_eq!(choose_port(1, None), Ok(0));
    assert_eq!(choose_port(1, Some(5)), Ok(0));
    assert_eq!(choose_port(3, Some(2)), Ok(2));
    assert_eq!(choose_port(3, Some(0)), Ok(0));
    assert_eq!(choose_port(3, Some(3)), Err(PortError::InvalidPort));
    assert_eq!(choose_port(3, None), Err(PortError::InvalidPort));
    assert!(!selection_needed(0));
    assert!(!selection_needed(1));
    assert!(selection_needed(2));
    assert_eq!(PortError::NoOutputPort.message(), "No output port found.");
    assert_eq!(PortError::InvalidPort.message(), "Invalid output port selected.");
}

#[test]
fn what_can_be_played() {
    assert!(can_play(&file_of(Timing::Metrical(480), vec![note_on(5)])));
    assert!(can_play(&file_of(Timing::Metrical(0), vec![note_on(0)])));
    assert!(!can_play(&file_of(Timing::Metrical(0), vec![note_on(0), note_on(1)])));
    assert!(can_play(&file_of(Timing::Timecode(25, 40), vec![note_on(1)])));
    let tempo = vec![meta(0, MetaMessage::Tempo(0xff_ffff))];
    assert!(can_play(&file_of(Timing::Metrical(480), tempo)));
    let tempo = vec![note_on(0), meta(0, MetaMessage::Tempo(0x100_0000))];
    assert!(!can_play(&file_of(Timing::Metrical(480), tempo)));
    let signature = vec![meta(0, MetaMessage::TimeSignature(4, 7, 24, 8))];
    assert!(can_play(&file_of(Timing::Metrical(480), signature)));
    let signature = vec![meta(0, MetaMessage::TimeSignature(4, 8, 24, 8))];
    assert!(!can_play(&file_of(Timing::Metrical(480), signature)));
    let header = Header { format: Format::SingleTrack, timing: Timing::Metrical(480) };
    assert!(!can_play(&Smf::new(header)));
    assert!(fits(&TrackEventKind::Escape));
    assert!(fits(&TrackEventKind::Meta(MetaMessage::Tempo(0))));
    assert!(!fits(&TrackEventKind::Meta(MetaMessage::Tempo(u32::MAX))));
    assert!(!fits(&TrackEventKind::Meta(MetaMessage::TimeSignature(0, 255, 0, 0))));
}

#[test]
fn what_the_encoder_writes_can_be_played() {
    for text in ["", "CDEFGAB", "BPM+;?\n", "Ao9+-R+R-"] {
        let actions = Sheet::new(1, text.to_string()).process();
        assert!(MidiAction::can_encode(&actions));
        assert!(can_play(&MidiAction::as_track(&actions)));
    }
    assert_eq!(SETTLING_MILLIS, 150);
}

#[test]
fn tempo_of_zero_cannot_be_encoded() {
    let actions = Sheet::new(0, "C".to_string()).process();
    assert_eq!(actions[0], MidiAction::ChangeBPM(0));
    assert!(!MidiAction::can_encode(&actions));
    assert!(MidiAction::can_encode(&[]));
    assert!(MidiAction::can_encode(&[MidiAction::ChangeBPM(1), MidiAction::PlayNote(0)]));
    assert!(!MidiAction::can_encode(&[MidiAction::PlayNote(0), MidiAction::ChangeBPM(0)]));
    let after = Sheet::new(0, "BPM+C".to_string()).process();
    assert_eq!(after[0], MidiAction::ChangeBPM(80));
    assert!(MidiAction::can_encode(&after));
}
