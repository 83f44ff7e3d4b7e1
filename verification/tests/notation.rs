use text_to_midi::folding::{chars_of, echo, fold, note_letter, vowel, BPM_PLUS, R_MINUS, R_PLUS};
use text_to_midi::midi_action::MidiAction;
use text_to_midi::note::Note;
use text_to_midi::text_to_midi::{reduce, Sheet, State};

fn text_of(chars: &[char]) -> String {
    chars.iter().collect()
}

fn scanned(text: &str) -> Vec<State> {
    let mut sheet = Sheet::new(State::DEFAULT_BPM, text.to_string());
    sheet.process_text();
    sheet.states().clone()
}

fn silent(state: State) -> State {
    State { note: None, ..state }
}

#[test]
fn match_process_general_text_behavior() {
    let text = "; \nasBPM+ ?!;-+".to_string();
    let mut sheet = Sheet::new(State::DEFAULT_BPM, text);
    let received_text = sheet.map_substring_to_char();

    let expected_text = "; \nas\u{df} ?!;-+".to_string();

    assert_eq!(expected_text, received_text);
}

#[test]
fn match_process_note_text_behavior() {
    let text = "AaBbCcDdEeFfGg".to_string();
    let mut sheet = Sheet::new(State::DEFAULT_BPM, text);
    let received_text = sheet.map_substring_to_char();

    let expected_text = "AaBbCcDdEeFfGg".to_string();

    assert_eq!(expected_text, received_text);
}

#[test]
fn match_process_substring_text_behavior() {
    let text = "BPM+R+R-".to_string();
    let mut sheet = Sheet::new(State::DEFAULT_BPM, text);
    let received_text = sheet.map_substring_to_char();

    let mut expected_text = Sheet::D_BPM_PLUS.to_string();
    expected_text.push(Sheet::D_R_PLUS);
    expected_text.push(Sheet::D_R_MINUS);

    assert_eq!(expected_text, received_text);
}

#[test]
fn match_process_vogals_text_behavior() {
    let text = "OoIiUuAiBICuDUEoFo".to_string();
    let mut sheet = Sheet::new(State::DEFAULT_BPM, text);
    let received_text = sheet.map_substring_to_char();

    let expected_text = "OoIiUuAABBCCDDEEFF".to_string();

    assert_eq!(expected_text, received_text);
}

#[test]
fn markers_are_the_characters_of_the_sheet() {
    assert_eq!(Sheet::D_BPM_PLUS, '\u{df}');
    assert_eq!(Sheet::D_R_PLUS, '\u{6771}');
    assert_eq!(Sheet::D_R_MINUS, '\u{4e16}');
    assert_eq!(Sheet::D_BPM_PLUS, BPM_PLUS);
    assert_eq!(Sheet::D_R_PLUS, R_PLUS);
    assert_eq!(Sheet::D_R_MINUS, R_MINUS);
}

#[test]
fn chars_of_gives_every_character() {
    assert_eq!(chars_of("a\u{6771}b"), vec!['a', '\u{6771}', 'b']);
    assert_eq!(chars_of(""), Vec::<char>::new());
}

#[test]
fn fold_goes_from_left_to_right() {
    assert_eq!(text_of(&fold(&chars_of("BPM+R+R-"))), "\u{df}\u{6771}\u{4e16}");
    assert_eq!(text_of(&fold(&chars_of("RR+-"))), "R\u{6771}-");
    assert_eq!(text_of(&fold(&chars_of("BPMBPM+"))), "BPM\u{df}");
    assert_eq!(text_of(&fold(&chars_of("BPM"))), "BPM");
    assert_eq!(text_of(&fold(&chars_of("R"))), "R");
    assert_eq!(text_of(&fold(&chars_of("bpm+r+"))), "bpm+r+");
    assert_eq!(text_of(&fold(&chars_of(""))), "");
}

#[test]
fn fold_leaves_a_text_without_tokens_alone() {
    for text in ["CDEFGAB", "R R + -", "BP M+", "\u{df}\u{6771}", "12?;\n"] {
        assert_eq!(text_of(&fold(&chars_of(text))), text);
    }
}

#[test]
fn fold_is_idempotent() {
    for text in ["BPM+R+R-", "RR+-", "BBPM+PM+", "RBPM+-", "CR+DR-E"] {
        let once = fold(&chars_of(text));
        let twice = fold(&once);
        assert_eq!(once, twice);
    }
}

#[test]
fn echo_writes_the_note_letter_again() {
    assert_eq!(text_of(&echo(&chars_of("AiBICuDUEoFo"))), "AABBCCDDEEFF");
    assert_eq!(text_of(&echo(&chars_of("Aoo"))), "AAo");
    assert_eq!(text_of(&echo(&chars_of(" o"))), " o");
    assert_eq!(text_of(&echo(&chars_of("oA"))), "oA");
    assert_eq!(text_of(&echo(&chars_of("Hi"))), "Hi");
}

#[test]
fn vowels_and_note_letters() {
    for ch in ['o', 'O', 'I', 'i', 'u', 'U'] {
        assert!(vowel(ch));
        assert!(!note_letter(ch));
    }
    for ch in ['a', 'A', 'e', 'E', 'x', ' '] {
        assert!(!vowel(ch));
    }
    for ch in "ABCDEFGabcdefg".chars() {
        assert!(note_letter(ch));
    }
    assert!(!note_letter(' '));
    assert!(!note_letter('H'));
}

#[test]
fn note_from_char() {
    assert_eq!(Note::from_char('A'), Some(Note::La));
    assert_eq!(Note::from_char('b'), Some(Note::Si));
    assert_eq!(Note::from_char('C'), Some(Note::Do));
    assert_eq!(Note::from_char('d'), Some(Note::Re));
    assert_eq!(Note::from_char('E'), Some(Note::Mi));
    assert_eq!(Note::from_char('f'), Some(Note::Fa));
    assert_eq!(Note::from_char('G'), Some(Note::Sol));
    assert_eq!(Note::from_char(' '), Some(Note::Pause));
    assert_eq!(Note::from_char('H'), None);
    assert_eq!(Note::from_char('?'), None);
}

#[test]
fn note_to_midi() {
    assert_eq!(Note::Do.to_midi(4), 60);
    assert_eq!(Note::La.to_midi(4), 69);
    assert_eq!(Note::Si.to_midi(0), 23);
    assert_eq!(Note::Si.to_midi(12), 167);
    assert_eq!(Note::Pause.to_midi(0), 25);
    assert_eq!(Note::Sol.semitone(), 7);
    assert_eq!(Note::default(), Note::Do);
}

#[test]
fn note_from_index() {
    let notes = [Note::Do, Note::Re, Note::Mi, Note::Fa, Note::Sol, Note::La, Note::Si];
    for (index, note) in notes.iter().enumerate() {
        assert_eq!(Note::from_index(index as u8), *note);
    }
    assert_eq!(Note::from_index(7), Note::Si);
    assert_eq!(Note::PITCH_CLASSES, 7);
    assert_eq!(Note::TOTAL_NOTES, 8);
}

#[test]
fn state_defaults() {
    let state = State::default();
    assert_eq!(state.bpm, 120);
    assert_eq!(state.instrument, 0);
    assert_eq!(state.octave, 4);
    assert_eq!(state.volume, 100);
    assert_eq!(state.note, None);
    assert_eq!(State::MAX_VOLUME, 16383);
    assert_eq!(State::MAX_OCTAVE, 12);
    assert_eq!(State::MAX_BPM, 360);
    let made = State::new(3, 5, 200, 90, Note::Mi);
    assert_eq!(
        made,
        State { bpm: 90, instrument: 3, octave: 5, volume: 200, note: Some(Note::Mi) }
    );
}

#[test]
fn double_saturate_stays_within_the_volume() {
    assert_eq!(State::double_saturate(0), 0);
    assert_eq!(State::double_saturate(100), 200);
    assert_eq!(State::double_saturate(8191), 16382);
    assert_eq!(State::double_saturate(8192), 16383);
    assert_eq!(State::double_saturate(16383), 16383);
    assert_eq!(State::double_saturate(u16::MAX), 16383);
    for volume in 0..=State::MAX_VOLUME {
        assert!(State::double_saturate(volume) <= State::MAX_VOLUME);
    }
}

#[test]
fn saturating_add_stays_within_the_tempo() {
    assert_eq!(State::saturating_add(120, 80), 200);
    assert_eq!(State::saturating_add(280, 80), 360);
    assert_eq!(State::saturating_add(281, 80), 360);
    assert_eq!(State::saturating_add(360, 80), 360);
    assert_eq!(State::saturating_add(0, 80), 80);
    assert_eq!(State::saturating_add(u16::MAX, 80), 360);
    for bpm in 0..=u16::MAX {
        assert!(State::saturating_add(bpm, 80) <= State::MAX_BPM);
    }
}

#[test]
fn octave_wraps_up_and_clamps_down() {
    assert_eq!(State::raise_octave(4), 5);
    assert_eq!(State::raise_octave(11), 12);
    assert_eq!(State::raise_octave(12), 4);
    assert_eq!(State::raise_octave(255), 4);
    assert_eq!(State::lower_octave(4), 3);
    assert_eq!(State::lower_octave(1), 0);
    assert_eq!(State::lower_octave(0), 0);
}

#[test]
fn instrument_stops_at_the_last_program() {
    assert_eq!(State::add_instrument(0, 9), 9);
    assert_eq!(State::add_instrument(120, 7), 127);
    assert_eq!(State::add_instrument(120, 8), 127);
    assert_eq!(State::add_instrument(127, 0), 127);
    assert_eq!(State::add_instrument(250, 9), 127);
}

#[test]
fn advance_by_each_character() {
    let start = State::default();
    assert_eq!(start.advance('A', 0), State { note: Some(Note::La), ..start });
    assert_eq!(start.advance(' ', 0), State { note: Some(Note::Pause), ..start });
    assert_eq!(start.advance('+', 0), State { volume: 200, ..start });
    let loud = State { volume: 9000, note: Some(Note::Do), ..start };
    assert_eq!(loud.advance('+', 0), State { volume: 16383, note: None, ..loud });
    assert_eq!(loud.advance('-', 0), State { volume: 100, note: None, ..loud });
    assert_eq!(start.advance('7', 0), State { instrument: 7, ..start });
    let last = State { instrument: 125, ..start };
    assert_eq!(last.advance('9', 0), State { instrument: 127, ..start });
    assert_eq!(start.advance(R_PLUS, 0), State { octave: 5, ..start });
    assert_eq!(start.advance(R_MINUS, 0), State { octave: 3, ..start });
    assert_eq!(start.advance(BPM_PLUS, 0), State { bpm: 200, ..start });
    assert_eq!(start.advance('?', 5), State { note: Some(Note::La), ..start });
    assert_eq!(start.advance('\n', 42), State { instrument: 42, ..start });
    assert_eq!(start.advance(';', 359), State { bpm: 359, ..start });
    assert_eq!(loud.advance('.', 0), silent(loud));
    assert_eq!(loud.advance('o', 0), silent(loud));
    assert_eq!(loud.advance('!', 3), silent(loud));
}

#[test]
fn new_sheet_begins_at_its_tempo() {
    let sheet = Sheet::new(200, "C".to_string());
    assert_eq!(sheet.current_state(), State { bpm: 200, ..State::default() });
    assert!(sheet.states().is_empty());
}

#[test]
fn tokens_reduce_to_the_startup_actions() {
    let actions = Sheet::new(State::DEFAULT_BPM, "BPM+R+R-".to_string()).process();
    assert_eq!(
        actions,
        vec![
            MidiAction::ChangeBPM(200),
            MidiAction::ChangeInstrument(0),
            MidiAction::ChangeVolume(100),
            MidiAction::EndOfSequence,
        ]
    );
    let states = scanned("BPM+R+R-");
    let start = State::default();
    assert_eq!(
        states,
        vec![
            State { bpm: 200, ..start },
            State { bpm: 200, octave: 5, ..start },
            State { bpm: 200, octave: 4, ..start },
        ]
    );
}

#[test]
fn scale_plays_one_note_for_each_letter() {
    let actions = Sheet::new(120, "CDEFGAB".to_string()).process();
    assert_eq!(
        actions,
        vec![
            MidiAction::ChangeBPM(120),
            MidiAction::ChangeInstrument(0),
            MidiAction::ChangeVolume(100),
            MidiAction::PlayNote(60),
            MidiAction::PlayNote(62),
            MidiAction::PlayNote(64),
            MidiAction::PlayNote(65),
            MidiAction::PlayNote(67),
            MidiAction::PlayNote(69),
            MidiAction::PlayNote(71),
            MidiAction::EndOfSequence,
        ]
    );
}

#[test]
fn vowel_echo_leaves_three_snapshots() {
    let start = State::default();
    assert_eq!(
        scanned("Ao"),
        vec![
            State { note: Some(Note::La), ..start },
            State { instrument: 125, note: Some(Note::Do), ..start },
            start,
        ]
    );
}

#[test]
fn echo_restores_the_state_from_before_the_note() {
    let start = State::default();
    let louder = State { volume: 200, ..start };
    assert_eq!(
        scanned("+Cu+"),
        vec![
            louder,
            State { note: Some(Note::Do), ..louder },
            State { instrument: 125, note: Some(Note::Do), ..louder },
            louder,
            State { volume: 400, ..start },
        ]
    );
    assert_eq!(
        Sheet::new(120, "Ao".to_string()).process(),
        vec![
            MidiAction::ChangeBPM(120),
            MidiAction::ChangeInstrument(0),
            MidiAction::ChangeVolume(100),
            MidiAction::PlayNote(69),
            MidiAction::ChangeInstrument(125),
            MidiAction::ChangeInstrument(0),
            MidiAction::EndOfSequence,
        ]
    );
}

#[test]
fn vowel_without_a_note_before_it_does_nothing() {
    let start = State::default();
    assert_eq!(scanned("o"), vec![start]);
    assert_eq!(scanned(" u"), vec![State { note: Some(Note::Pause), ..start }, start]);
    assert_eq!(
        scanned("Aoi"),
        vec![
            State { note: Some(Note::La), ..start },
            State { instrument: 125, note: Some(Note::Do), ..start },
            start,
            start,
        ]
    );
}

#[test]
fn scan_char_takes_the_draw() {
    let mut sheet = Sheet::new(120, String::new());
    sheet.scan_char('?', 2);
    sheet.scan_char('\n', 99);
    sheet.scan_char(';', 1);
    sheet.scan_char('x', 17);
    let start = State::default();
    assert_eq!(
        sheet.states().clone(),
        vec![
            State { note: Some(Note::Mi), ..start },
            State { instrument: 99, ..start },
            State { instrument: 99, bpm: 1, ..start },
            State { instrument: 99, bpm: 1, ..start },
        ]
    );
    assert_eq!(sheet.current_state(), State { instrument: 99, bpm: 1, ..start });
}

#[test]
fn chance_stays_within_its_ranges() {
    for _ in 0..200 {
        let states = scanned("?\n;");
        let pitched = states[0].note.unwrap();
        assert_ne!(pitched, Note::Pause);
        assert!(states[1].instrument <= 127);
        assert!(1 <= states[2].bpm && states[2].bpm < 360);
        assert_eq!(states[2].volume, 100);
        assert_eq!(states[2].octave, 4);
    }
}

#[test]
fn empty_text_reduces_to_the_end() {
    assert_eq!(Sheet::new(120, String::new()).process(), vec![MidiAction::EndOfSequence]);
    assert_eq!(reduce(&Vec::new()), vec![MidiAction::EndOfSequence]);
}

#[test]
fn reduce_takes_the_first_change_of_each_snapshot() {
    let start = State::default();
    let states = vec![
        State { note: Some(Note::Do), ..start },
        State { bpm: 90, instrument: 5, volume: 7, note: Some(Note::Re), ..start },
        State { bpm: 90, instrument: 6, volume: 8, note: Some(Note::Re), ..start },
        State { bpm: 90, instrument: 6, volume: 9, note: Some(Note::Re), ..start },
        State { bpm: 90, instrument: 6, volume: 9, octave: 5, note: Some(Note::Re), ..start },
        State { bpm: 90, instrument: 6, volume: 9, octave: 5, note: Some(Note::Pause) },
        State { bpm: 90, instrument: 6, volume: 9, octave: 5, note: None },
    ];
    assert_eq!(
        reduce(&states),
        vec![
            MidiAction::ChangeBPM(120),
            MidiAction::ChangeInstrument(0),
            MidiAction::ChangeVolume(100),
            MidiAction::PlayNote(60),
            MidiAction::ChangeBPM(90),
            MidiAction::ChangeInstrument(6),
            MidiAction::ChangeVolume(9),
            MidiAction::PlayNote(74),
            MidiAction::Pause,
            MidiAction::EndOfSequence,
        ]
    );
}

#[test]
fn process_text_twice_scans_twice() {
    let mut sheet = Sheet::new(120, "C+".to_string());
    sheet.process_text();
    sheet.process_text();
    let start = State::default();
    assert_eq!(
        sheet.states().clone(),
        vec![
            State { note: Some(Note::Do), ..start },
            State { volume: 200, ..start },
            State { volume: 200, note: Some(Note::Do), ..start },
            State { volume: 400, ..start },
        ]
    );
}

#[test]
fn digits_and_octaves_in_a_text() {
    let actions = Sheet::new(120, "C55R+CR-R-R-R-R-R-C".to_string()).process();
    assert_eq!(
        actions,
        vec![
            MidiAction::ChangeBPM(120),
            MidiAction::ChangeInstrument(0),
            MidiAction::ChangeVolume(100),
            MidiAction::PlayNote(60),
            MidiAction::ChangeInstrument(5),
            MidiAction::ChangeInstrument(10),
            MidiAction::PlayNote(72),
            MidiAction::PlayNote(12),
            MidiAction::EndOfSequence,
        ]
    );
}
