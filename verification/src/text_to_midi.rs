//! The compiler of the notation: it folds the tokens of a text, scans it
//! character by character into snapshots of the music's state, and reduces
//! the snapshots to the actions of a performance.

use crate::folding::{
    chars_of, echo, echo_letters, fold, fold_tokens, is_note_letter, is_vowel, note_letter, vowel,
    BPM_PLUS, R_MINUS, R_PLUS,
};
use crate::midi_action::{all_encodable, MidiAction};
use crate::note::Note;
use crate::outside::{gen_range, push_char};
use vstd::prelude::*;

verus! {

/// The state of the music after one character of the text.
#[derive(Clone, Copy, PartialEq, Eq, Debug)]
pub struct State {
    /// Beats per minute.
    pub bpm: u16,
    /// The program of General MIDI that plays.
    pub instrument: u8,
    pub octave: u8,
    pub volume: u16,
    /// What sounds at this step: a note, a rest, or nothing at all.
    pub note: Option<Note>,
}

impl Default for State {
    fn default() -> (state: Self)
        ensures
            state == State::spec_default(),
    {
        State {
            bpm: Self::DEFAULT_BPM,
            instrument: Self::DEFAULT_INSTRUMENT,
            octave: Self::DEFAULT_OCTAVE,
            volume: Self::DEFAULT_VOLUME,
            note: None,
        }
    }
}

impl State {
    pub const MAX_OCTAVE: u8 = 12;

    pub const DEFAULT_OCTAVE: u8 = 4;

    pub const DEFAULT_VOLUME: u16 = 100;

    /// The greatest volume, in 14 bits.
    pub const MAX_VOLUME: u16 = 16383;

    pub const DEFAULT_BPM: u16 = 120;

    pub const MAX_BPM: u16 = 360;

    pub const DEFAULT_INSTRUMENT: u8 = 0;

    /// The last program of General MIDI.
    pub const MAX_INSTRUMENT: u8 = 127;

    /// The program that an echo plays: the telephone.
    pub const ECHO_INSTRUMENT: u8 = 125;

    /// What the tempo token adds to the beats per minute.
    pub const BPM_STEP: u16 = 80;

    pub open spec fn spec_default() -> State {
        State {
            bpm: Self::DEFAULT_BPM,
            instrument: Self::DEFAULT_INSTRUMENT,
            octave: Self::DEFAULT_OCTAVE,
            volume: Self::DEFAULT_VOLUME,
            note: None,
        }
    }

    /// Instrument, octave and volume are within their limits.
    pub open spec fn wf(self) -> bool {
        &&& self.instrument <= Self::MAX_INSTRUMENT
        &&& self.octave <= Self::MAX_OCTAVE
        &&& self.volume <= Self::MAX_VOLUME
    }

    /// A state that sounds `note`.
    pub fn new(instrument: u8, octave: u8, volume: u16, bpm: u16, note: Note) -> (state: Self)
        ensures
            state == (State { bpm, instrument, octave, volume, note: Some(note) }),
    {
        State { instrument, octave, volume, bpm, note: Some(note) }
    }

    /// Twice the volume, or the greatest volume where twice would pass it.
    pub open spec fn spec_double_saturate(volume: u16) -> u16 {
        if volume * 2 > Self::MAX_VOLUME {
            Self::MAX_VOLUME
        } else {
            (volume * 2) as u16
        }
    }

    /// The beats per minute raised by `step`, or `MAX_BPM` where that would pass it.
    pub open spec fn spec_saturating_add(bpm: u16, step: u16) -> u16 {
        if bpm + step > Self::MAX_BPM {
            Self::MAX_BPM
        } else {
            (bpm + step) as u16
        }
    }

    /// One octave up; from the highest octave, back to the default one.
    pub open spec fn spec_raise_octave(octave: u8) -> u8 {
        if octave + 1 > Self::MAX_OCTAVE {
            Self::DEFAULT_OCTAVE
        } else {
            (octave + 1) as u8
        }
    }

    /// One octave down; the lowest octave stays.
    pub open spec fn spec_lower_octave(octave: u8) -> u8 {
        if octave == 0 {
            0
        } else {
            (octave - 1) as u8
        }
    }

    /// The program `digit` places further on, or the last program where
    /// that would pass it.
    pub open spec fn spec_add_instrument(instrument: u8, digit: u8) -> u8 {
        if instrument + digit > Self::MAX_INSTRUMENT {
            Self::MAX_INSTRUMENT
        } else {
            (instrument + digit) as u8
        }
    }

    pub fn double_saturate(volume: u16) -> (doubled: u16)
        ensures
            doubled == Self::spec_double_saturate(volume),
            doubled <= Self::MAX_VOLUME,
            volume <= Self::MAX_VOLUME ==> doubled >= volume,
    {
        if volume > Self::MAX_VOLUME / 2 {
            Self::MAX_VOLUME
        } else {
            volume * 2
        }
    }

    pub fn saturating_add(bpm: u16, step: u16) -> (raised: u16)
        ensures
            raised == Self::spec_saturating_add(bpm, step),
            raised <= Self::MAX_BPM,
    {
        if bpm > Self::MAX_BPM || step > Self::MAX_BPM - bpm {
            Self::MAX_BPM
        } else {
            bpm + step
        }
    }

    pub fn raise_octave(octave: u8) -> (raised: u8)
        ensures
            raised == Self::spec_raise_octave(octave),
            raised <= Self::MAX_OCTAVE,
    {
        if octave >= Self::MAX_OCTAVE {
            Self::DEFAULT_OCTAVE
        } else {
            octave + 1
        }
    }

    pub fn lower_octave(octave: u8) -> (lowered: u8)
        ensures
            lowered == Self::spec_lower_octave(octave),
            lowered <= octave,
    {
        octave.saturating_sub(1)
    }

    pub fn add_instrument(instrument: u8, digit: u8) -> (program: u8)
        ensures
            program == Self::spec_add_instrument(instrument, digit),
            program <= Self::MAX_INSTRUMENT,
    {
        if instrument > Self::MAX_INSTRUMENT || digit > Self::MAX_INSTRUMENT - instrument {
            Self::MAX_INSTRUMENT
        } else {
            instrument + digit
        }
    }

    /// A snapshot with a pitched note can be played where its pitch fits a byte.
    pub open spec fn playable(self) -> bool {
        self.note matches Some(note) ==> note.spec_to_midi(self.octave) <= u8::MAX
    }

    /// The state after the character `ch`, where `draw` is what chance
    /// gave for it. Every character sets the note anew: a note letter or a
    /// space to its note, `?` to the note drawn, any other to none.
    pub open spec fn spec_advance(self, ch: char, draw: u16) -> State {
        match Note::spec_from_char(ch) {
            Some(note) => State { note: Some(note), ..self },
            None => {
                let silent = State { note: None, ..self };
                if ch == '+' {
                    State { volume: Self::spec_double_saturate(self.volume), ..silent }
                } else if ch == '-' {
                    State { volume: Self::DEFAULT_VOLUME, ..silent }
                } else if is_digit(ch) {
                    State {
                        instrument: Self::spec_add_instrument(self.instrument, digit_value(ch)),
                        ..silent
                    }
                } else if ch == R_PLUS {
                    State { octave: Self::spec_raise_octave(self.octave), ..silent }
                } else if ch == R_MINUS {
                    State { octave: Self::spec_lower_octave(self.octave), ..silent }
                } else if ch == BPM_PLUS {
                    State { bpm: Self::spec_saturating_add(self.bpm, Self::BPM_STEP), ..silent }
                } else if ch == '?' {
                    State { note: Some(Note::spec_from_index(draw as u8)), ..self }
                } else if ch == '\n' {
                    State { instrument: draw as u8, ..silent }
                } else if ch == ';' {
                    State { bpm: draw, ..silent }
                } else {
                    silent
                }
            },
        }
    }

    /// The state after the character `ch`, with `draw` for what chance gives.
    pub fn advance(self, ch: char, draw: u16) -> (next: Self)
        requires
            valid_draw(ch, draw),
        ensures
            next == self.spec_advance(ch, draw),
            self.wf() ==> next.wf(),
            self.bpm > 0 ==> next.bpm > 0,
    {
        let mut next = self;
        match Note::from_char(ch) {
            Some(note) => {
                next.note = Some(note);
            },
            None => {
                next.note = None;
                let code: u32 = ch as u32;
                if ch == '+' {
                    next.volume = Self::double_saturate(self.volume);
                } else if ch == '-' {
                    next.volume = Self::DEFAULT_VOLUME;
                } else if 0x30 <= code && code <= 0x39 {
                    next.instrument = Self::add_instrument(self.instrument, (code - 0x30) as u8);
                } else if ch == R_PLUS {
                    next.octave = Self::raise_octave(self.octave);
                } else if ch == R_MINUS {
                    next.octave = Self::lower_octave(self.octave);
                } else if ch == BPM_PLUS {
                    next.bpm = Self::saturating_add(self.bpm, Self::BPM_STEP);
                } else if ch == '?' {
                    next.note = Some(Note::from_index(draw as u8));
                } else if ch == '\n' {
                    next.instrument = draw as u8;
                } else if ch == ';' {
                    next.bpm = draw;
                }
            },
        }
        next
    }
}

/// A decimal digit.
pub open spec fn is_digit(ch: char) -> bool {
    0x30 <= ch as u32 <= 0x39
}

/// The number that a decimal digit stands for.
pub open spec fn digit_value(ch: char) -> u8 {
    (ch as u32 - 0x30) as u8
}

/// Chance gives nothing for `ch`: the state after it is the same whatever is drawn.
pub open spec fn draws_nothing(ch: char) -> bool {
    ch != '?' && ch != '\n' && ch != ';'
}

/// `draw` is within what chance may give for `ch`: one of the seven pitch
/// classes for `?`, a program of General MIDI for a line feed, and beats per
/// minute from 1 to below `MAX_BPM` for `;`.
pub open spec fn valid_draw(ch: char, draw: u16) -> bool {
    if ch == '?' {
        draw < Note::PITCH_CLASSES
    } else if ch == '\n' {
        draw <= State::MAX_INSTRUMENT
    } else if ch == ';' {
        1 <= draw < State::MAX_BPM
    } else {
        true
    }
}

/// There is one valid draw for each character of `text`.
pub open spec fn valid_draws(text: Seq<char>, draws: Seq<u16>) -> bool {
    &&& draws.len() == text.len()
    &&& forall|at: int| 0 <= at < text.len() ==> valid_draw(text[at], #[trigger] draws[at])
}

/// Chance gives nothing for any character of `text`.
pub open spec fn draws_nothing_in(text: Seq<char>) -> bool {
    forall|at: int| 0 <= at < text.len() ==> draws_nothing(#[trigger] text[at])
}

/// The draws of a text for which chance gives nothing.
pub open spec fn no_draws(len: nat) -> Seq<u16> {
    Seq::new(len, |at: int| 0u16)
}

/// What a snapshot adds to a performance that stands at `current`: the
/// change of tempo, else of instrument, else of volume, else what sounds.
pub open spec fn spec_reduce_step(current: State, snapshot: State) -> Option<MidiAction> {
    if snapshot.bpm != current.bpm {
        Some(MidiAction::ChangeBPM(snapshot.bpm))
    } else if snapshot.instrument != current.instrument {
        Some(MidiAction::ChangeInstrument(snapshot.instrument))
    } else if snapshot.volume != current.volume {
        Some(MidiAction::ChangeVolume(snapshot.volume))
    } else {
        match snapshot.note {
            Some(Note::Pause) => Some(MidiAction::Pause),
            Some(note) => Some(MidiAction::PlayNote(note.spec_to_midi(snapshot.octave) as u8)),
            None => None,
        }
    }
}

/// The snapshot that the one at `at` is held against: the one before it,
/// and the first one against itself.
pub open spec fn reference_of(states: Seq<State>, at: int) -> State {
    if at == 0 {
        states[0]
    } else {
        states[at - 1]
    }
}

/// The actions of the first `upto` snapshots, in order.
pub open spec fn spec_reduce_steps(states: Seq<State>, upto: int) -> Seq<MidiAction>
    decreases upto,
{
    if upto <= 0 {
        Seq::empty()
    } else {
        let before = spec_reduce_steps(states, upto - 1);
        match spec_reduce_step(reference_of(states, upto - 1), states[upto - 1]) {
            Some(action) => before.push(action),
            None => before,
        }
    }
}

/// The actions that set tempo, instrument and volume to those of `first`.
pub open spec fn startup_actions(first: State) -> Seq<MidiAction> {
    seq![
        MidiAction::ChangeBPM(first.bpm),
        MidiAction::ChangeInstrument(first.instrument),
        MidiAction::ChangeVolume(first.volume),
    ]
}

/// The actions of a run of snapshots: those that set up the first one, at
/// most one for each snapshot, and the end of the sequence. Without a
/// snapshot there is only the end.
pub open spec fn spec_reduce(states: Seq<State>) -> Seq<MidiAction> {
    if states.len() == 0 {
        seq![MidiAction::EndOfSequence]
    } else {
        (startup_actions(states[0]) + spec_reduce_steps(states, states.len() as int)).push(
            MidiAction::EndOfSequence,
        )
    }
}

/// A run of snapshots gives at most one action for each snapshot, besides
/// the three that set up the first one and the end of the sequence.
pub proof fn lemma_reduce_steps_len(states: Seq<State>, upto: int)
    ensures
        spec_reduce_steps(states, upto).len() <= if upto <= 0 {
            0
        } else {
            upto
        },
    decreases upto,
{
    if upto > 0 {
        lemma_reduce_steps_len(states, upto - 1);
    }
}

/// Every snapshot can be played.
pub open spec fn all_playable(states: Seq<State>) -> bool {
    forall|at: int| 0 <= at < states.len() ==> (#[trigger] states[at]).playable()
}

/// Every snapshot has a tempo above zero.
pub open spec fn all_paced(states: Seq<State>) -> bool {
    forall|at: int| 0 <= at < states.len() ==> (#[trigger] states[at]).bpm > 0
}

/// Reduces snapshots to the actions of a performance.
pub fn reduce(states: &Vec<State>) -> (actions: Vec<MidiAction>)
    requires
        all_playable(states@),
    ensures
        actions@ == spec_reduce(states@),
        actions@.len() <= states@.len() + 4,
        actions@.last() == MidiAction::EndOfSequence,
        all_paced(states@) ==> all_encodable(actions@),
{
    proof {
        lemma_reduce_steps_len(states@, states@.len() as int);
    }
    let mut actions: Vec<MidiAction> = Vec::new();
    if states.len() > 0 {
        let mut current = states[0];
        actions.push(MidiAction::ChangeBPM(current.bpm));
        actions.push(MidiAction::ChangeInstrument(current.instrument));
        actions.push(MidiAction::ChangeVolume(current.volume));
        let mut at: usize = 0;
        while at < states.len()
            invariant
                0 <= at <= states.len(),
                states.len() > 0,
                all_playable(states@),
                current == reference_of(states@, at as int),
                actions@ == startup_actions(states@[0]) + spec_reduce_steps(states@, at as int),
                all_paced(states@) ==> all_encodable(actions@),
            decreases states.len() - at,
        {
            let snapshot = states[at];
            assert(snapshot.playable());
            if snapshot.bpm != current.bpm {
                actions.push(MidiAction::ChangeBPM(snapshot.bpm));
            } else if snapshot.instrument != current.instrument {
                actions.push(MidiAction::ChangeInstrument(snapshot.instrument));
            } else if snapshot.volume != current.volume {
                actions.push(MidiAction::ChangeVolume(snapshot.volume));
            } else {
                match snapshot.note {
                    Some(Note::Pause) => {
                        actions.push(MidiAction::Pause);
                    },
                    Some(note) => {
                        actions.push(MidiAction::PlayNote(note.to_midi(snapshot.octave)));
                    },
                    None => {},
                }
            }
            current = snapshot;
            at += 1;
        }
    }
    actions.push(MidiAction::EndOfSequence);
    actions
}

/// What a sheet holds: the tempo it began with, its text, the state that
/// the scan has reached, the state stashed for an echo, and the snapshots
/// taken so far.
pub struct SheetView {
    pub bpm: u16,
    pub text: Seq<char>,
    pub current: State,
    /// The state from before the last character, while that character is a note letter.
    pub stash: Option<State>,
    pub states: Seq<State>,
}

impl SheetView {
    /// Every state that the sheet holds is within its limits.
    pub open spec fn wf(self) -> bool {
        &&& self.current.wf()
        &&& self.stash matches Some(stashed) ==> stashed.wf()
        &&& forall|at: int| 0 <= at < self.states.len() ==> (#[trigger] self.states[at]).wf()
    }

    /// Every state that the sheet holds has a tempo above zero.
    pub open spec fn paced(self) -> bool {
        &&& self.current.bpm > 0
        &&& self.stash matches Some(stashed) ==> stashed.bpm > 0
        &&& all_paced(self.states)
    }

    /// The snapshot of an echo: the telephone plays Do.
    pub open spec fn echo_state(self) -> State {
        State { instrument: State::ECHO_INSTRUMENT, note: Some(Note::Do), ..self.current }
    }

    /// The sheet after the scan of `ch`. A vowel right behind a note letter
    /// is an echo: it leaves the snapshot of the telephone and then the
    /// state from before that note, with which the scan goes on. Any other
    /// character leaves one snapshot, the state after it.
    pub open spec fn scan_char(self, ch: char, draw: u16) -> SheetView {
        if is_vowel(ch) && self.stash is Some {
            let restored = self.stash->0;
            SheetView {
                current: restored,
                stash: None,
                states: self.states.push(self.echo_state()).push(restored),
                ..self
            }
        } else {
            let next = self.current.spec_advance(ch, draw);
            SheetView {
                current: next,
                stash: if is_note_letter(ch) {
                    Some(self.current)
                } else {
                    None
                },
                states: self.states.push(next),
                ..self
            }
        }
    }

    /// The sheet after the scan of `text`, character by character, with one
    /// draw for each.
    pub open spec fn scan(self, text: Seq<char>, draws: Seq<u16>) -> SheetView
        decreases text.len(),
    {
        if text.len() == 0 {
            self
        } else {
            self.scan(text.drop_last(), draws.drop_last()).scan_char(text.last(), draws.last())
        }
    }
}

/// A text of the notation together with the scan of it.
pub struct Sheet {
    bpm: u16,
    current_state: State,
    stash: Option<State>,
    states: Vec<State>,
    text: String,
}

impl View for Sheet {
    type V = SheetView;

    closed spec fn view(&self) -> SheetView {
        SheetView {
            bpm: self.bpm,
            text: self.text@,
            current: self.current_state,
            stash: self.stash,
            states: self.states@,
        }
    }
}

/// The scan of a text needs no draw where chance gives nothing for any of
/// its characters: it ends the same whatever the draws are.
pub proof fn lemma_scan_without_chance(
    sheet: SheetView,
    text: Seq<char>,
    draws: Seq<u16>,
    others: Seq<u16>,
)
    requires
        draws_nothing_in(text),
        draws.len() == text.len(),
        others.len() == text.len(),
    ensures
        sheet.scan(text, draws) == sheet.scan(text, others),
    decreases text.len(),
{
    if text.len() > 0 {
        assert(draws_nothing(text[text.len() - 1]));
        assert forall|at: int| 0 <= at < text.drop_last().len() implies draws_nothing(
            #[trigger] text.drop_last()[at],
        ) by {
            assert(draws_nothing(text[at]));
        }
        lemma_scan_without_chance(sheet, text.drop_last(), draws.drop_last(), others.drop_last());
    }
}

/// After the scan of a text the stash holds a state exactly where the last
/// character is a note letter, and then it is the state from before that
/// letter. So the vowels that echo are those right behind a note letter.
pub proof fn lemma_stash_behind_note_letter(sheet: SheetView, text: Seq<char>, draws: Seq<u16>)
    requires
        text.len() > 0,
    ensures
        sheet.scan(text, draws).stash is Some <==> is_note_letter(text.last()),
        is_note_letter(text.last()) ==> sheet.scan(text, draws).stash == Some(
            sheet.scan(text.drop_last(), draws.drop_last()).current,
        ),
{
}

/// A scan keeps every state within its limits, and every tempo above zero.
pub proof fn lemma_scan_keeps_limits(sheet: SheetView, text: Seq<char>, draws: Seq<u16>)
    requires
        valid_draws(text, draws),
    ensures
        sheet.wf() ==> sheet.scan(text, draws).wf(),
        sheet.paced() ==> sheet.scan(text, draws).paced(),
    decreases text.len(),
{
    if text.len() > 0 {
        let before = sheet.scan(text.drop_last(), draws.drop_last());
        assert(valid_draws(text.drop_last(), draws.drop_last())) by {
            assert forall|at: int| 0 <= at < text.drop_last().len() implies valid_draw(
                text.drop_last()[at],
                #[trigger] draws.drop_last()[at],
            ) by {
                assert(valid_draw(text[at], draws[at]));
            }
        }
        lemma_scan_keeps_limits(sheet, text.drop_last(), draws.drop_last());
        assert(valid_draw(text.last(), draws[draws.len() - 1]));
    }
}

impl Sheet {
    pub const D_R_PLUS: char = R_PLUS;

    pub const D_R_MINUS: char = R_MINUS;

    pub const D_BPM_PLUS: char = BPM_PLUS;

    /// Every state that the sheet holds is within its limits. A new sheet
    /// is so, and every method keeps it so.
    pub open spec fn wf(&self) -> bool {
        self@.wf()
    }

    /// The state in which the scan of a sheet at `bpm` beats per minute begins.
    pub open spec fn starting_state(bpm: u16) -> State {
        State { bpm, ..State::spec_default() }
    }

    /// A sheet of `text` that begins at `bpm` beats per minute, with
    /// nothing scanned yet.
    pub fn new(bpm: u16, text: String) -> (sheet: Self)
        ensures
            sheet@ == (SheetView {
                bpm,
                text: text@,
                current: Self::starting_state(bpm),
                stash: None,
                states: Seq::empty(),
            }),
            sheet.wf(),
    {
        let mut current_state = State::default();
        current_state.bpm = bpm;
        Sheet { bpm, current_state, stash: None, states: Vec::new(), text }
    }

    /// The snapshots taken so far.
    pub fn states(&self) -> (states: &Vec<State>)
        ensures
            states@ == self@.states,
    {
        &self.states
    }

    /// The state that the scan has reached.
    pub fn current_state(&self) -> (state: State)
        ensures
            state == self@.current,
    {
        self.current_state
    }

    /// Scans the text and reduces the snapshots to the actions of the
    /// performance. What the actions are is open only as far as chance
    /// gives something for a character of the text.
    pub fn process(self) -> (actions: Vec<MidiAction>)
        requires
            self.wf(),
        ensures
            exists|draws: Seq<u16>|
                #![trigger valid_draws(fold_tokens(self@.text), draws)]
                valid_draws(fold_tokens(self@.text), draws) && actions@ == spec_reduce(
                    self@.scan(fold_tokens(self@.text), draws).states,
                ),
            draws_nothing_in(fold_tokens(self@.text)) ==> actions@ == spec_reduce(
                self@.scan(
                    fold_tokens(self@.text),
                    no_draws(fold_tokens(self@.text).len()),
                ).states,
            ),
            self@.paced() ==> all_encodable(actions@),
    {
        let mut sheet = self;
        sheet.process_text();
        proof {
            let folded = fold_tokens(self@.text);
            let draws = choose|draws: Seq<u16>|
                #![trigger valid_draws(folded, draws)]
                valid_draws(folded, draws) && sheet@ == self@.scan(folded, draws);
            lemma_scan_keeps_limits(self@, folded, draws);
            assert forall|at: int| 0 <= at < sheet.states@.len() implies (
            #[trigger] sheet.states@[at]).playable() by {
                assert(sheet@.states[at].wf());
            }
        }
        reduce(&sheet.states)
    }

    /// The text with every token folded into its marker, and with every
    /// echoing vowel written as the note letter that it echoes.
    pub fn map_substring_to_char(&mut self) -> (mapped: String)
        ensures
            mapped@ == echo_letters(fold_tokens(old(self)@.text)),
            final(self)@ == old(self)@,
    {
        let chars = chars_of(self.text.as_str());
        let folded = fold(&chars);
        let letters = echo(&folded);
        let mut mapped = String::new();
        let mut at: usize = 0;
        while at < letters.len()
            invariant
                0 <= at <= letters.len(),
                mapped@ == letters@.take(at as int),
            decreases letters.len() - at,
        {
            push_char(&mut mapped, letters[at]);
            at += 1;
        }
        assert(letters@.take(at as int) == letters@);
        mapped
    }

    /// Scans the text: folds its tokens and takes the snapshots of its
    /// characters, one after the other.
    pub fn process_text(&mut self)
        requires
            old(self).wf(),
        ensures
            final(self).wf(),
            exists|draws: Seq<u16>|
                #![trigger valid_draws(fold_tokens(old(self)@.text), draws)]
                valid_draws(fold_tokens(old(self)@.text), draws) && final(self)@ == old(
                    self,
                )@.scan(fold_tokens(old(self)@.text), draws),
            draws_nothing_in(fold_tokens(old(self)@.text)) ==> final(self)@ == old(self)@.scan(
                fold_tokens(old(self)@.text),
                no_draws(fold_tokens(old(self)@.text).len()),
            ),
    {
        let chars = chars_of(self.text.as_str());
        let folded = fold(&chars);
        let ghost draws: Seq<u16> = Seq::empty();
        let mut at: usize = 0;
        while at < folded.len()
            invariant
                0 <= at <= folded.len(),
                folded@ == fold_tokens(old(self)@.text),
                valid_draws(folded@.take(at as int), draws),
                self@ == old(self)@.scan(folded@.take(at as int), draws),
                self.wf(),
            decreases folded.len() - at,
        {
            let ghost reached = self@;
            let ch = folded[at];
            self.parse_char(ch);
            proof {
                let draw = choose|draw: u16|
                    valid_draw(ch, draw) && self@ == reached.scan_char(ch, draw);
                assert(folded@.take(at + 1).drop_last() == folded@.take(at as int));
                assert(draws.push(draw).drop_last() == draws);
                draws = draws.push(draw);
            }
            at += 1;
        }
        proof {
            assert(folded@.take(at as int) == folded@);
            if draws_nothing_in(folded@) {
                lemma_scan_without_chance(old(self)@, folded@, draws, no_draws(folded@.len()));
            }
        }
    }

    /// Scans one character of the folded text, with `draw` for what chance gives.
    pub fn scan_char(&mut self, ch: char, draw: u16)
        requires
            old(self).wf(),
            valid_draw(ch, draw),
        ensures
            final(self)@ == old(self)@.scan_char(ch, draw),
            final(self).wf(),
    {
        if vowel(ch) && self.stash.is_some() {
            let restored = self.stash.unwrap();
            let mut echoed = self.current_state;
            echoed.instrument = State::ECHO_INSTRUMENT;
            echoed.note = Some(Note::Do);
            self.states.push(echoed);
            self.current_state = restored;
            self.stash = None;
            self.states.push(restored);
        } else {
            let next = self.current_state.advance(ch, draw);
            self.stash = if note_letter(ch) {
                Some(self.current_state)
            } else {
                None
            };
            self.current_state = next;
            self.states.push(next);
        }
    }

    /// Scans one character of the folded text, and draws what chance has to give for it.
    fn parse_char(&mut self, ch: char)
        requires
            old(self).wf(),
        ensures
            final(self).wf(),
            exists|draw: u16| valid_draw(ch, draw) && final(self)@ == old(self)@.scan_char(ch, draw),
    {
        let draw: u16 = if ch == '?' {
            gen_range(0, Note::PITCH_CLASSES - 1)
        } else if ch == '\n' {
            gen_range(0, State::MAX_INSTRUMENT as u16)
        } else if ch == ';' {
            gen_range(1, State::MAX_BPM - 1)
        } else {
            0
        };
        self.scan_char(ch, draw);
    }
}

} // verus!
