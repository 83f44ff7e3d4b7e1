//! The diatonic notes of the notation and their MIDI pitch numbers.

use vstd::prelude::*;

verus! {

/// A note of the notation: one of the seven diatonic pitch classes, or a rest.
#[derive(Clone, Copy, PartialEq, Eq, Structural, Debug)]
pub enum Note {
    Do,
    Re,
    Mi,
    Fa,
    Sol,
    La,
    Si,
    /// A rest of one quarter note.
    Pause,
}

impl Default for Note {
    fn default() -> (note: Self)
        ensures
            note == Note::Do,
    {
        Note::Do
    }
}

impl Note {
    /// How many notes there are, the rest among them.
    pub const TOTAL_NOTES: usize = 8;

    /// How many pitch classes there are for chance to draw from.
    pub const PITCH_CLASSES: u16 = 7;

    /// The number of semitones between Do and this note. A rest has no pitch;
    /// it is given the number 13, which no pitch class has.
    pub open spec fn spec_semitone(self) -> int {
        match self {
            Note::Do => 0,
            Note::Re => 2,
            Note::Mi => 4,
            Note::Fa => 5,
            Note::Sol => 7,
            Note::La => 9,
            Note::Si => 11,
            Note::Pause => 13,
        }
    }

    /// The note that a character of the notation names, if it names one:
    /// the letters A to G in either case, and the space for a rest.
    pub open spec fn spec_from_char(ch: char) -> Option<Note> {
        if ch == 'A' || ch == 'a' {
            Some(Note::La)
        } else if ch == 'B' || ch == 'b' {
            Some(Note::Si)
        } else if ch == 'C' || ch == 'c' {
            Some(Note::Do)
        } else if ch == 'D' || ch == 'd' {
            Some(Note::Re)
        } else if ch == 'E' || ch == 'e' {
            Some(Note::Mi)
        } else if ch == 'F' || ch == 'f' {
            Some(Note::Fa)
        } else if ch == 'G' || ch == 'g' {
            Some(Note::Sol)
        } else if ch == ' ' {
            Some(Note::Pause)
        } else {
            None
        }
    }

    /// The pitch class that a draw among `PITCH_CLASSES` stands for, in
    /// rising order from Do; a draw past the last one stands for Si.
    pub open spec fn spec_from_index(index: u8) -> Note {
        if index == 0 {
            Note::Do
        } else if index == 1 {
            Note::Re
        } else if index == 2 {
            Note::Mi
        } else if index == 3 {
            Note::Fa
        } else if index == 4 {
            Note::Sol
        } else if index == 5 {
            Note::La
        } else {
            Note::Si
        }
    }

    /// The MIDI pitch of this note in the given octave.
    pub open spec fn spec_to_midi(self, octave: u8) -> int {
        self.spec_semitone() + 12 * (1 + octave)
    }

    pub fn semitone(self) -> (semitones: u8)
        ensures
            semitones == self.spec_semitone(),
    {
        match self {
            Note::Do => 0,
            Note::Re => 2,
            Note::Mi => 4,
            Note::Fa => 5,
            Note::Sol => 7,
            Note::La => 9,
            Note::Si => 11,
            Note::Pause => 13,
        }
    }

    pub fn from_char(ch: char) -> (note: Option<Self>)
        ensures
            note == Self::spec_from_char(ch),
    {
        match ch {
            'A' | 'a' => Some(Note::La),
            'B' | 'b' => Some(Note::Si),
            'C' | 'c' => Some(Note::Do),
            'D' | 'd' => Some(Note::Re),
            'E' | 'e' => Some(Note::Mi),
            'F' | 'f' => Some(Note::Fa),
            'G' | 'g' => Some(Note::Sol),
            ' ' => Some(Note::Pause),
            _ => None,
        }
    }

    pub fn from_index(index: u8) -> (note: Self)
        ensures
            note == Self::spec_from_index(index),
            note != Note::Pause,
    {
        match index {
            0 => Note::Do,
            1 => Note::Re,
            2 => Note::Mi,
            3 => Note::Fa,
            4 => Note::Sol,
            5 => Note::La,
            _ => Note::Si,
        }
    }

    pub fn to_midi(self, octave: u8) -> (pitch: u8)
        requires
            self.spec_to_midi(octave) <= u8::MAX,
        ensures
            pitch == self.spec_to_midi(octave),
    {
        self.semitone() + 12 * (1 + octave)
    }
}

} // verus!
