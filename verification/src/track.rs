//! The data of a Standard MIDI File as the encoder writes it and the player
//! reads it: a header and tracks of timed events, held as plain values.

use vstd::prelude::*;

verus! {

/// A message on a MIDI channel. Every data value has seven bits, a pitch
/// bend fourteen.
#[derive(Clone, Copy, PartialEq, Eq, Structural, Debug)]
pub enum MidiMessage {
    NoteOff { key: u8, vel: u8 },
    NoteOn { key: u8, vel: u8 },
    Aftertouch { key: u8, vel: u8 },
    Controller { controller: u8, value: u8 },
    ProgramChange { program: u8 },
    ChannelAftertouch { vel: u8 },
    PitchBend { bend: u16 },
}

impl MidiMessage {
    /// Every data value is within the range that the wire format gives it.
    pub open spec fn wf(self) -> bool {
        match self {
            MidiMessage::NoteOff { key, vel } => key < 128 && vel < 128,
            MidiMessage::NoteOn { key, vel } => key < 128 && vel < 128,
            MidiMessage::Aftertouch { key, vel } => key < 128 && vel < 128,
            MidiMessage::Controller { controller, value } => controller < 128 && value < 128,
            MidiMessage::ProgramChange { program } => program < 128,
            MidiMessage::ChannelAftertouch { vel } => vel < 128,
            MidiMessage::PitchBend { bend } => bend < 0x4000,
        }
    }
}

/// A meta message: information about the track that no device receives.
#[derive(Clone, PartialEq, Eq, Debug)]
pub enum MetaMessage {
    TrackName(Vec<u8>),
    MidiPort(u8),
    EndOfTrack,
    /// Microseconds per quarter note, in 24 bits.
    Tempo(u32),
    /// Numerator, the power of two of the denominator, MIDI clocks per
    /// click, and 32nd notes per quarter note.
    TimeSignature(u8, u8, u8, u8),
    /// Sharps (positive) or flats (negative), and whether the scale is minor.
    KeySignature(i8, bool),
    /// Any other meta message, by its type byte.
    Other(u8),
}

pub enum MetaMessageView {
    TrackName(Seq<u8>),
    MidiPort(u8),
    EndOfTrack,
    Tempo(u32),
    TimeSignature(u8, u8, u8, u8),
    KeySignature(i8, bool),
    Other(u8),
}

impl View for MetaMessage {
    type V = MetaMessageView;

    open spec fn view(&self) -> MetaMessageView {
        match *self {
            MetaMessage::TrackName(name) => MetaMessageView::TrackName(name@),
            MetaMessage::MidiPort(port) => MetaMessageView::MidiPort(port),
            MetaMessage::EndOfTrack => MetaMessageView::EndOfTrack,
            MetaMessage::Tempo(mspqn) => MetaMessageView::Tempo(mspqn),
            MetaMessage::TimeSignature(n, d, c, b) => MetaMessageView::TimeSignature(n, d, c, b),
            MetaMessage::KeySignature(sharps, minor) => MetaMessageView::KeySignature(
                sharps,
                minor,
            ),
            MetaMessage::Other(kind) => MetaMessageView::Other(kind),
        }
    }
}

/// A system exclusive message of these bytes is whole, and not one part of
/// a message that was split: it ends with `0xF7`, and every byte before
/// that has seven bits.
pub open spec fn complete_sysex(data: Seq<u8>) -> bool {
    &&& data.len() > 0
    &&& data.last() == 0xf7
    &&& forall|at: int| 0 <= at < data.len() - 1 ==> data[at] < 0x80
}

/// What a track event carries.
#[derive(Clone, PartialEq, Eq, Debug)]
pub enum TrackEventKind {
    Midi { channel: u8, message: MidiMessage },
    /// A system exclusive message, without its leading `0xF0`.
    SysEx(Vec<u8>),
    /// An escape sequence; its bytes are not kept.
    Escape,
    Meta(MetaMessage),
}

pub enum TrackEventKindView {
    Midi { channel: u8, message: MidiMessage },
    SysEx(Seq<u8>),
    Escape,
    Meta(MetaMessageView),
}

impl View for TrackEventKind {
    type V = TrackEventKindView;

    open spec fn view(&self) -> TrackEventKindView {
        match *self {
            TrackEventKind::Midi { channel, message } => TrackEventKindView::Midi {
                channel,
                message,
            },
            TrackEventKind::SysEx(data) => TrackEventKindView::SysEx(data@),
            TrackEventKind::Escape => TrackEventKindView::Escape,
            TrackEventKind::Meta(meta) => TrackEventKindView::Meta(meta@),
        }
    }
}

/// An event of a track: what happens, and how many ticks after the event
/// before it. A delta has 28 bits.
#[derive(Clone, PartialEq, Eq, Debug)]
pub struct TrackEvent {
    pub delta: u32,
    pub kind: TrackEventKind,
}

pub struct TrackEventView {
    pub delta: u32,
    pub kind: TrackEventKindView,
}

impl TrackEventView {
    /// Every value of the event is within the range that a file gives it:
    /// 28 bits for the delta, four for a channel, seven for a port, and 24
    /// for a tempo.
    pub open spec fn wf(self) -> bool {
        &&& self.delta < 0x1000_0000
        &&& match self.kind {
            TrackEventKindView::Midi { channel, message } => channel < 16 && message.wf(),
            TrackEventKindView::Meta(MetaMessageView::MidiPort(port)) => port < 128,
            TrackEventKindView::Meta(MetaMessageView::Tempo(mspqn)) => mspqn < 0x100_0000,
            _ => true,
        }
    }
}

impl View for TrackEvent {
    type V = TrackEventView;

    open spec fn view(&self) -> TrackEventView {
        TrackEventView { delta: self.delta, kind: self.kind@ }
    }
}

/// The events of a track, in the order in which they happen.
pub type Track = Vec<TrackEvent>;

/// The view of each event of a track, in order.
pub open spec fn track_view(track: Seq<TrackEvent>) -> Seq<TrackEventView> {
    Seq::new(track.len(), |i: int| track[i]@)
}

/// How the tracks of a file relate to each other.
#[derive(Clone, Copy, PartialEq, Eq, Structural, Debug)]
pub enum Format {
    SingleTrack,
    Parallel,
    Sequential,
}

/// How the deltas of a file are to be read.
#[derive(Clone, Copy, PartialEq, Eq, Structural, Debug)]
pub enum Timing {
    /// Ticks per quarter note, in 15 bits.
    Metrical(u16),
    /// Frames per second and ticks per frame.
    Timecode(u8, u8),
}

#[derive(Clone, Copy, PartialEq, Eq, Structural, Debug)]
pub struct Header {
    pub format: Format,
    pub timing: Timing,
}

/// A Standard MIDI File in memory.
#[derive(Clone, PartialEq, Eq, Debug)]
pub struct Smf {
    pub header: Header,
    pub tracks: Vec<Track>,
}

impl Smf {
    /// A file with the given header and no track yet.
    pub fn new(header: Header) -> (smf: Self)
        ensures
            smf.header == header,
            smf.tracks@.len() == 0,
    {
        Smf { header, tracks: Vec::new() }
    }
}

} // verus!
