//! The actions of a performance, and their encoding as the events of one track.

use crate::outside::{sustain_controller, u7_from_int_lossy, volume_controller};
use crate::time_state::{spec_mspqn_from_bpm, TimeState};
use crate::track::{
    track_view, Format, Header, MetaMessage, MetaMessageView, MidiMessage, Smf, Timing, Track,
    TrackEvent, TrackEventKind, TrackEventKindView, TrackEventView,
};
use vstd::prelude::*;

verus! {

/// One action of a performance. An action has no length of its own: a note
/// and a rest last one quarter note, and the others take no time.
#[derive(Clone, Copy, PartialEq, Eq, Structural, Debug)]
pub enum MidiAction {
    /// Plays the note of this MIDI pitch.
    PlayNote(u8),
    /// Changes to this program of General MIDI.
    ChangeInstrument(u8),
    /// Changes the volume of the channel.
    ChangeVolume(u16),
    /// Rests.
    Pause,
    /// Changes the tempo to this many beats per minute.
    ChangeBPM(u16),
    /// Ends the performance.
    EndOfSequence,
}

/// An event on the channel of the library.
pub open spec fn channel_event(delta: u32, message: MidiMessage) -> TrackEventView {
    TrackEventView {
        delta,
        kind: TrackEventKindView::Midi { channel: MidiAction::D_CHANNEL, message },
    }
}

pub open spec fn meta_event(delta: u32, message: MetaMessageView) -> TrackEventView {
    TrackEventView { delta, kind: TrackEventKindView::Meta(message) }
}

/// The name that every track gets: `tcp_out`.
pub open spec fn track_name() -> Seq<u8> {
    seq![0x74u8, 0x63u8, 0x70u8, 0x5fu8, 0x6fu8, 0x75u8, 0x74u8]
}

/// The events that open every track, all at delta zero: the name, the time
/// signature 4/4, the key signature of C major, and port 0.
pub open spec fn opening_events() -> Seq<TrackEventView> {
    seq![
        meta_event(0, MetaMessageView::TrackName(track_name())),
        meta_event(0, MetaMessageView::TimeSignature(4, 2, 24, 8)),
        meta_event(0, MetaMessageView::KeySignature(0, false)),
        meta_event(0, MetaMessageView::MidiPort(0)),
    ]
}

/// The event that closes a track, one tick after the event before it.
pub open spec fn end_event() -> TrackEventView {
    meta_event(1, MetaMessageView::EndOfTrack)
}

/// The events of a run of actions, in order.
pub open spec fn action_events(actions: Seq<MidiAction>) -> Seq<TrackEventView>
    decreases actions.len(),
{
    if actions.len() == 0 {
        Seq::empty()
    } else {
        action_events(actions.drop_last()) + actions.last().events()
    }
}

/// The closing event, where the actions do not end the sequence themselves.
pub open spec fn closing_events(actions: Seq<MidiAction>) -> Seq<TrackEventView> {
    if actions.len() > 0 && actions.last() == MidiAction::EndOfSequence {
        Seq::empty()
    } else {
        seq![end_event()]
    }
}

/// The track of a run of actions: the opening events, the events of each
/// action in turn, and the end of the track.
pub open spec fn track_events(actions: Seq<MidiAction>) -> Seq<TrackEventView> {
    opening_events() + action_events(actions) + closing_events(actions)
}

/// Every action of the run can be encoded.
pub open spec fn all_encodable(actions: Seq<MidiAction>) -> bool {
    forall|i: int| 0 <= i < actions.len() ==> (#[trigger] actions[i]).encodable()
}

impl MidiAction {
    /// The one channel that the library writes to.
    pub const D_CHANNEL: u8 = 0;

    /// The velocity of every note.
    pub const D_VELOCITY: u8 = 63;

    /// The delta of an event that follows the one before it at once.
    pub const INSTANT: u32 = 0;

    /// Ticks per quarter note of every track that the library writes.
    pub const D_TPQN: u16 = 480;

    /// The controller of the channel volume.
    pub const D_VOLUME_CONTROLLER: u8 = 7;

    /// The controller of the sustain. A rest is written as the sustain
    /// switched off, at its beginning and again at its end.
    pub const D_SUSTAIN_CONTROLLER: u8 = 64;

    /// The value that switches a controller off.
    pub const D_OFF: u8 = 0;

    /// The denominator of the time signature that tempos are written under.
    pub const D_DENOMINATOR: u32 = 4;

    /// A tempo of no beats per minute has no length of a beat; every other
    /// action can be encoded.
    pub open spec fn encodable(self) -> bool {
        self matches MidiAction::ChangeBPM(bpm) ==> bpm > 0
    }

    /// The events that encode this action. A value wider than seven bits
    /// loses its upper bits.
    pub open spec fn events(self) -> Seq<TrackEventView> {
        match self {
            MidiAction::PlayNote(note) => seq![
                channel_event(
                    0,
                    MidiMessage::NoteOn { key: (note % 128) as u8, vel: Self::D_VELOCITY },
                ),
                channel_event(
                    Self::D_TPQN as u32,
                    MidiMessage::NoteOff { key: (note % 128) as u8, vel: Self::D_VELOCITY },
                ),
            ],
            MidiAction::ChangeInstrument(instrument) => seq![
                channel_event(0, MidiMessage::ProgramChange { program: (instrument % 128) as u8 }),
            ],
            MidiAction::ChangeVolume(volume) => seq![
                channel_event(
                    0,
                    MidiMessage::Controller {
                        controller: Self::D_VOLUME_CONTROLLER,
                        value: (volume % 128) as u8,
                    },
                ),
            ],
            MidiAction::Pause => seq![
                channel_event(
                    0,
                    MidiMessage::Controller {
                        controller: Self::D_SUSTAIN_CONTROLLER,
                        value: Self::D_OFF,
                    },
                ),
                channel_event(
                    Self::D_TPQN as u32,
                    MidiMessage::Controller {
                        controller: Self::D_SUSTAIN_CONTROLLER,
                        value: Self::D_OFF,
                    },
                ),
            ],
            MidiAction::ChangeBPM(bpm) => seq![
                meta_event(
                    0,
                    MetaMessageView::Tempo(spec_mspqn_from_bpm(bpm, Self::D_DENOMINATOR) as u32),
                ),
            ],
            MidiAction::EndOfSequence => seq![end_event()],
        }
    }

    /// Whether every action of `slice` can be encoded.
    pub fn can_encode(slice: &[Self]) -> (yes: bool)
        ensures
            yes == all_encodable(slice@),
    {
        let mut at: usize = 0;
        while at < slice.len()
            invariant
                0 <= at <= slice.len(),
                forall|before: int| 0 <= before < at ==> (#[trigger] slice@[before]).encodable(),
            decreases slice.len() - at,
        {
            match slice[at] {
                MidiAction::ChangeBPM(bpm) => {
                    if bpm == 0 {
                        return false;
                    }
                },
                _ => {},
            }
            at += 1;
        }
        true
    }

    /// The track of `slice` in a file of its own, at `D_TPQN` ticks per
    /// quarter note.
    pub fn as_track(slice: &[Self]) -> (smf: Smf)
        requires
            all_encodable(slice@),
        ensures
            smf.header == (Header {
                format: Format::SingleTrack,
                timing: Timing::Metrical(Self::D_TPQN),
            }),
            smf.tracks@.len() == 1,
            track_view(smf.tracks@[0]@) == track_events(slice@),
    {
        let header = Header {
            format: Format::SingleTrack,
            timing: Timing::Metrical(Self::D_TPQN),
        };
        let mut smf = Smf::new(header);
        let mut track: Track = Vec::new();
        Self::add_beggining(&mut track);
        assert(track_view(track@) == opening_events() + action_events(slice@.take(0)));
        let mut i: usize = 0;
        while i < slice.len()
            invariant
                0 <= i <= slice.len(),
                all_encodable(slice@),
                track_view(track@) == opening_events() + action_events(slice@.take(i as int)),
            decreases slice.len() - i,
        {
            assert(slice@.take(i + 1).drop_last() == slice@.take(i as int));
            slice[i].push_as_event(&mut track);
            i += 1;
        }
        assert(slice@.take(i as int) == slice@);
        if i == 0 || !matches!(slice[i - 1], MidiAction::EndOfSequence) {
            Self::add_end(&mut track);
        }
        smf.tracks.push(track);
        smf
    }

    /// Appends the events that open every track.
    fn add_beggining(track: &mut Track)
        ensures
            track_view(final(track)@) == track_view(old(track)@) + opening_events(),
    {
        let mut name: Vec<u8> = Vec::new();
        name.push(0x74);
        name.push(0x63);
        name.push(0x70);
        name.push(0x5f);
        name.push(0x6f);
        name.push(0x75);
        name.push(0x74);
        assert(name@ == track_name());
        track.push(
            TrackEvent {
                delta: Self::INSTANT,
                kind: TrackEventKind::Meta(MetaMessage::TrackName(name)),
            },
        );
        track.push(
            TrackEvent {
                delta: Self::INSTANT,
                kind: TrackEventKind::Meta(MetaMessage::TimeSignature(4, 2, 24, 8)),
            },
        );
        track.push(
            TrackEvent {
                delta: Self::INSTANT,
                kind: TrackEventKind::Meta(MetaMessage::KeySignature(0, false)),
            },
        );
        track.push(
            TrackEvent {
                delta: Self::INSTANT,
                kind: TrackEventKind::Meta(MetaMessage::MidiPort(u7_from_int_lossy(0))),
            },
        );
        assert(0u8 & 0x7f == 0) by (bit_vector);
        assert(track_view(track@) == track_view(old(track)@) + opening_events());
    }

    /// Appends the end of the track.
    fn add_end(track: &mut Track)
        ensures
            track_view(final(track)@) == track_view(old(track)@) + seq![end_event()],
    {
        track.push(TrackEvent { delta: 1, kind: TrackEventKind::Meta(MetaMessage::EndOfTrack) });
        assert(track_view(track@) == track_view(old(track)@) + seq![end_event()]);
    }

    /// The ticks of a quarter note.
    fn quarter_note_delta() -> (delta: u32)
        ensures
            delta == Self::D_TPQN,
    {
        Self::D_TPQN as u32
    }

    /// Appends the events of this action to `track`.
    pub fn push_as_event(self, track: &mut Track)
        requires
            self.encodable(),
        ensures
            track_view(final(track)@) == track_view(old(track)@) + self.events(),
    {
        match self {
            MidiAction::PlayNote(note) => {
                let key = u7_from_int_lossy(note);
                assert(note & 0x7f == note % 128) by (bit_vector);
                track.push(
                    TrackEvent {
                        delta: Self::INSTANT,
                        kind: TrackEventKind::Midi {
                            channel: Self::D_CHANNEL,
                            message: MidiMessage::NoteOn { key, vel: Self::D_VELOCITY },
                        },
                    },
                );
                track.push(
                    TrackEvent {
                        delta: Self::quarter_note_delta(),
                        kind: TrackEventKind::Midi {
                            channel: Self::D_CHANNEL,
                            message: MidiMessage::NoteOff { key, vel: Self::D_VELOCITY },
                        },
                    },
                );
            },
            MidiAction::ChangeInstrument(instrument) => {
                let program = u7_from_int_lossy(instrument);
                assert(instrument & 0x7f == instrument % 128) by (bit_vector);
                track.push(
                    TrackEvent {
                        delta: Self::INSTANT,
                        kind: TrackEventKind::Midi {
                            channel: Self::D_CHANNEL,
                            message: MidiMessage::ProgramChange { program },
                        },
                    },
                );
            },
            MidiAction::ChangeVolume(volume) => {
                let low: u8 = #[verifier::truncate] (volume as u8);
                let value = u7_from_int_lossy(low);
                assert(low & 0x7f == (volume % 128) as u8) by (bit_vector)
                    requires
                        low == volume as u8,
                ;
                track.push(
                    TrackEvent {
                        delta: Self::INSTANT,
                        kind: TrackEventKind::Midi {
                            channel: Self::D_CHANNEL,
                            message: MidiMessage::Controller {
                                controller: u7_from_int_lossy(volume_controller()),
                                value,
                            },
                        },
                    },
                );
                assert(7u8 & 0x7f == 7) by (bit_vector);
            },
            MidiAction::Pause => {
                let controller = u7_from_int_lossy(sustain_controller());
                let value = u7_from_int_lossy(Self::D_OFF);
                assert(64u8 & 0x7f == 64 && 0u8 & 0x7f == 0) by (bit_vector);
                track.push(
                    TrackEvent {
                        delta: Self::INSTANT,
                        kind: TrackEventKind::Midi {
                            channel: Self::D_CHANNEL,
                            message: MidiMessage::Controller { controller, value },
                        },
                    },
                );
                track.push(
                    TrackEvent {
                        delta: Self::quarter_note_delta(),
                        kind: TrackEventKind::Midi {
                            channel: Self::D_CHANNEL,
                            message: MidiMessage::Controller { controller, value },
                        },
                    },
                );
            },
            MidiAction::ChangeBPM(bpm) => {
                track.push(
                    TrackEvent {
                        delta: Self::INSTANT,
                        kind: TrackEventKind::Meta(
                            MetaMessage::Tempo(TimeState::mspqn_from_bpm(bpm, Self::D_DENOMINATOR)),
                        ),
                    },
                );
            },
            MidiAction::EndOfSequence => {
                Self::add_end(track);
            },
        }
        assert(track_view(track@) == track_view(old(track)@) + self.events());
    }
}

/// Every event of a run of actions is within the ranges of a file, and a
/// run that ends the sequence ends with the end of the track.
pub proof fn lemma_action_events(actions: Seq<MidiAction>)
    ensures
        forall|at: int|
            0 <= at < action_events(actions).len() ==> (#[trigger] action_events(actions)[at]).wf(),
        actions.len() > 0 && actions.last() == MidiAction::EndOfSequence ==> action_events(
            actions,
        ).len() > 0 && action_events(actions).last() == end_event(),
    decreases actions.len(),
{
    if actions.len() > 0 {
        lemma_action_events(actions.drop_last());
        let before = action_events(actions.drop_last());
        let last = actions.last().events();
        assert forall|at: int| 0 <= at < last.len() implies (#[trigger] last[at]).wf() by {
            match actions.last() {
                MidiAction::PlayNote(_) => {},
                MidiAction::ChangeInstrument(_) => {},
                MidiAction::ChangeVolume(_) => {},
                MidiAction::Pause => {},
                MidiAction::ChangeBPM(_) => {},
                MidiAction::EndOfSequence => {},
            }
        }
        assert forall|at: int| 0 <= at < (before + last).len() implies (#[trigger] (before
            + last)[at]).wf() by {
            if at < before.len() {
                assert((before + last)[at] == before[at]);
            } else {
                assert((before + last)[at] == last[at - before.len()]);
            }
        }
    }
}

/// Every track that the encoder writes opens with the four events that
/// name and describe it, closes with the end of the track, and holds no
/// value out of the ranges of a file.
pub proof fn lemma_track_frame(actions: Seq<MidiAction>)
    ensures
        track_events(actions).len() >= 5,
        track_events(actions).take(4) == opening_events(),
        track_events(actions).last() == end_event(),
        forall|at: int|
            0 <= at < track_events(actions).len() ==> (#[trigger] track_events(actions)[at]).wf(),
{
    lemma_action_events(actions);
    let opening = opening_events();
    let body = action_events(actions);
    let closing = closing_events(actions);
    let track = track_events(actions);
    assert(track.take(4) == opening);
    assert forall|at: int| 0 <= at < track.len() implies (#[trigger] track[at]).wf() by {
        if at < 4 {
            assert(track[at] == opening[at]);
        } else if at < 4 + body.len() {
            assert(track[at] == body[at - 4]);
        } else {
            assert(track[at] == closing[at - 4 - body.len()]);
        }
    }
    if closing.len() == 0 {
        assert(track.last() == body.last());
    }
}

} // verus!
