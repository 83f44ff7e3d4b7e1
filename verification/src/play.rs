//! The playback of a track: how long to wait before each event, which
//! events go to the device, and how the clock changes on the way. Waiting
//! and sending are left to the caller.

use crate::midi_action::{action_events, track_events, MidiAction};
use crate::outside::sysex_is_live;
use crate::time_state::{TimeSignature, TimeState, TimeStateView, MAX_MSPQN};
use crate::track::{
    complete_sysex, track_view, MetaMessage, MetaMessageView, Smf, Timing, TrackEvent,
    TrackEventKind, TrackEventKindView, TrackEventView,
};
use vstd::arithmetic::power2::pow2;
use vstd::prelude::*;

verus! {

/// Why a file cannot be played.
#[derive(Clone, Copy, PartialEq, Eq, Structural, Debug)]
pub enum PlayError {
    /// The deltas of the file are not counted in ticks per quarter note.
    NotMetrical,
}

impl PlayError {
    pub fn message(&self) -> (text: &'static str)
        ensures
            text@ == "The timing of the received file is not coded with metrical."@,
    {
        "The timing of the received file is not coded with metrical."
    }
}

/// Why no output port was taken.
#[derive(Clone, Copy, PartialEq, Eq, Structural, Debug)]
pub enum PortError {
    NoOutputPort,
    InvalidPort,
}

impl PortError {
    pub open spec fn spec_message(self) -> Seq<char> {
        match self {
            PortError::NoOutputPort => "No output port found."@,
            PortError::InvalidPort => "Invalid output port selected."@,
        }
    }

    pub fn message(&self) -> (text: &'static str)
        ensures
            text@ == self.spec_message(),
    {
        match self {
            PortError::NoOutputPort => "No output port found.",
            PortError::InvalidPort => "Invalid output port selected.",
        }
    }
}

/// Milliseconds to wait after the last event, before the device is let go.
pub const SETTLING_MILLIS: u64 = 150;

/// What the player does for one event: it waits, and then it sends the
/// event to the device or keeps it to itself.
#[derive(Clone, Copy, PartialEq, Eq, Structural, Debug)]
pub struct Cue {
    /// Microseconds to wait before the event.
    pub wait: u64,
    /// Whether the event goes to the device.
    pub transmit: bool,
}

/// The port to take among `available` ones needs to be selected by the caller.
pub open spec fn spec_selection_needed(available: usize) -> bool {
    available > 1
}

/// The port to take among `available` ones: none where there is none, the
/// only one where there is one, and else the selected one, which has to be
/// one of them.
pub open spec fn spec_choose_port(available: usize, selected: Option<usize>) -> Result<
    usize,
    PortError,
> {
    if available == 0 {
        Err(PortError::NoOutputPort)
    } else if available == 1 {
        Ok(0)
    } else {
        match selected {
            Some(port) => if port < available {
                Ok(port)
            } else {
                Err(PortError::InvalidPort)
            },
            None => Err(PortError::InvalidPort),
        }
    }
}

/// An event of this kind goes to the device: a channel message, or a
/// system exclusive message that is whole.
pub open spec fn is_live(kind: TrackEventKindView) -> bool {
    match kind {
        TrackEventKindView::Midi { .. } => true,
        TrackEventKindView::SysEx(data) => complete_sysex(data),
        TrackEventKindView::Escape => false,
        TrackEventKindView::Meta(_) => false,
    }
}

/// The clock can take in an event of this kind: a tempo has at most 24
/// bits, and the denominator of a time signature fits a byte.
pub open spec fn kind_fits(kind: TrackEventKindView) -> bool {
    match kind {
        TrackEventKindView::Meta(MetaMessageView::Tempo(mspqn)) => mspqn <= MAX_MSPQN,
        TrackEventKindView::Meta(MetaMessageView::TimeSignature(_, power, _, _)) => power < 8,
        _ => true,
    }
}

/// The clock after an event of this kind: a tempo event sets the tempo, a
/// time signature event the signature, and no other event changes anything.
pub open spec fn clock_after(clock: TimeStateView, kind: TrackEventKindView) -> TimeStateView {
    match kind {
        TrackEventKindView::Meta(MetaMessageView::Tempo(mspqn)) => TimeStateView {
            mspqn,
            ..clock
        },
        TrackEventKindView::Meta(
            MetaMessageView::TimeSignature(numerator, power, _, _),
        ) => TimeStateView {
            time_signature: TimeSignature { numerator, denominator: pow2(power as nat) as u8 },
            ..clock
        },
        _ => clock,
    }
}

/// The clock after the first `upto` events of `track`.
pub open spec fn clock_at(start: TimeStateView, track: Seq<TrackEventView>, upto: int)
    -> TimeStateView
    decreases upto,
{
    if upto <= 0 {
        start
    } else {
        clock_after(clock_at(start, track, upto - 1), track[upto - 1].kind)
    }
}

/// What the player does for `event` when the clock stands at `clock`: it
/// waits the ticks of the delta at the tempo of that moment.
pub open spec fn cue_of(clock: TimeStateView, event: TrackEventView) -> Cue {
    Cue {
        wait: if event.delta > 0 {
            (event.delta * clock.duration_per_tick()) as u64
        } else {
            0
        },
        transmit: is_live(event.kind),
    }
}

/// What the player does for each event of `track`, in the order of the
/// track. Each event is timed by the clock as the events before it left it.
pub open spec fn cues_of(start: TimeStateView, track: Seq<TrackEventView>) -> Seq<Cue> {
    Seq::new(track.len(), |at: int| cue_of(clock_at(start, track, at), track[at]))
}

/// `track` can be played from `start` on: the clock can take in every
/// event, and no delta is to be timed at a resolution of zero.
pub open spec fn track_fits(start: TimeStateView, track: Seq<TrackEventView>) -> bool {
    forall|at: int|
        0 <= at < track.len() ==> kind_fits((#[trigger] track[at]).kind) && (track[at].delta > 0
            ==> start.tpqn > 0)
}

/// `file` can be handed to the player: where its timing is metrical, it
/// has a first track, and that track can be played. Of a file of any
/// other timing nothing is asked, since the player refuses it unread.
pub open spec fn file_fits(file: Smf) -> bool {
    file.header.timing matches Timing::Metrical(tpqn) ==> file.tracks@.len() > 0 && track_fits(
        TimeStateView::starting(tpqn),
        track_view(file.tracks@[0]@),
    )
}

/// Whether the clock can take in an event of this kind.
pub fn fits(kind: &TrackEventKind) -> (yes: bool)
    ensures
        yes == kind_fits(kind@),
{
    match kind {
        TrackEventKind::Meta(MetaMessage::Tempo(mspqn)) => *mspqn <= MAX_MSPQN,
        TrackEventKind::Meta(MetaMessage::TimeSignature(_, power, _, _)) => *power < 8,
        _ => true,
    }
}

/// Whether `file` can be handed to the player.
pub fn can_play(file: &Smf) -> (yes: bool)
    ensures
        yes == file_fits(*file),
{
    match file.header.timing {
        Timing::Timecode(_, _) => true,
        Timing::Metrical(tpqn) => {
            if file.tracks.len() == 0 {
                return false;
            }
            let track = &file.tracks[0];
            let ghost start = TimeStateView::starting(tpqn);
            let ghost events = track_view(track@);
            let mut at: usize = 0;
            while at < track.len()
                invariant
                    0 <= at <= track.len(),
                    file.tracks@.len() > 0,
                    file.header.timing == Timing::Metrical(tpqn),
                    track@ == file.tracks@[0]@,
                    events == track_view(track@),
                    start == TimeStateView::starting(tpqn),
                    forall|before: int|
                        0 <= before < at ==> kind_fits((#[trigger] events[before]).kind) && (
                        events[before].delta > 0 ==> tpqn > 0),
                decreases track.len() - at,
            {
                assert(events[at as int] == track[at as int]@);
                if !fits(&track[at].kind) || (track[at].delta > 0 && tpqn == 0) {
                    assert(!track_fits(start, events)) by {
                        let broken = events[at as int];
                        assert(!(kind_fits(broken.kind) && (broken.delta > 0 ==> start.tpqn > 0)));
                    }
                    return false;
                }
                at += 1;
            }
            true
        },
    }
}

pub fn selection_needed(available: usize) -> (needed: bool)
    ensures
        needed == spec_selection_needed(available),
{
    available > 1
}

pub fn choose_port(available: usize, selected: Option<usize>) -> (port: Result<usize, PortError>)
    ensures
        port == spec_choose_port(available, selected),
        port matches Ok(index) ==> index < available,
{
    if available == 0 {
        Err(PortError::NoOutputPort)
    } else if available == 1 {
        Ok(0)
    } else {
        match selected {
            Some(port) => if port < available {
                Ok(port)
            } else {
                Err(PortError::InvalidPort)
            },
            None => Err(PortError::InvalidPort),
        }
    }
}

/// The clock with which the playback of a file of this timing begins:
/// 120 beats per minute in 4/4, at the resolution of the file. A file
/// whose timing is not metrical cannot be played.
pub fn start_clock(timing: Timing) -> (clock: Result<TimeState, PlayError>)
    ensures
        match timing {
            Timing::Metrical(tpqn) => clock matches Ok(state) && state@
                == TimeStateView::starting(tpqn),
            Timing::Timecode(_, _) => clock == Err::<TimeState, PlayError>(PlayError::NotMetrical),
        },
{
    match timing {
        Timing::Metrical(tpqn) => {
            let mut state = TimeState::default();
            state.set_tpqn(tpqn);
            Ok(state)
        },
        Timing::Timecode(_, _) => Err(PlayError::NotMetrical),
    }
}

/// Whether an event of this kind goes to the device.
pub fn transmits(kind: &TrackEventKind) -> (live: bool)
    ensures
        live == is_live(kind@),
{
    match kind {
        TrackEventKind::Midi { .. } => true,
        TrackEventKind::SysEx(data) => sysex_is_live(data),
        TrackEventKind::Escape => false,
        TrackEventKind::Meta(_) => false,
    }
}

/// Plays one event: says how long to wait and whether to send the event,
/// and then takes the event into the clock.
pub fn play_event(clock: &mut TimeState, event: &TrackEvent) -> (cue: Cue)
    requires
        kind_fits(event@.kind),
        event.delta > 0 ==> old(clock)@.tpqn > 0,
    ensures
        cue == cue_of(old(clock)@, event@),
        final(clock)@ == clock_after(old(clock)@, event@.kind),
{
    let wait: u64 = if event.delta > 0 {
        let per_tick: u64 = clock.duration_per_tick();
        assert(event.delta * per_tick <= u64::MAX) by (nonlinear_arith)
            requires
                event.delta <= u32::MAX,
                per_tick <= u32::MAX,
        ;
        (event.delta as u64) * per_tick
    } else {
        0
    };
    let transmit = transmits(&event.kind);
    match &event.kind {
        TrackEventKind::Meta(MetaMessage::Tempo(mspqn)) => {
            clock.set_mspqn(*mspqn);
        },
        TrackEventKind::Meta(MetaMessage::TimeSignature(numerator, power, _, _)) => {
            clock.set_time_signature(TimeSignature::from_raw(*numerator, *power));
        },
        _ => {},
    }
    Cue { wait, transmit }
}

/// Plays the first track of `file`: for each event in turn, how long to
/// wait before it and whether it goes to the device.
pub fn play_file(file: &Smf) -> (cues: Result<Vec<Cue>, PlayError>)
    requires
        file_fits(*file),
    ensures
        match file.header.timing {
            Timing::Metrical(tpqn) => cues matches Ok(list) && list@ == cues_of(
                TimeStateView::starting(tpqn),
                track_view(file.tracks@[0]@),
            ),
            Timing::Timecode(_, _) => cues == Err::<Vec<Cue>, PlayError>(PlayError::NotMetrical),
        },
{
    let mut clock = match start_clock(file.header.timing) {
        Ok(clock) => clock,
        Err(error) => {
            return Err(error);
        },
    };
    let ghost start = clock@;
    let track = &file.tracks[0];
    let ghost events = track_view(track@);
    let mut cues: Vec<Cue> = Vec::new();
    let mut at: usize = 0;
    while at < track.len()
        invariant
            0 <= at <= track.len(),
            events == track_view(track@),
            track_fits(start, events),
            clock@ == clock_at(start, events, at as int),
            clock@.tpqn == start.tpqn,
            cues@ == cues_of(start, events).take(at as int),
        decreases track.len() - at,
    {
        assert(events[at as int] == track[at as int]@);
        let cue = play_event(&mut clock, &track[at]);
        cues.push(cue);
        at += 1;
    }
    assert(cues_of(start, events).take(at as int) == cues_of(start, events));
    Ok(cues)
}

/// The clock can take in every event of a run of actions.
pub proof fn lemma_action_events_fit(actions: Seq<MidiAction>)
    ensures
        forall|at: int|
            0 <= at < action_events(actions).len() ==> kind_fits(
                (#[trigger] action_events(actions)[at]).kind,
            ),
    decreases actions.len(),
{
    if actions.len() > 0 {
        lemma_action_events_fit(actions.drop_last());
        let before = action_events(actions.drop_last());
        let last = actions.last().events();
        assert forall|at: int| 0 <= at < (before + last).len() implies kind_fits(
            (#[trigger] (before + last)[at]).kind,
        ) by {
            if at < before.len() {
                assert((before + last)[at] == before[at]);
            } else {
                assert((before + last)[at] == last[at - before.len()]);
            }
        }
    }
}

/// Every track that the encoder writes can be played at the resolution
/// that the encoder gives its files.
pub proof fn lemma_encoded_track_fits(actions: Seq<MidiAction>)
    ensures
        track_fits(TimeStateView::starting(MidiAction::D_TPQN), track_events(actions)),
{
    lemma_action_events_fit(actions);
    let track = track_events(actions);
    let body = action_events(actions);
    assert forall|at: int| 0 <= at < track.len() implies kind_fits((#[trigger] track[at]).kind) by {
        if 4 <= at < 4 + body.len() {
            assert(track[at] == body[at - 4]);
        }
    }
}

} // verus!
