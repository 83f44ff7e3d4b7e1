//! The clock of a playback: tempo and time signature, and the conversions
//! between beats per minute, microseconds per quarter note and tick lengths.

use crate::outside::u24_from_int_lossy;
use vstd::arithmetic::power2::{lemma2_to64, pow2};
use vstd::prelude::*;

verus! {

pub const ONE_MINUTE_IN_MICROSECONDS: u32 = 60_000_000;

/// The greatest number of microseconds per quarter note that a tempo event holds.
pub const MAX_MSPQN: u32 = 0xff_ffff;

/// A time signature. The denominator is the note value itself (4 for a
/// quarter note), not its power of two.
#[derive(Clone, Copy, PartialEq, Eq, Structural, Debug)]
pub struct TimeSignature {
    pub numerator: u8,
    pub denominator: u8,
}

impl Default for TimeSignature {
    fn default() -> (signature: Self)
        ensures
            signature == (TimeSignature { numerator: 4, denominator: 4 }),
    {
        TimeSignature { numerator: 4, denominator: 4 }
    }
}

impl TimeSignature {
    /// The signature that a file stores as a numerator and the power of two
    /// of its denominator.
    pub fn from_raw(numerator: u8, denominator: u8) -> (signature: Self)
        requires
            denominator < 8,
        ensures
            signature.numerator == numerator,
            signature.denominator == pow2(denominator as nat),
    {
        let value: u8 = 1u8 << denominator;
        proof {
            lemma2_to64();
            assert(value == if denominator == 0 {
                1u8
            } else if denominator == 1 {
                2u8
            } else if denominator == 2 {
                4u8
            } else if denominator == 3 {
                8u8
            } else if denominator == 4 {
                16u8
            } else if denominator == 5 {
                32u8
            } else if denominator == 6 {
                64u8
            } else {
                128u8
            }) by (bit_vector)
                requires
                    denominator < 8,
                    value == 1u8 << denominator,
            ;
        }
        TimeSignature { numerator, denominator: value }
    }
}

/// The microseconds per quarter note of a tempo of `bpm` beats per minute,
/// where a beat is one `denominator`-th of a whole note, as far as 24 bits hold them.
pub open spec fn spec_mspqn_from_bpm(bpm: u16, denominator: u32) -> int {
    ((ONE_MINUTE_IN_MICROSECONDS * denominator) / (bpm * 4)) % 0x100_0000
}

/// The beats per minute of a tempo of `mspqn` microseconds per quarter
/// note, rounded down and as far as 16 bits hold them. A tempo of no
/// microseconds at all counts as the fastest.
pub open spec fn spec_bpm_from_mspqn(mspqn: u32, denominator: u8) -> int {
    if denominator == 0 {
        0
    } else if mspqn == 0 {
        u16::MAX as int
    } else {
        let beats = (ONE_MINUTE_IN_MICROSECONDS * denominator) / (mspqn * 4);
        if beats > u16::MAX {
            u16::MAX as int
        } else {
            beats
        }
    }
}

/// What a playback has to know of the time: the signature, the tempo, and
/// the resolution of the file.
#[derive(Clone, Copy, Debug)]
pub struct TimeState {
    time_signature: TimeSignature,
    microsecspqn: u32,
    /// Ticks per quarter note. Set when the playback begins, and left alone after.
    pub tpqn: u16,
}

impl Default for TimeState {
    /// 120 beats per minute in 4/4, at 480 ticks per quarter note.
    fn default() -> (state: Self)
        ensures
            state@ == TimeStateView::starting(480),
    {
        TimeState {
            time_signature: TimeSignature { numerator: 4, denominator: 4 },
            microsecspqn: 500_000,
            tpqn: 480,
        }
    }
}

/// What a clock holds.
pub struct TimeStateView {
    pub time_signature: TimeSignature,
    /// Microseconds per quarter note.
    pub mspqn: u32,
    /// Ticks per quarter note.
    pub tpqn: u16,
}

impl TimeStateView {
    /// The clock that every playback begins with, but for its resolution:
    /// 120 beats per minute in 4/4.
    pub open spec fn starting(tpqn: u16) -> TimeStateView {
        TimeStateView {
            time_signature: TimeSignature { numerator: 4, denominator: 4 },
            mspqn: 500_000,
            tpqn,
        }
    }

    /// The tempo fits the 24 bits of a tempo event.
    pub open spec fn wf(self) -> bool {
        self.mspqn <= MAX_MSPQN
    }

    /// The tempo in beats per minute.
    pub open spec fn bpm(self) -> int {
        spec_bpm_from_mspqn(self.mspqn, self.time_signature.denominator)
    }

    /// The whole microseconds that one tick lasts.
    pub open spec fn duration_per_tick(self) -> int {
        self.mspqn as int / self.tpqn as int
    }
}

impl View for TimeState {
    type V = TimeStateView;

    closed spec fn view(&self) -> TimeStateView {
        TimeStateView {
            time_signature: self.time_signature,
            mspqn: self.microsecspqn,
            tpqn: self.tpqn,
        }
    }
}

impl TimeState {
    pub open spec fn spec_time_signature(self) -> TimeSignature {
        self@.time_signature
    }

    pub open spec fn spec_mspqn(self) -> u32 {
        self@.mspqn
    }

    /// Sets the microseconds per quarter note, as a tempo event gives them.
    pub fn set_mspqn(&mut self, mspqn: u32)
        requires
            mspqn <= MAX_MSPQN,
        ensures
            final(self)@ == (TimeStateView { mspqn, ..old(self)@ }),
    {
        self.microsecspqn = mspqn;
    }

    /// Sets the ticks per quarter note, as the header of a file gives them.
    pub fn set_tpqn(&mut self, tpqn: u16)
        ensures
            final(self)@ == (TimeStateView { tpqn, ..old(self)@ }),
    {
        self.tpqn = tpqn;
    }

    /// The ticks per quarter note.
    pub fn tpqn(self) -> (ticks: u16)
        ensures
            ticks == self@.tpqn,
    {
        self.tpqn
    }

    #[verifier::when_used_as_spec(spec_time_signature)]
    pub fn time_signature(self) -> (signature: TimeSignature)
        ensures
            signature == self.time_signature(),
    {
        self.time_signature
    }

    pub fn set_time_signature(&mut self, time_signature: TimeSignature)
        ensures
            final(self)@ == (TimeStateView { time_signature, ..old(self)@ }),
    {
        self.time_signature = time_signature;
    }

    #[verifier::when_used_as_spec(spec_mspqn)]
    pub fn mspqn(self) -> (mspqn: u32)
        ensures
            mspqn == self.mspqn(),
    {
        self.microsecspqn
    }

    /// The microseconds per quarter note that make `bpm` beats per minute,
    /// a beat being one `denominator`-th of a whole note.
    pub fn mspqn_from_bpm(bpm: u16, denominator: u32) -> (mspqn: u32)
        requires
            bpm > 0,
        ensures
            mspqn == spec_mspqn_from_bpm(bpm, denominator),
            mspqn <= MAX_MSPQN,
    {
        let minute: u64 = 60_000_000u64 * (denominator as u64);
        let beats: u64 = (bpm as u64) * 4;
        let whole: u64 = minute / beats;
        let low: u32 = #[verifier::truncate] (whole as u32);
        let mspqn = u24_from_int_lossy(low);
        assert(low & 0xff_ffffu32 == whole % 0x100_0000u64 && whole % 0x100_0000u64 <= 0xff_ffffu64)
            by (bit_vector)
            requires
                low == whole as u32,
        ;
        mspqn
    }

    /// Sets the tempo to `bpm` beats per minute under the current time signature.
    pub fn set_mspqn_from_bpm(&mut self, bpm: u16)
        requires
            bpm > 0,
        ensures
            final(self)@ == (TimeStateView {
                mspqn: spec_mspqn_from_bpm(bpm, old(self)@.time_signature.denominator as u32) as u32,
                ..old(self)@
            }),
            final(self)@.wf(),
    {
        let mspqn = Self::mspqn_from_bpm(bpm, self.time_signature.denominator as u32);
        self.set_mspqn(mspqn);
    }

    /// The tempo in beats per minute, a beat being the note value of the
    /// time signature's denominator.
    pub fn bpm(self) -> (bpm: u16)
        ensures
            bpm == self@.bpm(),
    {
        let denominator = self.time_signature.denominator;
        if denominator == 0 {
            0
        } else if self.microsecspqn == 0 {
            u16::MAX
        } else {
            let minute: u64 = 60_000_000u64 * (denominator as u64);
            let beats: u64 = minute / ((self.microsecspqn as u64) * 4);
            if beats > 0xffff {
                u16::MAX
            } else {
                beats as u16
            }
        }
    }

    /// How many whole microseconds one tick lasts.
    pub fn duration_per_tick(self) -> (micros: u64)
        requires
            self@.tpqn > 0,
        ensures
            micros == self@.duration_per_tick(),
    {
        (self.microsecspqn as u64) / (self.tpqn as u64)
    }
}

/// A tempo that was written as microseconds per quarter note reads back as
/// the same beats per minute, but for the rounding of the two divisions:
/// what is read is never less than what was written, and more by at most
/// the beats per minute divided by the microseconds. Where there are no
/// more beats per minute than microseconds per quarter note, it is the same.
/// This holds of every tempo whose microseconds fit the 24 bits of a tempo
/// event and are not zero.
pub proof fn lemma_bpm_round_trip(bpm: u16, denominator: u8)
    requires
        bpm > 0,
        denominator > 0,
        0 < (ONE_MINUTE_IN_MICROSECONDS * denominator) / (bpm * 4) <= MAX_MSPQN,
    ensures
        ({
            let mspqn = spec_mspqn_from_bpm(bpm, denominator as u32);
            let back = spec_bpm_from_mspqn(mspqn as u32, denominator);
            &&& 0 < mspqn <= MAX_MSPQN
            &&& bpm <= back <= bpm + bpm as int / mspqn
            &&& bpm <= mspqn ==> back == bpm
        }),
{
    let minute: int = ONE_MINUTE_IN_MICROSECONDS * denominator;
    let beat: int = bpm * 4;
    let mspqn: int = minute / beat;
    assert(mspqn % 0x100_0000 == mspqn);
    let beats: int = minute / (mspqn * 4);
    let slack: int = bpm as int / mspqn;
    assert(beat * mspqn <= minute < beat * (mspqn + 1)) by (nonlinear_arith)
        requires
            beat > 0,
            mspqn == minute / beat,
    ;
    assert(bpm <= beats) by (nonlinear_arith)
        requires
            mspqn > 0,
            beat == bpm * 4,
            beat * mspqn <= minute,
            beats == minute / (mspqn * 4),
    ;
    assert(bpm < (slack + 1) * mspqn) by (nonlinear_arith)
        requires
            mspqn > 0,
            slack == bpm as int / mspqn,
    ;
    assert(beats <= bpm + slack) by (nonlinear_arith)
        requires
            mspqn > 0,
            bpm > 0,
            beat == bpm * 4,
            minute < beat * (mspqn + 1),
            bpm < (slack + 1) * mspqn,
            beats == minute / (mspqn * 4),
    ;
    if bpm <= mspqn {
        assert(beats <= bpm) by (nonlinear_arith)
            requires
                mspqn > 0,
                bpm > 0,
                bpm <= mspqn,
                beat == bpm * 4,
                minute < beat * (mspqn + 1),
                beats == minute / (mspqn * 4),
        ;
    }
}

} // verus!
