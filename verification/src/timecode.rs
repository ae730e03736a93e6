//! Frame-accurate SMPTE timecodes: a frame count at a frame rate.
//!
//! Arithmetic and ordering between timecodes of one rate are whole-frame
//! operations on the frame count; the HH:MM:SS:FF text is produced by `vtc`.

use vstd::prelude::*;
use crate::text::{decimal_spec, pad_left_spec};

verus! {

/// Largest frame count (in magnitude) that a well-formed timecode holds:
/// 2^40 frames, over 34 years even at 1000 frames per second. `vtc` works
/// out a timecode's text with 64-bit rationals whose numerators are the
/// frame count times factors of the rate (up to 1000 * 1001 for an NTSC
/// rate); the bound, doubled for a printable timecode, keeps those products
/// within `i64`.
pub const MAX_FRAMES: i64 = 0x100_0000_0000;

/// Largest timebase (whole frames per second) accepted for a frame rate:
/// far above any video rate in use, and small enough to keep the products
/// described at `MAX_FRAMES` within `i64`.
pub const MAX_TIMEBASE: u32 = 1000;

/// NTSC flavour of a frame rate.
#[derive(Clone, Copy, Debug, PartialEq, Eq, Structural)]
pub enum RateNtsc {
    /// A whole-number playback rate.
    Whole,
    /// Playback at timebase * 1000/1001, counted without dropping frame numbers.
    NonDropFrame,
    /// Playback at timebase * 1000/1001, counted with dropped frame numbers.
    DropFrame,
}

/// A frame rate given by its timecode timebase (whole frames per second)
/// and its NTSC flavour.
#[derive(Clone, Copy, Debug, PartialEq, Eq, Structural)]
pub struct Framerate {
    pub timebase: u32,
    pub ntsc: RateNtsc,
}

impl Framerate {
    /// A rate `vtc` accepts as a timebase: positive, bounded, and, for drop
    /// frame, a multiple of 30.
    pub open spec fn wf(self) -> bool {
        &&& 0 < self.timebase <= MAX_TIMEBASE
        &&& (self.ntsc == RateNtsc::DropFrame ==> self.timebase % 30 == 0)
    }

    /// Builds a rate; `None` when the timebase is not one `vtc` accepts.
    pub fn with_timebase(timebase: u32, ntsc: RateNtsc) -> (r: Option<Framerate>)
        ensures
            match r {
                Some(rate) => rate.wf() && rate.timebase == timebase && rate.ntsc == ntsc,
                None => !(Framerate { timebase, ntsc }).wf(),
            },
    {
        let is_drop = match ntsc {
            RateNtsc::DropFrame => true,
            _ => false,
        };
        if timebase == 0 || timebase > MAX_TIMEBASE || (is_drop && timebase % 30 != 0) {
            None
        } else {
            Some(Framerate { timebase, ntsc })
        }
    }
}

/// A timecode: the number of frames elapsed since 00:00:00:00 at `rate`.
#[derive(Clone, Copy, Debug, PartialEq, Eq, Structural)]
pub struct Timecode {
    pub frames: i64,
    pub rate: Framerate,
}

/// The text that `vtc` gives for a timecode of `frames` frames at the rate
/// with `timebase` and `ntsc` (`vtc::Timecode::timecode`).
pub uninterp spec fn vtc_timecode_text(frames: i64, timebase: u32, ntsc: RateNtsc) -> Seq<char>;

/// The frames per displayed second of a timecode: the timebase, except at an
/// NTSC rate above 500 frames per second, whose playback rate
/// `timebase * 1000/1001` rounds to `timebase - 1`.
pub open spec fn display_timebase(timebase: u32, ntsc: RateNtsc) -> nat {
    if ntsc != RateNtsc::Whole && timebase > 500 {
        (timebase - 1) as nat
    } else {
        timebase as nat
    }
}

/// `n` in decimal, zero padded to at least two digits.
pub open spec fn two_digits(n: nat) -> Seq<char> {
    pad_left_spec(decimal_spec(n), 2, '0')
}

/// The non-drop-frame text of a count of `frames` frames at `base` frames per
/// second: `-` for a negative count, then the hours, minutes, seconds and
/// frames of its magnitude, each in at least two digits, joined by `:`.
pub open spec fn counted_text(frames: int, base: nat) -> Seq<char> {
    let f: nat = (if frames < 0 { -frames } else { frames }) as nat;
    let sign: Seq<char> = if frames < 0 { seq!['-'] } else { Seq::empty() };
    sign + two_digits(f / (base * 3600)) + seq![':'] + two_digits((f / (base * 60)) % 60)
        + seq![':'] + two_digits((f / base) % 60) + seq![':'] + two_digits(f % base)
}

/// Formats through `vtc`: builds `vtc::Framerate::with_timebase` and
/// `vtc::Timecode::with_frames` from the frame count, then calls
/// `vtc::Timecode::timecode`. The contract claims that the text is the
/// named `vtc` result for these three values, that for a rate the library
/// accepts and a bounded frame count no step fails, and that for a rate
/// other than drop frame the text is the plain count of hours, minutes,
/// seconds and frames at the displayed timebase. The drop-frame text, which
/// skips frame numbers, is left to the name.
#[verifier::external_body]
fn vtc_text(frames: i64, timebase: u32, ntsc: RateNtsc) -> (s: String)
    requires
        (Framerate { timebase, ntsc }).wf(),
        -2 * MAX_FRAMES <= frames <= 2 * MAX_FRAMES,
    ensures
        s@ == vtc_timecode_text(frames, timebase, ntsc),
        ntsc != RateNtsc::DropFrame ==> s@ == counted_text(
            frames as int,
            display_timebase(timebase, ntsc),
        ),
{
    let ntsc = match ntsc {
        RateNtsc::Whole => vtc::Ntsc::None,
        RateNtsc::NonDropFrame => vtc::Ntsc::NonDropFrame,
        RateNtsc::DropFrame => vtc::Ntsc::DropFrame,
    };
    let rate = vtc::Framerate::with_timebase(i64::from(timebase), ntsc).unwrap();
    vtc::Timecode::with_frames(frames, rate).unwrap().timecode()
}

impl Timecode {
    /// Well formed: a valid rate and a frame count within `MAX_FRAMES`.
    pub open spec fn wf(self) -> bool {
        &&& self.rate.wf()
        &&& -MAX_FRAMES <= self.frames <= MAX_FRAMES
    }

    /// Within reach of the text and ordering operations: a valid rate and a
    /// frame count within twice `MAX_FRAMES`, which leaves room to add a
    /// `u32` duration to a well-formed timecode.
    pub open spec fn printable(self) -> bool {
        &&& self.rate.wf()
        &&& -2 * MAX_FRAMES <= self.frames <= 2 * MAX_FRAMES
    }

    /// The SMPTE text of this timecode, as `vtc` formats it.
    pub open spec fn text_spec(self) -> Seq<char> {
        vtc_timecode_text(self.frames, self.rate.timebase, self.rate.ntsc)
    }

    /// A timecode of `frames` frames at `rate`.
    pub fn new(frames: i64, rate: Framerate) -> (tc: Timecode)
        ensures
            tc.frames == frames,
            tc.rate == rate,
    {
        Timecode { frames, rate }
    }

    /// The frame count.
    pub fn frames(&self) -> (f: i64)
        ensures
            f == self.frames,
    {
        self.frames
    }

    /// The frame rate.
    pub fn rate(&self) -> (r: Framerate)
        ensures
            r == self.rate,
    {
        self.rate
    }

    /// The SMPTE text, e.g. `01:00:00:00`.
    pub fn timecode(&self) -> (s: String)
        requires
            self.printable(),
        ensures
            s@ == self.text_spec(),
            self.rate.ntsc != RateNtsc::DropFrame ==> s@ == counted_text(
                self.frames as int,
                display_timebase(self.rate.timebase, self.rate.ntsc),
            ),
    {
        vtc_text(self.frames, self.rate.timebase, self.rate.ntsc)
    }

    /// This timecode moved `frames` frames later, at the same rate.
    pub fn add_frames(&self, frames: u32) -> (tc: Timecode)
        requires
            self.frames + frames <= i64::MAX,
        ensures
            tc.frames == self.frames + frames,
            tc.rate == self.rate,
    {
        Timecode { frames: self.frames + frames as i64, rate: self.rate }
    }

    /// Whether this timecode lies strictly earlier in real time than `other`.
    pub fn is_before(&self, other: &Timecode) -> (b: bool)
        requires
            self.printable(),
            other.printable(),
        ensures
            b == seconds_lt(*self, *other),
    {
        let a = scaled_frames(self.frames, self.rate.playback_den(), other.rate.playback_num());
        let b = scaled_frames(other.frames, other.rate.playback_den(), self.rate.playback_num());
        a < b
    }

    /// The later of the two timecodes in real time; `other` when they are at
    /// the same time.
    pub fn max(self, other: Timecode) -> (tc: Timecode)
        requires
            self.printable(),
            other.printable(),
        ensures
            tc == (if seconds_lt(other, self) { self } else { other }),
    {
        if other.is_before(&self) {
            self
        } else {
            other
        }
    }
}

impl Framerate {
    /// Numerator of the playback rate in frames per second: the timebase,
    /// times 1000 for NTSC.
    pub open spec fn playback_num_spec(self) -> int {
        match self.ntsc {
            RateNtsc::Whole => self.timebase as int,
            _ => self.timebase as int * 1000,
        }
    }

    /// Denominator of the playback rate: 1, or 1001 for NTSC.
    pub open spec fn playback_den_spec(self) -> int {
        match self.ntsc {
            RateNtsc::Whole => 1,
            _ => 1001,
        }
    }

    pub fn playback_num(&self) -> (n: u64)
        requires
            self.wf(),
        ensures
            n == self.playback_num_spec(),
    {
        match self.ntsc {
            RateNtsc::Whole => self.timebase as u64,
            _ => (self.timebase as u64) * 1000,
        }
    }

    pub fn playback_den(&self) -> (d: u64)
        ensures
            d == self.playback_den_spec(),
    {
        match self.ntsc {
            RateNtsc::Whole => 1,
            _ => 1001,
        }
    }
}

/// `frames * den * num`, exactly, for bounded operands.
fn scaled_frames(frames: i64, den: u64, num: u64) -> (r: i128)
    requires
        -2 * MAX_FRAMES <= frames <= 2 * MAX_FRAMES,
        den <= 1001,
        num <= 1_000_000,
    ensures
        r == frames * den * num,
{
    let f = frames as i128;
    let d = den as i128;
    let n = num as i128;
    assert(-0x200_0000_0000 * 1001 <= f * d <= 0x200_0000_0000 * 1001) by (nonlinear_arith)
        requires
            -0x200_0000_0000 <= f <= 0x200_0000_0000,
            0 <= d <= 1001,
    ;
    let fd = f * d;
    assert(-0x200_0000_0000 * 1001 * 1_000_000 <= fd * n <= 0x200_0000_0000 * 1001 * 1_000_000)
        by (nonlinear_arith)
        requires
            -0x200_0000_0000 * 1001 <= fd <= 0x200_0000_0000 * 1001,
            0 <= n <= 1_000_000,
    ;
    fd * n
}

/// `a` lies strictly before `b` in real time: frames / playback rate,
/// compared across rates by cross multiplication.
pub open spec fn seconds_lt(a: Timecode, b: Timecode) -> bool {
    a.frames * a.rate.playback_den_spec() * b.rate.playback_num_spec() < b.frames
        * b.rate.playback_den_spec() * a.rate.playback_num_spec()
}

} // verus!
