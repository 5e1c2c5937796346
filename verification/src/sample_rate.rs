//! The input sample rates of the detector, and the frame lengths that go
//! with each.

use vstd::prelude::*;
use vstd::std_specs::convert::TryFromSpecImpl;

verus! {

/// The rate at which the frames handed to a session are sampled.
///
/// The engine works at 8000 Hz throughout: frames at a higher rate are
/// downsampled before they are classified.
#[derive(Debug, Clone, Copy, PartialEq, Eq, Structural)]
pub enum SampleRate {
    Rate8kHz,
    Rate16kHz,
    Rate32kHz,
    Rate48kHz,
}

impl SampleRate {
    /// The rate in samples per second.
    pub open spec fn hz_spec(self) -> int {
        match self {
            SampleRate::Rate8kHz => 8000,
            SampleRate::Rate16kHz => 16000,
            SampleRate::Rate32kHz => 32000,
            SampleRate::Rate48kHz => 48000,
        }
    }

    /// The supported rate of `hz` samples per second, if there is one.
    pub open spec fn from_hz_spec(hz: int) -> Option<SampleRate> {
        if hz == 8000 {
            Some(SampleRate::Rate8kHz)
        } else if hz == 16000 {
            Some(SampleRate::Rate16kHz)
        } else if hz == 32000 {
            Some(SampleRate::Rate32kHz)
        } else if hz == 48000 {
            Some(SampleRate::Rate48kHz)
        } else {
            None
        }
    }

    /// The number of samples that `ms` milliseconds of audio take at this
    /// rate.
    pub open spec fn samples_in(self, ms: int) -> int {
        self.hz_spec() * ms / 1000
    }

    /// Whether a frame of `len` samples holds 10, 20 or 30 milliseconds of
    /// audio at this rate. Frames of no other length are classified.
    pub open spec fn valid_frame_length(self, len: int) -> bool {
        len == self.samples_in(10) || len == self.samples_in(20) || len == self.samples_in(30)
    }

    /// The number to hand to the engine for this rate.
    pub fn hz(&self) -> (hz: i32)
        ensures
            hz == self.hz_spec(),
    {
        match self {
            SampleRate::Rate8kHz => 8000,
            SampleRate::Rate16kHz => 16000,
            SampleRate::Rate32kHz => 32000,
            SampleRate::Rate48kHz => 48000,
        }
    }

    /// Decides whether a frame of `len` samples may be classified at this
    /// rate.
    pub fn is_valid_frame_length(&self, len: usize) -> (ok: bool)
        ensures
            ok == self.valid_frame_length(len as int),
    {
        let per_ms: usize = (self.hz() / 1000) as usize;
        len == 10 * per_ms || len == 20 * per_ms || len == 30 * per_ms
    }
}

impl Default for SampleRate {
    /// The rate of a session that has not been configured.
    fn default() -> (rate: SampleRate)
        ensures
            rate == SampleRate::Rate8kHz,
    {
        SampleRate::Rate8kHz
    }
}

impl TryFrom<u16> for SampleRate {
    type Error = ();

    /// Admits the four supported rates and no other number, however close
    /// to one of them.
    fn try_from(n: u16) -> (res: Result<SampleRate, ()>)
        ensures
            res is Ok <==> n == 8000 || n == 16000 || n == 32000 || n == 48000,
            res matches Ok(rate) ==> rate.hz_spec() == n,
    {
        match n {
            8000 => Ok(SampleRate::Rate8kHz),
            16000 => Ok(SampleRate::Rate16kHz),
            32000 => Ok(SampleRate::Rate32kHz),
            48000 => Ok(SampleRate::Rate48kHz),
            _ => Err(()),
        }
    }
}

impl TryFromSpecImpl<u16> for SampleRate {
    open spec fn obeys_try_from_spec() -> bool {
        true
    }

    open spec fn try_from_spec(n: u16) -> Result<SampleRate, ()> {
        match SampleRate::from_hz_spec(n as int) {
            Some(rate) => Ok(rate),
            None => Err(()),
        }
    }
}

/// The numbers of samples per second name the rates one for one: a rate is
/// found again by its number, and a number that names a rate is the number
/// of that rate.
pub proof fn lemma_hz_names_rate(rate: SampleRate, hz: int)
    ensures
        SampleRate::from_hz_spec(rate.hz_spec()) == Some(rate),
        SampleRate::from_hz_spec(hz) == Some(rate) <==> hz == rate.hz_spec(),
        SampleRate::from_hz_spec(hz) is Some <==> hz == 8000 || hz == 16000 || hz == 32000
            || hz == 48000,
{
}

/// The frame lengths of a rate are whole numbers of samples: a hundredth,
/// two hundredths and three hundredths of the rate.
pub proof fn lemma_frame_lengths_of_rate(rate: SampleRate, len: int)
    ensures
        100 * rate.samples_in(10) == rate.hz_spec(),
        100 * rate.samples_in(20) == 2 * rate.hz_spec(),
        100 * rate.samples_in(30) == 3 * rate.hz_spec(),
        rate.valid_frame_length(len) <==> 100 * len == rate.hz_spec()
            || 100 * len == 2 * rate.hz_spec()
            || 100 * len == 3 * rate.hz_spec(),
{
}

} // verus!
