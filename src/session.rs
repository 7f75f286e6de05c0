use vstd::prelude::*;

verus! {

/// Errors of a synthesis session.
#[derive(Debug, Clone, Copy, PartialEq, Eq, Structural)]
pub enum SynthError {
    /// No default output device, or it could not be opened.
    DeviceUnavailable,
    /// A sink could not be bound to the opened output stream.
    SinkCreationFailed,
    /// The sample rate is zero or the playtime is negative.
    InvalidConfiguration,
}

/// A playback session: the sample rate, in samples per second, and the
/// playtime of one-shot buffers, in milliseconds.
#[derive(Debug, Clone, Copy, PartialEq, Eq, Structural)]
pub struct Session {
    sample_rate: u32,
    playtime_ms: u64,
}

/// Number of samples in a one-shot buffer of `playtime_ms` milliseconds at
/// `sample_rate` samples per second, truncated to a whole count.
pub open spec fn buffer_len_of(playtime_ms: nat, sample_rate: nat) -> nat {
    (playtime_ms * sample_rate) / 1000
}

impl Session {
    /// The sample rate is never zero.
    pub open spec fn wf(self) -> bool {
        self.rate() > 0
    }

    pub closed spec fn rate(self) -> nat {
        self.sample_rate as nat
    }

    pub closed spec fn playtime(self) -> nat {
        self.playtime_ms as nat
    }

    /// Builds a session; a zero sample rate or a negative playtime is
    /// rejected.
    pub fn new(sample_rate: u32, playtime_ms: i64) -> (r: Result<Session, SynthError>)
        ensures
            (sample_rate == 0 || playtime_ms < 0) ==> r == Err::<Session, SynthError>(
                SynthError::InvalidConfiguration,
            ),
            !(sample_rate == 0 || playtime_ms < 0) ==> r is Ok && r->Ok_0.wf() && r->Ok_0.rate()
                == sample_rate && r->Ok_0.playtime() == playtime_ms,
    {
        if sample_rate == 0 || playtime_ms < 0 {
            Err(SynthError::InvalidConfiguration)
        } else {
            Ok(Session { sample_rate, playtime_ms: playtime_ms as u64 })
        }
    }

    pub fn sample_rate(&self) -> (r: u32)
        ensures
            r == self.rate(),
    {
        self.sample_rate
    }

    pub fn playtime_ms(&self) -> (r: u64)
        ensures
            r == self.playtime(),
    {
        self.playtime_ms
    }

    /// Length of a one-shot buffer: playtime times sample rate, truncated.
    pub fn buffer_len(&self) -> (r: u128)
        ensures
            r == buffer_len_of(self.playtime(), self.rate()),
    {
        let p = self.playtime_ms as u128;
        let s = self.sample_rate as u128;
        assert(p * s <= u64::MAX as u128 * u32::MAX as u128) by (nonlinear_arith)
            requires
                p <= u64::MAX,
                s <= u32::MAX,
        ;
        (p * s) / 1000
    }
}

} // verus!
