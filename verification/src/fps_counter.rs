//! Keeps track of the current average framerate from recent frame times.

use vstd::prelude::*;

verus! {

/// How many recent frame times the counter averages over.
pub const BUFFER_SIZE: u32 = 16;

/// The system clock type that frame times are measured with.
#[verifier::external_type_specification]
#[verifier::external_body]
pub struct ExSystemTime(std::time::SystemTime);

/// The error the system clock reports when time moved backwards.
#[verifier::external_type_specification]
#[verifier::external_body]
pub struct ExSystemTimeError(std::time::SystemTimeError);

/// Relies on `std::time::SystemTime::now`: the current time, about which
/// nothing can be promised.
pub assume_specification[ std::time::SystemTime::now ]() -> std::time::SystemTime;

/// Relies on `std::time::SystemTime::elapsed`: the span since the measured
/// time, or an error when the clock moved backwards; nothing more can be
/// promised of a clock reading.
pub assume_specification[ std::time::SystemTime::elapsed ](t: &std::time::SystemTime) -> Result<
    core::time::Duration,
    std::time::SystemTimeError,
>;

/// Relies on `core::time::Duration::subsec_nanos`: the fractional part of
/// the span in nanoseconds, documented to be less than one billion.
pub assume_specification[ core::time::Duration::subsec_nanos ](d: &core::time::Duration) -> (r:
    u32)
    ensures
        r < 1_000_000_000,
;

/// The recorded frame times after one more reading: the reading joins at
/// the back, and the oldest entry leaves once the buffer is full.
pub open spec fn spec_tick_push(times: Seq<u32>, nanos: u32) -> Seq<u32> {
    let t = times.push(nanos);
    if t.len() > BUFFER_SIZE as int {
        t.subrange(1, t.len() as int)
    } else {
        t
    }
}

/// The sum of the recorded frame times.
pub open spec fn spec_sum(s: Seq<u32>) -> int
    decreases s.len(),
{
    if s.len() == 0 {
        0
    } else {
        spec_sum(s.drop_last()) + s.last()
    }
}

/// The framerate that the recorded frame times average to: the reciprocal
/// of the buffer-sized average, and zero while nothing meaningful has been
/// recorded.
pub open spec fn spec_framerate(s: Seq<u32>) -> int {
    if s.len() == 0 {
        0
    } else {
        let average = spec_sum(s) / (BUFFER_SIZE as int);
        if average == 0 {
            0
        } else {
            1_000_000_000int / average
        }
    }
}

/// Keeps track of current average framerate.
pub struct FpsCounter {
    current_time: std::time::SystemTime,
    previous_times: Vec<u32>,
}

impl FpsCounter {
    /// The recorded recent frame times, oldest first.
    pub closed spec fn times(&self) -> Seq<u32> {
        self.previous_times@
    }

    /// Creates and returns a new instance of the FpsCounter struct.
    pub fn new() -> (r: FpsCounter)
        ensures
            r.times() =~= Seq::<u32>::empty(),
    {
        FpsCounter { current_time: std::time::SystemTime::now(), previous_times: Vec::new() }
    }

    /// Triggered each frame to record the time since the previous one; a
    /// clock that moved backwards records nothing.
    pub fn tick(&mut self)
        ensures
            (exists|nanos: u32|
                nanos < 1_000_000_000 && final(self).times() == spec_tick_push(
                    old(self).times(),
                    nanos,
                )) || final(self).times() == old(self).times(),
            old(self).times().len() <= BUFFER_SIZE as int ==> final(self).times().len()
                <= BUFFER_SIZE as int,
    {
        match self.current_time.elapsed() {
            Ok(elapsed) => {
                let nanos = elapsed.subsec_nanos();
                self.previous_times.push(nanos);
                if self.previous_times.len() > BUFFER_SIZE as usize {
                    self.previous_times.remove(0);
                }
                proof {
                    assert(self.previous_times@ =~= spec_tick_push(old(self).times(), nanos));
                }
            },
            Err(_) => {},
        }
        self.current_time = std::time::SystemTime::now();
    }

    /// Returns the current framerate; zero while no frame times have been
    /// recorded or while they are still too small to average.
    pub fn framerate(&self) -> (r: u32)
        requires
            self.times().len() <= BUFFER_SIZE as int,
        ensures
            r as int == spec_framerate(self.times()),
    {
        if self.previous_times.len() == 0 {
            return 0u32;
        }
        let n = self.previous_times.len();
        let mut sum: u64 = 0;
        let mut i: usize = 0;
        while i < n
            invariant
                n == self.times().len(),
                n <= BUFFER_SIZE as int,
                i <= n,
                sum as int == spec_sum(self.times().subrange(0, i as int)),
                sum <= i as int * 0x1_0000_0000,
            decreases n - i,
        {
            proof {
                assert(self.times().subrange(0, i as int + 1).drop_last() =~= self.times().subrange(
                    0,
                    i as int,
                ));
            }
            sum = sum + (self.previous_times[i] as u64);
            i = i + 1;
        }
        proof {
            assert(self.times().subrange(0, n as int) =~= self.times());
        }
        let average = sum / (BUFFER_SIZE as u64);
        if average == 0 {
            0u32
        } else {
            (1_000_000_000u64 / average) as u32
        }
    }
}

} // verus!
