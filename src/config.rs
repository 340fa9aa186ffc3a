//! The settings of one run, checked once before the run starts.
use vstd::prelude::*;
use crate::latency::{period_of, request_period_nanos};
use crate::pacer::Pacer;

verus! {

/// Value of every byte of a request's payload.
pub const PAYLOAD_BYTE: u8 = 42;

/// Why a run cannot start.
#[derive(Clone, Copy, Debug, PartialEq, Eq, Structural)]
pub enum ConfigError {
    /// The target rate is zero requests per second.
    ZeroRate,
    /// The run lasts zero seconds.
    ZeroDuration,
    /// No request may be in flight.
    ZeroConcurrency,
    /// The run holds more requests than an index can number.
    TooManyRequests,
    /// Only one of user name and password was given.
    PartialCredentials,
}

/// Settings of one run; they do not change while it runs.
#[derive(Clone, Copy, Debug, PartialEq, Eq, Structural)]
pub struct RunConfig {
    /// Requests per second.
    pub rate: u64,
    /// Length of the run in seconds.
    pub duration_s: u64,
    /// Size in bytes of each request's payload.
    pub payload_size: u32,
    /// Number of workers, and capacity of the queue of admitted indices.
    pub max_concurrency: usize,
}

impl RunConfig {
    pub open spec fn wf(&self) -> bool {
        &&& self.rate > 0
        &&& self.duration_s > 0
        &&& self.max_concurrency > 0
        &&& self.rate * self.duration_s <= u64::MAX
    }

    /// Checks the settings of a run: rate, duration and concurrency must be
    /// positive, and the run's requests must fit in an index.
    pub fn new(rate: u64, duration_s: u64, payload_size: u32, max_concurrency: usize) -> (r: Result<
        RunConfig,
        ConfigError,
    >)
        ensures
            rate == 0 ==> r == Err::<RunConfig, ConfigError>(ConfigError::ZeroRate),
            rate > 0 && duration_s == 0 ==> r == Err::<RunConfig, ConfigError>(
                ConfigError::ZeroDuration,
            ),
            rate > 0 && duration_s > 0 && max_concurrency == 0 ==> r == Err::<
                RunConfig,
                ConfigError,
            >(ConfigError::ZeroConcurrency),
            rate > 0 && duration_s > 0 && max_concurrency > 0 && rate * duration_s > u64::MAX ==> r
                == Err::<RunConfig, ConfigError>(ConfigError::TooManyRequests),
            rate > 0 && duration_s > 0 && max_concurrency > 0 && rate * duration_s <= u64::MAX ==> r
                == Ok::<RunConfig, ConfigError>(
                RunConfig { rate, duration_s, payload_size, max_concurrency },
            ),
            r is Ok ==> r->Ok_0.wf(),
    {
        if rate == 0 {
            Err(ConfigError::ZeroRate)
        } else if duration_s == 0 {
            Err(ConfigError::ZeroDuration)
        } else if max_concurrency == 0 {
            Err(ConfigError::ZeroConcurrency)
        } else if duration_s > u64::MAX / rate {
            proof {
                assert(rate * duration_s > u64::MAX) by (nonlinear_arith)
                    requires
                        duration_s > u64::MAX / rate,
                        rate > 0,
                ;
            }
            Err(ConfigError::TooManyRequests)
        } else {
            proof {
                assert(rate * duration_s <= u64::MAX) by (nonlinear_arith)
                    requires
                        duration_s <= u64::MAX / rate,
                        rate > 0,
                ;
            }
            Ok(RunConfig { rate, duration_s, payload_size, max_concurrency })
        }
    }

    /// Number of requests of the whole run.
    pub fn total_requests(&self) -> (r: u64)
        requires
            self.wf(),
        ensures
            r == self.rate * self.duration_s,
    {
        self.rate * self.duration_s
    }

    /// Gap between two consecutive scheduled sends.
    pub fn request_period_nanos(&self) -> (r: u64)
        requires
            self.wf(),
        ensures
            r == period_of(self.rate as nat),
    {
        request_period_nanos(self.rate)
    }

    /// The pacer of a run with these settings, at the run's start.
    pub fn pacer(&self) -> (p: Pacer)
        requires
            self.wf(),
        ensures
            p.wf(),
            p.rate == self.rate,
            p.duration_s == self.duration_s,
            p.admitted == 0,
    {
        Pacer::new(self.rate, self.duration_s)
    }

    /// The payload that every request of the run carries.
    pub fn payload(&self) -> (r: Vec<u8>)
        ensures
            r@ == Seq::new(self.payload_size as nat, |i: int| PAYLOAD_BYTE),
    {
        payload(self.payload_size)
    }
}

/// A payload of `size` bytes, each `PAYLOAD_BYTE`.
pub fn payload(size: u32) -> (r: Vec<u8>)
    ensures
        r@ == Seq::new(size as nat, |i: int| PAYLOAD_BYTE),
{
    let mut r: Vec<u8> = Vec::new();
    let mut i: u32 = 0;
    while i < size
        invariant
            i <= size,
            r@ == Seq::new(i as nat, |j: int| PAYLOAD_BYTE),
        decreases size - i,
    {
        r.push(PAYLOAD_BYTE);
        i = i + 1;
        assert(r@ =~= Seq::new(i as nat, |j: int| PAYLOAD_BYTE));
    }
    r
}

/// User name and password for the store: both or neither must be given.
pub fn credentials(username: Option<String>, password: Option<String>) -> (r: Result<
    Option<(String, String)>,
    ConfigError,
>)
    ensures
        match (username, password) {
            (Some(u), Some(p)) => r == Ok::<Option<(String, String)>, ConfigError>(Some((u, p))),
            (None, None) => r == Ok::<Option<(String, String)>, ConfigError>(None),
            _ => r == Err::<Option<(String, String)>, ConfigError>(
                ConfigError::PartialCredentials,
            ),
        },
{
    match (username, password) {
        (Some(u), Some(p)) => Ok(Some((u, p))),
        (None, None) => Ok(None),
        _ => Err(ConfigError::PartialCredentials),
    }
}

} // verus!
