use vstd::prelude::*;

verus! {

/// Aggregated performance counters for one aggregation node (an endpoint, a
/// virtual client, or the whole test).
///
/// Counting discipline:
/// - a successful request (status in `[200, 400)`) raises `total_requests`
///   and adds its latency to `total_response_time_ms`;
/// - a failed-status request raises `total_requests` and `total_failed`,
///   recording no latency;
/// - a connection error (no response at all) raises only
///   `total_connection_errors`: such an attempt never counts as a request.
///
/// `average_response_time_ms` is derived: it always equals
/// `total_response_time_ms / total_requests` (integer division), or `0` while
/// no request has completed.  The two rates are derived once, by
/// `finalize_rates`, when the measurement window is known; they are whole
/// events per second, rounded down and saturating at `u64::MAX`.
#[derive(Clone, Debug)]
pub struct Results {
    pub total_requests: u64,
    pub total_failed: u64,
    pub total_connection_errors: u64,
    pub total_response_time_ms: u64,
    pub average_response_time_ms: u64,
    pub requests_per_second: u64,
    pub failed_per_second: u64,
}

impl Results {
    /// The derived-average invariant: `average_response_time_ms` equals
    /// `total_response_time_ms / total_requests` when any request completed,
    /// else `0`.
    pub open spec fn wf(self) -> bool {
        self.average_response_time_ms == self.spec_average()
    }

    pub open spec fn spec_average(self) -> int {
        if self.total_requests == 0 {
            0
        } else {
            self.total_response_time_ms as int / self.total_requests as int
        }
    }

    /// The value every counter starts from.
    pub open spec fn empty() -> Results {
        Results {
            total_requests: 0,
            total_failed: 0,
            total_connection_errors: 0,
            total_response_time_ms: 0,
            average_response_time_ms: 0,
            requests_per_second: 0,
            failed_per_second: 0,
        }
    }

    /// Room for one more counted request (and its latency, for a success).
    pub open spec fn can_record_success(self, latency_ms: u32) -> bool {
        &&& self.total_requests < u64::MAX
        &&& self.total_response_time_ms + latency_ms <= u64::MAX
    }

    pub open spec fn can_record_failed(self) -> bool {
        &&& self.total_requests < u64::MAX
        &&& self.total_failed < u64::MAX
    }

    pub open spec fn can_record_connection_error(self) -> bool {
        self.total_connection_errors < u64::MAX
    }

    /// The value after one successful request of the given latency.
    pub open spec fn after_success(self, latency_ms: u32) -> Results {
        Results {
            total_requests: (self.total_requests + 1) as u64,
            total_response_time_ms: (self.total_response_time_ms + latency_ms) as u64,
            average_response_time_ms: ((self.total_response_time_ms + latency_ms) as int
                / (self.total_requests + 1) as int) as u64,
            ..self
        }
    }

    /// The value after one request that returned a failing status.
    pub open spec fn after_failed(self) -> Results {
        Results {
            total_requests: (self.total_requests + 1) as u64,
            total_failed: (self.total_failed + 1) as u64,
            average_response_time_ms: (self.total_response_time_ms as int
                / (self.total_requests + 1) as int) as u64,
            ..self
        }
    }

    /// The value after one attempt that never produced a response.
    pub open spec fn after_connection_error(self) -> Results {
        Results {
            total_connection_errors: (self.total_connection_errors + 1) as u64,
            ..self
        }
    }

    pub fn new() -> (r: Results)
        ensures
            r == Results::empty(),
    {
        Results {
            total_requests: 0,
            total_failed: 0,
            total_connection_errors: 0,
            total_response_time_ms: 0,
            average_response_time_ms: 0,
            requests_per_second: 0,
            failed_per_second: 0,
        }
    }

    /// Record one successful request: count it and fold in its latency.
    pub fn record_success(&mut self, latency_ms: u32)
        requires
            old(self).can_record_success(latency_ms),
        ensures
            *final(self) == old(self).after_success(latency_ms),
            final(self).total_requests == old(self).total_requests + 1,
            final(self).wf(),
    {
        self.total_requests = self.total_requests + 1;
        self.total_response_time_ms = self.total_response_time_ms + latency_ms as u64;
        self.average_response_time_ms = self.total_response_time_ms / self.total_requests;
    }

    /// Record one request whose response carried a failing status code.  The
    /// request is counted, the failure is counted, no latency is recorded.
    pub fn record_failed_status(&mut self)
        requires
            old(self).can_record_failed(),
        ensures
            *final(self) == old(self).after_failed(),
            final(self).total_requests == old(self).total_requests + 1,
            final(self).wf(),
    {
        self.total_requests = self.total_requests + 1;
        self.total_failed = self.total_failed + 1;
        self.average_response_time_ms = self.total_response_time_ms / self.total_requests;
    }

    /// Record one attempt that produced no response.  `total_requests` is
    /// untouched: the attempt never became a request.
    pub fn record_connection_error(&mut self)
        requires
            old(self).can_record_connection_error(),
        ensures
            *final(self) == old(self).after_connection_error(),
            final(self).total_requests == old(self).total_requests,
            old(self).wf() ==> final(self).wf(),
    {
        self.total_connection_errors = self.total_connection_errors + 1;
    }

    /// `count * 1000 / elapsed_ms` is the per-second rate of a counter over a
    /// window of `elapsed_ms` milliseconds, rounded down, saturating.
    pub open spec fn spec_rate(count: u64, elapsed_ms: u64) -> u64
        recommends
            elapsed_ms > 0,
    {
        if count * 1000 / (elapsed_ms as int) > u64::MAX {
            u64::MAX
        } else {
            (count * 1000 / (elapsed_ms as int)) as u64
        }
    }

    /// The value with both rates derived over a window of `elapsed_ms`
    /// milliseconds; every counter is untouched.
    pub open spec fn with_rates(self, elapsed_ms: u64) -> Results {
        Results {
            requests_per_second: Results::spec_rate(self.total_requests, elapsed_ms),
            failed_per_second: Results::spec_rate(self.total_failed, elapsed_ms),
            ..self
        }
    }

    /// One-shot terminal step: derive both per-second rates from the elapsed
    /// measurement window.  Counters are untouched.
    pub fn finalize_rates(&mut self, elapsed_ms: u64)
        requires
            elapsed_ms > 0,
        ensures
            *final(self) == old(self).with_rates(elapsed_ms),
            old(self).wf() ==> final(self).wf(),
    {
        self.requests_per_second = Self::rate(self.total_requests, elapsed_ms);
        self.failed_per_second = Self::rate(self.total_failed, elapsed_ms);
    }

    fn rate(count: u64, elapsed_ms: u64) -> (r: u64)
        requires
            elapsed_ms > 0,
        ensures
            r == Results::spec_rate(count, elapsed_ms),
    {
        let wide: u128 = (count as u128) * 1000 / (elapsed_ms as u128);
        if wide > u64::MAX as u128 {
            u64::MAX
        } else {
            wide as u64
        }
    }
}

/// The classified outcome of one request cycle: a response with a status in
/// `[200, 400)` and its latency, a response with any other status, or no
/// response at all.
#[derive(Clone, Copy, PartialEq, Eq, Structural, Debug)]
pub enum RequestOutcome {
    Success(u32),
    FailedStatus,
    ConnectionError,
}

impl Results {
    /// Headroom for recording the given outcome.
    pub open spec fn can_record(self, o: RequestOutcome) -> bool {
        match o {
            RequestOutcome::Success(latency_ms) => self.can_record_success(latency_ms),
            RequestOutcome::FailedStatus => self.can_record_failed(),
            RequestOutcome::ConnectionError => self.can_record_connection_error(),
        }
    }

    /// The value after recording the given outcome.
    pub open spec fn after_outcome(self, o: RequestOutcome) -> Results {
        match o {
            RequestOutcome::Success(latency_ms) => self.after_success(latency_ms),
            RequestOutcome::FailedStatus => self.after_failed(),
            RequestOutcome::ConnectionError => self.after_connection_error(),
        }
    }

    /// Record one classified outcome: the common entry point every
    /// aggregation level funnels through.
    pub fn record_outcome(&mut self, o: &RequestOutcome)
        requires
            old(self).can_record(*o),
        ensures
            *final(self) == old(self).after_outcome(*o),
            old(self).wf() ==> final(self).wf(),
    {
        match o {
            RequestOutcome::Success(latency_ms) => self.record_success(*latency_ms),
            RequestOutcome::FailedStatus => self.record_failed_status(),
            RequestOutcome::ConnectionError => self.record_connection_error(),
        }
    }
}

/// What the transport's answer to one request amounts to: `None` (no
/// response obtained) is a connection error; a status code in `[200, 400)`
/// is a success carrying the measured latency; any other status is a failed
/// request.
pub open spec fn spec_classify(response: Option<(u16, u32)>) -> RequestOutcome {
    match response {
        Option::None => RequestOutcome::ConnectionError,
        Option::Some((status_code, latency_ms)) => {
            if 200 <= status_code < 400 {
                RequestOutcome::Success(latency_ms)
            } else {
                RequestOutcome::FailedStatus
            }
        },
    }
}

/// Classify what the transport produced for one request: the status code
/// and measured latency where a response was obtained, or `None` for a
/// connection error.
pub fn classify_response(response: &Option<(u16, u32)>) -> (r: RequestOutcome)
    ensures
        r == spec_classify(*response),
{
    match response {
        Option::None => RequestOutcome::ConnectionError,
        Option::Some((status_code, latency_ms)) => {
            if 200 <= *status_code && *status_code < 400 {
                RequestOutcome::Success(*latency_ms)
            } else {
                RequestOutcome::FailedStatus
            }
        },
    }
}

/// Law: recording preserves the derived-average invariant, whatever sequence
/// of recordings came before; so every reachable `Results` value satisfies
/// `average_response_time_ms == total_response_time_ms / total_requests`
/// (or `0` with no requests).
pub proof fn lemma_recording_preserves_average(r: Results, latency_ms: u32)
    requires
        r.can_record_success(latency_ms),
        r.can_record_failed(),
    ensures
        r.after_success(latency_ms).wf(),
        r.after_failed().wf(),
        r.wf() ==> r.after_connection_error().wf(),
        Results::empty().wf(),
{
}

/// Law: a connection error never changes `total_requests`; a success or a
/// failed status raises it by exactly one.
pub proof fn lemma_request_counting(r: Results, latency_ms: u32)
    requires
        r.can_record_success(latency_ms),
        r.can_record_failed(),
    ensures
        r.after_connection_error().total_requests == r.total_requests,
        r.after_success(latency_ms).total_requests == r.total_requests + 1,
        r.after_failed().total_requests == r.total_requests + 1,
{
}

} // verus!
