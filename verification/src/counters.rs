//! The two request counters that the metrics endpoint exposes.

use vstd::prelude::*;
use crate::envelope::Endpoint;

verus! {

/// How many requests each endpoint has received. A counter only ever grows,
/// and stays at `u64::MAX` once it has reached it.
#[derive(Clone, Copy, Debug, PartialEq, Eq, Structural)]
pub struct RequestCounters {
    pub register_requests: u64,
    pub login_requests: u64,
}

/// The name under which the counter of `endpoint` is exposed.
pub open spec fn metric_name(endpoint: Endpoint) -> Seq<char> {
    match endpoint {
        Endpoint::Register => "register_requests_total"@,
        Endpoint::Login => "login_requests_total"@,
    }
}

/// A counter after one more request.
pub open spec fn bumped(count: u64) -> u64 {
    if count < u64::MAX {
        (count + 1) as u64
    } else {
        count
    }
}

/// The counters after one more request to `endpoint`: that endpoint's counter
/// has grown by one, the other is unchanged.
pub open spec fn recorded(counters: RequestCounters, endpoint: Endpoint) -> RequestCounters {
    match endpoint {
        Endpoint::Register => RequestCounters {
            register_requests: bumped(counters.register_requests),
            login_requests: counters.login_requests,
        },
        Endpoint::Login => RequestCounters {
            register_requests: counters.register_requests,
            login_requests: bumped(counters.login_requests),
        },
    }
}

/// The counters after the requests `calls`, received in that order.
pub open spec fn recorded_all(counters: RequestCounters, calls: Seq<Endpoint>) -> RequestCounters
    decreases calls.len(),
{
    if calls.len() == 0 {
        counters
    } else {
        recorded(recorded_all(counters, calls.drop_last()), calls.last())
    }
}

/// How many of `calls` went to `endpoint`.
pub open spec fn calls_to(calls: Seq<Endpoint>, endpoint: Endpoint) -> nat {
    calls.filter(|call: Endpoint| call == endpoint).len()
}

impl RequestCounters {
    /// Both counters at zero.
    pub fn new() -> (counters: RequestCounters)
        ensures
            counters == (RequestCounters { register_requests: 0, login_requests: 0 }),
    {
        RequestCounters { register_requests: 0, login_requests: 0 }
    }

    /// The value of the counter of `endpoint`.
    pub open spec fn spec_get(self, endpoint: Endpoint) -> u64 {
        match endpoint {
            Endpoint::Register => self.register_requests,
            Endpoint::Login => self.login_requests,
        }
    }

    /// The value of the counter of `endpoint`.
    #[verifier::when_used_as_spec(spec_get)]
    pub fn get(self, endpoint: Endpoint) -> (count: u64)
        ensures
            count == self.spec_get(endpoint),
    {
        match endpoint {
            Endpoint::Register => self.register_requests,
            Endpoint::Login => self.login_requests,
        }
    }

    /// Counts one request to `endpoint`.
    pub fn record(&mut self, endpoint: Endpoint)
        ensures
            *final(self) == recorded(*old(self), endpoint),
    {
        match endpoint {
            Endpoint::Register => {
                if self.register_requests < u64::MAX {
                    self.register_requests += 1;
                }
            },
            Endpoint::Login => {
                if self.login_requests < u64::MAX {
                    self.login_requests += 1;
                }
            },
        }
    }
}

impl Endpoint {
    /// The name under which the counter of this endpoint is exposed.
    pub fn metric_name(self) -> (name: &'static str)
        ensures
            name@ == metric_name(self),
    {
        match self {
            Endpoint::Register => "register_requests_total",
            Endpoint::Login => "login_requests_total",
        }
    }
}

} // verus!
