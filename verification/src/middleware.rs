//! The verified core of the request-logging middleware: the bookkeeping it
//! computes about one request, free of any transport types.
//!
//! The surrounding transport owns the clock and the log sink; this half
//! only relates the reported response time to the recorded start time.

use vstd::prelude::*;

verus! {

/// The factory half of the middleware: begins the tracking of one request.
#[derive(Debug, PartialEq, Eq, Structural)]
pub struct HttpMiddleware;

impl HttpMiddleware {
    /// Starts tracking one request served from `start_time` (a millisecond
    /// clock reading supplied by the transport).
    pub fn begin(&self, start_time: u64) -> (r: Middleware)
        ensures
            r.start_time == start_time,
    {
        Middleware { start_time }
    }
}

/// The per-request half: remembers when service of one request started and
/// reports the response time once the response is ready.
#[derive(Debug, PartialEq, Eq, Structural)]
pub struct Middleware {
    /// The clock reading, in milliseconds, at which service started.
    pub start_time: u64,
}

impl Middleware {
    /// The response time in milliseconds.  A clock that moved backwards
    /// between the two readings reports zero rather than failing.
    pub fn response_time(&self, end_time: u64) -> (r: u64)
        ensures
            r == if end_time >= self.start_time {
                end_time - self.start_time
            } else {
                0
            },
    {
        if end_time >= self.start_time {
            end_time - self.start_time
        } else {
            0
        }
    }
}

} // verus!
