//! The resource limits that the probe gives a session runtime. A limit left
//! as `None` keeps the runtime's own default.
use vstd::prelude::*;

verus! {

/// Limits of one session runtime.
#[derive(Clone, Copy, Debug, PartialEq, Eq, Structural)]
pub struct SessionLimits {
    pub max_streams: usize,
    pub max_queue_records: usize,
    pub max_queue_bytes: usize,
    pub max_total_bytes: usize,
    pub max_record_bytes: usize,
    pub max_stream_window: Option<usize>,
    pub max_session_window: Option<usize>,
}

/// The limits of a single-stream exchange of `count` records of `bytes`
/// bytes each: two records and one record's bytes of queue headroom, and
/// exactly the exchange's bytes in all.
pub fn runtime_limits(bytes: usize, count: usize) -> (l: SessionLimits)
    requires
        count + 2 <= usize::MAX,
        bytes * (count + 1) <= usize::MAX,
    ensures
        l == (SessionLimits {
            max_streams: 1,
            max_queue_records: (count + 2) as usize,
            max_queue_bytes: (bytes * (count + 1)) as usize,
            max_total_bytes: (bytes * count) as usize,
            max_record_bytes: bytes,
            max_stream_window: None,
            max_session_window: None,
        }),
{
    assert(bytes * count <= bytes * (count + 1)) by (nonlinear_arith);
    SessionLimits {
        max_streams: 1,
        max_queue_records: count + 2,
        max_queue_bytes: bytes * (count + 1),
        max_total_bytes: bytes * count,
        max_record_bytes: bytes,
        max_stream_window: None,
        max_session_window: None,
    }
}

} // verus!
