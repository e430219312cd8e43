//! The progress event bridge.
//!
//! While a long-running invocation streams, each diagnostic line is
//! forwarded as a fire-and-forget notification on a topic scoped by the
//! caller-supplied job identifier; the topic name is fixed here. Lines keep
//! the order in which the subprocess produced them, and a dropped
//! notification never affects the invocation's result.

use vstd::prelude::*;

verus! {

/// The notification topic for one job's progress stream.
pub fn progress_event_name(job_id: &str) -> (r: String)
    ensures
        r@ == "friedman://progress/"@ + job_id@,
{
    let mut s = String::from_str("friedman://progress/");
    s.append(job_id);
    s
}

} // verus!
