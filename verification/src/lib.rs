//! Core logic of a queue-to-warehouse batch loader: messages pulled from a
//! pub/sub queue are staged into a durable local batch and bulk-loaded into a
//! BigQuery table; the queue is acknowledged only after a confirmed load.
//!
//! - [`settings`] holds the plain configuration records.
//! - [`handler`] decides when a staging batch is complete.
//! - [`pubsub`] handles the payload wire encoding and the acknowledgment
//!   token chunking.
//! - [`bigquery`] describes a load job and the rule for when a load counts
//!   as successful.
//! - [`consumer`] ties them together: a state machine making every decision
//!   of the pull → stage → load → acknowledge loop, with the I/O outcomes
//!   fed in as events.
use vstd::prelude::*;

pub mod bigquery;
pub mod consumer;
pub mod handler;
pub mod pubsub;
pub mod settings;

verus! {

/// Builds the synthetic seed traffic that the publish mode sends: `count`
/// copies of a fixed three-field line.
pub fn seed_messages(count: u32) -> (r: Vec<String>)
    ensures
        r@.len() == count,
        forall|i: int| 0 <= i < r@.len() ==> (#[trigger] r@[i])@ == "hello,there,1"@,
{
    let mut r: Vec<String> = Vec::new();
    let mut i: u32 = 0;
    while i < count
        invariant
            i <= count,
            r@.len() == i,
            forall|j: int| 0 <= j < r@.len() ==> (#[trigger] r@[j])@ == "hello,there,1"@,
        decreases count - i,
    {
        r.push("hello,there,1".to_owned());
        i = i + 1;
    }
    r
}

} // verus!
