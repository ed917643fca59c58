//! Batch bookkeeping: the error record that handling reports, and the
//! `MessageCounter` that decides when a staging batch is complete.
use vstd::prelude::*;
use vstd::string::StringExecFns;

use crate::settings::Limits;

verus! {

/// An error raised while handling a batch, tagged with the subsystem it came
/// from (`io`, `bigquery`, ...) and a human-readable message.
#[derive(Debug, Clone)]
pub struct HandlingError {
    pub kind: String,
    pub message: String,
}

/// Whether a handling pass completed a batch (`true`) or is still
/// accumulating (`false`).
pub type HandlingResult = bool;

impl HandlingError {
    /// An error of the staging medium: the staging file could not be written.
    pub fn io_error(message: String) -> (r: HandlingError)
        ensures
            r.kind@ == "io"@,
            r.message == message,
    {
        HandlingError { kind: "io".to_owned(), message }
    }

    /// A single line of text describing the error, in place of a `Display`
    /// rendering.
    pub fn describe(&self) -> (r: String)
        ensures
            r@ == "error: "@ + self.message@ + ", kind: "@ + self.kind@,
    {
        let mut s: String = "error: ".to_owned();
        s.append(self.message.as_str());
        s.append(", kind: ");
        s.append(self.kind.as_str());
        proof {
            assert(s@ == "error: "@ + self.message@ + ", kind: "@ + self.kind@) by {
                assert(("error: "@ + self.message@ + ", kind: "@) + self.kind@ =~= "error: "@
                    + self.message@ + ", kind: "@ + self.kind@);
            }
        }
        s
    }
}

/// A sink that consumes one pull's worth of decoded payloads and reports
/// whether the current batch was completed by them.
pub trait Handler {
    fn handle(&mut self, messages: Vec<String>) -> Result<HandlingResult, HandlingError>;
}

/// Relies on `std::time::SystemTime::now`: the wall clock, read as whole
/// seconds since the Unix epoch (zero if the clock reads before the epoch).
#[verifier::external_body]
pub(crate) fn now_seconds() -> u64 {
    match std::time::SystemTime::now().duration_since(std::time::UNIX_EPOCH) {
        Ok(d) => d.as_secs(),
        Err(_) => 0,
    }
}

/// Relies on `uuid::Uuid::new_v4`: a freshly drawn random identifier,
/// rendered in its hyphenated text form, used to name a staging file.
#[verifier::external_body]
pub(crate) fn fresh_staging_name() -> String {
    uuid::Uuid::new_v4().to_string()
}

/// The state of the current staging batch: how many messages it holds, when
/// it was opened, which staging unit (and file) it writes to, and the count
/// and time bounds that complete it.
pub struct MessageCounter {
    /// Count bound: the batch is complete once this many messages are staged.
    pub max_messages: u32,
    /// Time bound, in seconds: the batch is complete once it has been open
    /// this long.
    pub max_duration: u64,
    /// Messages staged into the current unit so far.
    pub current_messages: u32,
    /// Name of the staging file of the current unit.
    pub current_file: String,
    /// When the current batch was opened, in seconds since the Unix epoch.
    pub current_checkpoint: u64,
    /// Generation of the current staging unit; each reset moves to a strictly
    /// larger generation, so an identifier is never reused.
    pub staging_id: u64,
}

impl MessageCounter {
    /// Whether the batch is complete at time `now`: the count bound or the
    /// time bound is met.
    pub open spec fn full_at(self, now: u64) -> bool {
        self.current_messages >= self.max_messages || now >= self.current_checkpoint
            + self.max_duration
    }

    /// A fresh, empty batch with the configured bounds.
    pub fn new(limits: Limits) -> (r: MessageCounter)
        ensures
            r.max_messages == limits.bigquery_max_messages,
            r.max_duration == limits.bigquery_time_limit,
            r.current_messages == 0,
            r.staging_id == 0,
    {
        MessageCounter {
            max_messages: limits.bigquery_max_messages,
            max_duration: limits.bigquery_time_limit,
            current_messages: 0,
            current_file: fresh_staging_name(),
            current_checkpoint: now_seconds(),
            staging_id: 0,
        }
    }

    /// Records that `amount` more messages were staged into the current unit.
    pub fn increase(&mut self, amount: u32)
        requires
            old(self).current_messages + amount <= u32::MAX,
        ensures
            final(self).current_messages == old(self).current_messages + amount,
            final(self).max_messages == old(self).max_messages,
            final(self).max_duration == old(self).max_duration,
            final(self).current_file == old(self).current_file,
            final(self).current_checkpoint == old(self).current_checkpoint,
            final(self).staging_id == old(self).staging_id,
    {
        self.current_messages = self.current_messages + amount;
    }

    /// Whether the batch is complete at the given time; the exact decision of
    /// `reached_threshold`, with the clock passed in.
    pub fn threshold_reached_at(&self, now: u64) -> (r: bool)
        ensures
            r == self.full_at(now),
    {
        if self.current_messages >= self.max_messages {
            true
        } else if now >= self.current_checkpoint {
            now - self.current_checkpoint >= self.max_duration
        } else {
            false
        }
    }

    /// Whether the batch is complete now. The clock is read from the machine,
    /// so only the count bound is pinned here; `threshold_reached_at` states
    /// the full decision for a known time.
    pub fn reached_threshold(&self) -> (r: bool)
        ensures
            self.current_messages >= self.max_messages ==> r,
            !r ==> self.current_messages < self.max_messages,
            exists|now: u64| r == self.full_at(now),
    {
        let now = now_seconds();
        self.threshold_reached_at(now)
    }

    /// A batch holding fewer than `max_messages` messages that has been open
    /// for less than `max_duration` seconds is never complete: only meeting
    /// the count bound or the time bound makes `full_at` true.
    pub proof fn lemma_not_full_early(self, now: u64)
        requires
            self.current_messages < self.max_messages,
            now < self.current_checkpoint + self.max_duration,
        ensures
            !self.full_at(now),
    {
    }

    /// Opens a new batch at time `now` writing to `file`: the count returns
    /// to zero and the staging generation strictly advances.
    pub fn reset_at(&mut self, now: u64, file: String)
        requires
            old(self).staging_id < u64::MAX,
        ensures
            final(self).current_messages == 0,
            final(self).current_checkpoint == now,
            final(self).current_file == file,
            final(self).staging_id == old(self).staging_id + 1,
            final(self).max_messages == old(self).max_messages,
            final(self).max_duration == old(self).max_duration,
    {
        self.current_messages = 0;
        self.current_checkpoint = now;
        self.current_file = file;
        self.staging_id = self.staging_id + 1;
    }

    /// Opens a new batch now, under a freshly drawn staging file name.
    pub fn reset(&mut self)
        requires
            old(self).staging_id < u64::MAX,
        ensures
            final(self).current_messages == 0,
            final(self).staging_id == old(self).staging_id + 1,
            final(self).max_messages == old(self).max_messages,
            final(self).max_duration == old(self).max_duration,
    {
        let now = now_seconds();
        let file = fresh_staging_name();
        self.reset_at(now, file);
    }
}

} // verus!
