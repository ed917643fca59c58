//! The consumer loop's decisions, as a state machine. The caller performs the
//! outside work — pulling, appending to the staging file, submitting the load
//! job, deleting the staged file and acknowledging — and reports each outcome
//! as an [`Event`]; every decision about what to do next, and all bookkeeping
//! of the batch and of the pending acknowledgment tokens, is made here.
//!
//! A token enters the pending buffer only once its payload has been durably
//! appended to the staging unit, and leaves it only when the unit's load has
//! been confirmed: acknowledgment is never owed before a successful load.
use vstd::prelude::*;

use crate::bigquery::LoadJob;
use crate::handler::{fresh_staging_name, now_seconds, MessageCounter};
use crate::pubsub::{chunk_acks, chunking_of, ACK_CHUNK_LIMIT};
use crate::settings::BigQuerySettings;

verus! {

/// What the machine is waiting on.
pub enum Phase {
    /// Waiting for the outcome of a pull.
    Pulling,
    /// Waiting to hear that the payloads of the last pull were appended to
    /// the staging file; their tokens are held back here until then.
    Staging { tokens: Vec<String> },
    /// Waiting for the outcome of a load job.
    Loading,
}

/// The outcome of the outside work the machine last asked for.
pub enum Event {
    /// The pull failed; nothing was received.
    PullFailed,
    /// The pull returned these messages, each an acknowledgment token and its
    /// decoded payload text.
    Pulled { received: Vec<(String, String)> },
    /// Whether appending the payload lines to the staging file succeeded.
    WriteDone { ok: bool },
    /// How the load job ended: whether the submission went through at the
    /// transport level, and whether the job itself reported an error result.
    LoadDone { transport_ok: bool, job_failed: bool },
}

/// The outside work to perform next.
pub enum Action {
    /// Pull the next batch of messages from the subscription.
    Pull,
    /// Append `lines`, one per line, to the staging file `file`.
    Write { file: String, lines: Vec<String> },
    /// Submit a load job for the staging file `file`.
    Load { job: LoadJob, file: String },
    /// The batch is committed: delete the staging file `file` (best effort)
    /// and issue one acknowledge call per chunk, best effort, in order.
    Commit { file: String, chunks: Vec<Vec<String>> },
}

/// The consumer's whole decision state: the pull sizing, the destination
/// settings, the batch bookkeeping, the pending acknowledgment tokens, and
/// what it is waiting on.
pub struct Consumer {
    /// How many messages one pull may return.
    pub max_messages: i32,
    /// Destination and format of the load jobs it emits.
    pub bigquery: BigQuerySettings,
    /// State of the current staging batch.
    pub counter: MessageCounter,
    /// Tokens of the messages staged since the last committed batch, in
    /// arrival order.
    pub buffered_ack_ids: Vec<String>,
    /// What the machine is waiting on.
    pub phase: Phase,
}

/// `tokens` are exactly the first components of `received`, in order.
pub open spec fn tokens_of(received: Seq<(String, String)>, tokens: Seq<String>) -> bool {
    &&& tokens.len() == received.len()
    &&& forall|i: int| 0 <= i < received.len() ==> (#[trigger] tokens[i]) == received[i].0
}

/// `lines` are exactly the second components of `received`, in order.
pub open spec fn lines_of(received: Seq<(String, String)>, lines: Seq<String>) -> bool {
    &&& lines.len() == received.len()
    &&& forall|i: int| 0 <= i < received.len() ==> (#[trigger] lines[i]) == received[i].1
}

impl Consumer {
    /// Every staged message of the current batch has exactly one pending
    /// token, and a count overflow is ruled out before tokens are held back.
    pub open spec fn wf(self) -> bool {
        &&& self.counter.current_messages == self.buffered_ack_ids@.len()
        &&& (self.phase matches Phase::Staging { tokens } ==> self.counter.current_messages
            + tokens@.len() <= u32::MAX)
    }

    /// Which events the machine can take in its current state: the outcome of
    /// the work it asked for, with enough room to count the new messages and
    /// to advance the staging generation.
    pub open spec fn event_permitted(self, ev: Event) -> bool {
        &&& (match ev {
            Event::PullFailed => self.phase is Pulling,
            Event::Pulled { .. } => self.phase is Pulling,
            Event::WriteDone { .. } => self.phase is Staging,
            Event::LoadDone { .. } => self.phase is Loading,
        })
        &&& (ev matches Event::Pulled { received } ==> self.counter.current_messages
            + received@.len() <= u32::MAX)
        &&& (ev matches Event::LoadDone { transport_ok: true, job_failed: false }
            ==> self.counter.staging_id < u64::MAX)
    }

    /// A consumer ready to pull, with nothing staged and nothing pending.
    pub fn new(max_messages: i32, bigquery: BigQuerySettings, counter: MessageCounter) -> (r:
        Consumer)
        requires
            counter.current_messages == 0,
        ensures
            r.max_messages == max_messages,
            r.bigquery == bigquery,
            r.counter == counter,
            r.buffered_ack_ids@.len() == 0,
            r.phase is Pulling,
            r.wf(),
    {
        Consumer { max_messages, bigquery, counter, buffered_ack_ids: Vec::new(), phase: Phase::Pulling }
    }
}

/// The threshold decision made after each iteration's bookkeeping, at time
/// `now`: with the batch state `cnt` and pending tokens `buf` in place, a
/// complete, non-empty batch moves to loading; anything else pulls again.
pub open spec fn flush_check_spec(
    bigquery: BigQuerySettings,
    max_messages: i32,
    cnt: MessageCounter,
    buf: Seq<String>,
    now: u64,
    post: Consumer,
    action: Action,
) -> bool {
    &&& post.max_messages == max_messages
    &&& post.bigquery == bigquery
    &&& post.counter == cnt
    &&& post.buffered_ack_ids@ == buf
    &&& if cnt.full_at(now) && cnt.current_messages > 0 {
        &&& post.phase is Loading
        &&& (action matches Action::Load { job, file } && job == bigquery.load_job_spec() && file
            == cnt.current_file)
    } else {
        &&& post.phase is Pulling
        &&& action is Pull
    }
}

/// One step of the consumer: what `pre` with event `ev` at time `now` turns
/// into, and which action it asks for; `file` is the staging name a committed
/// batch's successor unit is given.
///
/// An acknowledgment (`Commit`) is emitted exactly on a load that succeeded
/// both at the transport level and in its job status; a failed load keeps the
/// batch, its staging file and every pending token untouched.
pub open spec fn step_spec(
    pre: Consumer,
    ev: Event,
    now: u64,
    file: String,
    post: Consumer,
    action: Action,
) -> bool {
    match ev {
        Event::PullFailed => {
            &&& post == pre
            &&& action is Pull
        },
        Event::Pulled { received } => {
            if received@.len() > 0 {
                &&& post.max_messages == pre.max_messages
                &&& post.bigquery == pre.bigquery
                &&& post.counter == pre.counter
                &&& post.buffered_ack_ids == pre.buffered_ack_ids
                &&& (post.phase matches Phase::Staging { tokens } && tokens_of(
                    received@,
                    tokens@,
                ))
                &&& (action matches Action::Write { file: to, lines } && to
                    == pre.counter.current_file && lines_of(received@, lines@))
            } else {
                flush_check_spec(
                    pre.bigquery,
                    pre.max_messages,
                    pre.counter,
                    pre.buffered_ack_ids@,
                    now,
                    post,
                    action,
                )
            }
        },
        Event::WriteDone { ok } => {
            &&& pre.phase matches Phase::Staging { tokens }
            &&& if ok {
                flush_check_spec(
                    pre.bigquery,
                    pre.max_messages,
                    (MessageCounter {
                        current_messages: (pre.counter.current_messages + tokens@.len()) as u32,
                        ..pre.counter
                    }),
                    pre.buffered_ack_ids@ + tokens@,
                    now,
                    post,
                    action,
                )
            } else {
                &&& post == (Consumer { phase: Phase::Pulling, ..pre })
                &&& action is Pull
            }
        },
        Event::LoadDone { transport_ok, job_failed } => {
            if transport_ok && !job_failed {
                &&& post.max_messages == pre.max_messages
                &&& post.bigquery == pre.bigquery
                &&& post.phase is Pulling
                &&& post.buffered_ack_ids@.len() == 0
                &&& post.counter.current_messages == 0
                &&& post.counter.current_checkpoint == now
                &&& post.counter.current_file == file
                &&& post.counter.staging_id == pre.counter.staging_id + 1
                &&& post.counter.max_messages == pre.counter.max_messages
                &&& post.counter.max_duration == pre.counter.max_duration
                &&& (action matches Action::Commit { file: del, chunks } && del
                    == pre.counter.current_file && chunking_of(
                    pre.buffered_ack_ids@,
                    chunks@,
                    ACK_CHUNK_LIMIT as int,
                ))
            } else {
                &&& post == (Consumer { phase: Phase::Pulling, ..pre })
                &&& action is Pull
            }
        },
    }
}

impl Consumer {
    /// The threshold check and its consequence: move to loading if the batch
    /// is complete and non-empty, otherwise pull again.
    fn flush_check(&mut self, now: u64) -> (action: Action)
        ensures
            flush_check_spec(
                old(self).bigquery,
                old(self).max_messages,
                old(self).counter,
                old(self).buffered_ack_ids@,
                now,
                *final(self),
                action,
            ),
            final(self).counter == old(self).counter,
            final(self).buffered_ack_ids == old(self).buffered_ack_ids,
    {
        if self.counter.threshold_reached_at(now) && self.counter.current_messages > 0 {
            self.phase = Phase::Loading;
            Action::Load {
                job: LoadJob::from_settings(&self.bigquery),
                file: self.counter.current_file.clone(),
            }
        } else {
            self.phase = Phase::Pulling;
            Action::Pull
        }
    }

    /// One step of the machine with the clock and the successor staging name
    /// passed in; `step` is this with both drawn from the machine.
    pub fn step_at(&mut self, event: Event, now: u64, next_file: String) -> (action: Action)
        requires
            old(self).wf(),
            old(self).event_permitted(event),
        ensures
            final(self).wf(),
            step_spec(*old(self), event, now, next_file, *final(self), action),
    {
        match event {
            Event::PullFailed => Action::Pull,
            Event::Pulled { received } => {
                if received.len() > 0 {
                    let mut tokens: Vec<String> = Vec::new();
                    let mut lines: Vec<String> = Vec::new();
                    let mut i: usize = 0;
                    while i < received.len()
                        invariant
                            i <= received@.len(),
                            tokens@.len() == i,
                            lines@.len() == i,
                            forall|j: int|
                                0 <= j < i ==> (#[trigger] tokens@[j]) == received@[j].0,
                            forall|j: int|
                                0 <= j < i ==> (#[trigger] lines@[j]) == received@[j].1,
                        decreases received@.len() - i,
                    {
                        tokens.push(received[i].0.clone());
                        lines.push(received[i].1.clone());
                        i = i + 1;
                    }
                    let file = self.counter.current_file.clone();
                    self.phase = Phase::Staging { tokens };
                    Action::Write { file, lines }
                } else {
                    self.flush_check(now)
                }
            },
            Event::WriteDone { ok } => {
                let mut taken = Phase::Pulling;
                core::mem::swap(&mut self.phase, &mut taken);
                match taken {
                    Phase::Staging { tokens } => {
                        if ok {
                            let mut tokens = tokens;
                            let n = tokens.len();
                            self.counter.increase(n as u32);
                            self.buffered_ack_ids.append(&mut tokens);
                            self.flush_check(now)
                        } else {
                            Action::Pull
                        }
                    },
                    _ => vstd::pervasive::unreached(),
                }
            },
            Event::LoadDone { transport_ok, job_failed } => {
                if transport_ok && !job_failed {
                    let file = self.counter.current_file.clone();
                    let chunks = chunk_acks(&self.buffered_ack_ids);
                    self.counter.reset_at(now, next_file);
                    self.buffered_ack_ids.clear();
                    self.phase = Phase::Pulling;
                    Action::Commit { file, chunks }
                } else {
                    self.phase = Phase::Pulling;
                    Action::Pull
                }
            },
        }
    }

    /// One step of the machine: takes the outcome of the last action and
    /// decides the next one, reading the clock and, for a committed batch,
    /// drawing a fresh staging name. `step_spec` pins the whole transition
    /// for the time and name that were drawn.
    pub fn step(&mut self, event: Event) -> (action: Action)
        requires
            old(self).wf(),
            old(self).event_permitted(event),
        ensures
            final(self).wf(),
            exists|now: u64, file: String|
                step_spec(*old(self), event, now, file, *final(self), action),
            action matches Action::Commit { .. } ==> event matches Event::LoadDone {
                transport_ok: true,
                job_failed: false,
            },
            (event matches Event::LoadDone { transport_ok, job_failed } && !(transport_ok
                && !job_failed)) ==> action is Pull && *final(self) == (Consumer {
                phase: Phase::Pulling,
                ..*old(self)
            }),
    {
        let now = now_seconds();
        let next_file = fresh_staging_name();
        let action = self.step_at(event, now, next_file);
        proof {
            assert(step_spec(*old(self), event, now, next_file, *self, action));
            assert(exists|n: u64, f: String|
                step_spec(*old(self), event, n, f, *self, action));
        }
        action
    }
}

/// Commit ordering: a step hands out acknowledgment chunks only for the event
/// that reports a fully successful load, and then they carry exactly the
/// tokens pending for that batch; on a failed load no acknowledgment is owed
/// and the pending tokens, the batch and its staging file are all kept.
pub proof fn lemma_commit_ordering(
    pre: Consumer,
    ev: Event,
    now: u64,
    file: String,
    post: Consumer,
    action: Action,
)
    requires
        step_spec(pre, ev, now, file, post, action),
    ensures
        action matches Action::Commit { .. } ==> ev matches Event::LoadDone {
            transport_ok: true,
            job_failed: false,
        },
        action matches Action::Commit { file: del, chunks } ==> del == pre.counter.current_file
            && chunking_of(pre.buffered_ack_ids@, chunks@, ACK_CHUNK_LIMIT as int),
        (ev matches Event::LoadDone { transport_ok, job_failed } && !(transport_ok && !job_failed))
            ==> action is Pull && post.buffered_ack_ids == pre.buffered_ack_ids && post.counter
            == pre.counter,
{
}

} // verus!
