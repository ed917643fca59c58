use bqloader::bigquery::{load_outcome, LoadJob};
use bqloader::consumer::{Action, Consumer, Event};
use bqloader::handler::MessageCounter;
use bqloader::settings::BigQuerySettings;

fn settings() -> BigQuerySettings {
    BigQuerySettings {
        project_id: String::from("proj"),
        dataset: String::from("ds"),
        table: String::from("tbl"),
        format: String::from("CSV"),
        delimiter: String::from(","),
        quote: String::from("\""),
        auto_detect: true,
        allow_jagged_rows: false,
    }
}

fn consumer(max_messages: u32) -> Consumer {
    let counter = MessageCounter {
        max_messages,
        max_duration: 3600,
        current_messages: 0,
        current_file: String::from("staging-0"),
        current_checkpoint: 1000,
        staging_id: 0,
    };
    Consumer::new(10, settings(), counter)
}

fn pulled(token: &str, payload: &str) -> Event {
    Event::Pulled { received: vec![(String::from(token), String::from(payload))] }
}

#[test]
fn job_is_built_from_the_settings() {
    let job = LoadJob::from_settings(&settings());
    assert_eq!(job.project_id, "proj");
    assert_eq!(job.dataset, "ds");
    assert_eq!(job.table, "tbl");
    assert_eq!(job.source_format, "CSV");
    assert_eq!(job.field_delimiter, ",");
    assert_eq!(job.quote, "\"");
    assert!(job.autodetect);
    assert!(!job.allow_jagged_rows);
}

#[test]
fn load_succeeds_only_with_transport_and_job_both_clean() {
    assert!(load_outcome(true, false, String::from("x")).is_ok());
    let e1 = load_outcome(false, false, String::from("no route")).unwrap_err();
    assert_eq!(e1.kind, "bigquery");
    assert_eq!(e1.message, "no route");
    let e2 = load_outcome(true, true, String::from("bad rows")).unwrap_err();
    assert_eq!(e2.kind, "bigquery");
    let e3 = load_outcome(false, true, String::from("both")).unwrap_err();
    assert_eq!(e3.kind, "bigquery");
}

#[test]
fn three_messages_fill_load_and_acknowledge_together() {
    // Count bound 3: three single-message pulls, then one load, then one
    // acknowledgment carrying exactly the three tokens, then a reset.
    let mut c = consumer(3);
    let tokens = ["T1", "T2", "T3"];
    for (i, t) in tokens.iter().enumerate() {
        let payload = ["a", "b", "c"][i];
        match c.step_at(pulled(t, payload), 1000, String::from("unused")) {
            Action::Write { file, lines } => {
                assert_eq!(file, "staging-0");
                assert_eq!(lines, vec![String::from(payload)]);
            },
            _ => panic!("expected a write"),
        }
        let after_write = c.step_at(Event::WriteDone { ok: true }, 1000, String::from("unused"));
        if i < 2 {
            assert!(matches!(after_write, Action::Pull));
        } else {
            match after_write {
                Action::Load { job, file } => {
                    assert_eq!(file, "staging-0");
                    assert_eq!(job.table, "tbl");
                },
                _ => panic!("expected a load after the third append"),
            }
        }
    }
    assert_eq!(c.counter.current_messages, 3);
    assert_eq!(c.buffered_ack_ids, vec![
        String::from("T1"),
        String::from("T2"),
        String::from("T3")
    ]);
    match c.step_at(
        Event::LoadDone { transport_ok: true, job_failed: false },
        1005,
        String::from("staging-1"),
    ) {
        Action::Commit { file, chunks } => {
            assert_eq!(file, "staging-0");
            assert_eq!(chunks, vec![vec![
                String::from("T1"),
                String::from("T2"),
                String::from("T3")
            ]]);
        },
        _ => panic!("expected a commit after the successful load"),
    }
    assert_eq!(c.counter.current_messages, 0);
    assert_eq!(c.counter.staging_id, 1);
    assert_eq!(c.counter.current_file, "staging-1");
    assert!(c.buffered_ack_ids.is_empty());
}

#[test]
fn failed_load_keeps_the_batch_until_a_later_success() {
    // The load fails once, with no new messages in between: the staging file
    // is not deleted and nothing is acknowledged; the later success
    // acknowledges the full accumulated token set.
    let mut c = consumer(1);
    assert!(matches!(
        c.step_at(pulled("T1", "a"), 1000, String::from("unused")),
        Action::Write { .. }
    ));
    assert!(matches!(
        c.step_at(Event::WriteDone { ok: true }, 1000, String::from("unused")),
        Action::Load { .. }
    ));
    // First attempt fails at the transport: no commit, no deletion, tokens kept.
    let after_failure = c.step_at(
        Event::LoadDone { transport_ok: false, job_failed: false },
        1001,
        String::from("unused"),
    );
    assert!(matches!(after_failure, Action::Pull));
    assert_eq!(c.buffered_ack_ids, vec![String::from("T1")]);
    assert_eq!(c.counter.current_messages, 1);
    assert_eq!(c.counter.current_file, "staging-0");
    // An empty pull later: the batch is still complete, so load again.
    assert!(matches!(
        c.step_at(Event::Pulled { received: Vec::new() }, 1002, String::from("unused")),
        Action::Load { .. }
    ));
    match c.step_at(
        Event::LoadDone { transport_ok: true, job_failed: false },
        1003,
        String::from("staging-1"),
    ) {
        Action::Commit { file, chunks } => {
            assert_eq!(file, "staging-0");
            assert_eq!(chunks, vec![vec![String::from("T1")]]);
        },
        _ => panic!("expected a commit after the later success"),
    }
    assert!(c.buffered_ack_ids.is_empty());
}

#[test]
fn job_error_status_fails_the_flush_like_a_transport_error() {
    let mut c = consumer(1);
    c.step_at(pulled("T1", "a"), 1000, String::from("unused"));
    c.step_at(Event::WriteDone { ok: true }, 1000, String::from("unused"));
    let after = c.step_at(
        Event::LoadDone { transport_ok: true, job_failed: true },
        1001,
        String::from("unused"),
    );
    assert!(matches!(after, Action::Pull));
    assert_eq!(c.buffered_ack_ids, vec![String::from("T1")]);
}

#[test]
fn pull_failure_changes_nothing() {
    let mut c = consumer(3);
    let before_buffer = c.buffered_ack_ids.clone();
    let action = c.step_at(Event::PullFailed, 1000, String::from("unused"));
    assert!(matches!(action, Action::Pull));
    assert_eq!(c.buffered_ack_ids, before_buffer);
    assert_eq!(c.counter.current_messages, 0);
}

#[test]
fn failed_write_buffers_no_tokens() {
    // An append that fails aborts the iteration: the token is not buffered
    // and the count does not move, so nothing can be acknowledged for it.
    let mut c = consumer(3);
    c.step_at(pulled("T1", "a"), 1000, String::from("unused"));
    let action = c.step_at(Event::WriteDone { ok: false }, 1000, String::from("unused"));
    assert!(matches!(action, Action::Pull));
    assert!(c.buffered_ack_ids.is_empty());
    assert_eq!(c.counter.current_messages, 0);
}

#[test]
fn time_bound_flushes_a_quiet_batch() {
    let mut c = consumer(100);
    c.step_at(pulled("T1", "a"), 1000, String::from("unused"));
    c.step_at(Event::WriteDone { ok: true }, 1000, String::from("unused"));
    // One hour later an empty pull arrives: the time bound completes the batch.
    let action = c.step_at(Event::Pulled { received: Vec::new() }, 4600, String::from("unused"));
    assert!(matches!(action, Action::Load { .. }));
}

#[test]
fn empty_batch_is_not_loaded_on_timeout() {
    let mut c = consumer(100);
    // Past the time bound but nothing staged: no staging unit exists, so
    // there is nothing to load and nothing to acknowledge.
    let action = c.step_at(Event::Pulled { received: Vec::new() }, 9000, String::from("unused"));
    assert!(matches!(action, Action::Pull));
}

#[test]
fn live_step_reads_its_own_clock() {
    // `step` draws the clock and staging name itself; with the count bound
    // met the flush decision does not depend on them.
    let mut c = consumer(1);
    c.step(pulled("T1", "a"));
    let action = c.step(Event::WriteDone { ok: true });
    assert!(matches!(action, Action::Load { .. }));
    let commit = c.step(Event::LoadDone { transport_ok: true, job_failed: false });
    match commit {
        Action::Commit { file, chunks } => {
            assert_eq!(file, "staging-0");
            assert_eq!(chunks, vec![vec![String::from("T1")]]);
        },
        _ => panic!("expected a commit"),
    }
    assert_eq!(c.counter.staging_id, 1);
    assert_ne!(c.counter.current_file, "staging-0");
}
