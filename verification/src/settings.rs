//! Configuration records handed to the pipeline at startup. Parsing them from
//! a configuration file happens outside the library; the library only reads
//! these plain values.
use vstd::prelude::*;

verus! {

/// Identifiers of the queue side: the project, the subscription that the
/// consumer drains, and the topic that the publisher writes to.
#[derive(Debug, Clone)]
pub struct PubsubSettings {
    pub project_id: String,
    pub subscription: String,
    pub topic: String,
}

/// Destination table coordinates and load-job format options.
#[derive(Debug)]
pub struct BigQuerySettings {
    pub project_id: String,
    pub dataset: String,
    pub table: String,
    pub format: String,
    pub delimiter: String,
    pub quote: String,
    pub auto_detect: bool,
    pub allow_jagged_rows: bool,
}

/// Numeric limits: how many messages one pull may return, and the count and
/// time bounds that complete a batch.
#[derive(Debug)]
pub struct Limits {
    pub pubsub_max_messages: i32,
    pub bigquery_max_messages: u32,
    pub bigquery_time_limit: u64,
}

/// The two run modes of the program.
#[derive(Debug)]
pub enum Mode {
    Publish,
    Subscribe,
}

/// Everything the pipeline is configured with.
#[derive(Debug)]
pub struct Settings {
    pub debug: bool,
    pub mode: Mode,
    pub pubsub: PubsubSettings,
    pub bigquery: BigQuerySettings,
    pub limits: Limits,
}

} // verus!
