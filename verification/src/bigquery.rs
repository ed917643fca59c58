//! The warehouse side: the description of one bulk-load job, and the rule
//! that decides whether a submitted load counts as successful.
use vstd::prelude::*;

use crate::handler::HandlingError;
use crate::settings::BigQuerySettings;

verus! {

/// One bulk-load request: destination table coordinates and the configured
/// source-format options. Built fresh per flush attempt and immutable once
/// submitted; the warehouse client sends it together with the staging unit's
/// content.
pub struct LoadJob {
    pub project_id: String,
    pub dataset: String,
    pub table: String,
    pub source_format: String,
    pub field_delimiter: String,
    pub quote: String,
    pub autodetect: bool,
    pub allow_jagged_rows: bool,
}

impl BigQuerySettings {
    /// The load job that these settings describe.
    pub open spec fn load_job_spec(self) -> LoadJob {
        LoadJob {
            project_id: self.project_id,
            dataset: self.dataset,
            table: self.table,
            source_format: self.format,
            field_delimiter: self.delimiter,
            quote: self.quote,
            autodetect: self.auto_detect,
            allow_jagged_rows: self.allow_jagged_rows,
        }
    }
}

impl LoadJob {
    /// Builds the job description for one flush attempt from the configured
    /// destination and format options.
    pub fn from_settings(settings: &BigQuerySettings) -> (r: LoadJob)
        ensures
            r == settings.load_job_spec(),
    {
        LoadJob {
            project_id: settings.project_id.clone(),
            dataset: settings.dataset.clone(),
            table: settings.table.clone(),
            source_format: settings.format.clone(),
            field_delimiter: settings.delimiter.clone(),
            quote: settings.quote.clone(),
            autodetect: settings.auto_detect,
            allow_jagged_rows: settings.allow_jagged_rows,
        }
    }
}

/// The commit rule for one load attempt: the load succeeded only if the
/// submission went through at the transport level and the job itself finished
/// without an error result. Either failing alone fails the attempt, and the
/// error carries `detail` under the warehouse's error kind.
pub fn load_outcome(transport_ok: bool, job_failed: bool, detail: String) -> (r: Result<
    (),
    HandlingError,
>)
    ensures
        r is Ok <==> transport_ok && !job_failed,
        r matches Err(e) ==> e.kind@ == "bigquery"@ && e.message == detail,
{
    if transport_ok && !job_failed {
        Ok(())
    } else {
        Err(HandlingError { kind: "bigquery".to_owned(), message: detail })
    }
}

} // verus!
