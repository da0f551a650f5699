//! What a run reports: one status line per event, one outcome per managed record.

use vstd::prelude::*;
use vstd::string::*;

verus! {

/// Where a status line goes.
#[derive(Debug, Clone, Copy, PartialEq, Eq, Structural)]
pub enum Stream {
    /// Progress and success.
    Stdout,
    /// Errors.
    Stderr,
}

/// What a [`StatusLine`] holds, as plain values.
pub struct StatusLineView {
    pub stream: Stream,
    pub text: Seq<char>,
}

/// One line of the run's report, without its line end.
#[derive(Debug, PartialEq, Eq)]
pub struct StatusLine {
    pub stream: Stream,
    pub text: String,
}

impl View for StatusLine {
    type V = StatusLineView;

    open spec fn view(&self) -> StatusLineView {
        StatusLineView { stream: self.stream, text: self.text@ }
    }
}

/// The views of a list of lines.
pub open spec fn line_views(lines: Seq<StatusLine>) -> Seq<StatusLineView> {
    Seq::new(lines.len(), |i: int| lines[i]@)
}

/// How a managed record came out of the run.
#[derive(Debug, Clone, Copy, PartialEq, Eq, Structural)]
pub enum Status {
    /// The record already carried the desired address; nothing was sent.
    UpToDate,
    /// The provider answered the rewrite.
    Updated,
    /// The rewrite did not reach the provider.
    Failed,
}

/// What an [`UpdateOutcome`] holds, as plain values.
pub struct UpdateOutcomeView {
    pub record_name: Seq<char>,
    pub status: Status,
    pub detail: Option<Seq<char>>,
}

/// The outcome of one managed record; `detail` holds the cause of a failure.
#[derive(Debug, PartialEq, Eq)]
pub struct UpdateOutcome {
    pub record_name: String,
    pub status: Status,
    pub detail: Option<String>,
}

impl View for UpdateOutcome {
    type V = UpdateOutcomeView;

    open spec fn view(&self) -> UpdateOutcomeView {
        UpdateOutcomeView {
            record_name: self.record_name@,
            status: self.status,
            detail: match self.detail {
                Some(cause) => Some(cause@),
                None => None,
            },
        }
    }
}

/// The views of a list of outcomes.
pub open spec fn outcome_views(outcomes: Seq<UpdateOutcome>) -> Seq<UpdateOutcomeView> {
    Seq::new(outcomes.len(), |i: int| outcomes[i]@)
}

/// The outcome of a record that needed no rewrite.
pub open spec fn up_to_date_outcome(name: Seq<char>) -> UpdateOutcomeView {
    UpdateOutcomeView { record_name: name, status: Status::UpToDate, detail: None }
}

/// The outcome of a rewrite: `failure` is the cause where the request did
/// not reach the provider, and `None` where the provider answered.
pub open spec fn write_outcome(name: Seq<char>, failure: Option<Seq<char>>) -> UpdateOutcomeView {
    match failure {
        None => UpdateOutcomeView { record_name: name, status: Status::Updated, detail: None },
        Some(cause) => UpdateOutcomeView { record_name: name, status: Status::Failed, detail: Some(cause) },
    }
}

/// The cause of a failed rewrite, or `None` where the provider answered.
pub open spec fn failure_text(reply: Result<(), String>) -> Option<Seq<char>> {
    match reply {
        Ok(_) => None,
        Err(cause) => Some(cause@),
    }
}

/// The line that names the discovered address.
pub open spec fn public_ip_line(ip: Seq<char>) -> StatusLineView {
    StatusLineView { stream: Stream::Stdout, text: "Public IP: "@ + ip }
}

/// The line that announces the listing of a zone.
pub open spec fn listing_line(zone_id: Seq<char>) -> StatusLineView {
    StatusLineView { stream: Stream::Stdout, text: "Getting records for zone "@ + zone_id }
}

/// The line that reports an error of discovery or of a listing.
pub open spec fn error_line(cause: Seq<char>) -> StatusLineView {
    StatusLineView { stream: Stream::Stderr, text: "error: "@ + cause }
}

/// The line that reports an outcome.
pub open spec fn outcome_line(outcome: UpdateOutcomeView) -> StatusLineView {
    match outcome.status {
        Status::UpToDate => StatusLineView {
            stream: Stream::Stdout,
            text: "Record "@ + outcome.record_name + " is up to date"@,
        },
        Status::Updated => StatusLineView {
            stream: Stream::Stdout,
            text: "Successfully updated record "@ + outcome.record_name,
        },
        Status::Failed => StatusLineView {
            stream: Stream::Stderr,
            text: "Failed to update record "@ + outcome.record_name + ": "@ + match outcome.detail {
                Some(cause) => cause,
                None => Seq::<char>::empty(),
            },
        },
    }
}

impl StatusLine {
    /// The line that names the discovered address.
    pub fn public_ip(ip: &str) -> (line: StatusLine)
        ensures
            line@ == public_ip_line(ip@),
    {
        StatusLine { stream: Stream::Stdout, text: String::from_str("Public IP: ").concat(ip) }
    }

    /// The line that announces the listing of a zone.
    pub fn listing(zone_id: &str) -> (line: StatusLine)
        ensures
            line@ == listing_line(zone_id@),
    {
        StatusLine {
            stream: Stream::Stdout,
            text: String::from_str("Getting records for zone ").concat(zone_id),
        }
    }

    /// The line that reports an error of discovery or of a listing.
    pub fn error(cause: &str) -> (line: StatusLine)
        ensures
            line@ == error_line(cause@),
    {
        StatusLine { stream: Stream::Stderr, text: String::from_str("error: ").concat(cause) }
    }

    /// The line that reports an outcome.
    pub fn outcome(outcome: &UpdateOutcome) -> (line: StatusLine)
        ensures
            line@ == outcome_line(outcome@),
    {
        let name = outcome.record_name.as_str();
        match outcome.status {
            Status::UpToDate => StatusLine {
                stream: Stream::Stdout,
                text: String::from_str("Record ").concat(name).concat(" is up to date"),
            },
            Status::Updated => StatusLine {
                stream: Stream::Stdout,
                text: String::from_str("Successfully updated record ").concat(name),
            },
            Status::Failed => {
                let head = String::from_str("Failed to update record ").concat(name).concat(": ");
                let text = match &outcome.detail {
                    Some(cause) => head.concat(cause.as_str()),
                    None => {
                        head
                    },
                };
                StatusLine { stream: Stream::Stderr, text }
            },
        }
    }
}

impl UpdateOutcome {
    /// The outcome of a record that needed no rewrite.
    pub fn up_to_date(name: &str) -> (outcome: UpdateOutcome)
        ensures
            outcome@ == up_to_date_outcome(name@),
    {
        UpdateOutcome { record_name: String::from_str(name), status: Status::UpToDate, detail: None }
    }

    /// The outcome of a rewrite, from what became of the request: `Ok` where
    /// the provider answered, `Err` with the cause where it was not reached.
    pub fn of_write(name: &str, reply: Result<(), String>) -> (outcome: UpdateOutcome)
        ensures
            outcome@ == write_outcome(name@, failure_text(reply)),
    {
        match reply {
            Ok(_) => UpdateOutcome {
                record_name: String::from_str(name),
                status: Status::Updated,
                detail: None,
            },
            Err(cause) => UpdateOutcome {
                record_name: String::from_str(name),
                status: Status::Failed,
                detail: Some(cause),
            },
        }
    }
}

} // verus!
