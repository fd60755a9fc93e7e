use vstd::prelude::*;
use vstd::string::*;

use crate::error::{ApiError, ApiErrorKind};
use crate::text::{uuid_string, uuid_text};
use crate::time::UtcTimestamp;

verus! {

/// How serious a detected anomaly is.
#[derive(Clone, Copy, Debug, PartialEq, Eq, Structural)]
pub enum Severity {
    Low,
    Medium,
    High,
    Critical,
}

/// Where the investigation of an anomaly stands.
#[derive(Clone, Copy, Debug, PartialEq, Eq, Structural)]
pub enum AnomalyStatus {
    New,
    Investigating,
    Resolved,
    Dismissed,
}

/// A stored anomaly. `id` and `related_event_ids` hold the 128 bits of
/// UUIDs; `score_bits` holds the IEEE-754 single-precision bits of the score.
#[derive(Debug)]
pub struct Anomaly {
    pub id: u128,
    pub detected_at: UtcTimestamp,
    pub severity: String,
    pub score_bits: u32,
    pub title: String,
    pub explanation: String,
    pub status: String,
    pub related_event_ids: Vec<u128>,
}

/// The body of a request to change an anomaly's status.
#[derive(Debug)]
pub struct UpdateAnomalyStatusRequest {
    pub status: String,
}

/// The name by which a severity is stored and shown.
pub open spec fn severity_name(s: Severity) -> Seq<char> {
    match s {
        Severity::Low => "Low"@,
        Severity::Medium => "Medium"@,
        Severity::High => "High"@,
        Severity::Critical => "Critical"@,
    }
}

/// The name by which a status is stored and requested.
pub open spec fn status_name(s: AnomalyStatus) -> Seq<char> {
    match s {
        AnomalyStatus::New => "new"@,
        AnomalyStatus::Investigating => "investigating"@,
        AnomalyStatus::Resolved => "resolved"@,
        AnomalyStatus::Dismissed => "dismissed"@,
    }
}

/// The status whose name is `text`, if any.
pub open spec fn status_named(text: Seq<char>) -> Option<AnomalyStatus> {
    if text == status_name(AnomalyStatus::New) {
        Some(AnomalyStatus::New)
    } else if text == status_name(AnomalyStatus::Investigating) {
        Some(AnomalyStatus::Investigating)
    } else if text == status_name(AnomalyStatus::Resolved) {
        Some(AnomalyStatus::Resolved)
    } else if text == status_name(AnomalyStatus::Dismissed) {
        Some(AnomalyStatus::Dismissed)
    } else {
        None
    }
}

/// The message that rejects the requested status `text`.
pub open spec fn invalid_status_message(text: Seq<char>) -> Seq<char> {
    "Invalid status '"@ + text + "'. Must be one of: new, investigating, resolved, dismissed"@
}

/// The message when no anomaly has the UUID with bits `id`.
pub open spec fn anomaly_not_found_message(id: u128) -> Seq<char> {
    "Anomaly not found: "@ + uuid_text(id)
}

/// Whether two texts are equal.
fn same_text(a: &str, b: &str) -> (r: bool)
    ensures
        r == (a@ == b@),
{
    let a = String::from_str(a);
    let b = String::from_str(b);
    a == b
}

impl Severity {
    /// The name by which this severity is stored and shown.
    pub fn name(&self) -> (s: &'static str)
        ensures
            s@ == severity_name(*self),
    {
        match self {
            Severity::Low => "Low",
            Severity::Medium => "Medium",
            Severity::High => "High",
            Severity::Critical => "Critical",
        }
    }
}

impl AnomalyStatus {
    /// The name by which this status is stored and requested.
    pub fn name(&self) -> (s: &'static str)
        ensures
            s@ == status_name(*self),
    {
        match self {
            AnomalyStatus::New => "new",
            AnomalyStatus::Investigating => "investigating",
            AnomalyStatus::Resolved => "resolved",
            AnomalyStatus::Dismissed => "dismissed",
        }
    }

    /// The status named `text`, if any.
    pub fn from_name(text: &str) -> (r: Option<AnomalyStatus>)
        ensures
            r == status_named(text@),
    {
        if same_text(text, "new") {
            Some(AnomalyStatus::New)
        } else if same_text(text, "investigating") {
            Some(AnomalyStatus::Investigating)
        } else if same_text(text, "resolved") {
            Some(AnomalyStatus::Resolved)
        } else if same_text(text, "dismissed") {
            Some(AnomalyStatus::Dismissed)
        } else {
            None
        }
    }
}

impl UpdateAnomalyStatusRequest {
    /// Checks the requested status: it must name one of the four statuses,
    /// and that status is returned; anything else is a bad request.
    pub fn validate(&self) -> (r: Result<AnomalyStatus, ApiError>)
        ensures
            r is Ok <==> status_named(self.status@) is Some,
            r matches Ok(s) ==> status_named(self.status@) == Some(s) && status_name(s) == self.status@,
            r matches Err(e) ==> e.kind == ApiErrorKind::BadRequest
                && e.message@ == invalid_status_message(self.status@),
    {
        match AnomalyStatus::from_name(self.status.as_str()) {
            Some(s) => Ok(s),
            None => {
                let mut message = String::from_str("Invalid status '");
                message.append(self.status.as_str());
                message.append("'. Must be one of: new, investigating, resolved, dismissed");
                Err(ApiError::new(ApiErrorKind::BadRequest, message))
            },
        }
    }
}

/// The status a newly created anomaly is stored with: the requested one, or
/// `new` when none was requested.
pub fn initial_status(requested: Option<String>) -> (s: String)
    ensures
        s@ == match requested {
            Some(r) => r@,
            None => status_name(AnomalyStatus::New),
        },
{
    match requested {
        Some(r) => r,
        None => String::from_str(AnomalyStatus::New.name()),
    }
}

/// The answer to a lookup of the anomaly with UUID bits `id`, given what the
/// store found: the anomaly itself, or a not-found failure naming the id.
pub fn found_anomaly(id: u128, found: Option<Anomaly>) -> (r: Result<Anomaly, ApiError>)
    ensures
        r is Ok <==> found is Some,
        r matches Ok(a) ==> found == Some(a),
        r matches Err(err) ==> err.kind == ApiErrorKind::NotFound && err.message@ == anomaly_not_found_message(id),
{
    match found {
        Some(anomaly) => Ok(anomaly),
        None => {
            let mut message = String::from_str("Anomaly not found: ");
            let id_text = uuid_string(id);
            message.append(id_text.as_str());
            Err(ApiError::new(ApiErrorKind::NotFound, message))
        },
    }
}


/// Every status is found again by its name, so the names are distinct and
/// a status survives being stored and read back as text.
pub proof fn lemma_status_names_round_trip(s: AnomalyStatus)
    ensures
        status_named(status_name(s)) == Some(s),
{
    reveal_strlit("new");
    reveal_strlit("investigating");
    reveal_strlit("resolved");
    reveal_strlit("dismissed");
    assert("new"@[0] != "investigating"@[0]);
    assert("new"@ != "investigating"@);
    assert("new"@[0] != "resolved"@[0]);
    assert("new"@ != "resolved"@);
    assert("new"@ != "dismissed"@);
    assert("investigating"@ != "resolved"@);
    assert("investigating"@ != "dismissed"@);
    assert("resolved"@ != "dismissed"@);
}

} // verus!
