use vstd::prelude::*;
use vstd::string::*;

verus! {

/// How a request failed, as the HTTP layer reports it.
#[derive(Clone, Copy, Debug, PartialEq, Eq, Structural)]
pub enum ApiErrorKind {
    /// The request itself is invalid (400).
    BadRequest,
    /// The requested record does not exist (404).
    NotFound,
    /// The store failed (500).
    Internal,
}

/// A failed request: its kind and the message returned to the client.
#[derive(Debug)]
pub struct ApiError {
    pub kind: ApiErrorKind,
    pub message: String,
}

/// The HTTP status code of each kind of failure.
pub open spec fn status_code_of(kind: ApiErrorKind) -> u16 {
    match kind {
        ApiErrorKind::BadRequest => 400,
        ApiErrorKind::NotFound => 404,
        ApiErrorKind::Internal => 500,
    }
}

/// What the service was doing when the store failed.
#[derive(Clone, Copy, Debug, PartialEq, Eq, Structural)]
pub enum StoreAction {
    CreateEvent,
    FetchEvents,
    CountEvents,
    FetchEvent,
    CreateAnomaly,
    FetchAnomaly,
    FetchAnomalies,
    CountAnomalies,
    UpdateAnomaly,
}

/// The words that describe each store action in a failure message.
pub open spec fn store_action_text(action: StoreAction) -> Seq<char> {
    match action {
        StoreAction::CreateEvent => "create physical event"@,
        StoreAction::FetchEvents => "fetch physical events"@,
        StoreAction::CountEvents => "count physical events"@,
        StoreAction::FetchEvent => "fetch physical event"@,
        StoreAction::CreateAnomaly => "create anomaly"@,
        StoreAction::FetchAnomaly => "fetch anomaly"@,
        StoreAction::FetchAnomalies => "fetch anomalies"@,
        StoreAction::CountAnomalies => "count anomalies"@,
        StoreAction::UpdateAnomaly => "update anomaly"@,
    }
}

impl StoreAction {
    /// The words that describe this action in a failure message.
    pub fn text(&self) -> (s: &'static str)
        ensures
            s@ == store_action_text(*self),
    {
        match self {
            StoreAction::CreateEvent => "create physical event",
            StoreAction::FetchEvents => "fetch physical events",
            StoreAction::CountEvents => "count physical events",
            StoreAction::FetchEvent => "fetch physical event",
            StoreAction::CreateAnomaly => "create anomaly",
            StoreAction::FetchAnomaly => "fetch anomaly",
            StoreAction::FetchAnomalies => "fetch anomalies",
            StoreAction::CountAnomalies => "count anomalies",
            StoreAction::UpdateAnomaly => "update anomaly",
        }
    }
}

impl ApiErrorKind {
    /// The HTTP status code of this kind of failure.
    pub fn status_code(&self) -> (code: u16)
        ensures
            code == status_code_of(*self),
    {
        match self {
            ApiErrorKind::BadRequest => 400,
            ApiErrorKind::NotFound => 404,
            ApiErrorKind::Internal => 500,
        }
    }
}

impl ApiError {
    /// A failure of the given kind with the given message.
    pub fn new(kind: ApiErrorKind, message: String) -> (e: ApiError)
        ensures
            e.kind == kind,
            e.message@ == message@,
    {
        ApiError { kind, message }
    }

    /// The HTTP status code of this failure.
    pub fn status_code(&self) -> (code: u16)
        ensures
            code == status_code_of(self.kind),
    {
        self.kind.status_code()
    }

    /// The internal failure reported when the store fails during `action`,
    /// with the store's own description `detail`:
    /// `Failed to <action>: <detail>`.
    pub fn storage_failure(action: StoreAction, detail: &str) -> (e: ApiError)
        ensures
            e.kind == ApiErrorKind::Internal,
            e.message@ == "Failed to "@ + store_action_text(action) + ": "@ + detail@,
    {
        let mut message = String::from_str("Failed to ");
        message.append(action.text());
        message.append(": ");
        message.append(detail);
        ApiError { kind: ApiErrorKind::Internal, message }
    }
}

} // verus!
