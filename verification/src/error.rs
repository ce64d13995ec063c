//! The failures of the service, each with the text that describes it.

use vstd::prelude::*;

verus! {

/// A failure, by kind, with the detail that came with it.
#[derive(Debug, Clone, PartialEq, Eq)]
pub enum AppError {
    /// A required setting is absent or malformed.
    Config(String),
    /// An HTTP exchange failed below the level of a status.
    Reqwest(String),
    /// A value could not be encoded or decoded.
    Serde(String),
    /// The generation service refused, or answered without text.
    GeminiApi(String),
    /// The notification service refused.
    Ntfy(String),
    /// Input or output failed.
    Io(String),
    /// Generated text does not follow the agreed form.
    ParseError(String),
    /// Anything else.
    Internal(String),
}

/// What a fallible operation of the service gives.
pub type AppResult<T> = Result<T, AppError>;

/// The kind of a failure.
#[derive(Debug, Clone, Copy, PartialEq, Eq, Structural)]
pub enum ErrorKind {
    Config,
    Reqwest,
    Serde,
    GeminiApi,
    Ntfy,
    Io,
    ParseError,
    Internal,
}

/// The mathematical value of an `AppError`.
pub struct Failure {
    pub kind: ErrorKind,
    pub detail: Seq<char>,
}

impl View for AppError {
    type V = Failure;

    open spec fn view(&self) -> Failure {
        match self {
            AppError::Config(d) => Failure { kind: ErrorKind::Config, detail: d@ },
            AppError::Reqwest(d) => Failure { kind: ErrorKind::Reqwest, detail: d@ },
            AppError::Serde(d) => Failure { kind: ErrorKind::Serde, detail: d@ },
            AppError::GeminiApi(d) => Failure { kind: ErrorKind::GeminiApi, detail: d@ },
            AppError::Ntfy(d) => Failure { kind: ErrorKind::Ntfy, detail: d@ },
            AppError::Io(d) => Failure { kind: ErrorKind::Io, detail: d@ },
            AppError::ParseError(d) => Failure { kind: ErrorKind::ParseError, detail: d@ },
            AppError::Internal(d) => Failure { kind: ErrorKind::Internal, detail: d@ },
        }
    }
}

/// The words that introduce the detail of a failure of kind `kind`.
pub open spec fn heading(kind: ErrorKind) -> Seq<char> {
    match kind {
        ErrorKind::Config => "Configuration error: "@,
        ErrorKind::Reqwest => "HTTP request error: "@,
        ErrorKind::Serde => "JSON serialization/deserialization error: "@,
        ErrorKind::GeminiApi => "Gemini API error: "@,
        ErrorKind::Ntfy => "ntfy.sh notification error: "@,
        ErrorKind::Io => "I/O error: "@,
        ErrorKind::ParseError => "Failed to parse content: "@,
        ErrorKind::Internal => "Internal error: "@,
    }
}

impl Failure {
    /// The sentence that describes the failure: its heading, then its detail.
    pub open spec fn message(self) -> Seq<char> {
        heading(self.kind) + self.detail
    }
}

impl AppError {
    /// The kind of the failure.
    pub fn kind(&self) -> (k: ErrorKind)
        ensures
            k == self@.kind,
    {
        match self {
            AppError::Config(_) => ErrorKind::Config,
            AppError::Reqwest(_) => ErrorKind::Reqwest,
            AppError::Serde(_) => ErrorKind::Serde,
            AppError::GeminiApi(_) => ErrorKind::GeminiApi,
            AppError::Ntfy(_) => ErrorKind::Ntfy,
            AppError::Io(_) => ErrorKind::Io,
            AppError::ParseError(_) => ErrorKind::ParseError,
            AppError::Internal(_) => ErrorKind::Internal,
        }
    }

    /// The detail that came with the failure.
    pub fn detail(&self) -> (d: &str)
        ensures
            d@ == self@.detail,
    {
        match self {
            AppError::Config(d) => d.as_str(),
            AppError::Reqwest(d) => d.as_str(),
            AppError::Serde(d) => d.as_str(),
            AppError::GeminiApi(d) => d.as_str(),
            AppError::Ntfy(d) => d.as_str(),
            AppError::Io(d) => d.as_str(),
            AppError::ParseError(d) => d.as_str(),
            AppError::Internal(d) => d.as_str(),
        }
    }

    /// The sentence that describes the failure.
    pub fn message(&self) -> (m: String)
        ensures
            m@ == self@.message(),
    {
        let head: &'static str = match self.kind() {
            ErrorKind::Config => "Configuration error: ",
            ErrorKind::Reqwest => "HTTP request error: ",
            ErrorKind::Serde => "JSON serialization/deserialization error: ",
            ErrorKind::GeminiApi => "Gemini API error: ",
            ErrorKind::Ntfy => "ntfy.sh notification error: ",
            ErrorKind::Io => "I/O error: ",
            ErrorKind::ParseError => "Failed to parse content: ",
            ErrorKind::Internal => "Internal error: ",
        };
        head.to_owned().concat(self.detail())
    }
}

impl From<String> for AppError {
    /// A bare text is an internal failure.
    fn from(s: String) -> (e: AppError) {
        AppError::Internal(s)
    }
}

impl vstd::std_specs::convert::FromSpecImpl<String> for AppError {
    open spec fn obeys_from_spec() -> bool {
        true
    }

    open spec fn from_spec(s: String) -> AppError {
        AppError::Internal(s)
    }
}

} // verus!
