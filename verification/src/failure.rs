//! How a run fails: at which step, and in which way.

use vstd::prelude::*;
use vstd::string::*;

verus! {

/// The steps of a run at which it can fail.
#[derive(Clone, Copy, Debug, PartialEq, Eq, Structural)]
pub enum Step {
    ReadingCredential,
    GettingPublicAddress,
    GettingDomainAddress,
    GettingZone,
    GettingRecord,
    PatchingRecord,
}

/// The ways in which a step fails.
#[derive(Clone, Copy, Debug, PartialEq, Eq, Structural)]
pub enum SyncError {
    /// The request could not be completed: no connection, TLS, a timeout.
    NetworkError,
    /// An address or a response was malformed.
    ParseError,
    /// The domain did not resolve to an IPv4 address.
    ResolutionError,
    /// The provider lists no zone of the domain's name.
    ZoneNotFound,
    /// The zone lists no address record of the domain's name.
    RecordNotFound,
    /// The credential is missing, or the provider does not accept it.
    AuthError,
    /// The provider rejected the request.
    ApiError,
    /// The driver handed over a reply that the run was not waiting for.
    UnexpectedReply,
}

/// A failed step.
#[derive(Clone, Copy, Debug, PartialEq, Eq, Structural)]
pub struct Failure {
    pub step: Step,
    pub error: SyncError,
}

/// What the driver saw of a call that brought no usable response.
#[derive(Clone, Copy, Debug, PartialEq, Eq, Structural)]
pub enum CallFailure {
    /// The request was not completed.
    Transport,
    /// The server answered with this status, which is no success.
    Status(u16),
    /// The response could not be read as what was asked for.
    Malformed,
}

/// The error that a failed call stands for at `step`. The address-echo
/// service takes no credential, so every status of it counts as a failure of
/// the network; of the provider, the statuses 401 and 403 refuse the
/// credential.
pub open spec fn classify(step: Step, failure: CallFailure) -> SyncError {
    match failure {
        CallFailure::Transport => SyncError::NetworkError,
        CallFailure::Malformed => SyncError::ParseError,
        CallFailure::Status(code) => if step == Step::GettingPublicAddress {
            SyncError::NetworkError
        } else if code == 401 || code == 403 {
            SyncError::AuthError
        } else {
            SyncError::ApiError
        },
    }
}

impl Step {
    /// The words that name the step in a diagnostic.
    pub open spec fn context(self) -> Seq<char> {
        match self {
            Step::ReadingCredential => "Reading CLOUDFLARE_API_KEY"@,
            Step::GettingPublicAddress => "Getting current public IPv4 Address"@,
            Step::GettingDomainAddress => "Getting IPv4 Address Associated With Domain"@,
            Step::GettingZone => "Getting Zone for Domain"@,
            Step::GettingRecord => "Getting A Record"@,
            Step::PatchingRecord => "Patching DNS Record"@,
        }
    }

    /// The words that name the step in a diagnostic.
    pub fn context_text(&self) -> (r: &'static str)
        ensures
            r@ == self.context(),
    {
        match self {
            Step::ReadingCredential => "Reading CLOUDFLARE_API_KEY",
            Step::GettingPublicAddress => "Getting current public IPv4 Address",
            Step::GettingDomainAddress => "Getting IPv4 Address Associated With Domain",
            Step::GettingZone => "Getting Zone for Domain",
            Step::GettingRecord => "Getting A Record",
            Step::PatchingRecord => "Patching DNS Record",
        }
    }
}

impl SyncError {
    /// The words that describe the error in a diagnostic.
    pub open spec fn description(self) -> Seq<char> {
        match self {
            SyncError::NetworkError => "network error"@,
            SyncError::ParseError => "malformed response"@,
            SyncError::ResolutionError => "no IPv4 address found"@,
            SyncError::ZoneNotFound => "zone not found"@,
            SyncError::RecordNotFound => "record not found"@,
            SyncError::AuthError => "missing or rejected credential"@,
            SyncError::ApiError => "request rejected by the provider"@,
            SyncError::UnexpectedReply => "unexpected reply"@,
        }
    }

    /// The words that describe the error in a diagnostic.
    pub fn description_text(&self) -> (r: &'static str)
        ensures
            r@ == self.description(),
    {
        match self {
            SyncError::NetworkError => "network error",
            SyncError::ParseError => "malformed response",
            SyncError::ResolutionError => "no IPv4 address found",
            SyncError::ZoneNotFound => "zone not found",
            SyncError::RecordNotFound => "record not found",
            SyncError::AuthError => "missing or rejected credential",
            SyncError::ApiError => "request rejected by the provider",
            SyncError::UnexpectedReply => "unexpected reply",
        }
    }
}

impl Failure {
    /// The one-line diagnostic: the step, a colon, and the error.
    pub open spec fn diagnostic(self) -> Seq<char> {
        self.step.context() + ": "@ + self.error.description()
    }

    /// The one-line diagnostic of the failure.
    pub fn message(&self) -> (r: String)
        ensures
            r@ == self.diagnostic(),
    {
        let mut out = String::from_str(self.step.context_text());
        out.append(": ");
        out.append(self.error.description_text());
        out
    }
}

impl CallFailure {
    /// The error that the failed call stands for at `step`.
    pub fn error_at(&self, step: Step) -> (r: SyncError)
        ensures
            r == classify(step, *self),
    {
        match self {
            CallFailure::Transport => SyncError::NetworkError,
            CallFailure::Malformed => SyncError::ParseError,
            CallFailure::Status(code) => {
                if step == Step::GettingPublicAddress {
                    SyncError::NetworkError
                } else if *code == 401 || *code == 403 {
                    SyncError::AuthError
                } else {
                    SyncError::ApiError
                }
            },
        }
    }
}

} // verus!
