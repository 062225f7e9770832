//! Failures of a raw socket handle, and how a refusal by the operating system
//! becomes one of them.

use vstd::prelude::*;

verus! {

/// A step at which the operating system, or the engine that sends for the
/// handle, can refuse.
#[derive(Clone, Copy, Debug, PartialEq, Eq, Structural)]
pub enum Stage {
    /// Creating the socket.
    Creation,
    /// Switching the socket to non-blocking mode.
    Configuration,
    /// Binding the socket to its local address.
    Bind,
    /// Sending a datagram.
    Send,
}

/// Why constructing a handle, or sending through one, failed.
///
/// Every variant but the first carries the operating-system error as it was
/// reported, untouched.
#[derive(Debug)]
pub enum RawSocketError {
    /// The address that was asked for resolved to no candidate at all.
    AddressResolutionFailure,
    /// The system would not create a socket of the requested classification.
    SocketCreationFailure(std::io::Error),
    /// The system would not switch the socket to non-blocking mode.
    SocketConfigFailure(std::io::Error),
    /// The system would not bind the socket to the resolved address.
    BindFailure(std::io::Error),
    /// The datagram could not be sent.
    SendFailure(std::io::Error),
}

impl RawSocketError {
    /// The failure that stands for the refusal `cause` met at `stage`.
    pub open spec fn spec_at_stage(stage: Stage, cause: std::io::Error) -> RawSocketError {
        match stage {
            Stage::Creation => RawSocketError::SocketCreationFailure(cause),
            Stage::Configuration => RawSocketError::SocketConfigFailure(cause),
            Stage::Bind => RawSocketError::BindFailure(cause),
            Stage::Send => RawSocketError::SendFailure(cause),
        }
    }

    /// The stage at which the failure arose; `None` for a failed resolution,
    /// which happens before any stage is entered.
    pub open spec fn spec_stage(self) -> Option<Stage> {
        match self {
            RawSocketError::AddressResolutionFailure => None,
            RawSocketError::SocketCreationFailure(_) => Some(Stage::Creation),
            RawSocketError::SocketConfigFailure(_) => Some(Stage::Configuration),
            RawSocketError::BindFailure(_) => Some(Stage::Bind),
            RawSocketError::SendFailure(_) => Some(Stage::Send),
        }
    }

    /// The operating-system error behind the failure, if there is one.
    pub open spec fn spec_cause(self) -> Option<std::io::Error> {
        match self {
            RawSocketError::AddressResolutionFailure => None,
            RawSocketError::SocketCreationFailure(cause) => Some(cause),
            RawSocketError::SocketConfigFailure(cause) => Some(cause),
            RawSocketError::BindFailure(cause) => Some(cause),
            RawSocketError::SendFailure(cause) => Some(cause),
        }
    }

    /// Builds the failure for a refusal met at `stage`.
    pub fn at_stage(stage: Stage, cause: std::io::Error) -> (e: RawSocketError)
        ensures
            e == RawSocketError::spec_at_stage(stage, cause),
    {
        match stage {
            Stage::Creation => RawSocketError::SocketCreationFailure(cause),
            Stage::Configuration => RawSocketError::SocketConfigFailure(cause),
            Stage::Bind => RawSocketError::BindFailure(cause),
            Stage::Send => RawSocketError::SendFailure(cause),
        }
    }

    /// The stage at which the failure arose.
    pub fn stage(&self) -> (s: Option<Stage>)
        ensures
            s == self.spec_stage(),
    {
        match self {
            RawSocketError::AddressResolutionFailure => None,
            RawSocketError::SocketCreationFailure(_) => Some(Stage::Creation),
            RawSocketError::SocketConfigFailure(_) => Some(Stage::Configuration),
            RawSocketError::BindFailure(_) => Some(Stage::Bind),
            RawSocketError::SendFailure(_) => Some(Stage::Send),
        }
    }

    /// Words for the failure: `"empty address"` for a failed resolution, and
    /// for a refusal what the system's error says of itself, which differs
    /// from one system to the next.
    pub fn message(&self) -> (text: String)
        ensures
            *self == RawSocketError::AddressResolutionFailure ==> text@ == "empty address"@,
    {
        match self {
            RawSocketError::AddressResolutionFailure => "empty address".to_owned(),
            RawSocketError::SocketCreationFailure(cause) => cause.to_string(),
            RawSocketError::SocketConfigFailure(cause) => cause.to_string(),
            RawSocketError::BindFailure(cause) => cause.to_string(),
            RawSocketError::SendFailure(cause) => cause.to_string(),
        }
    }

    /// The operating-system error behind the failure, if there is one.
    pub fn cause(&self) -> (c: Option<&std::io::Error>)
        ensures
            match c {
                Some(cause) => self.spec_cause() == Some(*cause),
                None => self.spec_cause() is None,
            },
    {
        match self {
            RawSocketError::AddressResolutionFailure => None,
            RawSocketError::SocketCreationFailure(cause) => Some(cause),
            RawSocketError::SocketConfigFailure(cause) => Some(cause),
            RawSocketError::BindFailure(cause) => Some(cause),
            RawSocketError::SendFailure(cause) => Some(cause),
        }
    }
}

/// What a step's outcome means to the caller: a success passes through with
/// its value, a refusal becomes the failure of that stage.
pub open spec fn spec_outcome_at<T>(stage: Stage, outcome: Result<T, std::io::Error>) -> Result<
    T,
    RawSocketError,
> {
    match outcome {
        Ok(value) => Ok(value),
        Err(cause) => Err(RawSocketError::spec_at_stage(stage, cause)),
    }
}

/// Reports the outcome of the step `stage` to the caller. Nothing is retried
/// and nothing is swallowed: the value, or the system's error under the
/// failure of that stage, comes back as it was given.
pub fn outcome_at<T>(stage: Stage, outcome: Result<T, std::io::Error>) -> (r: Result<
    T,
    RawSocketError,
>)
    ensures
        r == spec_outcome_at(stage, outcome),
{
    match outcome {
        Ok(value) => Ok(value),
        Err(cause) => Err(RawSocketError::at_stage(stage, cause)),
    }
}

/// A reported outcome fails exactly when the step was refused, and then with
/// the failure of that very stage and the system's own error.
pub proof fn lemma_outcome_keeps_stage_and_cause<T>(
    stage: Stage,
    outcome: Result<T, std::io::Error>,
)
    ensures
        spec_outcome_at(stage, outcome) is Err <==> outcome is Err,
        outcome matches Err(cause) ==> {
            &&& spec_outcome_at(stage, outcome)->Err_0.spec_stage() == Some(stage)
            &&& spec_outcome_at(stage, outcome)->Err_0.spec_cause() == Some(cause)
        },
        outcome matches Ok(value) ==> spec_outcome_at(stage, outcome) == Ok::<T, RawSocketError>(value),
{
}

} // verus!
