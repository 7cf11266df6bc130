//! Errors of the library.

use vstd::prelude::*;

verus! {

/// A fault in the inputs that is found before any work unit is admitted.
#[derive(Clone, Copy, Debug, PartialEq, Eq, Structural)]
pub enum StartupError {
    /// The configuration lists no endpoint.
    EmptyEndpointPool,
    /// A connection string of the configuration is no URL.
    MalformedEndpoint,
    /// There are not as many recipients as identities.
    CountMismatch,
}

/// A call that the state of the run does not allow. The state is left as it was.
#[derive(Clone, Copy, Debug, PartialEq, Eq, Structural)]
pub enum RegistryError {
    /// Every work unit has had its first admission.
    NothingToAdmit,
    /// The next work unit has not waited for the throttle.
    TurnNotAwaited,
    /// The next work unit has waited for the throttle already.
    TurnAlreadyGranted,
    /// No work unit has this position.
    UnknownUnit,
    /// The work unit has no task in flight.
    NoLiveTask,
    /// The pool has no endpoint at this position.
    UnknownEndpoint,
}

impl StartupError {
    /// A sentence for logs.
    pub fn message(&self) -> (text: &'static str)
        ensures
            text@ == match *self {
                StartupError::EmptyEndpointPool => "no endpoint is configured"@,
                StartupError::MalformedEndpoint => "an endpoint is not a URL"@,
                StartupError::CountMismatch => "identities and recipients differ in number"@,
            },
    {
        match self {
            StartupError::EmptyEndpointPool => "no endpoint is configured",
            StartupError::MalformedEndpoint => "an endpoint is not a URL",
            StartupError::CountMismatch => "identities and recipients differ in number",
        }
    }
}

impl RegistryError {
    /// A sentence for logs.
    pub fn message(&self) -> (text: &'static str)
        ensures
            text@ == match *self {
                RegistryError::NothingToAdmit => "every work unit has been admitted"@,
                RegistryError::TurnNotAwaited => "the throttle has not been waited for"@,
                RegistryError::TurnAlreadyGranted => "the throttle has been waited for already"@,
                RegistryError::UnknownUnit => "no such work unit"@,
                RegistryError::NoLiveTask => "the work unit has no task in flight"@,
                RegistryError::UnknownEndpoint => "no such endpoint"@,
            },
    {
        match self {
            RegistryError::NothingToAdmit => "every work unit has been admitted",
            RegistryError::TurnNotAwaited => "the throttle has not been waited for",
            RegistryError::TurnAlreadyGranted => "the throttle has been waited for already",
            RegistryError::UnknownUnit => "no such work unit",
            RegistryError::NoLiveTask => "the work unit has no task in flight",
            RegistryError::UnknownEndpoint => "no such endpoint",
        }
    }
}

} // verus!
