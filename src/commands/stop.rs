use vstd::prelude::*;

verus! {

/// Options of `stop`: every service, or one by name.
#[derive(Debug, Default, Clone)]
pub struct Stop {
    pub all: bool,
    pub service: Option<String>,
}

/// Why `stop` failed.
#[derive(Debug, Clone, PartialEq, Eq)]
pub enum Error {
    ServiceStopError(String),
    StopAllError(String),
    ServiceNotFound(String),
    PermissionDenied,
}

impl Error {
    /// The message shown for this error.
    pub fn message(&self) -> (r: String)
        ensures
            self matches Error::ServiceStopError(s) ==> r@ == "Failed to stop service "@ + s@,
            self matches Error::StopAllError(s) ==> r@ == "Failed to stop all services: "@ + s@,
            self matches Error::ServiceNotFound(s) ==> r@ == "Service not found: "@ + s@,
            self is PermissionDenied ==> r@ == "Permission denied"@,
    {
        match self {
            Error::ServiceStopError(s) => {
                let mut m = String::from_str("Failed to stop service ");
                m.append(s.as_str());
                m
            },
            Error::StopAllError(s) => {
                let mut m = String::from_str("Failed to stop all services: ");
                m.append(s.as_str());
                m
            },
            Error::ServiceNotFound(s) => {
                let mut m = String::from_str("Service not found: ");
                m.append(s.as_str());
                m
            },
            Error::PermissionDenied => String::from_str("Permission denied"),
        }
    }
}

} // verus!
