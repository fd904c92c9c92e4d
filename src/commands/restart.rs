use vstd::prelude::*;

verus! {

/// Options of `restart`: every service, or one by name.
#[derive(Debug, Default, Clone)]
pub struct Restart {
    pub all: bool,
    pub service: Option<String>,
}

/// Why `restart` failed.
#[derive(Debug, Clone, PartialEq, Eq)]
pub enum Error {
    RestartFailed(String),
    RestartAllFailed(String),
    ServiceNotFound(String),
    PermissionDenied,
}

impl Error {
    /// The message shown for this error.
    pub fn message(&self) -> (r: String)
        ensures
            self matches Error::RestartFailed(s) ==> r@ == "Failed to restart service: "@ + s@,
            self matches Error::RestartAllFailed(s) ==> r@ == "Failed to restart all services: "@ + s@,
            self matches Error::ServiceNotFound(s) ==> r@ == "Service not found: "@ + s@,
            self is PermissionDenied ==> r@ == "Permission denied"@,
    {
        match self {
            Error::RestartFailed(s) => {
                let mut m = String::from_str("Failed to restart service: ");
                m.append(s.as_str());
                m
            },
            Error::RestartAllFailed(s) => {
                let mut m = String::from_str("Failed to restart all services: ");
                m.append(s.as_str());
                m
            },
            Error::ServiceNotFound(s) => {
                let mut m = String::from_str("Service not found: ");
                m.append(s.as_str());
                m
            },
            Error::PermissionDenied => String::from_str("Permission denied"),
        }
    }
}

} // verus!
