use vstd::prelude::*;

verus! {

/// Options of `start`: every service, or one by name.
#[derive(Debug, Default, Clone)]
pub struct Start {
    pub all: bool,
    pub service: Option<String>,
}

/// Why `start` failed.
#[derive(Debug, Clone, PartialEq, Eq)]
pub enum Error {
    ServiceStartError(String),
    StartAllError(String),
    ServiceNotFound(String),
    PermissionDenied,
}

impl Error {
    /// The message shown for this error.
    pub fn message(&self) -> (r: String)
        ensures
            self matches Error::ServiceStartError(s) ==> r@ == "Failed to start service "@ + s@,
            self matches Error::StartAllError(s) ==> r@ == "Failed to start all services: "@ + s@,
            self matches Error::ServiceNotFound(s) ==> r@ == "Service not found: "@ + s@,
            self is PermissionDenied ==> r@ == "Permission denied"@,
    {
        match self {
            Error::ServiceStartError(s) => {
                let mut m = String::from_str("Failed to start service ");
                m.append(s.as_str());
                m
            },
            Error::StartAllError(s) => {
                let mut m = String::from_str("Failed to start all services: ");
                m.append(s.as_str());
                m
            },
            Error::ServiceNotFound(s) => {
                let mut m = String::from_str("Service not found: ");
                m.append(s.as_str());
                m
            },
            Error::PermissionDenied => String::from_str("Permission denied"),
        }
    }
}

} // verus!
