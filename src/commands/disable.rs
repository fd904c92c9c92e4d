use vstd::prelude::*;

verus! {

/// Options of `disable`: every service, or one by name.
#[derive(Debug, Default, Clone)]
pub struct Disable {
    pub all: bool,
    pub service: Option<String>,
}

/// Why `disable` failed.
#[derive(Debug, Clone, PartialEq, Eq)]
pub enum Error {
    ServiceDisableError(String),
    DisableAllError(String),
    ServiceNotFound(String),
    PermissionDenied,
}

impl Error {
    /// The message shown for this error.
    pub fn message(&self) -> (r: String)
        ensures
            self matches Error::ServiceDisableError(s) ==> r@ == "Failed to disable service "@ + s@,
            self matches Error::DisableAllError(s) ==> r@ == "Failed to disable all services: "@ + s@,
            self matches Error::ServiceNotFound(s) ==> r@ == "Service not found: "@ + s@,
            self is PermissionDenied ==> r@ == "Permission denied"@,
    {
        match self {
            Error::ServiceDisableError(s) => {
                let mut m = String::from_str("Failed to disable service ");
                m.append(s.as_str());
                m
            },
            Error::DisableAllError(s) => {
                let mut m = String::from_str("Failed to disable all services: ");
                m.append(s.as_str());
                m
            },
            Error::ServiceNotFound(s) => {
                let mut m = String::from_str("Service not found: ");
                m.append(s.as_str());
                m
            },
            Error::PermissionDenied => String::from_str("Permission denied"),
        }
    }
}

} // verus!
