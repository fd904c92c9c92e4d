use vstd::prelude::*;

verus! {

/// Options of `enable`: every service, or one by name.
#[derive(Debug, Default, Clone)]
pub struct Enable {
    pub all: bool,
    pub service: Option<String>,
}

/// Why `enable` failed.
#[derive(Debug, Clone, PartialEq, Eq)]
pub enum Error {
    EnableService(String),
    EnableAll(String),
    ServiceNotFound(String),
    PermissionDenied,
}

impl Error {
    /// The message shown for this error.
    pub fn message(&self) -> (r: String)
        ensures
            self matches Error::EnableService(s) ==> r@ == "Failed to enable service "@ + s@,
            self matches Error::EnableAll(s) ==> r@ == "Failed to enable all services: "@ + s@,
            self matches Error::ServiceNotFound(s) ==> r@ == "Service not found: "@ + s@,
            self is PermissionDenied ==> r@ == "Permission denied"@,
    {
        match self {
            Error::EnableService(s) => {
                let mut m = String::from_str("Failed to enable service ");
                m.append(s.as_str());
                m
            },
            Error::EnableAll(s) => {
                let mut m = String::from_str("Failed to enable all services: ");
                m.append(s.as_str());
                m
            },
            Error::ServiceNotFound(s) => {
                let mut m = String::from_str("Service not found: ");
                m.append(s.as_str());
                m
            },
            Error::PermissionDenied => String::from_str("Permission denied"),
        }
    }
}

} // verus!
