use vstd::prelude::*;

verus! {

/// Options of `uninstall`; there are none.
#[derive(Debug, Default, Clone)]
pub struct Args;

/// What `uninstall` tells the user at the end, and whether it succeeded.
#[derive(Debug, Clone, PartialEq, Eq)]
pub struct Report {
    pub message: String,
    pub success: bool,
}

/// The closing report of an uninstall, from how it went: a success message,
/// or the failure followed by its cause.
pub fn run(outcome: &Result<(), String>) -> (r: Report)
    ensures
        outcome is Ok ==> r.success && r.message@ == "Uninstall CasaOS successfully."@,
        outcome matches Err(e) ==> !r.success && r.message@ == "Failed to uninstall CasaOS.\n"@
            + e@,
{
    match outcome {
        Ok(()) => Report { message: String::from_str("Uninstall CasaOS successfully."), success: true },
        Err(e) => {
            let mut m = String::from_str("Failed to uninstall CasaOS.\n");
            m.append(e.as_str());
            Report { message: m, success: false }
        },
    }
}

} // verus!
