use vstd::prelude::*;

verus! {

/// The phases of an install, in the order they run.
#[derive(PartialEq, Eq, Structural, Clone, Copy, Debug)]
pub enum Phase {
    /// Fetch every artifact; the batch ends only when all transfers have.
    Download,
    /// Unpack each archive into the staging root.
    Extract,
    /// Run the migration scripts.
    Migrate,
    /// Copy the staged system tree onto the live root.
    Copy,
    /// Persist the manifest of what was copied.
    WriteManifest,
    /// Run the setup scripts.
    Setup,
    /// Bring the services up in order.
    Services,
    /// Every phase has run.
    Done,
    /// A required phase did not complete.
    Failed,
}

/// How a finished install went.
#[derive(PartialEq, Eq, Structural, Clone, Copy, Debug)]
pub enum Summary {
    /// Every phase and every item succeeded.
    Success,
    /// Every required phase completed, but some script or service failed.
    CompletedWithWarnings,
    /// A required phase did not complete.
    Failed,
}

/// The position of a running phase in the install order.
pub open spec fn rank(p: Phase) -> int {
    match p {
        Phase::Download => 0,
        Phase::Extract => 1,
        Phase::Migrate => 2,
        Phase::Copy => 3,
        Phase::WriteManifest => 4,
        Phase::Setup => 5,
        Phase::Services => 6,
        Phase::Done => 7,
        Phase::Failed => 8,
    }
}

/// Whether a failed item in phase `p` makes the whole install fail; in the
/// other phases a failed item is a warning.
pub open spec fn is_required(p: Phase) -> bool {
    p == Phase::Download || p == Phase::Extract || p == Phase::Copy || p == Phase::WriteManifest
}

/// The phase that follows a phase that completed.
pub open spec fn after(p: Phase) -> Phase {
    match p {
        Phase::Download => Phase::Extract,
        Phase::Extract => Phase::Migrate,
        Phase::Migrate => Phase::Copy,
        Phase::Copy => Phase::WriteManifest,
        Phase::WriteManifest => Phase::Setup,
        Phase::Setup => Phase::Services,
        _ => Phase::Done,
    }
}

/// An install run, advanced by the results of its phases.
pub struct InstallRun {
    /// The phase in hand, or how the run ended.
    pub phase: Phase,
    /// The items that failed in phases where a failure is only a warning.
    pub warnings: u64,
}

impl InstallRun {
    /// The summary for the run's state.
    pub open spec fn summary_of(&self) -> Summary {
        if self.phase == Phase::Failed {
            Summary::Failed
        } else if self.warnings > 0 {
            Summary::CompletedWithWarnings
        } else {
            Summary::Success
        }
    }

    /// A run that starts with the downloads.
    pub fn new() -> (r: InstallRun)
        ensures
            r.phase == Phase::Download,
            r.warnings == 0,
    {
        InstallRun { phase: Phase::Download, warnings: 0 }
    }

    /// Whether the run is over, done or failed.
    pub fn finished(&self) -> (r: bool)
        ensures
            r == (self.phase == Phase::Done || self.phase == Phase::Failed),
    {
        match self.phase {
            Phase::Done | Phase::Failed => true,
            _ => false,
        }
    }

    /// Takes the number of items that failed in the phase in hand. In a
    /// required phase any failure fails the run; otherwise failures count as
    /// warnings. Either way the next phase is the one after it, so phases run
    /// strictly in order and none is skipped.
    pub fn complete_phase(&mut self, failed_items: u64)
        requires
            old(self).phase != Phase::Done,
            old(self).phase != Phase::Failed,
        ensures
            is_required(old(self).phase) && failed_items > 0 ==> final(self).phase == Phase::Failed
                && final(self).warnings == old(self).warnings,
            !(is_required(old(self).phase) && failed_items > 0) ==> final(self).phase == after(
                old(self).phase,
            ) && final(self).warnings == if old(self).warnings + failed_items > u64::MAX {
                u64::MAX as int
            } else {
                old(self).warnings + failed_items
            },
            final(self).phase != Phase::Failed ==> rank(final(self).phase) == rank(old(self).phase)
                + 1,
    {
        let required = match self.phase {
            Phase::Download | Phase::Extract | Phase::Copy | Phase::WriteManifest => true,
            _ => false,
        };
        if required && failed_items > 0 {
            self.phase = Phase::Failed;
            return;
        }
        self.warnings = self.warnings.saturating_add(failed_items);
        self.phase = match self.phase {
            Phase::Download => Phase::Extract,
            Phase::Extract => Phase::Migrate,
            Phase::Migrate => Phase::Copy,
            Phase::Copy => Phase::WriteManifest,
            Phase::WriteManifest => Phase::Setup,
            Phase::Setup => Phase::Services,
            _ => Phase::Done,
        };
    }

    /// Ends the run early: a required phase could not be carried out at all.
    pub fn abort(&mut self)
        ensures
            final(self).phase == Phase::Failed,
            final(self).warnings == old(self).warnings,
    {
        self.phase = Phase::Failed;
    }

    /// The summary: failed, completed with warnings, or a success.
    pub fn summary(&self) -> (r: Summary)
        ensures
            r == self.summary_of(),
    {
        if self.phase == Phase::Failed {
            Summary::Failed
        } else if self.warnings > 0 {
            Summary::CompletedWithWarnings
        } else {
            Summary::Success
        }
    }
}

} // verus!
