use vstd::prelude::*;

verus! {

/// The bundle's services in bring-up order. The last one is the capstone: the
/// user-facing service, which must come up after all the others.
pub open spec fn bundle_services() -> Seq<Seq<char>> {
    seq![
        "casaos-gateway.service"@,
        "casaos-message-bus.service"@,
        "casaos-user-service.service"@,
        "casaos-local-storage.service"@,
        "casaos-app-management.service"@,
        "rclone.service"@,
        "casaos.service"@,
    ]
}

/// The bundle's services in bring-up order, capstone last.
pub fn casa_services() -> (r: Vec<String>)
    ensures
        r.deep_view() == bundle_services(),
{
    let r = vec![
        String::from_str("casaos-gateway.service"),
        String::from_str("casaos-message-bus.service"),
        String::from_str("casaos-user-service.service"),
        String::from_str("casaos-local-storage.service"),
        String::from_str("casaos-app-management.service"),
        String::from_str("rclone.service"),
        String::from_str("casaos.service"),
    ];
    assert(r.deep_view() =~= bundle_services());
    r
}

/// What became of one service during bring-up.
#[derive(PartialEq, Eq, Structural, Clone, Copy, Debug)]
pub enum ServiceOutcome {
    /// Enabled and started.
    Started,
    /// The service manager does not know the unit.
    Unknown,
    /// Enabling or starting it failed.
    StartFailed,
}

/// What the coordinator asks to be done next.
#[derive(PartialEq, Eq, Structural, Clone, Copy, Debug)]
pub enum ServiceStep {
    /// Ask the service manager whether the service at this index exists.
    CheckExists(usize),
    /// Enable and start the service at this index.
    EnableAndStart(usize),
    /// Every service has been handled.
    Done,
}

/// Brings the services of an ordered list up one at a time, front to back.
/// Each service is first looked up, then enabled and started; a failure is
/// recorded for that service and the next one is handled.
pub struct BringUp {
    /// The services, in order.
    pub services: Vec<String>,
    /// The outcome of each service handled so far; its length is the index of
    /// the service in hand.
    pub outcomes: Vec<ServiceOutcome>,
    /// Whether the service in hand is known to exist.
    pub checked: bool,
}

impl BringUp {
    /// The coordinator's invariant.
    pub open spec fn wf(&self) -> bool {
        &&& self.services@.len() <= usize::MAX
        &&& self.outcomes@.len() <= self.services@.len()
        &&& self.checked ==> self.outcomes@.len() < self.services@.len()
    }

    /// The step that the state asks for.
    pub open spec fn step_of(&self) -> ServiceStep {
        if self.outcomes@.len() >= self.services@.len() {
            ServiceStep::Done
        } else if self.checked {
            ServiceStep::EnableAndStart(self.outcomes@.len() as usize)
        } else {
            ServiceStep::CheckExists(self.outcomes@.len() as usize)
        }
    }

    /// Starts bringing up `services`, in the order given.
    pub fn new(services: Vec<String>) -> (b: BringUp)
        ensures
            b.wf(),
            b.services == services,
            b.outcomes@ == Seq::<ServiceOutcome>::empty(),
            !b.checked,
    {
        assert(services@.len() == services.len());
        BringUp { services, outcomes: Vec::new(), checked: false }
    }

    /// What is to be done next.
    pub fn step(&self) -> (r: ServiceStep)
        requires
            self.wf(),
        ensures
            r == self.step_of(),
    {
        let i = self.outcomes.len();
        if i >= self.services.len() {
            ServiceStep::Done
        } else if self.checked {
            ServiceStep::EnableAndStart(i)
        } else {
            ServiceStep::CheckExists(i)
        }
    }

    /// Takes the answer to `CheckExists`: a known service goes on to be
    /// started, an unknown one is recorded as such and the next is taken.
    pub fn on_exists(&mut self, exists: bool)
        requires
            old(self).wf(),
            old(self).step_of() is CheckExists,
        ensures
            final(self).wf(),
            final(self).services == old(self).services,
            exists ==> final(self).checked && final(self).outcomes@ == old(self).outcomes@,
            !exists ==> !final(self).checked && final(self).outcomes@ == old(self).outcomes@.push(
                ServiceOutcome::Unknown,
            ),
    {
        if exists {
            self.checked = true;
        } else {
            self.outcomes.push(ServiceOutcome::Unknown);
        }
    }

    /// Takes the result of `EnableAndStart` and moves on to the next service.
    pub fn on_started(&mut self, ok: bool)
        requires
            old(self).wf(),
            old(self).step_of() is EnableAndStart,
        ensures
            final(self).wf(),
            final(self).services == old(self).services,
            !final(self).checked,
            final(self).outcomes@ == old(self).outcomes@.push(
                if ok {
                    ServiceOutcome::Started
                } else {
                    ServiceOutcome::StartFailed
                },
            ),
    {
        if ok {
            self.outcomes.push(ServiceOutcome::Started);
        } else {
            self.outcomes.push(ServiceOutcome::StartFailed);
        }
        self.checked = false;
    }

    /// Whether some service did not come up: the operation then completed
    /// with warnings.
    pub fn degraded(&self) -> (r: bool)
        ensures
            r == exists|i: int|
                0 <= i < self.outcomes@.len() && self.outcomes@[i] != ServiceOutcome::Started,
    {
        let mut i: usize = 0;
        while i < self.outcomes.len()
            invariant
                i <= self.outcomes@.len(),
                forall|j: int| 0 <= j < i ==> self.outcomes@[j] == ServiceOutcome::Started,
            decreases self.outcomes@.len() - i,
        {
            if self.outcomes[i] != ServiceOutcome::Started {
                return true;
            }
            i = i + 1;
        }
        false
    }
}

/// Bring-up goes front to back: the step in hand always concerns the first
/// service without an outcome, and so the capstone is started only once every
/// service before it has one.
pub proof fn lemma_capstone_last(b: BringUp)
    requires
        b.wf(),
        b.services@.len() > 0,
    ensures
        b.step_of() matches ServiceStep::CheckExists(i) ==> i as int == b.outcomes@.len(),
        b.step_of() matches ServiceStep::EnableAndStart(i) ==> i as int == b.outcomes@.len(),
        b.step_of() == ServiceStep::EnableAndStart((b.services@.len() - 1) as usize)
            ==> b.outcomes@.len() == b.services@.len() - 1,
{
}

/// One service-manager operation of the teardown.
#[derive(PartialEq, Eq, Structural, Clone, Copy, Debug)]
pub enum TeardownOp {
    /// Stop the service at this index.
    Stop(usize),
    /// Disable the service at this index.
    Disable(usize),
}

/// The teardown of `n` services: each, in list order, is stopped and then
/// disabled.
pub open spec fn teardown_of(n: nat) -> Seq<TeardownOp> {
    Seq::new(
        2 * n,
        |k: int|
            if k % 2 == 0 {
                TeardownOp::Stop((k / 2) as usize)
            } else {
                TeardownOp::Disable((k / 2) as usize)
            },
    )
}

/// The operations that take `n` services down, in order. Each is attempted
/// whatever became of the ones before it.
pub fn teardown_plan(n: usize) -> (r: Vec<TeardownOp>)
    requires
        2 * n <= usize::MAX,
    ensures
        r@ == teardown_of(n as nat),
{
    let mut out: Vec<TeardownOp> = Vec::new();
    let mut i: usize = 0;
    while i < n
        invariant
            i <= n,
            2 * n <= usize::MAX,
            out@ == teardown_of(i as nat),
        decreases n - i,
    {
        out.push(TeardownOp::Stop(i));
        out.push(TeardownOp::Disable(i));
        assert(out@ =~= teardown_of((i + 1) as nat));
        i = i + 1;
    }
    out
}

/// The state of an installed service, as the status check reports it.
#[derive(PartialEq, Eq, Structural, Clone, Copy, Debug)]
pub enum Health {
    /// Known and active.
    Running,
    /// Known but not active.
    NotRunning,
    /// Unknown to the service manager.
    Missing,
}

/// Classifies a service from whether it exists and whether it is active.
pub fn health(exists: bool, active: bool) -> (r: Health)
    ensures
        !exists ==> r == Health::Missing,
        exists && active ==> r == Health::Running,
        exists && !active ==> r == Health::NotRunning,
{
    if !exists {
        Health::Missing
    } else if active {
        Health::Running
    } else {
        Health::NotRunning
    }
}

} // verus!
