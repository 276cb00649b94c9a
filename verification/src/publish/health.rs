//! The health of the service, from the health of its components.
use crate::time::Timestamp;
use vstd::prelude::*;

verus! {

/// Health of the service or of one component.
#[derive(Clone, Copy, Debug, PartialEq, Eq, Structural)]
pub enum HealthStatus {
    /// Fully operational.
    Healthy,
    /// Operational but with reduced capability.
    Degraded,
    /// Not operational.
    Unhealthy,
}

/// Health of one component.
#[derive(Debug)]
pub struct ComponentHealth {
    /// Component name.
    pub name: String,
    /// Status of this component.
    pub status: HealthStatus,
    /// What is wrong, if something is.
    pub error: Option<String>,
    /// Further details, as JSON text.
    pub details: Option<String>,
}

/// Health of the service.
#[derive(Debug)]
pub struct HealthCheck {
    /// Overall status.
    pub status: HealthStatus,
    /// Service name.
    pub service: String,
    /// Service version.
    pub version: String,
    /// Health of each component.
    pub checks: Vec<ComponentHealth>,
    /// When the components were looked at.
    pub timestamp: Timestamp,
}

/// How bad a status is.
pub open spec fn severity(status: HealthStatus) -> nat {
    match status {
        HealthStatus::Healthy => 0,
        HealthStatus::Degraded => 1,
        HealthStatus::Unhealthy => 2,
    }
}

/// Whether `overall` is the worst status among `checks`; healthy where there are
/// none.
pub open spec fn is_worst(overall: HealthStatus, checks: Seq<ComponentHealth>) -> bool {
    &&& forall|i: int|
        0 <= i < checks.len() ==> severity((#[trigger] checks[i]).status) <= severity(overall)
    &&& overall == HealthStatus::Healthy || exists|i: int|
        0 <= i < checks.len() && (#[trigger] checks[i]).status == overall
}

/// The worst status among `checks`; healthy where there are none.
pub fn aggregate(checks: &Vec<ComponentHealth>) -> (r: HealthStatus)
    ensures
        is_worst(r, checks@),
{
    let mut overall = HealthStatus::Healthy;
    let mut i: usize = 0;
    while i < checks.len()
        invariant
            i <= checks.len(),
            is_worst(overall, checks@.take(i as int)),
        decreases checks.len() - i,
    {
        let ghost before = checks@.take(i as int);
        let ghost after = checks@.take(i + 1);
        assert(after[i as int] == checks@[i as int]);
        assert(forall|j: int| 0 <= j < i ==> before[j] == #[trigger] after[j]);
        let ghost old_overall = overall;
        match checks[i].status {
            HealthStatus::Unhealthy => {
                overall = HealthStatus::Unhealthy;
            },
            HealthStatus::Degraded => {
                if overall == HealthStatus::Healthy {
                    overall = HealthStatus::Degraded;
                }
            },
            HealthStatus::Healthy => {},
        }
        proof {
            if overall == old_overall && overall != HealthStatus::Healthy {
                let k = choose|k: int|
                    0 <= k < before.len() && (#[trigger] before[k]).status == overall;
                assert(after[k].status == overall);
            }
        }
        i = i + 1;
    }
    assert(checks@.take(checks.len() as int) =~= checks@);
    overall
}

/// The health of a service with the given components.
pub fn check_health(
    service: String,
    version: String,
    checks: Vec<ComponentHealth>,
    timestamp: Timestamp,
) -> (r: HealthCheck)
    ensures
        is_worst(r.status, checks@),
        r == (HealthCheck { status: r.status, service, version, checks, timestamp }),
{
    HealthCheck { status: aggregate(&checks), service, version, checks, timestamp }
}

impl HealthCheck {
    /// Whether the service is ready for requests: only when it is healthy.
    pub fn is_ready(&self) -> (r: bool)
        ensures
            r == (self.status == HealthStatus::Healthy),
    {
        self.status == HealthStatus::Healthy
    }

    /// The HTTP status of the answer that holds this report.
    pub fn http_status(&self) -> (r: u16)
        ensures
            r == (if self.status == HealthStatus::Unhealthy {
                503u16
            } else {
                200u16
            }),
    {
        match self.status {
            HealthStatus::Healthy => 200,
            HealthStatus::Degraded => 200,
            HealthStatus::Unhealthy => 503,
        }
    }
}

/// The worst status is unique: two that are both worst are the same.
pub proof fn lemma_worst_is_unique(a: HealthStatus, b: HealthStatus, checks: Seq<ComponentHealth>)
    requires
        is_worst(a, checks),
        is_worst(b, checks),
    ensures
        a == b,
{
    if a != HealthStatus::Healthy {
        let i = choose|i: int| 0 <= i < checks.len() && (#[trigger] checks[i]).status == a;
        assert(severity(checks[i].status) <= severity(b));
    }
    if b != HealthStatus::Healthy {
        let i = choose|i: int| 0 <= i < checks.len() && (#[trigger] checks[i]).status == b;
        assert(severity(checks[i].status) <= severity(a));
    }
}

/// The service is unhealthy exactly where a component is, degraded where one is and
/// none is unhealthy, and healthy where all are.
pub proof fn lemma_service_is_as_its_worst_component(
    overall: HealthStatus,
    checks: Seq<ComponentHealth>,
)
    requires
        is_worst(overall, checks),
    ensures
        overall == HealthStatus::Unhealthy <==> exists|i: int|
            0 <= i < checks.len() && (#[trigger] checks[i]).status == HealthStatus::Unhealthy,
        overall == HealthStatus::Healthy <==> forall|i: int|
            0 <= i < checks.len() ==> (#[trigger] checks[i]).status == HealthStatus::Healthy,
{
    if overall != HealthStatus::Healthy {
        let i = choose|i: int| 0 <= i < checks.len() && (#[trigger] checks[i]).status == overall;
        assert(checks[i].status == overall);
    }
    assert forall|i: int| 0 <= i < checks.len() implies severity((#[trigger] checks[i]).status)
        <= severity(overall) by {}
}

} // verus!
