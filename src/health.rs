//! Container state as the runtime reports it, and the health derived from it.

use vstd::prelude::*;

verus! {

/// The health sub-status of a container with a health check.
#[derive(PartialEq, Eq, Structural, Clone, Copy, Debug)]
pub enum HealthStatus {
    Empty,
    NoCheck,
    Starting,
    Healthy,
    Unhealthy,
}

/// The lifecycle status of a container.
#[derive(PartialEq, Eq, Structural, Clone, Copy, Debug)]
pub enum LifecycleStatus {
    Empty,
    Created,
    Running,
    Paused,
    Restarting,
    Removing,
    Exited,
    Dead,
}

/// What an inspection of a container reports of its state.
#[derive(PartialEq, Eq, Structural, Clone, Copy, Debug)]
pub struct ContainerState {
    pub status: Option<LifecycleStatus>,
    pub running: Option<bool>,
    /// Whether the container has a health check; its status follows.
    pub has_health: bool,
    pub health: Option<HealthStatus>,
}

/// The health of a service.
#[derive(PartialEq, Eq, Structural, Clone, Copy, Debug)]
pub enum HealthState {
    Unknown,
    Starting,
    Healthy,
    Unhealthy,
    Stopped,
}

/// The health of a container from its inspected state (`None`: the runtime
/// reported no state). With a health check, its status decides; without one,
/// a running container counts as healthy and a halted one as stopped.
pub open spec fn health_of(observed: Option<ContainerState>) -> HealthState {
    match observed {
        None => HealthState::Unknown,
        Some(st) => if st.has_health {
            match st.health {
                Some(HealthStatus::Healthy) => HealthState::Healthy,
                Some(HealthStatus::Starting) => HealthState::Starting,
                Some(HealthStatus::Unhealthy) => HealthState::Unhealthy,
                _ => HealthState::Unknown,
            }
        } else {
            match st.running {
                Some(true) => HealthState::Healthy,
                Some(false) => HealthState::Stopped,
                None => HealthState::Unknown,
            }
        },
    }
}

/// The health of a container from its inspected state.
pub fn health_state(observed: Option<ContainerState>) -> (r: HealthState)
    ensures
        r == health_of(observed),
{
    match observed {
        None => HealthState::Unknown,
        Some(st) => if st.has_health {
            match st.health {
                Some(HealthStatus::Healthy) => HealthState::Healthy,
                Some(HealthStatus::Starting) => HealthState::Starting,
                Some(HealthStatus::Unhealthy) => HealthState::Unhealthy,
                _ => HealthState::Unknown,
            }
        } else {
            match st.running {
                Some(true) => HealthState::Healthy,
                Some(false) => HealthState::Stopped,
                None => HealthState::Unknown,
            }
        },
    }
}

/// Whether an inspected container is healthy.
pub fn observed_healthy(observed: Option<ContainerState>) -> (r: bool)
    ensures
        r == (health_of(observed) == HealthState::Healthy),
{
    health_state(observed) == HealthState::Healthy
}

/// The lifecycle status of an inspected container, where the runtime gave one.
pub fn observed_status(observed: Option<ContainerState>) -> (r: Option<LifecycleStatus>)
    ensures
        r == match observed {
            Some(st) => st.status,
            None => None,
        },
{
    match observed {
        Some(st) => st.status,
        None => None,
    }
}

} // verus!
