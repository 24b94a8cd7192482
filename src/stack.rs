//! The stack orchestrator: a reconciler from its state and the runtime's
//! reply to its next state and the next request to the runtime.
//!
//! The caller performs each request (create a container, inspect it, sleep,
//! stop it, ...) and hands the reply back to `OrbitStack::advance`. Startup
//! runs the plan in order; a failed step ends it and leaves what runs
//! running. Stops, restarts and removals go on past failures and report the
//! first one at the end.

use vstd::prelude::*;

use crate::config::{ConfigView, EnvContents, EnvContentsView, OrbitStackConfig};
use crate::health::HealthState;
use crate::service::{
    ServiceSpec, ServiceSpecView, backend_spec, backend_view, das_server_spec, das_view, db_init_spec,
    db_init_view, db_spec, db_view, frontend_spec, frontend_view, nitro_node_spec, nitro_view, proxy_spec,
    proxy_view, redis_spec, redis_view, sig_provider_spec, sig_provider_view, smart_contract_verifier_spec,
    stats_db_init_spec, stats_db_spec, stats_db_view, stats_spec, stats_view, verifier_view,
    visualizer_spec, visualizer_view,
};
use crate::text::{text, views};

verus! {

broadcast use vstd::seq_lib::group_seq_properties;

/// The shared bridge network, ensured before anything is launched.
pub open spec fn network_name() -> Seq<char> {
    "orbit_network"@
}

/// How long a database gate waits for health.
pub open spec fn gate_timeout_ms() -> u64 {
    60_000
}

/// The pause between two health inspections.
pub open spec fn poll_interval_ms() -> u64 {
    1000
}

/// The grace period of a stop: the chain node gets longer, so that it does
/// not end in the middle of a block.
pub open spec fn grace_secs(service: Seq<char>) -> u64 {
    if service == "nitro-node"@ { 300 } else { 10 }
}

/// One step of the startup plan.
pub enum Step {
    /// Create and start a container.
    Launch(ServiceSpec),
    /// Wait until a launched service is healthy.
    Gate { service: String, timeout_ms: u64 },
}

/// Where a query about a service is answered.
#[derive(Debug)]
pub enum Query {
    /// The service was never started, or has been removed.
    NotPresent,
    /// Inspect this container.
    Inspect { handle: String },
}

/// How to stream a service's log.
#[derive(Debug)]
pub struct LogRequest {
    pub handle: String,
    pub follow: bool,
    pub stdout: bool,
    pub stderr: bool,
    pub timestamps: bool,
    /// How many lines of the past to show.
    pub tail: String,
}

/// A registered service and the handle of its container.
pub struct Entry {
    pub service: String,
    pub handle: String,
}

/// Why an operation failed.
#[derive(Debug)]
pub enum StackError {
    /// The runtime refused to create the service's container.
    Create { service: String, message: String },
    /// The container was created but did not start; it stays registered.
    Start { service: String, message: String },
    /// A call to the runtime about the service (or the network) failed.
    Runtime { service: String, message: String },
    /// The service was not healthy within the time its health wait allows.
    Timeout { service: String, elapsed_ms: u64 },
    /// The service's health check reported it unhealthy.
    Unhealthy { service: String },
    /// The service is not registered.
    NotFound { service: String },
    /// Another operation is still in progress.
    Busy,
}

/// A reply of the runtime to the last request.
#[derive(Debug)]
pub enum Event {
    /// The names of the existing networks.
    Networks { names: Vec<String> },
    /// The request succeeded.
    Done,
    /// The network to be created exists already.
    AlreadyExists,
    /// The container was created and started.
    Launched { handle: String },
    /// The container was created but did not start.
    StartFailed { handle: String, message: String },
    /// The inspected container's health.
    Health { state: HealthState },
    /// The pause is over; time since the first inspection of this health wait.
    Slept { elapsed_ms: u64 },
    /// The request failed.
    Failed { message: String },
}

/// The next request to the runtime, or the end of an operation.
#[derive(Debug)]
pub enum Action {
    ListNetworks,
    CreateNetwork { name: String, driver: String },
    CreateAndStart { spec: ServiceSpec },
    /// Inspect the container's health; `first` starts the clock of a health wait.
    Inspect { service: String, handle: String, first: bool },
    Sleep { millis: u64 },
    Stop { service: String, handle: String, grace_secs: u64 },
    Restart { service: String, handle: String },
    Remove { service: String, handle: String, force: bool },
    /// The operation is over, with its outcome.
    Finished { result: Result<(), StackError> },
    /// Nothing is in progress.
    Idle,
}

/// What the orchestrator is waiting for.
pub enum Op {
    Idle,
    Listing,
    CreatingNetwork,
    Launching { pos: usize },
    Inspecting { pos: usize, handle: String, first: bool },
    Sleeping { pos: usize, handle: String },
    Watching { service: String, handle: String, timeout_ms: u64, first: bool },
    Resting { service: String, handle: String, timeout_ms: u64 },
    Stopping { pos: usize, failure: Option<StackError> },
    Restarting { pos: usize, failure: Option<StackError> },
    CleanStopping { pos: usize, failure: Option<StackError> },
    Removing { service: String, handle: String, failure: Option<StackError>, all: bool },
}

/// The registry and what is awaited.
pub struct Machine {
    pub containers: Vec<Entry>,
    pub op: Op,
}

/// A running deployment: its plan, and the registry of its containers.
pub struct OrbitStack {
    plan: Vec<Step>,
    state: Machine,
}

// ---------------------------------------------------------------- model

pub enum ErrView {
    Create { service: Seq<char>, message: Seq<char> },
    Start { service: Seq<char>, message: Seq<char> },
    Runtime { service: Seq<char>, message: Seq<char> },
    Timeout { service: Seq<char>, elapsed_ms: u64 },
    Unhealthy { service: Seq<char> },
    NotFound { service: Seq<char> },
    Busy,
}

pub enum StepView {
    Launch(ServiceSpecView),
    Gate { service: Seq<char>, timeout_ms: u64 },
}

pub enum EventView {
    Networks { names: Seq<Seq<char>> },
    Done,
    AlreadyExists,
    Launched { handle: Seq<char> },
    StartFailed { handle: Seq<char>, message: Seq<char> },
    Health { state: HealthState },
    Slept { elapsed_ms: u64 },
    Failed { message: Seq<char> },
}

pub enum ActionView {
    ListNetworks,
    CreateNetwork { name: Seq<char>, driver: Seq<char> },
    CreateAndStart { spec: ServiceSpecView },
    Inspect { service: Seq<char>, handle: Seq<char>, first: bool },
    Sleep { millis: u64 },
    Stop { service: Seq<char>, handle: Seq<char>, grace_secs: u64 },
    Restart { service: Seq<char>, handle: Seq<char> },
    Remove { service: Seq<char>, handle: Seq<char>, force: bool },
    Finished { result: Result<(), ErrView> },
    Idle,
}

pub enum OpView {
    Idle,
    Listing,
    CreatingNetwork,
    Launching { pos: int },
    Inspecting { pos: int, handle: Seq<char>, first: bool },
    Sleeping { pos: int, handle: Seq<char> },
    Watching { service: Seq<char>, handle: Seq<char>, timeout_ms: u64, first: bool },
    Resting { service: Seq<char>, handle: Seq<char>, timeout_ms: u64 },
    Stopping { pos: int, failure: Option<ErrView> },
    Restarting { pos: int, failure: Option<ErrView> },
    CleanStopping { pos: int, failure: Option<ErrView> },
    Removing { service: Seq<char>, handle: Seq<char>, failure: Option<ErrView>, all: bool },
}

/// A registered service and its handle.
pub type EntryView = (Seq<char>, Seq<char>);

pub struct StackView {
    pub plan: Seq<StepView>,
    pub registry: Seq<EntryView>,
    pub op: OpView,
}

impl View for StackError {
    type V = ErrView;

    open spec fn view(&self) -> ErrView {
        match self {
            StackError::Create { service, message } => ErrView::Create { service: service@, message: message@ },
            StackError::Start { service, message } => ErrView::Start { service: service@, message: message@ },
            StackError::Runtime { service, message } => ErrView::Runtime { service: service@, message: message@ },
            StackError::Timeout { service, elapsed_ms } => ErrView::Timeout { service: service@, elapsed_ms: *elapsed_ms },
            StackError::Unhealthy { service } => ErrView::Unhealthy { service: service@ },
            StackError::NotFound { service } => ErrView::NotFound { service: service@ },
            StackError::Busy => ErrView::Busy,
        }
    }
}

pub open spec fn failure_view(f: Option<StackError>) -> Option<ErrView> {
    match f {
        Some(e) => Some(e@),
        None => None,
    }
}

impl View for Step {
    type V = StepView;

    open spec fn view(&self) -> StepView {
        match self {
            Step::Launch(spec) => StepView::Launch(spec@),
            Step::Gate { service, timeout_ms } => StepView::Gate { service: service@, timeout_ms: *timeout_ms },
        }
    }
}

impl View for Event {
    type V = EventView;

    open spec fn view(&self) -> EventView {
        match self {
            Event::Networks { names } => EventView::Networks { names: views(names@) },
            Event::Done => EventView::Done,
            Event::AlreadyExists => EventView::AlreadyExists,
            Event::Launched { handle } => EventView::Launched { handle: handle@ },
            Event::StartFailed { handle, message } => EventView::StartFailed { handle: handle@, message: message@ },
            Event::Health { state } => EventView::Health { state: *state },
            Event::Slept { elapsed_ms } => EventView::Slept { elapsed_ms: *elapsed_ms },
            Event::Failed { message } => EventView::Failed { message: message@ },
        }
    }
}

impl View for Action {
    type V = ActionView;

    open spec fn view(&self) -> ActionView {
        match self {
            Action::ListNetworks => ActionView::ListNetworks,
            Action::CreateNetwork { name, driver } => ActionView::CreateNetwork { name: name@, driver: driver@ },
            Action::CreateAndStart { spec } => ActionView::CreateAndStart { spec: spec@ },
            Action::Inspect { service, handle, first } => ActionView::Inspect { service: service@, handle: handle@, first: *first },
            Action::Sleep { millis } => ActionView::Sleep { millis: *millis },
            Action::Stop { service, handle, grace_secs } => ActionView::Stop { service: service@, handle: handle@, grace_secs: *grace_secs },
            Action::Restart { service, handle } => ActionView::Restart { service: service@, handle: handle@ },
            Action::Remove { service, handle, force } => ActionView::Remove { service: service@, handle: handle@, force: *force },
            Action::Finished { result } => ActionView::Finished {
                result: match result {
                    Ok(()) => Ok(()),
                    Err(e) => Err(e@),
                },
            },
            Action::Idle => ActionView::Idle,
        }
    }
}

impl View for Op {
    type V = OpView;

    open spec fn view(&self) -> OpView {
        match self {
            Op::Idle => OpView::Idle,
            Op::Listing => OpView::Listing,
            Op::CreatingNetwork => OpView::CreatingNetwork,
            Op::Launching { pos } => OpView::Launching { pos: *pos as int },
            Op::Inspecting { pos, handle, first } => OpView::Inspecting { pos: *pos as int, handle: handle@, first: *first },
            Op::Sleeping { pos, handle } => OpView::Sleeping { pos: *pos as int, handle: handle@ },
            Op::Watching { service, handle, timeout_ms, first } => OpView::Watching {
                service: service@,
                handle: handle@,
                timeout_ms: *timeout_ms,
                first: *first,
            },
            Op::Resting { service, handle, timeout_ms } => OpView::Resting {
                service: service@,
                handle: handle@,
                timeout_ms: *timeout_ms,
            },
            Op::Stopping { pos, failure } => OpView::Stopping { pos: *pos as int, failure: failure_view(*failure) },
            Op::Restarting { pos, failure } => OpView::Restarting { pos: *pos as int, failure: failure_view(*failure) },
            Op::CleanStopping { pos, failure } => OpView::CleanStopping { pos: *pos as int, failure: failure_view(*failure) },
            Op::Removing { service, handle, failure, all } => OpView::Removing {
                service: service@,
                handle: handle@,
                failure: failure_view(*failure),
                all: *all,
            },
        }
    }
}

pub open spec fn plan_view(plan: Seq<Step>) -> Seq<StepView> {
    plan.map_values(|s: Step| s@)
}

pub open spec fn registry_view(reg: Seq<Entry>) -> Seq<EntryView> {
    reg.map_values(|e: Entry| (e.service@, e.handle@))
}

pub open spec fn stack_view(plan: Seq<Step>, m: Machine) -> StackView {
    StackView { plan: plan_view(plan), registry: registry_view(m.containers@), op: m.op@ }
}

impl View for OrbitStack {
    type V = StackView;

    closed spec fn view(&self) -> StackView {
        stack_view(self.plan@, self.state)
    }
}

// ------------------------------------------------------------- the plan

/// The startup plan: databases first, each gated on health; then the cache;
/// the chain node and, where enabled, the DAS server; the application
/// services; the reverse proxy last, since it routes to the others by name.
pub open spec fn startup_plan(c: ConfigView, e: EnvContentsView) -> Seq<StepView> {
    seq![
        StepView::Launch(db_init_view("db-init"@, c.data_dir + "/blockscout-db-data:/var/lib/postgresql/data"@)),
        StepView::Launch(db_view(c.data_dir)),
        StepView::Gate { service: "db"@, timeout_ms: gate_timeout_ms() },
        StepView::Launch(db_init_view("stats-db-init"@, c.data_dir + "/stats-db-data:/var/lib/postgresql/data"@)),
        StepView::Launch(stats_db_view(c.data_dir)),
        StepView::Gate { service: "stats-db"@, timeout_ms: gate_timeout_ms() },
        StepView::Launch(redis_view(c.data_dir)),
        StepView::Launch(nitro_view(c)),
    ] + (if c.enable_das { seq![StepView::Launch(das_view(c.data_dir))] } else { Seq::empty() }) + seq![
        StepView::Launch(backend_view(c, e)),
        StepView::Launch(frontend_view(c, e)),
        StepView::Launch(stats_view(c, e)),
        StepView::Launch(visualizer_view(c, e)),
        StepView::Launch(sig_provider_view(c)),
        StepView::Launch(verifier_view(c, e)),
        StepView::Launch(proxy_view(c.data_dir)),
    ]
}

// ---------------------------------------------------------- the registry

/// The handle registered for `service`, if any.
pub open spec fn lookup(reg: Seq<EntryView>, service: Seq<char>) -> Option<Seq<char>>
    decreases reg.len(),
{
    if reg.len() == 0 {
        None
    } else if reg[0].0 == service {
        Some(reg[0].1)
    } else {
        lookup(reg.drop_first(), service)
    }
}

/// The registry without the entry of `service`, in the order it had.
pub open spec fn without(reg: Seq<EntryView>, service: Seq<char>) -> Seq<EntryView>
    decreases reg.len(),
{
    if reg.len() == 0 {
        reg
    } else {
        let rest = without(reg.drop_last(), service);
        if reg.last().0 == service {
            rest
        } else {
            rest.push(reg.last())
        }
    }
}

/// Some entry of the registry is for `service`.
pub open spec fn has_key(reg: Seq<EntryView>, service: Seq<char>) -> bool {
    exists|i: int| 0 <= i < reg.len() && reg[i].0 == service
}

/// The registry with `service` bound to `handle`, in place of any earlier binding.
pub open spec fn register(reg: Seq<EntryView>, service: Seq<char>, handle: Seq<char>) -> Seq<EntryView> {
    without(reg, service).push((service, handle))
}

/// Registry keys are unique.
pub open spec fn names_distinct(reg: Seq<EntryView>) -> bool {
    forall|i: int, j: int| 0 <= i < j < reg.len() ==> reg[i].0 != reg[j].0
}

// ---------------------------------------------------------- transitions

pub open spec fn outcome(failure: Option<ErrView>) -> Result<(), ErrView> {
    match failure {
        Some(e) => Err(e),
        None => Ok(()),
    }
}

/// The first of two failures.
pub open spec fn first_failure(failure: Option<ErrView>, e: ErrView) -> Option<ErrView> {
    match failure {
        Some(f) => Some(f),
        None => Some(e),
    }
}

pub open spec fn with_op(s: StackView, op: OpView) -> StackView {
    StackView { op, ..s }
}

pub open spec fn finish(s: StackView, result: Result<(), ErrView>) -> (StackView, ActionView) {
    (with_op(s, OpView::Idle), ActionView::Finished { result })
}

/// Goes on with the plan at `pos`.
pub open spec fn resume(s: StackView, pos: int) -> (StackView, ActionView) {
    if pos < 0 || pos >= s.plan.len() {
        finish(s, Ok(()))
    } else {
        match s.plan[pos] {
            StepView::Launch(spec) => (with_op(s, OpView::Launching { pos }), ActionView::CreateAndStart { spec }),
            StepView::Gate { service, timeout_ms } => match lookup(s.registry, service) {
                Some(h) => (
                    with_op(s, OpView::Inspecting { pos, handle: h, first: true }),
                    ActionView::Inspect { service, handle: h, first: true },
                ),
                None => finish(s, Err(ErrView::NotFound { service })),
            },
        }
    }
}

pub open spec fn stop_of(e: EntryView) -> ActionView {
    ActionView::Stop { service: e.0, handle: e.1, grace_secs: grace_secs(e.0) }
}

pub open spec fn restart_of(e: EntryView) -> ActionView {
    ActionView::Restart { service: e.0, handle: e.1 }
}

pub open spec fn remove_of(e: EntryView) -> ActionView {
    ActionView::Remove { service: e.0, handle: e.1, force: true }
}

/// Takes the first registered entry out and asks for its removal; ends when none is left.
pub open spec fn remove_next(s: StackView, failure: Option<ErrView>) -> (StackView, ActionView) {
    if s.registry.len() == 0 {
        finish(s, outcome(failure))
    } else {
        let e = s.registry[0];
        (
            StackView {
                registry: s.registry.drop_first(),
                op: OpView::Removing { service: e.0, handle: e.1, failure, all: true },
                ..s
            },
            remove_of(e),
        )
    }
}

/// A reply to a request about the entry at `pos` of a sweep over the registry.
pub open spec fn sweep_reply(failure: Option<ErrView>, service: Seq<char>, ev: EventView) -> Option<ErrView> {
    match ev {
        EventView::Failed { message } => first_failure(failure, ErrView::Runtime { service, message }),
        _ => failure,
    }
}

pub open spec fn is_reply(ev: EventView) -> bool {
    ev is Done || ev is Failed
}

/// The pending request of a state, asked again when a reply does not fit it.
pub open spec fn pending(s: StackView) -> ActionView {
    match s.op {
        OpView::Idle => ActionView::Idle,
        OpView::Listing => ActionView::ListNetworks,
        OpView::CreatingNetwork => ActionView::CreateNetwork { name: network_name(), driver: "bridge"@ },
        OpView::Launching { pos } => match s.plan[pos] {
            StepView::Launch(spec) => ActionView::CreateAndStart { spec },
            _ => ActionView::Idle,
        },
        OpView::Inspecting { pos, handle, first } => ActionView::Inspect {
            service: s.plan[pos]->Gate_service,
            handle,
            first,
        },
        OpView::Sleeping { .. } => ActionView::Sleep { millis: poll_interval_ms() },
        OpView::Watching { service, handle, first, .. } => ActionView::Inspect { service, handle, first },
        OpView::Resting { .. } => ActionView::Sleep { millis: poll_interval_ms() },
        OpView::Stopping { pos, .. } => stop_of(s.registry[pos]),
        OpView::Restarting { pos, .. } => restart_of(s.registry[pos]),
        OpView::CleanStopping { pos, .. } => stop_of(s.registry[pos]),
        OpView::Removing { service, handle, .. } => remove_of((service, handle)),
    }
}

/// The orchestrator's reaction to a reply of the runtime.
pub open spec fn next(s: StackView, ev: EventView) -> (StackView, ActionView) {
    match s.op {
        OpView::Idle => (s, ActionView::Idle),
        OpView::Listing => match ev {
            EventView::Networks { names } => if names.contains(network_name()) {
                resume(s, 0)
            } else {
                (
                    with_op(s, OpView::CreatingNetwork),
                    ActionView::CreateNetwork { name: network_name(), driver: "bridge"@ },
                )
            },
            EventView::Failed { message } => finish(s, Err(ErrView::Runtime { service: network_name(), message })),
            _ => (s, pending(s)),
        },
        OpView::CreatingNetwork => match ev {
            EventView::Done => resume(s, 0),
            EventView::AlreadyExists => resume(s, 0),
            EventView::Failed { message } => finish(s, Err(ErrView::Runtime { service: network_name(), message })),
            _ => (s, pending(s)),
        },
        OpView::Launching { pos } => {
            let name = s.plan[pos]->Launch_0.name;
            match ev {
                EventView::Launched { handle } => resume(
                    StackView { registry: register(s.registry, name, handle), ..s },
                    pos + 1,
                ),
                EventView::StartFailed { handle, message } => finish(
                    StackView { registry: register(s.registry, name, handle), ..s },
                    Err(ErrView::Start { service: name, message }),
                ),
                EventView::Failed { message } => finish(s, Err(ErrView::Create { service: name, message })),
                _ => (s, pending(s)),
            }
        },
        OpView::Inspecting { pos, handle, first } => {
            let name = s.plan[pos]->Gate_service;
            match ev {
                EventView::Health { state } => if state == HealthState::Healthy {
                    resume(s, pos + 1)
                } else if state == HealthState::Unhealthy {
                    finish(s, Err(ErrView::Unhealthy { service: name }))
                } else {
                    (with_op(s, OpView::Sleeping { pos, handle }), ActionView::Sleep { millis: poll_interval_ms() })
                },
                EventView::Failed { message } => finish(s, Err(ErrView::Runtime { service: name, message })),
                _ => (s, pending(s)),
            }
        },
        OpView::Sleeping { pos, handle } => {
            let name = s.plan[pos]->Gate_service;
            match ev {
                EventView::Slept { elapsed_ms } => if elapsed_ms < s.plan[pos]->Gate_timeout_ms {
                    (
                        with_op(s, OpView::Inspecting { pos, handle, first: false }),
                        ActionView::Inspect { service: name, handle, first: false },
                    )
                } else {
                    finish(s, Err(ErrView::Timeout { service: name, elapsed_ms }))
                },
                _ => (s, pending(s)),
            }
        },
        OpView::Watching { service, handle, timeout_ms, .. } => match ev {
            EventView::Health { state } => if state == HealthState::Healthy {
                finish(s, Ok(()))
            } else if state == HealthState::Unhealthy {
                finish(s, Err(ErrView::Unhealthy { service }))
            } else {
                (
                    with_op(s, OpView::Resting { service, handle, timeout_ms }),
                    ActionView::Sleep { millis: poll_interval_ms() },
                )
            },
            EventView::Failed { message } => finish(s, Err(ErrView::Runtime { service, message })),
            _ => (s, pending(s)),
        },
        OpView::Resting { service, handle, timeout_ms } => match ev {
            EventView::Slept { elapsed_ms } => if elapsed_ms < timeout_ms {
                (
                    with_op(s, OpView::Watching { service, handle, timeout_ms, first: false }),
                    ActionView::Inspect { service, handle, first: false },
                )
            } else {
                finish(s, Err(ErrView::Timeout { service, elapsed_ms }))
            },
            _ => (s, pending(s)),
        },
        OpView::Stopping { pos, failure } => if is_reply(ev) {
            let f = sweep_reply(failure, s.registry[pos].0, ev);
            if pos + 1 < s.registry.len() {
                (with_op(s, OpView::Stopping { pos: pos + 1, failure: f }), stop_of(s.registry[pos + 1]))
            } else {
                finish(s, outcome(f))
            }
        } else {
            (s, pending(s))
        },
        OpView::Restarting { pos, failure } => if is_reply(ev) {
            let f = sweep_reply(failure, s.registry[pos].0, ev);
            if pos + 1 < s.registry.len() {
                (with_op(s, OpView::Restarting { pos: pos + 1, failure: f }), restart_of(s.registry[pos + 1]))
            } else {
                finish(s, outcome(f))
            }
        } else {
            (s, pending(s))
        },
        OpView::CleanStopping { pos, failure } => if is_reply(ev) {
            let f = sweep_reply(failure, s.registry[pos].0, ev);
            if pos + 1 < s.registry.len() {
                (with_op(s, OpView::CleanStopping { pos: pos + 1, failure: f }), stop_of(s.registry[pos + 1]))
            } else {
                remove_next(s, f)
            }
        } else {
            (s, pending(s))
        },
        OpView::Removing { service, handle, failure, all } => if is_reply(ev) {
            let f = sweep_reply(failure, service, ev);
            if all {
                remove_next(s, f)
            } else {
                finish(s, outcome(f))
            }
        } else {
            (s, pending(s))
        },
    }
}

/// Starting an operation while another is in progress changes nothing.
pub open spec fn busy(s: StackView) -> (StackView, ActionView) {
    (s, ActionView::Finished { result: Err(ErrView::Busy) })
}

/// `start_with_dependencies`: ensure the network, then run the plan.
pub open spec fn begin_start(s: StackView) -> (StackView, ActionView) {
    if s.op is Idle { (with_op(s, OpView::Listing), ActionView::ListNetworks) } else { busy(s) }
}

/// `wait_for_healthy`: inspect the service until it is healthy, it is
/// unhealthy, or `timeout_ms` has passed.
pub open spec fn begin_wait(s: StackView, service: Seq<char>, timeout_ms: u64) -> (StackView, ActionView) {
    if !(s.op is Idle) {
        busy(s)
    } else {
        match lookup(s.registry, service) {
            None => finish(s, Err(ErrView::NotFound { service })),
            Some(h) => (
                with_op(s, OpView::Watching { service, handle: h, timeout_ms, first: true }),
                ActionView::Inspect { service, handle: h, first: true },
            ),
        }
    }
}

/// `stop_all`: stop every registered service in turn.
pub open spec fn begin_stop_all(s: StackView) -> (StackView, ActionView) {
    if !(s.op is Idle) {
        busy(s)
    } else if s.registry.len() == 0 {
        finish(s, Ok(()))
    } else {
        (with_op(s, OpView::Stopping { pos: 0, failure: None }), stop_of(s.registry[0]))
    }
}

/// `restart_all`: restart every registered service in turn.
pub open spec fn begin_restart_all(s: StackView) -> (StackView, ActionView) {
    if !(s.op is Idle) {
        busy(s)
    } else if s.registry.len() == 0 {
        finish(s, Ok(()))
    } else {
        (with_op(s, OpView::Restarting { pos: 0, failure: None }), restart_of(s.registry[0]))
    }
}

/// `cleanup`: stop every registered service, then remove every one.
pub open spec fn begin_cleanup(s: StackView) -> (StackView, ActionView) {
    if !(s.op is Idle) {
        busy(s)
    } else if s.registry.len() == 0 {
        finish(s, Ok(()))
    } else {
        (with_op(s, OpView::CleanStopping { pos: 0, failure: None }), stop_of(s.registry[0]))
    }
}

/// `remove_container`: take the service out of the registry and remove its container.
pub open spec fn begin_remove(s: StackView, service: Seq<char>) -> (StackView, ActionView) {
    if !(s.op is Idle) {
        busy(s)
    } else {
        match lookup(s.registry, service) {
            None => finish(s, Err(ErrView::NotFound { service })),
            Some(h) => (
                StackView {
                    registry: without(s.registry, service),
                    op: OpView::Removing { service, handle: h, failure: None, all: false },
                    ..s
                },
                remove_of((service, h)),
            ),
        }
    }
}

/// The state is one that the orchestrator can reach.
pub open spec fn wf(s: StackView) -> bool {
    &&& names_distinct(s.registry)
    &&& match s.op {
        OpView::Launching { pos } => 0 <= pos < s.plan.len() && s.plan[pos] is Launch,
        OpView::Inspecting { pos, .. } => 0 <= pos < s.plan.len() && s.plan[pos] is Gate,
        OpView::Sleeping { pos, .. } => 0 <= pos < s.plan.len() && s.plan[pos] is Gate,
        OpView::Stopping { pos, .. } => 0 <= pos < s.registry.len(),
        OpView::Restarting { pos, .. } => 0 <= pos < s.registry.len(),
        OpView::CleanStopping { pos, .. } => 0 <= pos < s.registry.len(),
        _ => true,
    }
}

// ------------------------------------------------------- registry lemmas

proof fn lemma_without(reg: Seq<EntryView>, service: Seq<char>)
    ensures
        forall|k: Seq<char>| #[trigger] has_key(without(reg, service), k) ==> has_key(reg, k) && k != service,
        names_distinct(reg) ==> names_distinct(without(reg, service)),
    decreases reg.len(),
{
    if reg.len() > 0 {
        let init = reg.drop_last();
        lemma_without(init, service);
        let rest = without(init, service);
        let w = without(reg, service);
        assert forall|k: Seq<char>| #[trigger] has_key(w, k) implies has_key(reg, k) && k != service by {
            let i = choose|i: int| 0 <= i < w.len() && w[i].0 == k;
            if reg.last().0 != service && i == rest.len() {
                assert(reg[reg.len() - 1].0 == k);
            } else {
                assert(rest[i].0 == k);
                assert(has_key(rest, k));
                let j = choose|j: int| 0 <= j < init.len() && init[j].0 == k;
                assert(reg[j].0 == k);
            }
        }
        if names_distinct(reg) {
            assert(names_distinct(init));
            if reg.last().0 != service {
                assert forall|i: int, j: int| 0 <= i < j < w.len() implies w[i].0 != w[j].0 by {
                    if j == rest.len() && w[i].0 == w[j].0 {
                        assert(has_key(rest, rest[i].0));
                        let m = choose|m: int| 0 <= m < init.len() && init[m].0 == rest[i].0;
                        assert(reg[m].0 == reg[reg.len() - 1].0);
                    }
                }
            }
        }
    }
}

proof fn lemma_register(reg: Seq<EntryView>, service: Seq<char>, handle: Seq<char>)
    requires
        names_distinct(reg),
    ensures
        names_distinct(register(reg, service, handle)),
{
    lemma_without(reg, service);
    let w = without(reg, service);
    let r = register(reg, service, handle);
    assert forall|i: int, j: int| 0 <= i < j < r.len() implies r[i].0 != r[j].0 by {
        if j == w.len() && r[i].0 == r[j].0 {
            assert(has_key(w, w[i].0));
        }
    }
}

pub proof fn lemma_next_wf(s: StackView, ev: EventView)
    requires
        wf(s),
    ensures
        wf(next(s, ev).0),
{
    match s.op {
        OpView::Launching { pos } => {
            let name = s.plan[pos]->Launch_0.name;
            match ev {
                EventView::Launched { handle } => lemma_register(s.registry, name, handle),
                EventView::StartFailed { handle, .. } => lemma_register(s.registry, name, handle),
                _ => {},
            }
        },
        _ => {},
    }
}

// ------------------------------------------------------------ exec steps

fn copy_error(e: &StackError) -> (r: StackError)
    ensures
        r@ == e@,
{
    match e {
        StackError::Create { service, message } => StackError::Create { service: service.clone(), message: message.clone() },
        StackError::Start { service, message } => StackError::Start { service: service.clone(), message: message.clone() },
        StackError::Runtime { service, message } => StackError::Runtime { service: service.clone(), message: message.clone() },
        StackError::Timeout { service, elapsed_ms } => StackError::Timeout { service: service.clone(), elapsed_ms: *elapsed_ms },
        StackError::Unhealthy { service } => StackError::Unhealthy { service: service.clone() },
        StackError::NotFound { service } => StackError::NotFound { service: service.clone() },
        StackError::Busy => StackError::Busy,
    }
}

/// The index of the entry of `service`, if it is registered.
fn find(reg: &Vec<Entry>, service: &String) -> (r: Option<usize>)
    ensures
        match r {
            Some(i) => i < reg@.len() && reg@[i as int].service@ == service@
                && lookup(registry_view(reg@), service@) == Some(reg@[i as int].handle@),
            None => lookup(registry_view(reg@), service@) is None,
        },
{
    let ghost rv = registry_view(reg@);
    let mut i: usize = 0;
    while i < reg.len()
        invariant
            i <= reg@.len(),
            rv == registry_view(reg@),
            lookup(rv, service@) == lookup(rv.subrange(i as int, rv.len() as int), service@),
        decreases reg.len() - i,
    {
        let ghost tail = rv.subrange(i as int, rv.len() as int);
        assert(tail[0] == rv[i as int]);
        if reg[i].service == *service {
            return Some(i);
        }
        assert(tail.drop_first() =~= rv.subrange(i + 1, rv.len() as int));
        i = i + 1;
    }
    None
}

/// The registry without the entry of `service`.
fn without_entry(reg: &Vec<Entry>, service: &String) -> (r: Vec<Entry>)
    ensures
        registry_view(r@) == without(registry_view(reg@), service@),
{
    let ghost rv = registry_view(reg@);
    let mut kept: Vec<Entry> = Vec::new();
    let mut i: usize = 0;
    while i < reg.len()
        invariant
            i <= reg@.len(),
            rv == registry_view(reg@),
            registry_view(kept@) == without(rv.take(i as int), service@),
        decreases reg.len() - i,
    {
        assert(rv.take(i + 1).drop_last() =~= rv.take(i as int));
        if !(reg[i].service == *service) {
            kept.push(Entry { service: reg[i].service.clone(), handle: reg[i].handle.clone() });
            assert(registry_view(kept@) =~= without(rv.take(i as int), service@).push(rv[i as int]));
        }
        i = i + 1;
    }
    assert(rv.take(i as int) =~= rv);
    kept
}

/// `service` bound to `handle` in the registry.
fn register_entry(reg: &Vec<Entry>, service: String, handle: String) -> (r: Vec<Entry>)
    ensures
        registry_view(r@) == register(registry_view(reg@), service@, handle@),
{
    let mut r = without_entry(reg, &service);
    let ghost before = registry_view(r@);
    r.push(Entry { service, handle });
    assert(registry_view(r@) =~= before.push((service@, handle@)));
    r
}

pub open spec fn resting(plan: Seq<Step>, reg: Seq<Entry>) -> StackView {
    StackView { plan: plan_view(plan), registry: registry_view(reg), op: OpView::Idle }
}

fn done(containers: Vec<Entry>, result: Result<(), StackError>) -> (r: (Machine, Action))
    ensures
        r.0.containers@ == containers@,
        r.0.op@ == OpView::Idle,
        r.1@ == (ActionView::Finished { result: match result { Ok(()) => Ok(()), Err(e) => Err(e@) } }),
{
    (Machine { containers, op: Op::Idle }, Action::Finished { result })
}

fn result_of(failure: Option<StackError>) -> (r: Result<(), StackError>)
    ensures
        (match r { Ok(()) => Ok(()), Err(e) => Err(e@) }) == outcome(failure_view(failure)),
{
    match failure {
        Some(e) => Err(e),
        None => Ok(()),
    }
}

/// Goes on with the plan at `pos`.
fn resume_at(plan: &Vec<Step>, containers: Vec<Entry>, pos: usize) -> (r: (Machine, Action))
    ensures
        (stack_view(plan@, r.0), r.1@) == resume(resting(plan@, containers@), pos as int),
{
    if pos >= plan.len() {
        return done(containers, Ok(()));
    }
    match &plan[pos] {
        Step::Launch(spec) => (Machine { containers, op: Op::Launching { pos } }, Action::CreateAndStart { spec: spec.duplicate() }),
        Step::Gate { service, .. } => match find(&containers, service) {
            Some(i) => {
                let handle = containers[i].handle.clone();
                let h2 = handle.clone();
                (
                    Machine { containers, op: Op::Inspecting { pos, handle, first: true } },
                    Action::Inspect { service: service.clone(), handle: h2, first: true },
                )
            },
            None => done(containers, Err(StackError::NotFound { service: service.clone() })),
        },
    }
}

fn stop_action(e: &Entry) -> (r: Action)
    ensures
        r@ == stop_of((e.service@, e.handle@)),
{
    let grace: u64 = if e.service == text("nitro-node") { 300 } else { 10 };
    Action::Stop { service: e.service.clone(), handle: e.handle.clone(), grace_secs: grace }
}

fn restart_action(e: &Entry) -> (r: Action)
    ensures
        r@ == restart_of((e.service@, e.handle@)),
{
    Action::Restart { service: e.service.clone(), handle: e.handle.clone() }
}

/// Takes the first entry out and asks for its removal; ends when none is left.
fn remove_first(containers: Vec<Entry>, failure: Option<StackError>) -> (r: (Machine, Action))
    ensures
        (registry_view(r.0.containers@), r.0.op@, r.1@) == ({
            let s = StackView { plan: Seq::empty(), registry: registry_view(containers@), op: OpView::Idle };
            let (s2, a) = remove_next(s, failure_view(failure));
            (s2.registry, s2.op, a)
        }),
{
    if containers.len() == 0 {
        let result = result_of(failure);
        return done(containers, result);
    }
    let mut rest = containers;
    let first = rest.remove(0);
    assert(registry_view(rest@) =~= registry_view(containers@).drop_first());
    let action = Action::Remove { service: first.service.clone(), handle: first.handle.clone(), force: true };
    (Machine { containers: rest, op: Op::Removing { service: first.service, handle: first.handle, failure, all: true } }, action)
}

/// The reply to a request of a sweep, folded into the first failure.
fn note_reply(failure: Option<StackError>, service: &String, ev: &Event) -> (r: Option<StackError>)
    ensures
        failure_view(r) == sweep_reply(failure_view(failure), service@, ev@),
{
    match ev {
        Event::Failed { message } => match failure {
            Some(f) => Some(f),
            None => Some(StackError::Runtime { service: service.clone(), message: message.clone() }),
        },
        _ => failure,
    }
}

fn is_reply_event(ev: &Event) -> (r: bool)
    ensures
        r == is_reply(ev@),
{
    match ev {
        Event::Done => true,
        Event::Failed { .. } => true,
        _ => false,
    }
}

fn pending_action(plan: &Vec<Step>, m: &Machine) -> (r: Action)
    requires
        wf(stack_view(plan@, *m)),
    ensures
        r@ == pending(stack_view(plan@, *m)),
{
    match &m.op {
        Op::Idle => Action::Idle,
        Op::Listing => Action::ListNetworks,
        Op::CreatingNetwork => Action::CreateNetwork { name: text("orbit_network"), driver: text("bridge") },
        Op::Launching { pos } => match &plan[*pos] {
            Step::Launch(spec) => Action::CreateAndStart { spec: spec.duplicate() },
            _ => Action::Idle,
        },
        Op::Inspecting { pos, handle, first } => match &plan[*pos] {
            Step::Gate { service, .. } => Action::Inspect { service: service.clone(), handle: handle.clone(), first: *first },
            _ => Action::Idle,
        },
        Op::Sleeping { .. } => Action::Sleep { millis: 1000 },
        Op::Watching { service, handle, first, .. } => Action::Inspect {
            service: service.clone(),
            handle: handle.clone(),
            first: *first,
        },
        Op::Resting { .. } => Action::Sleep { millis: 1000 },
        Op::Stopping { pos, .. } => stop_action(&m.containers[*pos]),
        Op::Restarting { pos, .. } => restart_action(&m.containers[*pos]),
        Op::CleanStopping { pos, .. } => stop_action(&m.containers[*pos]),
        Op::Removing { service, handle, .. } => Action::Remove { service: service.clone(), handle: handle.clone(), force: true },
    }
}

/// The orchestrator's reaction to a reply of the runtime.
#[verifier::rlimit(50)]
fn step(plan: &Vec<Step>, m: Machine, ev: Event) -> (r: (Machine, Action))
    requires
        wf(stack_view(plan@, m)),
    ensures
        (stack_view(plan@, r.0), r.1@) == next(stack_view(plan@, m), ev@),
        wf(stack_view(plan@, r.0)),
{
    let ghost s = stack_view(plan@, m);
    proof {
        lemma_next_wf(s, ev@);
    }
    if !is_reply_event(&ev) {
        let fits = match (&m.op, &ev) {
            (Op::Idle, _) => true,
            (Op::Listing, Event::Networks { .. }) => true,
            (Op::CreatingNetwork, Event::AlreadyExists) => true,
            (Op::Launching { .. }, Event::Launched { .. }) => true,
            (Op::Launching { .. }, Event::StartFailed { .. }) => true,
            (Op::Inspecting { .. }, Event::Health { .. }) => true,
            (Op::Sleeping { .. }, Event::Slept { .. }) => true,
            (Op::Watching { .. }, Event::Health { .. }) => true,
            (Op::Resting { .. }, Event::Slept { .. }) => true,
            _ => false,
        };
        if !fits {
            let a = pending_action(plan, &m);
            return (m, a);
        }
    }
    assert(plan_view(plan@).len() == plan@.len());
    assert(registry_view(m.containers@).len() == m.containers@.len());
    let Machine { containers, op } = m;
    match op {
        Op::Idle => (Machine { containers, op: Op::Idle }, Action::Idle),
        Op::Listing => match ev {
            Event::Networks { names } => {
                let key = text("orbit_network");
                let mut listed = false;
                let mut i: usize = 0;
                while i < names.len()
                    invariant
                        i <= names@.len(),
                        key@ == network_name(),
                        listed == views(names@).take(i as int).contains(network_name()),
                    decreases names.len() - i,
                {
                    assert(views(names@).take(i + 1) =~= views(names@).take(i as int).push(names@[i as int]@));
                    if names[i] == key {
                        listed = true;
                    }
                    i = i + 1;
                }
                assert(views(names@).take(i as int) =~= views(names@));
                if listed {
                    resume_at(plan, containers, 0)
                } else {
                    (
                        Machine { containers, op: Op::CreatingNetwork },
                        Action::CreateNetwork { name: key, driver: text("bridge") },
                    )
                }
            },
            Event::Failed { message } => done(
                containers,
                Err(StackError::Runtime { service: text("orbit_network"), message }),
            ),
            _ => {
                let m = Machine { containers, op: Op::Listing };
                let a = pending_action(plan, &m);
                (m, a)
            },
        },
        Op::CreatingNetwork => match ev {
            Event::Failed { message } => done(
                containers,
                Err(StackError::Runtime { service: text("orbit_network"), message }),
            ),
            _ => resume_at(plan, containers, 0),
        },
        Op::Launching { pos } => {
            assert(s.op == OpView::Launching { pos: pos as int });
            assert(pos < plan.len());
            let name = match &plan[pos] {
                Step::Launch(spec) => spec.name.clone(),
                Step::Gate { service, .. } => service.clone(),
            };
            match ev {
                Event::Launched { handle } => {
                    let reg = register_entry(&containers, name, handle);
                    resume_at(plan, reg, pos + 1)
                },
                Event::StartFailed { handle, message } => {
                    let service = name.clone();
                    let reg = register_entry(&containers, name, handle);
                    done(reg, Err(StackError::Start { service, message }))
                },
                Event::Failed { message } => done(containers, Err(StackError::Create { service: name, message })),
                _ => {
                    let m = Machine { containers, op: Op::Launching { pos } };
                    let a = pending_action(plan, &m);
                    (m, a)
                },
            }
        },
        Op::Inspecting { pos, handle, first } => {
            assert(s.op is Inspecting && s.op->Inspecting_pos == pos as int);
            assert(pos < plan.len());
            let name = match &plan[pos] {
                Step::Gate { service, .. } => service.clone(),
                Step::Launch(spec) => spec.name.clone(),
            };
            match ev {
                Event::Health { state } => {
                    if state == HealthState::Healthy {
                        resume_at(plan, containers, pos + 1)
                    } else if state == HealthState::Unhealthy {
                        done(containers, Err(StackError::Unhealthy { service: name }))
                    } else {
                        (Machine { containers, op: Op::Sleeping { pos, handle } }, Action::Sleep { millis: 1000 })
                    }
                },
                Event::Failed { message } => done(containers, Err(StackError::Runtime { service: name, message })),
                _ => {
                    let m = Machine { containers, op: Op::Inspecting { pos, handle, first } };
                    let a = pending_action(plan, &m);
                    (m, a)
                },
            }
        },
        Op::Sleeping { pos, handle } => {
            let (name, timeout) = match &plan[pos] {
                Step::Gate { service, timeout_ms } => (service.clone(), *timeout_ms),
                Step::Launch(spec) => (spec.name.clone(), 0),
            };
            match ev {
                Event::Slept { elapsed_ms } => {
                    if elapsed_ms < timeout {
                        let h2 = handle.clone();
                        (
                            Machine { containers, op: Op::Inspecting { pos, handle, first: false } },
                            Action::Inspect { service: name, handle: h2, first: false },
                        )
                    } else {
                        done(containers, Err(StackError::Timeout { service: name, elapsed_ms }))
                    }
                },
                _ => {
                    let m = Machine { containers, op: Op::Sleeping { pos, handle } };
                    (m, Action::Sleep { millis: 1000 })
                },
            }
        },
        Op::Watching { service, handle, timeout_ms, first } => match ev {
            Event::Health { state } => {
                if state == HealthState::Healthy {
                    done(containers, Ok(()))
                } else if state == HealthState::Unhealthy {
                    done(containers, Err(StackError::Unhealthy { service }))
                } else {
                    (Machine { containers, op: Op::Resting { service, handle, timeout_ms } }, Action::Sleep { millis: 1000 })
                }
            },
            Event::Failed { message } => done(containers, Err(StackError::Runtime { service, message })),
            _ => {
                let m = Machine { containers, op: Op::Watching { service, handle, timeout_ms, first } };
                let a = pending_action(plan, &m);
                (m, a)
            },
        },
        Op::Resting { service, handle, timeout_ms } => match ev {
            Event::Slept { elapsed_ms } => {
                if elapsed_ms < timeout_ms {
                    let a = Action::Inspect { service: service.clone(), handle: handle.clone(), first: false };
                    (Machine { containers, op: Op::Watching { service, handle, timeout_ms, first: false } }, a)
                } else {
                    done(containers, Err(StackError::Timeout { service, elapsed_ms }))
                }
            },
            _ => {
                let m = Machine { containers, op: Op::Resting { service, handle, timeout_ms } };
                (m, Action::Sleep { millis: 1000 })
            },
        },
        Op::Stopping { pos, failure } => {
            assert(s.op is Stopping && s.op->Stopping_pos == pos as int);
            assert(pos < containers.len());
            let f = note_reply(failure, &containers[pos].service, &ev);
            if pos + 1 < containers.len() {
                let a = stop_action(&containers[pos + 1]);
                (Machine { containers, op: Op::Stopping { pos: pos + 1, failure: f } }, a)
            } else {
                let result = result_of(f);
                done(containers, result)
            }
        },
        Op::Restarting { pos, failure } => {
            assert(s.op is Restarting && s.op->Restarting_pos == pos as int);
            assert(pos < containers.len());
            let f = note_reply(failure, &containers[pos].service, &ev);
            if pos + 1 < containers.len() {
                let a = restart_action(&containers[pos + 1]);
                (Machine { containers, op: Op::Restarting { pos: pos + 1, failure: f } }, a)
            } else {
                let result = result_of(f);
                done(containers, result)
            }
        },
        Op::CleanStopping { pos, failure } => {
            assert(s.op is CleanStopping && s.op->CleanStopping_pos == pos as int);
            assert(pos < containers.len());
            let f = note_reply(failure, &containers[pos].service, &ev);
            if pos + 1 < containers.len() {
                let a = stop_action(&containers[pos + 1]);
                (Machine { containers, op: Op::CleanStopping { pos: pos + 1, failure: f } }, a)
            } else {
                remove_first(containers, f)
            }
        },
        Op::Removing { service, handle, failure, all } => {
            let f = note_reply(failure, &service, &ev);
            if all {
                remove_first(containers, f)
            } else {
                let result = result_of(f);
                done(containers, result)
            }
        },
    }
}

/// The startup plan of a configuration.
fn build_plan(config: &OrbitStackConfig, env: &EnvContents) -> (r: Vec<Step>)
    ensures
        plan_view(r@) == startup_plan(config@, env@),
{
    let dd = config.data_dir.as_str();
    let mut r: Vec<Step> = Vec::new();
    r.push(Step::Launch(db_init_spec(dd)));
    r.push(Step::Launch(db_spec(dd)));
    r.push(Step::Gate { service: text("db"), timeout_ms: 60_000 });
    r.push(Step::Launch(stats_db_init_spec(dd)));
    r.push(Step::Launch(stats_db_spec(dd)));
    r.push(Step::Gate { service: text("stats-db"), timeout_ms: 60_000 });
    r.push(Step::Launch(redis_spec(dd)));
    r.push(Step::Launch(nitro_node_spec(config)));
    if config.enable_das {
        r.push(Step::Launch(das_server_spec(dd)));
    }
    r.push(Step::Launch(backend_spec(config, env)));
    r.push(Step::Launch(frontend_spec(config, env)));
    r.push(Step::Launch(stats_spec(config, env)));
    r.push(Step::Launch(visualizer_spec(config, env)));
    r.push(Step::Launch(sig_provider_spec(config)));
    r.push(Step::Launch(smart_contract_verifier_spec(config, env)));
    r.push(Step::Launch(proxy_spec(dd)));
    assert(plan_view(r@) =~= startup_plan(config@, env@));
    r
}

pub open spec fn lookup_answer(q: Query, found: Option<Seq<char>>) -> bool {
    match found {
        None => q is NotPresent,
        Some(h) => q is Inspect && q->Inspect_handle@ == h,
    }
}

impl OrbitStack {
    #[verifier::type_invariant]
    spec fn inv(&self) -> bool {
        wf(self@)
    }

    /// A stack that has started nothing, with its plan built from `config`
    /// and the texts of its environment files.
    pub fn new(config: OrbitStackConfig, env: EnvContents) -> (r: OrbitStack)
        ensures
            r@.plan == startup_plan(config@, env@),
            r@.registry == Seq::<EntryView>::empty(),
            r@.op == OpView::Idle,
    {
        let plan = build_plan(&config, &env);
        let state = Machine { containers: Vec::new(), op: Op::Idle };
        assert(registry_view(state.containers@) =~= Seq::<EntryView>::empty());
        OrbitStack { plan, state }
    }

    /// Takes the registry and what is awaited out, for one transition.
    fn take_state(&mut self) -> (m: Machine)
        ensures
            final(self)@ == with_op(StackView { registry: Seq::empty(), ..old(self)@ }, OpView::Idle),
            stack_view(old(self).plan@, m) == old(self)@,
            final(self).plan == old(self).plan,
    {
        let mut m = Machine { containers: Vec::new(), op: Op::Idle };
        std::mem::swap(&mut m, &mut self.state);
        assert(registry_view(self.state.containers@) =~= Seq::<EntryView>::empty());
        m
    }

    /// Hands the runtime's reply to the last request to the orchestrator,
    /// and returns the next request.
    pub fn advance(&mut self, event: Event) -> (r: Action)
        ensures
            (final(self)@, r@) == next(old(self)@, event@),
    {
        proof { use_type_invariant(&*self); }
        let m = self.take_state();
        let (m2, a) = step(&self.plan, m, event);
        self.state = m2;
        a
    }

    /// Starts the stack: the network first, then the plan in order.
    pub fn start_with_dependencies(&mut self) -> (r: Action)
        ensures
            (final(self)@, r@) == begin_start(old(self)@),
    {
        proof { use_type_invariant(&*self); }
        match self.state.op {
            Op::Idle => {
                let m = self.take_state();
                self.state = Machine { containers: m.containers, op: Op::Listing };
                Action::ListNetworks
            },
            _ => Action::Finished { result: Err(StackError::Busy) },
        }
    }

    /// Begins a sweep over the registry in the operation `kind` makes.
    fn begin_sweep(&mut self, kind: u8) -> (r: Action)
        requires
            kind < 3,
        ensures
            (final(self)@, r@) == if kind == 0 {
                begin_stop_all(old(self)@)
            } else if kind == 1 {
                begin_restart_all(old(self)@)
            } else {
                begin_cleanup(old(self)@)
            },
    {
        proof { use_type_invariant(&*self); }
        match self.state.op {
            Op::Idle => {},
            _ => { return Action::Finished { result: Err(StackError::Busy) }; },
        }
        if self.state.containers.len() == 0 {
            return Action::Finished { result: Ok(()) };
        }
        let m = self.take_state();
        let a = if kind == 1 { restart_action(&m.containers[0]) } else { stop_action(&m.containers[0]) };
        let op = if kind == 0 {
            Op::Stopping { pos: 0, failure: None }
        } else if kind == 1 {
            Op::Restarting { pos: 0, failure: None }
        } else {
            Op::CleanStopping { pos: 0, failure: None }
        };
        self.state = Machine { containers: m.containers, op };
        a
    }

    /// Waits until `service` is healthy: inspects it, and while it is neither
    /// healthy nor unhealthy, pauses and inspects again, until `timeout_ms`
    /// has passed since the first inspection.
    pub fn wait_for_healthy(&mut self, service: &str, timeout_ms: u64) -> (r: Action)
        ensures
            (final(self)@, r@) == begin_wait(old(self)@, service@, timeout_ms),
    {
        proof { use_type_invariant(&*self); }
        match self.state.op {
            Op::Idle => {},
            _ => { return Action::Finished { result: Err(StackError::Busy) }; },
        }
        let key = text(service);
        match find(&self.state.containers, &key) {
            None => Action::Finished { result: Err(StackError::NotFound { service: key }) },
            Some(i) => {
                let handle = self.state.containers[i].handle.clone();
                let m = self.take_state();
                let a = Action::Inspect { service: key.clone(), handle: handle.clone(), first: true };
                self.state = Machine { containers: m.containers, op: Op::Watching { service: key, handle, timeout_ms, first: true } };
                a
            },
        }
    }

    /// Stops every registered service, each with its grace period; goes on
    /// past failures and reports the first at the end.
    pub fn stop_all(&mut self) -> (r: Action)
        ensures
            (final(self)@, r@) == begin_stop_all(old(self)@),
    {
        self.begin_sweep(0)
    }

    /// Restarts every registered service; goes on past failures and reports
    /// the first at the end.
    pub fn restart_all(&mut self) -> (r: Action)
        ensures
            (final(self)@, r@) == begin_restart_all(old(self)@),
    {
        self.begin_sweep(1)
    }

    /// Stops every registered service, then removes every one, whatever the
    /// runtime replies; the registry ends empty.
    pub fn cleanup(&mut self) -> (r: Action)
        ensures
            (final(self)@, r@) == begin_cleanup(old(self)@),
    {
        self.begin_sweep(2)
    }

    /// Takes `service` out of the registry and removes its container.
    pub fn remove_container(&mut self, service: &str) -> (r: Action)
        ensures
            (final(self)@, r@) == begin_remove(old(self)@, service@),
    {
        proof { use_type_invariant(&*self); }
        match self.state.op {
            Op::Idle => {},
            _ => { return Action::Finished { result: Err(StackError::Busy) }; },
        }
        let key = text(service);
        match find(&self.state.containers, &key) {
            None => Action::Finished { result: Err(StackError::NotFound { service: key }) },
            Some(i) => {
                let handle = self.state.containers[i].handle.clone();
                let m = self.take_state();
                let rest = without_entry(&m.containers, &key);
                proof { lemma_without(registry_view(m.containers@), key@); }
                let a = Action::Remove { service: key.clone(), handle: handle.clone(), force: true };
                self.state = Machine { containers: rest, op: Op::Removing { service: key, handle, failure: None, all: false } };
                a
            },
        }
    }

    /// The container of `service`, if it is registered.
    pub fn container_id(&self, service: &str) -> (r: Option<String>)
        ensures
            match r {
                Some(h) => lookup(self@.registry, service@) == Some(h@),
                None => lookup(self@.registry, service@) is None,
            },
    {
        let key = text(service);
        match find(&self.state.containers, &key) {
            Some(i) => Some(self.state.containers[i].handle.clone()),
            None => None,
        }
    }

    /// How many services are registered.
    pub fn registered_count(&self) -> (r: usize)
        ensures
            r == self@.registry.len(),
    {
        self.state.containers.len()
    }

    /// Starts a health query: a service never started (or removed) is not
    /// present, never reported healthy; else its container is to be inspected.
    pub fn is_healthy(&self, service: &str) -> (r: Query)
        ensures
            lookup_answer(r, lookup(self@.registry, service@)),
    {
        match self.container_id(service) {
            Some(handle) => Query::Inspect { handle },
            None => Query::NotPresent,
        }
    }

    /// Starts a status query, answered as `is_healthy` is.
    pub fn get_container_status(&self, service: &str) -> (r: Query)
        ensures
            lookup_answer(r, lookup(self@.registry, service@)),
    {
        self.is_healthy(service)
    }

    /// How to follow the log of `service`: its stdout and stderr, with
    /// timestamps, from its last 100 lines on; `None` if it is not registered.
    pub fn get_logs(&self, service: &str) -> (r: Option<LogRequest>)
        ensures
            match r {
                Some(q) => lookup(self@.registry, service@) == Some(q.handle@) && q.follow && q.stdout
                    && q.stderr && q.timestamps && q.tail@ == "100"@,
                None => lookup(self@.registry, service@) is None,
            },
    {
        match self.container_id(service) {
            Some(handle) => Some(LogRequest {
                handle,
                follow: true,
                stdout: true,
                stderr: true,
                timestamps: true,
                tail: text("100"),
            }),
            None => None,
        }
    }
}

} // verus!
