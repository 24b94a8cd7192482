use orbit_sequencer_deployer::config::{DockerTags, EnvContents, EnvFiles, OrbitStackConfig};
use orbit_sequencer_deployer::health::{health_state, observed_healthy, ContainerState, HealthState, HealthStatus};
use orbit_sequencer_deployer::stack::{Action, Event, OrbitStack, Query, StackError};

fn config(das: bool) -> OrbitStackConfig {
    OrbitStackConfig {
        parent_chain_rpc: "http://l1".to_string(),
        chain_id: 7,
        chain_name: "c".to_string(),
        chain_info_json: "{}".to_string(),
        data_dir: "/d".to_string(),
        is_sequencer: true,
        enable_das: das,
        docker_tags: DockerTags {
            blockscout: "a".to_string(),
            frontend: "b".to_string(),
            stats: "c".to_string(),
            visualizer: "d".to_string(),
            sig_provider: "e".to_string(),
            smart_contract_verifier: "f".to_string(),
        },
        env_files: EnvFiles {
            blockscout: "1".to_string(),
            frontend: "2".to_string(),
            visualizer: "3".to_string(),
            stats: "4".to_string(),
            smart_contract_verifier: "5".to_string(),
        },
        sequencer_endpoint: None,
        das_endpoints: None,
        das_online_url_list: None,
    }
}

fn env() -> EnvContents {
    EnvContents {
        blockscout: "A=1".to_string(),
        frontend: "B=2".to_string(),
        visualizer: String::new(),
        stats: String::new(),
        smart_contract_verifier: String::new(),
    }
}

/// A container runtime simulated in memory.
struct Sim {
    networks: Vec<String>,
    network_creations: usize,
    network_exists_reply: bool,
    created: Vec<String>,
    inspected: Vec<String>,
    stops: Vec<(String, u64)>,
    restarts: Vec<String>,
    removals: Vec<String>,
    fail_create: Option<String>,
    fail_start: Option<String>,
    never_healthy: Option<String>,
    unhealthy: Option<String>,
    fail_stops: bool,
    fail_removals: bool,
    clock_ms: u64,
    gate_started_ms: u64,
}

impl Sim {
    fn new() -> Sim {
        Sim {
            networks: vec!["bridge".to_string()],
            network_creations: 0,
            network_exists_reply: false,
            created: Vec::new(),
            inspected: Vec::new(),
            stops: Vec::new(),
            restarts: Vec::new(),
            removals: Vec::new(),
            fail_create: None,
            fail_start: None,
            never_healthy: None,
            unhealthy: None,
            fail_stops: false,
            fail_removals: false,
            clock_ms: 0,
            gate_started_ms: 0,
        }
    }

    fn reply(&mut self, action: Action) -> Result<Event, Result<(), StackError>> {
        Ok(match action {
            Action::ListNetworks => Event::Networks { names: self.networks.clone() },
            Action::CreateNetwork { name, driver } => {
                assert_eq!(driver, "bridge");
                self.network_creations += 1;
                self.networks.push(name);
                if self.network_exists_reply { Event::AlreadyExists } else { Event::Done }
            },
            Action::CreateAndStart { spec } => {
                self.created.push(spec.name.clone());
                if self.fail_create.as_deref() == Some(spec.name.as_str()) {
                    Event::Failed { message: "port conflict".to_string() }
                } else if self.fail_start.as_deref() == Some(spec.name.as_str()) {
                    Event::StartFailed { handle: format!("id-{}", spec.name), message: "exit 1".to_string() }
                } else {
                    Event::Launched { handle: format!("id-{}", spec.name) }
                }
            },
            Action::Inspect { service, handle, first } => {
                assert_eq!(handle, format!("id-{}", service));
                if first {
                    self.gate_started_ms = self.clock_ms;
                }
                self.inspected.push(service.clone());
                let state = if self.never_healthy.as_deref() == Some(service.as_str()) {
                    HealthState::Starting
                } else if self.unhealthy.as_deref() == Some(service.as_str()) {
                    HealthState::Unhealthy
                } else {
                    HealthState::Healthy
                };
                Event::Health { state }
            },
            Action::Sleep { millis } => {
                self.clock_ms += millis;
                Event::Slept { elapsed_ms: self.clock_ms - self.gate_started_ms }
            },
            Action::Stop { service, grace_secs, .. } => {
                self.stops.push((service, grace_secs));
                if self.fail_stops { Event::Failed { message: "gone".to_string() } } else { Event::Done }
            },
            Action::Restart { service, .. } => {
                self.restarts.push(service);
                Event::Done
            },
            Action::Remove { service, force, .. } => {
                assert!(force);
                self.removals.push(service);
                if self.fail_removals { Event::Failed { message: "busy".to_string() } } else { Event::Done }
            },
            Action::Finished { result } => return Err(result),
            Action::Idle => panic!("nothing in progress"),
        })
    }
}

fn drive(stack: &mut OrbitStack, sim: &mut Sim, first: Action) -> Result<(), StackError> {
    let mut action = first;
    loop {
        match sim.reply(action) {
            Ok(event) => action = stack.advance(event),
            Err(result) => return result,
        }
    }
}

fn start(stack: &mut OrbitStack, sim: &mut Sim) -> Result<(), StackError> {
    let first = stack.start_with_dependencies();
    drive(stack, sim, first)
}

const ALL_WITHOUT_DAS: [&str; 13] = [
    "db-init",
    "db",
    "stats-db-init",
    "stats-db",
    "redis_db",
    "nitro-node",
    "backend",
    "frontend",
    "stats",
    "visualizer",
    "sig-provider",
    "smart-contract-verifier",
    "proxy",
];

#[test]
fn full_start_without_das_launches_thirteen_services() {
    let mut stack = OrbitStack::new(config(false), env());
    let mut sim = Sim::new();
    assert!(start(&mut stack, &mut sim).is_ok());
    assert_eq!(sim.created, ALL_WITHOUT_DAS.iter().map(|s| s.to_string()).collect::<Vec<_>>());
    assert_eq!(sim.inspected, vec!["db".to_string(), "stats-db".to_string()]);
    assert_eq!(stack.registered_count(), 13);
    assert!(stack.container_id("das-server").is_none());
}

#[test]
fn full_start_with_das_adds_das_server_after_node() {
    let mut stack = OrbitStack::new(config(true), env());
    let mut sim = Sim::new();
    assert!(start(&mut stack, &mut sim).is_ok());
    assert_eq!(sim.created.len(), 14);
    assert_eq!(sim.created[5], "nitro-node");
    assert_eq!(sim.created[6], "das-server");
}

#[test]
fn database_is_created_before_proxy() {
    let mut stack = OrbitStack::new(config(false), env());
    let mut sim = Sim::new();
    start(&mut stack, &mut sim).unwrap();
    let db = sim.created.iter().position(|s| s == "db").unwrap();
    let proxy = sim.created.iter().position(|s| s == "proxy").unwrap();
    assert!(db < proxy);
    assert_eq!(proxy, sim.created.len() - 1);
}

#[test]
fn ensuring_network_twice_creates_it_once() {
    let mut stack = OrbitStack::new(config(false), env());
    let mut sim = Sim::new();
    start(&mut stack, &mut sim).unwrap();
    assert_eq!(sim.network_creations, 1);
    let mut again = OrbitStack::new(config(false), env());
    assert!(start(&mut again, &mut sim).is_ok());
    assert_eq!(sim.network_creations, 1);
}

#[test]
fn network_that_exists_already_counts_as_created() {
    let mut stack = OrbitStack::new(config(false), env());
    let mut sim = Sim::new();
    sim.network_exists_reply = true;
    assert!(start(&mut stack, &mut sim).is_ok());
    assert_eq!(sim.network_creations, 1);
}

#[test]
fn network_failure_is_a_runtime_error() {
    let mut stack = OrbitStack::new(config(false), env());
    let first = stack.start_with_dependencies();
    assert!(matches!(first, Action::ListNetworks));
    let r = stack.advance(Event::Failed { message: "no daemon".to_string() });
    match r {
        Action::Finished { result: Err(StackError::Runtime { service, message }) } => {
            assert_eq!(service, "orbit_network");
            assert_eq!(message, "no daemon");
        },
        other => panic!("unexpected {:?}", other),
    }
}

#[test]
fn database_never_healthy_times_out_before_later_tiers() {
    let mut stack = OrbitStack::new(config(false), env());
    let mut sim = Sim::new();
    sim.never_healthy = Some("db".to_string());
    match start(&mut stack, &mut sim) {
        Err(StackError::Timeout { service, elapsed_ms }) => {
            assert_eq!(service, "db");
            assert_eq!(elapsed_ms, 60_000);
        },
        other => panic!("unexpected {:?}", other),
    }
    assert_eq!(sim.created, vec!["db-init".to_string(), "db".to_string()]);
    assert_eq!(sim.inspected.len(), 60);
    assert_eq!(stack.registered_count(), 2);
    assert!(matches!(stack.advance(Event::Done), Action::Idle));
}

#[test]
fn unhealthy_database_fails_at_once() {
    let mut stack = OrbitStack::new(config(false), env());
    let mut sim = Sim::new();
    sim.unhealthy = Some("stats-db".to_string());
    match start(&mut stack, &mut sim) {
        Err(StackError::Unhealthy { service }) => assert_eq!(service, "stats-db"),
        other => panic!("unexpected {:?}", other),
    }
    assert_eq!(sim.inspected, vec!["db".to_string(), "stats-db".to_string()]);
    assert_eq!(sim.created.len(), 4);
}

#[test]
fn cache_failure_keeps_database_tiers() {
    let mut stack = OrbitStack::new(config(false), env());
    let mut sim = Sim::new();
    sim.fail_create = Some("redis_db".to_string());
    match start(&mut stack, &mut sim) {
        Err(StackError::Create { service, message }) => {
            assert_eq!(service, "redis_db");
            assert_eq!(message, "port conflict");
        },
        other => panic!("unexpected {:?}", other),
    }
    for name in ["db-init", "db", "stats-db-init", "stats-db"] {
        assert_eq!(stack.container_id(name), Some(format!("id-{}", name)));
    }
    assert!(stack.container_id("redis_db").is_none());
    assert!(sim.stops.is_empty());
    assert!(sim.removals.is_empty());
    assert!(!sim.created.contains(&"nitro-node".to_string()));
}

#[test]
fn start_failure_still_registers_the_container() {
    let mut stack = OrbitStack::new(config(false), env());
    let mut sim = Sim::new();
    sim.fail_start = Some("nitro-node".to_string());
    match start(&mut stack, &mut sim) {
        Err(StackError::Start { service, .. }) => assert_eq!(service, "nitro-node"),
        other => panic!("unexpected {:?}", other),
    }
    assert_eq!(stack.container_id("nitro-node"), Some("id-nitro-node".to_string()));
    assert_eq!(stack.registered_count(), 6);
}

#[test]
fn cleanup_stops_and_removes_every_service_despite_failures() {
    let mut stack = OrbitStack::new(config(false), env());
    let mut sim = Sim::new();
    start(&mut stack, &mut sim).unwrap();
    sim.fail_stops = true;
    sim.fail_removals = true;
    let first = stack.cleanup();
    match drive(&mut stack, &mut sim, first) {
        Err(StackError::Runtime { service, message }) => {
            assert_eq!(service, "db-init");
            assert_eq!(message, "gone");
        },
        other => panic!("unexpected {:?}", other),
    }
    assert_eq!(sim.stops.len(), 13);
    assert_eq!(sim.removals.len(), 13);
    assert_eq!(stack.registered_count(), 0);
}

#[test]
fn cleanup_succeeds_and_empties_registry() {
    let mut stack = OrbitStack::new(config(false), env());
    let mut sim = Sim::new();
    start(&mut stack, &mut sim).unwrap();
    let first = stack.cleanup();
    assert!(drive(&mut stack, &mut sim, first).is_ok());
    assert_eq!(stack.registered_count(), 0);
    assert_eq!(sim.removals, ALL_WITHOUT_DAS.iter().map(|s| s.to_string()).collect::<Vec<_>>());
}

#[test]
fn cleanup_of_empty_stack_finishes_at_once() {
    let mut stack = OrbitStack::new(config(false), env());
    assert!(matches!(stack.cleanup(), Action::Finished { result: Ok(()) }));
}

#[test]
fn chain_node_gets_longer_grace() {
    let mut stack = OrbitStack::new(config(false), env());
    let mut sim = Sim::new();
    start(&mut stack, &mut sim).unwrap();
    let first = stack.stop_all();
    assert!(drive(&mut stack, &mut sim, first).is_ok());
    assert_eq!(sim.stops.len(), 13);
    for (service, grace) in &sim.stops {
        assert_eq!(*grace, if service == "nitro-node" { 300 } else { 10 });
    }
    assert_eq!(stack.registered_count(), 13);
}

#[test]
fn restart_all_goes_through_every_service() {
    let mut stack = OrbitStack::new(config(false), env());
    let mut sim = Sim::new();
    start(&mut stack, &mut sim).unwrap();
    let first = stack.restart_all();
    assert!(drive(&mut stack, &mut sim, first).is_ok());
    assert_eq!(sim.restarts.len(), 13);
}

#[test]
fn remove_container_of_unknown_service_is_not_found() {
    let mut stack = OrbitStack::new(config(false), env());
    match stack.remove_container("backend") {
        Action::Finished { result: Err(StackError::NotFound { service }) } => assert_eq!(service, "backend"),
        other => panic!("unexpected {:?}", other),
    }
}

#[test]
fn remove_container_takes_the_service_out() {
    let mut stack = OrbitStack::new(config(false), env());
    let mut sim = Sim::new();
    start(&mut stack, &mut sim).unwrap();
    let first = stack.remove_container("frontend");
    assert!(drive(&mut stack, &mut sim, first).is_ok());
    assert_eq!(sim.removals, vec!["frontend".to_string()]);
    assert!(stack.container_id("frontend").is_none());
    assert_eq!(stack.registered_count(), 12);
}

#[test]
fn second_operation_while_busy_is_refused() {
    let mut stack = OrbitStack::new(config(false), env());
    let _ = stack.start_with_dependencies();
    assert!(matches!(stack.start_with_dependencies(), Action::Finished { result: Err(StackError::Busy) }));
    assert!(matches!(stack.stop_all(), Action::Finished { result: Err(StackError::Busy) }));
}

#[test]
fn reply_that_does_not_fit_repeats_the_request() {
    let mut stack = OrbitStack::new(config(false), env());
    let _ = stack.start_with_dependencies();
    assert!(matches!(stack.advance(Event::Slept { elapsed_ms: 5 }), Action::ListNetworks));
}

#[test]
fn queries_on_unregistered_service_are_not_present() {
    let stack = OrbitStack::new(config(false), env());
    assert!(matches!(stack.is_healthy("db"), Query::NotPresent));
    assert!(matches!(stack.get_container_status("db"), Query::NotPresent));
    assert!(stack.get_logs("db").is_none());
}

#[test]
fn queries_on_registered_service_name_its_container() {
    let mut stack = OrbitStack::new(config(false), env());
    let mut sim = Sim::new();
    start(&mut stack, &mut sim).unwrap();
    match stack.is_healthy("db") {
        Query::Inspect { handle } => assert_eq!(handle, "id-db"),
        other => panic!("unexpected {:?}", other),
    }
    let logs = stack.get_logs("proxy").unwrap();
    assert_eq!(logs.handle, "id-proxy");
    assert_eq!(logs.tail, "100");
    assert!(logs.follow && logs.stdout && logs.stderr && logs.timestamps);
}

#[test]
fn health_follows_check_or_running_flag() {
    let checked = |h| Some(ContainerState { status: None, running: Some(true), has_health: true, health: h });
    assert_eq!(health_state(checked(Some(HealthStatus::Healthy))), HealthState::Healthy);
    assert_eq!(health_state(checked(Some(HealthStatus::Starting))), HealthState::Starting);
    assert_eq!(health_state(checked(Some(HealthStatus::Unhealthy))), HealthState::Unhealthy);
    assert_eq!(health_state(checked(None)), HealthState::Unknown);
    let unchecked = |r| Some(ContainerState { status: None, running: r, has_health: false, health: None });
    assert_eq!(health_state(unchecked(Some(true))), HealthState::Healthy);
    assert_eq!(health_state(unchecked(Some(false))), HealthState::Stopped);
    assert_eq!(health_state(unchecked(None)), HealthState::Unknown);
    assert_eq!(health_state(None), HealthState::Unknown);
    assert!(!observed_healthy(None));
    assert!(!observed_healthy(checked(Some(HealthStatus::Starting))));
}

#[test]
fn wait_for_healthy_on_running_service_succeeds() {
    let mut stack = OrbitStack::new(config(false), env());
    let mut sim = Sim::new();
    start(&mut stack, &mut sim).unwrap();
    let first = stack.wait_for_healthy("proxy", 5_000);
    assert!(drive(&mut stack, &mut sim, first).is_ok());
    assert_eq!(sim.inspected.last().map(String::as_str), Some("proxy"));
}

#[test]
fn wait_for_healthy_times_out_with_elapsed_time() {
    let mut stack = OrbitStack::new(config(false), env());
    let mut sim = Sim::new();
    start(&mut stack, &mut sim).unwrap();
    sim.never_healthy = Some("backend".to_string());
    let first = stack.wait_for_healthy("backend", 3_000);
    match drive(&mut stack, &mut sim, first) {
        Err(StackError::Timeout { service, elapsed_ms }) => {
            assert_eq!(service, "backend");
            assert_eq!(elapsed_ms, 3_000);
        },
        other => panic!("unexpected {:?}", other),
    }
    assert_eq!(sim.inspected.iter().filter(|s| *s == "backend").count(), 3);
}

#[test]
fn wait_for_healthy_on_unknown_service_is_not_found() {
    let mut stack = OrbitStack::new(config(false), env());
    match stack.wait_for_healthy("db", 1_000) {
        Action::Finished { result: Err(StackError::NotFound { service }) } => assert_eq!(service, "db"),
        other => panic!("unexpected {:?}", other),
    }
}
