use orbit_sequencer_deployer::config::{DockerTags, EnvContents, EnvFiles, OrbitStackConfig};
use orbit_sequencer_deployer::service::{
    backend_spec, das_server_spec, db_spec, nitro_node_spec, proxy_spec, redis_spec, stats_db_spec,
};

fn config(sequencer: bool, das: bool) -> OrbitStackConfig {
    OrbitStackConfig {
        parent_chain_rpc: "http://l1:8545".to_string(),
        chain_id: 412346,
        chain_name: "orbit".to_string(),
        chain_info_json: "[]".to_string(),
        data_dir: "/data".to_string(),
        is_sequencer: sequencer,
        enable_das: das,
        docker_tags: DockerTags {
            blockscout: "6.0".to_string(),
            frontend: "v1".to_string(),
            stats: "v2".to_string(),
            visualizer: "v3".to_string(),
            sig_provider: "v4".to_string(),
            smart_contract_verifier: "v5".to_string(),
        },
        env_files: EnvFiles {
            blockscout: "b.env".to_string(),
            frontend: "f.env".to_string(),
            visualizer: "v.env".to_string(),
            stats: "s.env".to_string(),
            smart_contract_verifier: "c.env".to_string(),
        },
        sequencer_endpoint: Some("http://seq:8547".to_string()),
        das_endpoints: Some(vec!["http://a".to_string(), "http://b".to_string()]),
        das_online_url_list: Some("http://list".to_string()),
    }
}

#[test]
fn db_spec_binds_port_7432_with_health_check() {
    let s = db_spec("/data");
    assert_eq!(s.name, "db");
    assert_eq!(s.image, "postgres:14");
    assert_eq!(s.port_bindings.len(), 1);
    assert_eq!(s.port_bindings[0].container_port, "5432/tcp");
    assert_eq!(s.port_bindings[0].host_port, "7432");
    assert_eq!(s.binds, vec!["/data/blockscout-db-data:/var/lib/postgresql/data".to_string()]);
    assert_eq!(s.user, Some("2000:2000".to_string()));
    let h = s.health_check.expect("health check");
    assert_eq!(h.test, vec!["CMD-SHELL".to_string(), "pg_isready -U blockscout -d blockscout".to_string()]);
    assert_eq!(h.interval_ns, 10_000_000_000);
    assert_eq!(h.timeout_ns, 5_000_000_000);
    assert_eq!(h.retries, 5);
}

#[test]
fn stats_db_spec_binds_port_7433() {
    let s = stats_db_spec("/d");
    assert_eq!(s.name, "stats-db");
    assert_eq!(s.port_bindings[0].host_port, "7433");
    assert_eq!(s.binds, vec!["/d/stats-db-data:/var/lib/postgresql/data".to_string()]);
}

#[test]
fn redis_spec_has_no_health_check() {
    let s = redis_spec("/d");
    assert_eq!(s.name, "redis_db");
    assert_eq!(s.image, "redis:alpine");
    assert!(s.health_check.is_none());
    assert_eq!(s.binds, vec!["/d/redis-data:/data".to_string()]);
}

#[test]
fn sequencer_node_publishes_feed() {
    let s = nitro_node_spec(&config(true, false));
    assert_eq!(s.name, "nitro-node");
    assert_eq!(s.cmd[1], "--chain.id=412346");
    assert_eq!(s.cmd[0], "--parent-chain.connection.url=http://l1:8545");
    assert!(s.cmd.contains(&"--node.feed.output.enable=true".to_string()));
    assert!(!s.cmd.iter().any(|a| a.starts_with("--execution.forwarding-target")));
    assert!(!s.cmd.iter().any(|a| a.starts_with("--node.data-availability")));
    assert_eq!(s.cmd.len(), 14);
    let hosts: Vec<&str> = s.port_bindings.iter().map(|b| b.host_port.as_str()).collect();
    assert_eq!(hosts, vec!["8547", "8548", "9642"]);
}

#[test]
fn follower_node_forwards_and_joins_das_endpoints() {
    let s = nitro_node_spec(&config(false, true));
    assert!(s.cmd.contains(&"--execution.forwarding-target=http://seq:8547".to_string()));
    assert!(s.cmd.contains(&"--node.data-availability.enable".to_string()));
    assert!(s.cmd.contains(&"--node.data-availability.rest-aggregator.urls=http://a,http://b".to_string()));
    assert!(s
        .cmd
        .contains(&"--node.data-availability.rest-aggregator.online-url-list=http://list".to_string()));
    assert_eq!(s.cmd.len(), 15);
}

#[test]
fn chain_id_zero_prints_as_zero() {
    let mut c = config(true, false);
    c.chain_id = 0;
    assert_eq!(nitro_node_spec(&c).cmd[1], "--chain.id=0");
    c.chain_id = u64::MAX;
    assert_eq!(nitro_node_spec(&c).cmd[1], "--chain.id=18446744073709551615");
}

#[test]
fn das_server_mounts_script_and_data() {
    let s = das_server_spec("/d");
    assert_eq!(s.entrypoint, vec!["/bin/bash".to_string(), "/das-server.sh".to_string()]);
    assert_eq!(
        s.volumes,
        vec!["/d/das-server.sh:/das-server.sh".to_string(), "/d/das-data:/home/user/das-data".to_string()]
    );
    assert_eq!(s.exposed_ports, vec!["9876/tcp".to_string(), "9877/tcp".to_string()]);
}

#[test]
fn backend_reads_its_env_text() {
    let env = EnvContents {
        blockscout: "# c\nDATABASE_URL=x\n".to_string(),
        frontend: String::new(),
        visualizer: String::new(),
        stats: String::new(),
        smart_contract_verifier: String::new(),
    };
    let s = backend_spec(&config(true, false), &env);
    assert_eq!(s.image, "blockscout/blockscout:6.0");
    assert_eq!(s.env, vec!["DATABASE_URL=x".to_string()]);
    assert_eq!(s.binds, vec!["/data/logs:/app/logs".to_string()]);
    assert_eq!(s.extra_hosts, vec!["host.docker.internal:host-gateway".to_string()]);
}

#[test]
fn proxy_binds_three_ports_and_routes() {
    let s = proxy_spec("/d");
    let hosts: Vec<&str> = s.port_bindings.iter().map(|b| b.host_port.as_str()).collect();
    assert_eq!(hosts, vec!["80", "8080", "8081"]);
    assert_eq!(s.env[0], "BACK_PROXY_PASS=http://backend:4000");
    assert_eq!(s.binds, vec!["/d/proxy:/etc/nginx/templates".to_string()]);
}
