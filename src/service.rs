//! The launch descriptor of every service of the stack.

use vstd::prelude::*;

use crate::config::{ConfigView, EnvContents, EnvContentsView, OrbitStackConfig, opt_view};
use crate::env_file::{env_entries, parse_env_text};
use crate::text::{copy_texts, concat, decimal, join_commas, join_with_commas, push_text, text, u64_text, views};

verus! {

broadcast use vstd::seq_lib::group_seq_properties;

/// A host port binding, on every host address.
#[derive(Debug)]
pub struct PortBinding {
    pub container_port: String,
    pub host_port: String,
}

/// A container health probe; durations in nanoseconds.
#[derive(Debug)]
pub struct HealthCheck {
    pub test: Vec<String>,
    pub interval_ns: i64,
    pub timeout_ns: i64,
    pub retries: i64,
    pub start_period_ns: i64,
}

/// How one service is launched. Empty lists stand for settings left to the image.
#[derive(Debug)]
pub struct ServiceSpec {
    pub name: String,
    pub image: String,
    pub entrypoint: Vec<String>,
    pub cmd: Vec<String>,
    pub env: Vec<String>,
    pub exposed_ports: Vec<String>,
    pub port_bindings: Vec<PortBinding>,
    pub binds: Vec<String>,
    pub volumes: Vec<String>,
    pub extra_hosts: Vec<String>,
    pub user: Option<String>,
    pub health_check: Option<HealthCheck>,
}

pub struct HealthCheckView {
    pub test: Seq<Seq<char>>,
    pub interval_ns: i64,
    pub timeout_ns: i64,
    pub retries: i64,
    pub start_period_ns: i64,
}

pub struct ServiceSpecView {
    pub name: Seq<char>,
    pub image: Seq<char>,
    pub entrypoint: Seq<Seq<char>>,
    pub cmd: Seq<Seq<char>>,
    pub env: Seq<Seq<char>>,
    pub exposed_ports: Seq<Seq<char>>,
    pub port_bindings: Seq<(Seq<char>, Seq<char>)>,
    pub binds: Seq<Seq<char>>,
    pub volumes: Seq<Seq<char>>,
    pub extra_hosts: Seq<Seq<char>>,
    pub user: Option<Seq<char>>,
    pub health_check: Option<HealthCheckView>,
}

impl View for HealthCheck {
    type V = HealthCheckView;

    open spec fn view(&self) -> HealthCheckView {
        HealthCheckView {
            test: views(self.test@),
            interval_ns: self.interval_ns,
            timeout_ns: self.timeout_ns,
            retries: self.retries,
            start_period_ns: self.start_period_ns,
        }
    }
}

pub open spec fn bindings_view(v: Seq<PortBinding>) -> Seq<(Seq<char>, Seq<char>)> {
    v.map_values(|b: PortBinding| (b.container_port@, b.host_port@))
}

impl View for ServiceSpec {
    type V = ServiceSpecView;

    open spec fn view(&self) -> ServiceSpecView {
        ServiceSpecView {
            name: self.name@,
            image: self.image@,
            entrypoint: views(self.entrypoint@),
            cmd: views(self.cmd@),
            env: views(self.env@),
            exposed_ports: views(self.exposed_ports@),
            port_bindings: bindings_view(self.port_bindings@),
            binds: views(self.binds@),
            volumes: views(self.volumes@),
            extra_hosts: views(self.extra_hosts@),
            user: opt_view(self.user),
            health_check: match self.health_check {
                Some(h) => Some(h@),
                None => None,
            },
        }
    }
}

/// A service named `name` that runs `image` with the image's own settings.
pub open spec fn plain(name: Seq<char>, image: Seq<char>) -> ServiceSpecView {
    ServiceSpecView {
        name,
        image,
        entrypoint: Seq::empty(),
        cmd: Seq::empty(),
        env: Seq::empty(),
        exposed_ports: Seq::empty(),
        port_bindings: Seq::empty(),
        binds: Seq::empty(),
        volumes: Seq::empty(),
        extra_hosts: Seq::empty(),
        user: None,
        health_check: None,
    }
}

pub open spec fn nitro_image() -> Seq<char> {
    "offchainlabs/nitro-node:v3.2.1-d81324d"@
}

pub open spec fn postgres_image() -> Seq<char> {
    "postgres:14"@
}

/// The one-shot task that hands a database directory to the database user.
pub open spec fn db_init_view(name: Seq<char>, bind: Seq<char>) -> ServiceSpecView {
    ServiceSpecView {
        entrypoint: seq!["sh"@, "-c"@, "chown -R 2000:2000 /var/lib/postgresql/data"@],
        binds: seq![bind],
        ..plain(name, postgres_image())
    }
}

/// A database health probe that runs the shell command `probe`.
pub open spec fn pg_health(probe: Seq<char>) -> HealthCheckView {
    HealthCheckView {
        test: seq!["CMD-SHELL"@, probe],
        interval_ns: 10_000_000_000,
        timeout_ns: 5_000_000_000,
        retries: 5,
        start_period_ns: 10_000_000_000,
    }
}

pub open spec fn db_view(data_dir: Seq<char>) -> ServiceSpecView {
    ServiceSpecView {
        cmd: seq![
            "postgres"@,
            "-c"@,
            "max_connections=200"@,
            "-c"@,
            "client_connection_check_interval=60000"@,
        ],
        env: seq![
            "POSTGRES_DB=blockscout"@,
            "POSTGRES_USER=blockscout"@,
            "POSTGRES_PASSWORD=ceWb1MeLBEeOIfk65gU8EjF8"@,
        ],
        binds: seq![data_dir + "/blockscout-db-data:/var/lib/postgresql/data"@],
        port_bindings: seq![("5432/tcp"@, "7432"@)],
        user: Some("2000:2000"@),
        health_check: Some(pg_health("pg_isready -U blockscout -d blockscout"@)),
        ..plain("db"@, postgres_image())
    }
}

pub open spec fn stats_db_view(data_dir: Seq<char>) -> ServiceSpecView {
    ServiceSpecView {
        cmd: seq!["postgres"@, "-c"@, "max_connections=200"@],
        env: seq!["POSTGRES_DB=stats"@, "POSTGRES_USER=stats"@, "POSTGRES_PASSWORD=n0uejXPl61ci6ldCuE2gQU5Y"@],
        binds: seq![data_dir + "/stats-db-data:/var/lib/postgresql/data"@],
        port_bindings: seq![("5432/tcp"@, "7433"@)],
        user: Some("2000:2000"@),
        health_check: Some(pg_health("pg_isready -U stats -d stats"@)),
        ..plain("stats-db"@, postgres_image())
    }
}

pub open spec fn redis_view(data_dir: Seq<char>) -> ServiceSpecView {
    ServiceSpecView {
        cmd: seq!["redis-server"@],
        binds: seq![data_dir + "/redis-data:/data"@],
        ..plain("redis_db"@, "redis:alpine"@)
    }
}

/// The chain node's arguments that do not depend on its role.
pub open spec fn nitro_base_args(c: ConfigView) -> Seq<Seq<char>> {
    seq![
        "--parent-chain.connection.url="@ + c.parent_chain_rpc,
        "--chain.id="@ + decimal(c.chain_id as nat),
        "--chain.name="@ + c.chain_name,
        "--chain.info-json="@ + c.chain_info_json,
        "--http.api=net,web3,eth"@,
        "--http.corsdomain=*"@,
        "--http.addr=0.0.0.0"@,
        "--http.vhosts=*"@,
        "--ws.port=8548"@,
        "--ws.addr=0.0.0.0"@,
        "--ws.origins=*"@,
    ]
}

/// A sequencer publishes its feed; any other node forwards to the sequencer, if one is given.
pub open spec fn nitro_role_args(c: ConfigView) -> Seq<Seq<char>> {
    if c.is_sequencer {
        seq![
            "--node.feed.output.enable=true"@,
            "--node.feed.output.addr=0.0.0.0"@,
            "--node.feed.output.port=9642"@,
        ]
    } else {
        match c.sequencer_endpoint {
            Some(e) => seq!["--execution.forwarding-target="@ + e],
            None => Seq::empty(),
        }
    }
}

/// The data-availability arguments, present only where DAS is enabled.
pub open spec fn nitro_das_args(c: ConfigView) -> Seq<Seq<char>> {
    if c.enable_das {
        seq!["--node.data-availability.enable"@] + match c.das_endpoints {
            Some(e) => seq!["--node.data-availability.rest-aggregator.urls="@ + join_commas(e)],
            None => Seq::empty(),
        } + match c.das_online_url_list {
            Some(u) => seq!["--node.data-availability.rest-aggregator.online-url-list="@ + u],
            None => Seq::empty(),
        }
    } else {
        Seq::empty()
    }
}

pub open spec fn nitro_view(c: ConfigView) -> ServiceSpecView {
    ServiceSpecView {
        cmd: nitro_base_args(c) + nitro_role_args(c) + nitro_das_args(c),
        exposed_ports: seq!["8547/tcp"@, "8548/tcp"@, "9642/tcp"@],
        port_bindings: seq![("8547/tcp"@, "8547"@), ("8548/tcp"@, "8548"@), ("9642/tcp"@, "9642"@)],
        ..plain("nitro-node"@, nitro_image())
    }
}

pub open spec fn das_view(data_dir: Seq<char>) -> ServiceSpecView {
    ServiceSpecView {
        entrypoint: seq!["/bin/bash"@, "/das-server.sh"@],
        volumes: seq![
            data_dir + "/das-server.sh:/das-server.sh"@,
            data_dir + "/das-data:/home/user/das-data"@,
        ],
        exposed_ports: seq!["9876/tcp"@, "9877/tcp"@],
        ..plain("das-server"@, nitro_image())
    }
}

pub open spec fn host_gateway() -> Seq<Seq<char>> {
    seq!["host.docker.internal:host-gateway"@]
}

pub open spec fn backend_view(c: ConfigView, e: EnvContentsView) -> ServiceSpecView {
    ServiceSpecView {
        cmd: seq![
            "sh"@,
            "-c"@,
            "bin/blockscout eval \"Elixir.Explorer.ReleaseTasks.create_and_migrate()\" && bin/blockscout start"@,
        ],
        env: env_entries(e.blockscout),
        extra_hosts: host_gateway(),
        binds: seq![c.data_dir + "/logs:/app/logs"@],
        ..plain("backend"@, "blockscout/blockscout:"@ + c.tags.blockscout)
    }
}

pub open spec fn frontend_view(c: ConfigView, e: EnvContentsView) -> ServiceSpecView {
    ServiceSpecView {
        env: env_entries(e.frontend),
        ..plain("frontend"@, "ghcr.io/blockscout/frontend:"@ + c.tags.frontend)
    }
}

pub open spec fn stats_view(c: ConfigView, e: EnvContentsView) -> ServiceSpecView {
    ServiceSpecView {
        env: env_entries(e.stats),
        extra_hosts: host_gateway(),
        ..plain("stats"@, "ghcr.io/blockscout/stats:"@ + c.tags.stats)
    }
}

pub open spec fn visualizer_view(c: ConfigView, e: EnvContentsView) -> ServiceSpecView {
    ServiceSpecView {
        env: env_entries(e.visualizer),
        ..plain("visualizer"@, "ghcr.io/blockscout/visualizer:"@ + c.tags.visualizer)
    }
}

pub open spec fn sig_provider_view(c: ConfigView) -> ServiceSpecView {
    plain("sig-provider"@, "ghcr.io/blockscout/sig-provider:"@ + c.tags.sig_provider)
}

pub open spec fn verifier_view(c: ConfigView, e: EnvContentsView) -> ServiceSpecView {
    ServiceSpecView {
        env: env_entries(e.smart_contract_verifier),
        ..plain(
            "smart-contract-verifier"@,
            "ghcr.io/blockscout/smart-contract-verifier:"@ + c.tags.smart_contract_verifier,
        )
    }
}

pub open spec fn proxy_view(data_dir: Seq<char>) -> ServiceSpecView {
    ServiceSpecView {
        extra_hosts: host_gateway(),
        binds: seq![data_dir + "/proxy:/etc/nginx/templates"@],
        port_bindings: seq![("80/tcp"@, "80"@), ("8080/tcp"@, "8080"@), ("8081/tcp"@, "8081"@)],
        env: seq!["BACK_PROXY_PASS=http://backend:4000"@, "FRONT_PROXY_PASS=http://frontend:3000"@],
        ..plain("proxy"@, "nginx"@)
    }
}

fn blank(name: &str, image: String) -> (r: ServiceSpec)
    ensures
        r@ == plain(name@, image@),
{
    let r = ServiceSpec {
        name: text(name),
        image,
        entrypoint: Vec::new(),
        cmd: Vec::new(),
        env: Vec::new(),
        exposed_ports: Vec::new(),
        port_bindings: Vec::new(),
        binds: Vec::new(),
        volumes: Vec::new(),
        extra_hosts: Vec::new(),
        user: None,
        health_check: None,
    };
    assert(views(r.entrypoint@) =~= Seq::empty());
    assert(bindings_view(r.port_bindings@) =~= Seq::empty());
    r
}

fn bind_port(v: &mut Vec<PortBinding>, container_port: &str, host_port: &str)
    ensures
        bindings_view(final(v)@) == bindings_view(old(v)@).push((container_port@, host_port@)),
{
    v.push(PortBinding { container_port: text(container_port), host_port: text(host_port) });
    assert(bindings_view(final(v)@) =~= bindings_view(old(v)@).push((container_port@, host_port@)));
}

fn one(s: String) -> (r: Vec<String>)
    ensures
        views(r@) == seq![s@],
{
    let mut r = Vec::new();
    r.push(s);
    assert(views(r@) =~= seq![s@]);
    r
}

fn ownership_fix_spec(name: &str, bind: String) -> (r: ServiceSpec)
    ensures
        r@ == db_init_view(name@, bind@),
{
    let mut r = blank(name, text("postgres:14"));
    push_text(&mut r.entrypoint, "sh");
    push_text(&mut r.entrypoint, "-c");
    push_text(&mut r.entrypoint, "chown -R 2000:2000 /var/lib/postgresql/data");
    r.binds = one(bind);
    assert(views(r.entrypoint@) =~= db_init_view(name@, bind@).entrypoint);
    r
}

fn pg_health_check(probe: &str) -> (r: HealthCheck)
    ensures
        r@ == pg_health(probe@),
{
    let mut test = Vec::new();
    push_text(&mut test, "CMD-SHELL");
    push_text(&mut test, probe);
    assert(views(test@) =~= pg_health(probe@).test);
    HealthCheck {
        test,
        interval_ns: 10_000_000_000,
        timeout_ns: 5_000_000_000,
        retries: 5,
        start_period_ns: 10_000_000_000,
    }
}

/// The primary database's ownership fix.
pub fn db_init_spec(data_dir: &str) -> (r: ServiceSpec)
    ensures
        r@ == db_init_view("db-init"@, data_dir@ + "/blockscout-db-data:/var/lib/postgresql/data"@),
{
    ownership_fix_spec("db-init", concat(data_dir, "/blockscout-db-data:/var/lib/postgresql/data"))
}

/// The stats database's ownership fix.
pub fn stats_db_init_spec(data_dir: &str) -> (r: ServiceSpec)
    ensures
        r@ == db_init_view("stats-db-init"@, data_dir@ + "/stats-db-data:/var/lib/postgresql/data"@),
{
    ownership_fix_spec("stats-db-init", concat(data_dir, "/stats-db-data:/var/lib/postgresql/data"))
}

/// The primary database server, published on host port 7432.
pub fn db_spec(data_dir: &str) -> (r: ServiceSpec)
    ensures
        r@ == db_view(data_dir@),
{
    let mut r = blank("db", text("postgres:14"));
    push_text(&mut r.cmd, "postgres");
    push_text(&mut r.cmd, "-c");
    push_text(&mut r.cmd, "max_connections=200");
    push_text(&mut r.cmd, "-c");
    push_text(&mut r.cmd, "client_connection_check_interval=60000");
    push_text(&mut r.env, "POSTGRES_DB=blockscout");
    push_text(&mut r.env, "POSTGRES_USER=blockscout");
    push_text(&mut r.env, "POSTGRES_PASSWORD=ceWb1MeLBEeOIfk65gU8EjF8");
    r.binds = one(concat(data_dir, "/blockscout-db-data:/var/lib/postgresql/data"));
    bind_port(&mut r.port_bindings, "5432/tcp", "7432");
    r.user = Some(text("2000:2000"));
    r.health_check = Some(pg_health_check("pg_isready -U blockscout -d blockscout"));
    let ghost v = db_view(data_dir@);
    assert(views(r.cmd@) =~= v.cmd);
    assert(views(r.env@) =~= v.env);
    assert(bindings_view(r.port_bindings@) =~= v.port_bindings);
    r
}

/// The stats database server, published on host port 7433.
pub fn stats_db_spec(data_dir: &str) -> (r: ServiceSpec)
    ensures
        r@ == stats_db_view(data_dir@),
{
    let mut r = blank("stats-db", text("postgres:14"));
    push_text(&mut r.cmd, "postgres");
    push_text(&mut r.cmd, "-c");
    push_text(&mut r.cmd, "max_connections=200");
    push_text(&mut r.env, "POSTGRES_DB=stats");
    push_text(&mut r.env, "POSTGRES_USER=stats");
    push_text(&mut r.env, "POSTGRES_PASSWORD=n0uejXPl61ci6ldCuE2gQU5Y");
    r.binds = one(concat(data_dir, "/stats-db-data:/var/lib/postgresql/data"));
    bind_port(&mut r.port_bindings, "5432/tcp", "7433");
    r.user = Some(text("2000:2000"));
    r.health_check = Some(pg_health_check("pg_isready -U stats -d stats"));
    let ghost v = stats_db_view(data_dir@);
    assert(views(r.cmd@) =~= v.cmd);
    assert(views(r.env@) =~= v.env);
    assert(bindings_view(r.port_bindings@) =~= v.port_bindings);
    r
}

/// The cache server.
pub fn redis_spec(data_dir: &str) -> (r: ServiceSpec)
    ensures
        r@ == redis_view(data_dir@),
{
    let mut r = blank("redis_db", text("redis:alpine"));
    push_text(&mut r.cmd, "redis-server");
    r.binds = one(concat(data_dir, "/redis-data:/data"));
    assert(views(r.cmd@) =~= redis_view(data_dir@).cmd);
    r
}

/// The chain node's command line.
fn nitro_args(config: &OrbitStackConfig) -> (r: Vec<String>)
    ensures
        views(r@) == nitro_base_args(config@) + nitro_role_args(config@) + nitro_das_args(config@),
{
    let ghost c = config@;
    let mut r: Vec<String> = Vec::new();
    r.push(concat("--parent-chain.connection.url=", config.parent_chain_rpc.as_str()));
    let id = u64_text(config.chain_id);
    r.push(concat("--chain.id=", id.as_str()));
    r.push(concat("--chain.name=", config.chain_name.as_str()));
    r.push(concat("--chain.info-json=", config.chain_info_json.as_str()));
    push_text(&mut r, "--http.api=net,web3,eth");
    push_text(&mut r, "--http.corsdomain=*");
    push_text(&mut r, "--http.addr=0.0.0.0");
    push_text(&mut r, "--http.vhosts=*");
    push_text(&mut r, "--ws.port=8548");
    push_text(&mut r, "--ws.addr=0.0.0.0");
    push_text(&mut r, "--ws.origins=*");
    assert(views(r@) =~= nitro_base_args(c));
    let ghost base = views(r@);
    if !config.is_sequencer {
        match &config.sequencer_endpoint {
            Some(endpoint) => {
                r.push(concat("--execution.forwarding-target=", endpoint.as_str()));
            },
            None => {},
        }
    } else {
        push_text(&mut r, "--node.feed.output.enable=true");
        push_text(&mut r, "--node.feed.output.addr=0.0.0.0");
        push_text(&mut r, "--node.feed.output.port=9642");
    }
    assert(views(r@) =~= base + nitro_role_args(c));
    let ghost with_role = views(r@);
    if config.enable_das {
        push_text(&mut r, "--node.data-availability.enable");
        let ghost after_flag = views(r@);
        match &config.das_endpoints {
            Some(endpoints) => {
                let urls = join_with_commas(endpoints);
                r.push(concat("--node.data-availability.rest-aggregator.urls=", urls.as_str()));
            },
            None => {},
        }
        let ghost after_urls = views(r@);
        match &config.das_online_url_list {
            Some(url) => {
                r.push(concat("--node.data-availability.rest-aggregator.online-url-list=", url.as_str()));
            },
            None => {},
        }
        let ghost urls_part: Seq<Seq<char>> = match c.das_endpoints {
            Some(e) => seq!["--node.data-availability.rest-aggregator.urls="@ + join_commas(e)],
            None => Seq::empty(),
        };
        let ghost online_part: Seq<Seq<char>> = match c.das_online_url_list {
            Some(u) => seq!["--node.data-availability.rest-aggregator.online-url-list="@ + u],
            None => Seq::empty(),
        };
        assert(after_flag =~= with_role + seq!["--node.data-availability.enable"@]);
        assert(after_urls =~= after_flag + urls_part);
        assert(views(r@) =~= after_urls + online_part);
        assert(nitro_das_args(c) == seq!["--node.data-availability.enable"@] + urls_part + online_part);
        assert(views(r@) =~= with_role + nitro_das_args(c));
    } else {
        assert(views(r@) =~= with_role + nitro_das_args(c));
    }
    r
}

/// The chain node: JSON-RPC on 8547, WebSocket on 8548, feed on 9642.
pub fn nitro_node_spec(config: &OrbitStackConfig) -> (r: ServiceSpec)
    ensures
        r@ == nitro_view(config@),
{
    let mut r = blank("nitro-node", text("offchainlabs/nitro-node:v3.2.1-d81324d"));
    r.cmd = nitro_args(config);
    push_text(&mut r.exposed_ports, "8547/tcp");
    push_text(&mut r.exposed_ports, "8548/tcp");
    push_text(&mut r.exposed_ports, "9642/tcp");
    bind_port(&mut r.port_bindings, "8547/tcp", "8547");
    bind_port(&mut r.port_bindings, "8548/tcp", "8548");
    bind_port(&mut r.port_bindings, "9642/tcp", "9642");
    let ghost v = nitro_view(config@);
    assert(views(r.exposed_ports@) =~= v.exposed_ports);
    assert(bindings_view(r.port_bindings@) =~= v.port_bindings);
    r
}

/// The data-availability server, run from a script under the data directory.
pub fn das_server_spec(data_dir: &str) -> (r: ServiceSpec)
    ensures
        r@ == das_view(data_dir@),
{
    let mut r = blank("das-server", text("offchainlabs/nitro-node:v3.2.1-d81324d"));
    push_text(&mut r.entrypoint, "/bin/bash");
    push_text(&mut r.entrypoint, "/das-server.sh");
    r.volumes.push(concat(data_dir, "/das-server.sh:/das-server.sh"));
    r.volumes.push(concat(data_dir, "/das-data:/home/user/das-data"));
    push_text(&mut r.exposed_ports, "9876/tcp");
    push_text(&mut r.exposed_ports, "9877/tcp");
    let ghost v = das_view(data_dir@);
    assert(views(r.entrypoint@) =~= v.entrypoint);
    assert(views(r.volumes@) =~= v.volumes);
    assert(views(r.exposed_ports@) =~= v.exposed_ports);
    r
}

fn gateway_hosts() -> (r: Vec<String>)
    ensures
        views(r@) == host_gateway(),
{
    one(text("host.docker.internal:host-gateway"))
}

/// The explorer backend, which migrates its database before it starts.
pub fn backend_spec(config: &OrbitStackConfig, env: &EnvContents) -> (r: ServiceSpec)
    ensures
        r@ == backend_view(config@, env@),
{
    let mut r = blank("backend", concat("blockscout/blockscout:", config.docker_tags.blockscout.as_str()));
    push_text(&mut r.cmd, "sh");
    push_text(&mut r.cmd, "-c");
    push_text(
        &mut r.cmd,
        "bin/blockscout eval \"Elixir.Explorer.ReleaseTasks.create_and_migrate()\" && bin/blockscout start",
    );
    r.env = parse_env_text(env.blockscout.as_str());
    r.extra_hosts = gateway_hosts();
    r.binds = one(concat(config.data_dir.as_str(), "/logs:/app/logs"));
    assert(views(r.cmd@) =~= backend_view(config@, env@).cmd);
    r
}

/// The explorer frontend.
pub fn frontend_spec(config: &OrbitStackConfig, env: &EnvContents) -> (r: ServiceSpec)
    ensures
        r@ == frontend_view(config@, env@),
{
    let mut r = blank("frontend", concat("ghcr.io/blockscout/frontend:", config.docker_tags.frontend.as_str()));
    r.env = parse_env_text(env.frontend.as_str());
    r
}

/// The explorer statistics service.
pub fn stats_spec(config: &OrbitStackConfig, env: &EnvContents) -> (r: ServiceSpec)
    ensures
        r@ == stats_view(config@, env@),
{
    let mut r = blank("stats", concat("ghcr.io/blockscout/stats:", config.docker_tags.stats.as_str()));
    r.env = parse_env_text(env.stats.as_str());
    r.extra_hosts = gateway_hosts();
    r
}

/// The contract visualizer.
pub fn visualizer_spec(config: &OrbitStackConfig, env: &EnvContents) -> (r: ServiceSpec)
    ensures
        r@ == visualizer_view(config@, env@),
{
    let mut r = blank("visualizer", concat("ghcr.io/blockscout/visualizer:", config.docker_tags.visualizer.as_str()));
    r.env = parse_env_text(env.visualizer.as_str());
    r
}

/// The signature provider.
pub fn sig_provider_spec(config: &OrbitStackConfig) -> (r: ServiceSpec)
    ensures
        r@ == sig_provider_view(config@),
{
    blank("sig-provider", concat("ghcr.io/blockscout/sig-provider:", config.docker_tags.sig_provider.as_str()))
}

/// The contract verifier.
pub fn smart_contract_verifier_spec(config: &OrbitStackConfig, env: &EnvContents) -> (r: ServiceSpec)
    ensures
        r@ == verifier_view(config@, env@),
{
    let mut r = blank(
        "smart-contract-verifier",
        concat("ghcr.io/blockscout/smart-contract-verifier:", config.docker_tags.smart_contract_verifier.as_str()),
    );
    r.env = parse_env_text(env.smart_contract_verifier.as_str());
    r
}

/// The reverse proxy on host ports 80, 8080 and 8081, routing to the backend and the frontend.
pub fn proxy_spec(data_dir: &str) -> (r: ServiceSpec)
    ensures
        r@ == proxy_view(data_dir@),
{
    let mut r = blank("proxy", text("nginx"));
    r.extra_hosts = gateway_hosts();
    r.binds = one(concat(data_dir, "/proxy:/etc/nginx/templates"));
    bind_port(&mut r.port_bindings, "80/tcp", "80");
    bind_port(&mut r.port_bindings, "8080/tcp", "8080");
    bind_port(&mut r.port_bindings, "8081/tcp", "8081");
    push_text(&mut r.env, "BACK_PROXY_PASS=http://backend:4000");
    push_text(&mut r.env, "FRONT_PROXY_PASS=http://frontend:3000");
    let ghost v = proxy_view(data_dir@);
    assert(bindings_view(r.port_bindings@) =~= v.port_bindings);
    assert(views(r.env@) =~= v.env);
    r
}

fn copy_bindings(v: &Vec<PortBinding>) -> (r: Vec<PortBinding>)
    ensures
        bindings_view(r@) == bindings_view(v@),
{
    let mut r: Vec<PortBinding> = Vec::new();
    let mut i: usize = 0;
    while i < v.len()
        invariant
            i <= v@.len(),
            bindings_view(r@) == bindings_view(v@.take(i as int)),
        decreases v.len() - i,
    {
        r.push(PortBinding { container_port: v[i].container_port.clone(), host_port: v[i].host_port.clone() });
        assert(bindings_view(v@.take(i + 1))
            =~= bindings_view(v@.take(i as int)).push((v@[i as int].container_port@, v@[i as int].host_port@)));
        i = i + 1;
    }
    assert(v@.take(i as int) =~= v@);
    r
}

impl ServiceSpec {
    /// A copy of this descriptor.
    pub fn duplicate(&self) -> (r: ServiceSpec)
        ensures
            r@ == self@,
    {
        ServiceSpec {
            name: self.name.clone(),
            image: self.image.clone(),
            entrypoint: copy_texts(&self.entrypoint),
            cmd: copy_texts(&self.cmd),
            env: copy_texts(&self.env),
            exposed_ports: copy_texts(&self.exposed_ports),
            port_bindings: copy_bindings(&self.port_bindings),
            binds: copy_texts(&self.binds),
            volumes: copy_texts(&self.volumes),
            extra_hosts: copy_texts(&self.extra_hosts),
            user: match &self.user {
                Some(u) => Some(u.clone()),
                None => None,
            },
            health_check: match &self.health_check {
                Some(h) => Some(HealthCheck {
                    test: copy_texts(&h.test),
                    interval_ns: h.interval_ns,
                    timeout_ns: h.timeout_ns,
                    retries: h.retries,
                    start_period_ns: h.start_period_ns,
                }),
                None => None,
            },
        }
    }
}

} // verus!
