//! What is configured, and the plan that is made of it before anything is
//! attempted: the ratio is checked first, then the endpoints, credentials,
//! consistency level, routing policy and migration statements are fixed.

use vstd::prelude::*;
use vstd::string::*;
use crate::backoff::RetryPolicy;
use crate::consistency::{resolve_consistency, resolved, ConsistencyLevel};
use crate::outcome::ErrorKind;
use crate::schema::{migration_statements, statements_of};
use crate::text::{
    lemma_piece_is_part, same_text, split, split_on, texts, to_uppercase, uppercase_of,
};
use crate::workload::WorkloadRatio;

verus! {

/// The options of the command line.
#[derive(Clone, Debug)]
pub struct Opt {
    /// The weight of reads, in percent.
    pub read_ratio: u8,
    /// The weight of writes, in percent.
    pub write_ratio: u8,
    /// The number of workers.
    pub simulators: u16,
    /// The host, or the hosts separated by commas.
    pub db_host: String,
    /// The port given on the command line. Sessions are opened on 9042.
    pub db_port: String,
    /// The user name.
    pub db_user: String,
    /// The password.
    pub db_password: String,
}

/// The values of the environment variables, where they are set.
#[derive(Clone, Debug)]
pub struct Environment {
    /// `CL`: the name of the consistency level.
    pub consistency: Option<String>,
    /// `DATACENTER`: the preferred datacenter.
    pub datacenter: Option<String>,
    /// `MIGRATE`: whether the schema is migrated.
    pub migrate: Option<String>,
    /// `RF`: the replication factor.
    pub replication_factor: Option<String>,
}

/// A user name and a password.
#[derive(Clone, Debug)]
pub struct Credentials {
    pub username: String,
    pub password: String,
}

/// How queries are routed to the nodes of the cluster.
#[derive(Clone, Debug)]
pub struct RoutingPolicy {
    pub preferred_datacenter: String,
    pub token_aware: bool,
    pub permit_cross_datacenter_failover: bool,
}

/// All that opening the session takes.
#[derive(Clone, Debug)]
pub struct ConnectionPlan {
    /// The nodes to contact, each as `host:9042`.
    pub endpoints: Vec<String>,
    pub credentials: Credentials,
    pub consistency: ConsistencyLevel,
    pub routing: RoutingPolicy,
}

/// All that a run takes, fixed before the first attempt to connect.
#[derive(Clone, Debug)]
pub struct StartupPlan {
    pub connection: ConnectionPlan,
    pub retry: RetryPolicy,
    /// The statements of the migration, in order; none if it is disabled.
    pub statements: Vec<String>,
    pub workers: u16,
    pub ratio: WorkloadRatio,
}

/// The value of a variable, or the default where it is not set.
pub open spec fn value_or(value: Option<String>, default: Seq<char>) -> Seq<char> {
    match value {
        Some(text) => text@,
        None => default,
    }
}

/// Each host with the port of the cluster behind it.
pub open spec fn with_port(hosts: Seq<Seq<char>>) -> Seq<Seq<char>> {
    hosts.map_values(|host: Seq<char>| host + ":9042"@)
}

/// The endpoints that a configured host value stands for: the hosts between
/// its commas, each as `host:9042`. There is at least one.
pub open spec fn endpoints_of(host: Seq<char>) -> Seq<Seq<char>> {
    with_port(split_on(host, ','))
}

/// Whether a value in upper case leaves the migration on: every value does
/// but `FALSE`.
pub open spec fn leaves_on(upper: Seq<char>) -> bool {
    upper != "FALSE"@
}

/// Whether the migration runs: always, unless the value is `false` in any
/// mix of cases.
pub open spec fn migrates(value: Seq<char>) -> bool {
    leaves_on(uppercase_of(value))
}

/// The value of a variable, or the default where it is not set.
pub fn value_or_default(value: &Option<String>, default: &str) -> (text: String)
    ensures
        text@ == value_or(*value, default@),
{
    match value {
        Some(text) => text.clone(),
        None => String::from_str(default),
    }
}

/// The endpoints that a configured host value stands for.
pub fn endpoints(host: &str) -> (endpoints: Vec<String>)
    ensures
        texts(endpoints@) == endpoints_of(host@),
        endpoints@.len() >= 1,
{
    let hosts = split(host, ',');
    let mut endpoints: Vec<String> = Vec::new();
    let mut i: usize = 0;
    while i < hosts.len()
        invariant
            i <= hosts.len(),
            texts(endpoints@) == with_port(texts(hosts@).take(i as int)),
        decreases hosts.len() - i,
    {
        let endpoint = hosts[i].clone().concat(":9042");
        let ghost before = endpoints@;
        endpoints.push(endpoint);
        assert(texts(endpoints@) == texts(before).push(endpoint@));
        assert(texts(hosts@).take(i + 1) == texts(hosts@).take(i as int).push(hosts@[i as int]@));
        assert(with_port(texts(hosts@).take(i + 1)) == with_port(
            texts(hosts@).take(i as int),
        ).push(hosts@[i as int]@ + ":9042"@));
        i += 1;
    }
    assert(texts(hosts@).take(hosts.len() as int) == texts(hosts@));
    assert(texts(endpoints@).len() == endpoints@.len());
    endpoints
}

/// Whether a value of `MIGRATE` in upper case leaves the migration on.
pub fn enabled_by_upper(upper: &str) -> (enabled: bool)
    ensures
        enabled == leaves_on(upper@),
{
    !same_text(upper, "FALSE")
}

/// Whether the migration runs for a value of `MIGRATE`.
pub fn migration_enabled(value: &str) -> (enabled: bool)
    ensures
        enabled == migrates(value@),
{
    let upper = to_uppercase(value);
    enabled_by_upper(upper.as_str())
}

/// Whether a plan is the one that the options, the environment and the
/// schema script call for. The user name and the password are taken from
/// their own options. A variable that is not set counts as empty, but for the
/// datacenter (`datacenter1`) and the replication factor (`1`). Routing is
/// token-aware and stays in the preferred datacenter; retries follow the
/// standard policy.
pub open spec fn planned_by(
    plan: StartupPlan,
    opt: Opt,
    environment: Environment,
    schema: Seq<char>,
) -> bool {
    &&& plan.ratio.wf()
    &&& plan.ratio.read() == opt.read_ratio
    &&& plan.ratio.write() == opt.write_ratio
    &&& plan.workers == opt.simulators
    &&& plan.retry == RetryPolicy {
        initial_delay_ms: 500,
        max_delay_ms: 20_000,
        retry_limit: None,
    }
    &&& texts(plan.connection.endpoints@) == endpoints_of(opt.db_host@)
    &&& plan.connection.credentials.username@ == opt.db_user@
    &&& plan.connection.credentials.password@ == opt.db_password@
    &&& plan.connection.consistency == resolved(value_or(environment.consistency, ""@))
    &&& plan.connection.routing.preferred_datacenter@ == value_or(
        environment.datacenter,
        "datacenter1"@,
    )
    &&& plan.connection.routing.token_aware
    &&& !plan.connection.routing.permit_cross_datacenter_failover
    &&& texts(plan.statements@) == if migrates(value_or(environment.migrate, ""@)) {
        statements_of(schema, value_or(environment.replication_factor, "1"@))
    } else {
        Seq::<Seq<char>>::empty()
    }
}

/// The plan of a run, or `Configuration` where the read and write ratios do
/// not add up to 100. The ratio is checked before anything else is looked at.
pub fn plan_startup(opt: &Opt, environment: &Environment, schema: &str) -> (plan: Result<
    StartupPlan,
    ErrorKind,
>)
    ensures
        plan is Ok <==> opt.read_ratio + opt.write_ratio == 100,
        plan is Err ==> plan->Err_0 == ErrorKind::Configuration,
        plan matches Ok(p) ==> planned_by(p, *opt, *environment, schema@),
{
    let ratio = match WorkloadRatio::new(opt.read_ratio, opt.write_ratio) {
        Ok(ratio) => ratio,
        Err(kind) => {
            return Err(kind);
        },
    };
    let level_name = value_or_default(&environment.consistency, "");
    let datacenter = value_or_default(&environment.datacenter, "datacenter1");
    let migrate = value_or_default(&environment.migrate, "");
    let statements = if migration_enabled(migrate.as_str()) {
        let replication_factor = value_or_default(&environment.replication_factor, "1");
        migration_statements(schema, replication_factor.as_str())
    } else {
        Vec::new()
    };
    assert(texts(Seq::<String>::empty()) == Seq::<Seq<char>>::empty());
    Ok(
        StartupPlan {
            connection: ConnectionPlan {
                endpoints: endpoints(opt.db_host.as_str()),
                credentials: Credentials {
                    username: opt.db_user.clone(),
                    password: opt.db_password.clone(),
                },
                consistency: resolve_consistency(level_name.as_str()),
                routing: RoutingPolicy {
                    preferred_datacenter: datacenter,
                    token_aware: true,
                    permit_cross_datacenter_failover: false,
                },
            },
            retry: RetryPolicy::standard(),
            statements,
            workers: opt.simulators,
            ratio,
        },
    )
}

/// There is always an endpoint, and each endpoint is a host without a comma
/// followed by `:9042`.
pub proof fn law_endpoints_are_shaped(host: Seq<char>)
    ensures
        endpoints_of(host).len() >= 1,
        forall|k: int|
            0 <= k < endpoints_of(host).len() ==> {
                let endpoint = #[trigger] endpoints_of(host)[k];
                &&& endpoint.len() >= 5
                &&& endpoint.skip(endpoint.len() - 5) == ":9042"@
                &&& !endpoint.take(endpoint.len() - 5).contains(',')
            },
{
    reveal_strlit(":9042");
    assert(":9042"@.len() == 5);
    assert forall|k: int| 0 <= k < endpoints_of(host).len() implies {
        let endpoint = #[trigger] endpoints_of(host)[k];
        &&& endpoint.len() >= 5
        &&& endpoint.skip(endpoint.len() - 5) == ":9042"@
        &&& !endpoint.take(endpoint.len() - 5).contains(',')
    } by {
        let piece = split_on(host, ',')[k];
        let endpoint = endpoints_of(host)[k];
        lemma_piece_is_part(host, ',', 0, k);
        assert(endpoint == piece + ":9042"@);
        assert(endpoint.skip(endpoint.len() - 5) == ":9042"@);
        assert(endpoint.take(endpoint.len() - 5) == piece);
    }
}

} // verus!
