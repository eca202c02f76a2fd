//! Health reports: the status of each dependency, the overall verdict, and the
//! HTTP status that a health endpoint answers with.
use vstd::prelude::*;

verus! {

/// HTTP status of an answer when every dependency is healthy.
pub const HTTP_OK: u16 = 200;

/// HTTP status of an answer when some dependency is degraded.
pub const HTTP_SERVICE_UNAVAILABLE: u16 = 503;

/// The state of one dependency.
#[derive(Debug, Clone, Copy, PartialEq, Eq, Structural)]
pub enum ComponentStatus {
    Healthy,
    Degraded,
    NotConfigured,
}

impl ComponentStatus {
    /// The word that a health report shows for this state.
    pub open spec fn label(self) -> Seq<char> {
        match self {
            ComponentStatus::Healthy => "healthy"@,
            ComponentStatus::Degraded => "degraded"@,
            ComponentStatus::NotConfigured => "not_configured"@,
        }
    }

    /// The word that a health report shows for this state.
    pub fn as_text(&self) -> (s: String)
        ensures
            s@ == self.label(),
    {
        match self {
            ComponentStatus::Healthy => String::from_str("healthy"),
            ComponentStatus::Degraded => String::from_str("degraded"),
            ComponentStatus::NotConfigured => String::from_str("not_configured"),
        }
    }
}

/// How a probe of an HTTP dependency ended.
#[derive(Debug, Clone, Copy, PartialEq, Eq, Structural)]
pub enum ProbeOutcome {
    /// The dependency answered with this HTTP status.
    Responded { status: u16 },
    /// The request failed before an answer came.
    RequestFailed,
    /// No answer came within the time allowed.
    TimedOut,
}

/// How the check of the response cache ended.
#[derive(Debug, Clone, Copy, PartialEq, Eq, Structural)]
pub enum CacheProbe {
    /// No cache is configured.
    NotConfigured,
    /// The cache was checked and answered `healthy`.
    Checked { healthy: bool },
}

/// An HTTP status is a success when it lies in 200..=299.
pub fn is_success_status(status: u16) -> (b: bool)
    ensures
        b == (200 <= status && status < 300),
{
    200 <= status && status < 300
}

/// The state of an HTTP dependency after a probe: healthy only when it answered
/// with a success status.
pub open spec fn probe_status(outcome: ProbeOutcome) -> ComponentStatus {
    match outcome {
        ProbeOutcome::Responded { status } => if 200 <= status < 300 {
            ComponentStatus::Healthy
        } else {
            ComponentStatus::Degraded
        },
        _ => ComponentStatus::Degraded,
    }
}

/// The state of an HTTP dependency after a probe.
pub fn classify_probe(outcome: ProbeOutcome) -> (s: ComponentStatus)
    ensures
        s == probe_status(outcome),
{
    match outcome {
        ProbeOutcome::Responded { status } => if is_success_status(status) {
            ComponentStatus::Healthy
        } else {
            ComponentStatus::Degraded
        },
        _ => ComponentStatus::Degraded,
    }
}

/// The state of an optional HTTP dependency: not configured where no address is set.
pub open spec fn optional_probe_status(outcome: Option<ProbeOutcome>) -> ComponentStatus {
    match outcome {
        Some(o) => probe_status(o),
        None => ComponentStatus::NotConfigured,
    }
}

/// The state of the cache: a configured cache is always checked, and is healthy
/// exactly when the check says so.
pub open spec fn cache_status(cache: CacheProbe) -> ComponentStatus {
    match cache {
        CacheProbe::NotConfigured => ComponentStatus::NotConfigured,
        CacheProbe::Checked { healthy } => if healthy {
            ComponentStatus::Healthy
        } else {
            ComponentStatus::Degraded
        },
    }
}

/// The state of every dependency, and whether all of them are fine.
#[derive(Debug, Clone, Copy, PartialEq, Eq, Structural)]
pub struct ComponentReport {
    pub database: ComponentStatus,
    pub redis: ComponentStatus,
    pub horizon: ComponentStatus,
    pub soroban_rpc: ComponentStatus,
    pub all_healthy: bool,
}

/// The report on the dependencies, from what each check found: the database
/// answered or not; how the cache check ended; how the probes of Horizon and of
/// Soroban RPC ended, where their addresses are set.
pub open spec fn component_report(
    database_ok: bool,
    cache: CacheProbe,
    horizon: Option<ProbeOutcome>,
    soroban_rpc: Option<ProbeOutcome>,
) -> ComponentReport {
    let database = if database_ok {
        ComponentStatus::Healthy
    } else {
        ComponentStatus::Degraded
    };
    ComponentReport {
        database,
        redis: cache_status(cache),
        horizon: optional_probe_status(horizon),
        soroban_rpc: optional_probe_status(soroban_rpc),
        all_healthy: database_ok && !(cache matches CacheProbe::Checked { healthy: false })
            && (horizon matches Some(o) ==> probe_status(o) == ComponentStatus::Healthy) && (
        soroban_rpc matches Some(o) ==> probe_status(o) == ComponentStatus::Healthy),
    }
}

/// Puts together the report on the dependencies from what each check found.
pub fn assess_components(
    database_ok: bool,
    cache: CacheProbe,
    horizon: Option<ProbeOutcome>,
    soroban_rpc: Option<ProbeOutcome>,
) -> (r: ComponentReport)
    ensures
        r == component_report(database_ok, cache, horizon, soroban_rpc),
{
    let mut all_healthy = true;
    let database = if database_ok {
        ComponentStatus::Healthy
    } else {
        all_healthy = false;
        ComponentStatus::Degraded
    };
    let redis = match cache {
        CacheProbe::Checked { healthy } => if healthy {
            ComponentStatus::Healthy
        } else {
            all_healthy = false;
            ComponentStatus::Degraded
        },
        CacheProbe::NotConfigured => ComponentStatus::NotConfigured,
    };
    let horizon_status = match horizon {
        Some(outcome) => {
            let status = classify_probe(outcome);
            if status != ComponentStatus::Healthy {
                all_healthy = false;
            }
            status
        },
        None => ComponentStatus::NotConfigured,
    };
    let soroban_status = match soroban_rpc {
        Some(outcome) => {
            let status = classify_probe(outcome);
            if status != ComponentStatus::Healthy {
                all_healthy = false;
            }
            status
        },
        None => ComponentStatus::NotConfigured,
    };
    ComponentReport {
        database,
        redis,
        horizon: horizon_status,
        soroban_rpc: soroban_status,
        all_healthy,
    }
}

/// The entries of a report as a health answer lists them: each dependency's name
/// and the word for its state.
pub open spec fn report_entries(r: ComponentReport) -> Seq<(Seq<char>, Seq<char>)> {
    seq![
        ("database"@, r.database.label()),
        ("redis"@, r.redis.label()),
        ("horizon"@, r.horizon.label()),
        ("soroban_rpc"@, r.soroban_rpc.label()),
    ]
}

/// The text of a list of name and value pairs.
pub open spec fn entries_view(entries: Seq<(String, String)>) -> Seq<(Seq<char>, Seq<char>)> {
    entries.map_values(|e: (String, String)| (e.0@, e.1@))
}

impl ComponentReport {
    /// Each dependency's name and the word for its state.
    pub fn entries(&self) -> (v: Vec<(String, String)>)
        ensures
            entries_view(v@) == report_entries(*self),
    {
        let mut v: Vec<(String, String)> = Vec::new();
        v.push((String::from_str("database"), self.database.as_text()));
        v.push((String::from_str("redis"), self.redis.as_text()));
        v.push((String::from_str("horizon"), self.horizon.as_text()));
        v.push((String::from_str("soroban_rpc"), self.soroban_rpc.as_text()));
        assert(entries_view(v@) =~= report_entries(*self));
        v
    }
}

/// The HTTP status of a health answer.
pub open spec fn health_http_status(all_healthy: bool) -> u16 {
    if all_healthy {
        HTTP_OK
    } else {
        HTTP_SERVICE_UNAVAILABLE
    }
}

/// The answer of the general health endpoint.
#[derive(Debug)]
pub struct HealthResponse {
    pub status: String,
    pub timestamp: String,
    pub version: String,
    pub components: ComponentReport,
}

/// The answer of the readiness endpoint.
#[derive(Debug)]
pub struct DependenciesHealthResponse {
    pub status: String,
    pub timestamp: String,
    pub components: ComponentReport,
}

/// The overall word of the general health endpoint.
pub open spec fn health_label(all_healthy: bool) -> Seq<char> {
    if all_healthy {
        "healthy"@
    } else {
        "unhealthy"@
    }
}

/// The overall word of the readiness endpoint.
pub open spec fn readiness_label(all_healthy: bool) -> Seq<char> {
    if all_healthy {
        "ok"@
    } else {
        "degraded"@
    }
}

/// The general health answer at `timestamp` for a service of `version`: `healthy`
/// and 200 when every dependency is fine, else `unhealthy` and 503.
pub fn health_check(timestamp: String, version: String, components: ComponentReport) -> (r: (
    u16,
    HealthResponse,
))
    ensures
        r.0 == health_http_status(components.all_healthy),
        r.1.status@ == health_label(components.all_healthy),
        r.1.timestamp == timestamp,
        r.1.version == version,
        r.1.components == components,
{
    let status = if components.all_healthy {
        String::from_str("healthy")
    } else {
        String::from_str("unhealthy")
    };
    let http_status = if components.all_healthy {
        HTTP_OK
    } else {
        HTTP_SERVICE_UNAVAILABLE
    };
    (http_status, HealthResponse { status, timestamp, version, components })
}

/// The readiness answer at `timestamp`: `ok` and 200 when every dependency is fine,
/// else `degraded` and 503.
pub fn dependency_health(timestamp: String, components: ComponentReport) -> (r: (
    u16,
    DependenciesHealthResponse,
))
    ensures
        r.0 == health_http_status(components.all_healthy),
        r.1.status@ == readiness_label(components.all_healthy),
        r.1.timestamp == timestamp,
        r.1.components == components,
{
    let status = if components.all_healthy {
        String::from_str("ok")
    } else {
        String::from_str("degraded")
    };
    let http_status = if components.all_healthy {
        HTTP_OK
    } else {
        HTTP_SERVICE_UNAVAILABLE
    };
    (http_status, DependenciesHealthResponse { status, timestamp, components })
}

/// A report says all is healthy exactly when no dependency is degraded; a
/// dependency that is not configured never makes it unhealthy.
pub proof fn law_all_healthy_iff_none_degraded(
    database_ok: bool,
    cache: CacheProbe,
    horizon: Option<ProbeOutcome>,
    soroban_rpc: Option<ProbeOutcome>,
)
    ensures
        ({
            let r = component_report(database_ok, cache, horizon, soroban_rpc);
            r.all_healthy <==> (r.database != ComponentStatus::Degraded && r.redis
                != ComponentStatus::Degraded && r.horizon != ComponentStatus::Degraded
                && r.soroban_rpc != ComponentStatus::Degraded)
        }),
{
}

/// An HTTP dependency counts as healthy exactly when it answered with a 2xx status.
pub proof fn law_probe_healthy_iff_success(outcome: ProbeOutcome)
    ensures
        probe_status(outcome) == ComponentStatus::Healthy <==> (outcome matches ProbeOutcome::Responded {
            status,
        } && 200 <= status < 300),
        probe_status(outcome) != ComponentStatus::Healthy ==> probe_status(outcome)
            == ComponentStatus::Degraded,
{
}

/// Both health endpoints answer 200 for a report with all dependencies healthy and
/// 503 otherwise, so they always agree on the HTTP status.
pub proof fn law_endpoints_agree(all_healthy: bool)
    ensures
        health_http_status(all_healthy) == HTTP_OK <==> all_healthy,
        health_http_status(all_healthy) == HTTP_SERVICE_UNAVAILABLE <==> !all_healthy,
{
}

/// The words of the states: `healthy`, `degraded`, `not_configured`.
pub proof fn law_status_words()
    ensures
        ComponentStatus::Healthy.label() == "healthy"@,
        ComponentStatus::Degraded.label() == "degraded"@,
        ComponentStatus::NotConfigured.label() == "not_configured"@,
{
}

/// What each check makes of its dependency: the database is healthy exactly when
/// it answered; a cache that is not configured is reported so, and a configured
/// one is healthy exactly when its check says so; an HTTP dependency whose address
/// is not set is not configured, and one that was probed is healthy when it
/// answered with a 2xx status and degraded otherwise (failed, timed out, other status).
pub proof fn law_component_states(
    database_ok: bool,
    cache: CacheProbe,
    horizon: Option<ProbeOutcome>,
    soroban_rpc: Option<ProbeOutcome>,
)
    ensures
        ({
            let r = component_report(database_ok, cache, horizon, soroban_rpc);
            &&& r.database == (if database_ok {
                ComponentStatus::Healthy
            } else {
                ComponentStatus::Degraded
            })
            &&& cache is NotConfigured ==> r.redis == ComponentStatus::NotConfigured
            &&& cache == (CacheProbe::Checked { healthy: true }) ==> r.redis
                == ComponentStatus::Healthy
            &&& cache == (CacheProbe::Checked { healthy: false }) ==> r.redis
                == ComponentStatus::Degraded
            &&& horizon is None ==> r.horizon == ComponentStatus::NotConfigured
            &&& soroban_rpc is None ==> r.soroban_rpc == ComponentStatus::NotConfigured
        }),
        forall|status: u16|
            horizon == Some(ProbeOutcome::Responded { status }) ==> component_report(
                database_ok,
                cache,
                horizon,
                soroban_rpc,
            ).horizon == (if 200 <= status < 300 {
                ComponentStatus::Healthy
            } else {
                ComponentStatus::Degraded
            }),
        forall|status: u16|
            soroban_rpc == Some(ProbeOutcome::Responded { status }) ==> component_report(
                database_ok,
                cache,
                horizon,
                soroban_rpc,
            ).soroban_rpc == (if 200 <= status < 300 {
                ComponentStatus::Healthy
            } else {
                ComponentStatus::Degraded
            }),
        horizon == Some(ProbeOutcome::RequestFailed) || horizon == Some(ProbeOutcome::TimedOut)
            ==> component_report(database_ok, cache, horizon, soroban_rpc).horizon
            == ComponentStatus::Degraded,
        soroban_rpc == Some(ProbeOutcome::RequestFailed) || soroban_rpc == Some(
            ProbeOutcome::TimedOut,
        ) ==> component_report(database_ok, cache, horizon, soroban_rpc).soroban_rpc
            == ComponentStatus::Degraded,
{
}

/// The entries of a report name the four dependencies, in a fixed order, and each
/// entry carries the word of the dependency it names.
pub proof fn law_entries_name_their_components(r: ComponentReport)
    ensures
        report_entries(r).len() == 4,
        report_entries(r)[0] == ("database"@, r.database.label()),
        report_entries(r)[1] == ("redis"@, r.redis.label()),
        report_entries(r)[2] == ("horizon"@, r.horizon.label()),
        report_entries(r)[3] == ("soroban_rpc"@, r.soroban_rpc.label()),
        forall|i: int, j: int|
            0 <= i < j < report_entries(r).len() ==> report_entries(r)[i].0 != report_entries(
                r,
            )[j].0,
{
    reveal_strlit("database");
    reveal_strlit("redis");
    reveal_strlit("horizon");
    reveal_strlit("soroban_rpc");
    let e = report_entries(r);
    assert("database"@[0] != "redis"@[0]);
    assert("database"@[0] != "horizon"@[0]);
    assert("database"@[0] != "soroban_rpc"@[0]);
    assert("redis"@[0] != "horizon"@[0]);
    assert("redis"@[0] != "soroban_rpc"@[0]);
    assert("horizon"@[0] != "soroban_rpc"@[0]);
}

/// The words and HTTP statuses of the two health answers: 200 with `healthy` or
/// `ok` when every dependency is fine, 503 with `unhealthy` or `degraded` otherwise.
pub proof fn law_health_answers()
    ensures
        health_http_status(true) == 200,
        health_http_status(false) == 503,
        health_label(true) == "healthy"@,
        health_label(false) == "unhealthy"@,
        readiness_label(true) == "ok"@,
        readiness_label(false) == "degraded"@,
{
}

} // verus!
