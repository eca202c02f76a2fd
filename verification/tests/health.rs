use api::config::{dependency_timeout_ms, setting_or, slow_query_threshold_ms};
use api::health::{
    assess_components, classify_probe, dependency_health, health_check, is_success_status,
    CacheProbe, ComponentStatus, ProbeOutcome,
};

#[test]
fn probe_success_is_healthy() {
    assert_eq!(classify_probe(ProbeOutcome::Responded { status: 200 }), ComponentStatus::Healthy);
    assert_eq!(classify_probe(ProbeOutcome::Responded { status: 299 }), ComponentStatus::Healthy);
    assert_eq!(classify_probe(ProbeOutcome::Responded { status: 300 }), ComponentStatus::Degraded);
    assert_eq!(classify_probe(ProbeOutcome::Responded { status: 199 }), ComponentStatus::Degraded);
    assert_eq!(classify_probe(ProbeOutcome::Responded { status: 503 }), ComponentStatus::Degraded);
    assert_eq!(classify_probe(ProbeOutcome::RequestFailed), ComponentStatus::Degraded);
    assert_eq!(classify_probe(ProbeOutcome::TimedOut), ComponentStatus::Degraded);
    assert!(is_success_status(204));
    assert!(!is_success_status(404));
}

#[test]
fn all_fine_report() {
    let r = assess_components(
        true,
        CacheProbe::Checked { healthy: true },
        Some(ProbeOutcome::Responded { status: 200 }),
        None,
    );
    assert!(r.all_healthy);
    let entries = r.entries();
    let expected = [
        ("database", "healthy"),
        ("redis", "healthy"),
        ("horizon", "healthy"),
        ("soroban_rpc", "not_configured"),
    ];
    assert_eq!(entries.len(), 4);
    for (e, x) in entries.iter().zip(expected.iter()) {
        assert_eq!(e.0, x.0);
        assert_eq!(e.1, x.1);
    }
    let (code, body) = health_check("t".to_string(), "1.0".to_string(), r);
    assert_eq!(code, 200);
    assert_eq!(body.status, "healthy");
    assert_eq!(body.version, "1.0");
    let (code, body) = dependency_health("t".to_string(), r);
    assert_eq!(code, 200);
    assert_eq!(body.status, "ok");
    assert_eq!(body.timestamp, "t");
}

#[test]
fn database_down_is_unhealthy() {
    let r = assess_components(false, CacheProbe::NotConfigured, None, None);
    assert!(!r.all_healthy);
    assert_eq!(r.database, ComponentStatus::Degraded);
    assert_eq!(r.redis, ComponentStatus::NotConfigured);
    let (code, body) = health_check("t".to_string(), "v".to_string(), r);
    assert_eq!(code, 503);
    assert_eq!(body.status, "unhealthy");
    let (code, body) = dependency_health("t".to_string(), r);
    assert_eq!(code, 503);
    assert_eq!(body.status, "degraded");
}

#[test]
fn configured_cache_is_judged_by_its_check() {
    let r = assess_components(true, CacheProbe::Checked { healthy: true }, None, None);
    assert!(r.all_healthy);
    assert_eq!(r.redis, ComponentStatus::Healthy);
    let r = assess_components(true, CacheProbe::Checked { healthy: false }, None, None);
    assert!(!r.all_healthy);
    let (code, body) = health_check("t".to_string(), "v".to_string(), r);
    assert_eq!(code, 503);
    assert_eq!(body.status, "unhealthy");
    assert_eq!(body.components.redis.as_text(), "degraded");
}

#[test]
fn unhealthy_cache_or_probe_fails_report() {
    let r = assess_components(true, CacheProbe::Checked { healthy: false }, None, None);
    assert!(!r.all_healthy);
    assert_eq!(r.redis, ComponentStatus::Degraded);
    let r = assess_components(true, CacheProbe::NotConfigured, None, Some(ProbeOutcome::TimedOut));
    assert!(!r.all_healthy);
    assert_eq!(r.soroban_rpc, ComponentStatus::Degraded);
    assert_eq!(r.soroban_rpc.as_text(), "degraded");
    let r = assess_components(
        true,
        CacheProbe::NotConfigured,
        Some(ProbeOutcome::Responded { status: 500 }),
        Some(ProbeOutcome::Responded { status: 200 }),
    );
    assert!(!r.all_healthy);
    assert_eq!(r.horizon, ComponentStatus::Degraded);
}

#[test]
fn settings_default_and_parse() {
    assert_eq!(dependency_timeout_ms(None), 1500);
    assert_eq!(dependency_timeout_ms(Some("250")), 250);
    assert_eq!(dependency_timeout_ms(Some("fast")), 1500);
    assert_eq!(slow_query_threshold_ms(None), 500);
    assert_eq!(slow_query_threshold_ms(Some("+75")), 75);
    assert_eq!(slow_query_threshold_ms(Some("-1")), 500);
    assert_eq!(setting_or(Some("18446744073709551616"), 9), 9);
}
