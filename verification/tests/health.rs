use service_core::errors::response::Body;
use service_core::health::{health_check, Probe};

#[test]
fn health_check_is_live_when_both_probes_succeed() {
    let reply = health_check(Probe::Succeeded, Probe::Succeeded);
    assert_eq!(reply.status.as_u16(), 204);
    assert_eq!(reply.body, Body::Empty);
}

#[test]
fn health_check_fails_when_any_probe_fails() {
    let outcomes = [Probe::Succeeded, Probe::Failed, Probe::TimedOut];
    for cache in outcomes {
        for database in outcomes {
            let reply = health_check(cache, database);
            let live = cache == Probe::Succeeded && database == Probe::Succeeded;
            assert_eq!(reply.status.as_u16(), if live { 204 } else { 500 });
            assert_eq!(reply.body, Body::Empty);
            assert_eq!(reply.body.content_type(), None);
        }
    }
}

#[test]
fn health_check_one_failed_probe_is_enough() {
    assert_eq!(health_check(Probe::Failed, Probe::Succeeded).status.as_u16(), 500);
    assert_eq!(health_check(Probe::Succeeded, Probe::Failed).status.as_u16(), 500);
    assert_eq!(health_check(Probe::TimedOut, Probe::Succeeded).status.as_u16(), 500);
    assert_eq!(health_check(Probe::Succeeded, Probe::TimedOut).status.as_u16(), 500);
}
