use ajam::state::connect::{
    Supervisor, SupervisorAction, SupervisorEvent, SupervisorPhase, MAX_CONNECTION_ATTEMPTS,
};

#[test]
fn test_fruitless_search_exhausts_the_attempt_budget() {
    let mut sup = Supervisor::new();
    assert_eq!(sup.phase(), SupervisorPhase::Searching { attempts: 0 });
    // with discovery that never yields a deck, every failed round asks
    // for its short retry sleep — the batch-exhausting action carries it
    // along with the long backoff — and the backoff comes exactly after
    // the configured number of rounds, over and over
    for batch in 0..3 {
        for round in 1..=MAX_CONNECTION_ATTEMPTS {
            let action = sup.step(SupervisorEvent::ConnectFailed);
            if round < MAX_CONNECTION_ATTEMPTS {
                assert_eq!(
                    action,
                    SupervisorAction::SleepRetryAndDiscover,
                    "batch {} round {}",
                    batch,
                    round
                );
            } else {
                assert_eq!(action, SupervisorAction::SleepFailureAndDiscover);
                assert_eq!(sup.phase(), SupervisorPhase::Searching { attempts: 0 });
            }
        }
    }
}

#[test]
fn test_connection_ends_the_search() {
    let mut sup = Supervisor::new();
    sup.step(SupervisorEvent::ConnectFailed);
    sup.step(SupervisorEvent::ConnectFailed);
    let action = sup.step(SupervisorEvent::ConnectSucceeded);
    assert_eq!(action, SupervisorAction::AfterConnect);
    assert_eq!(sup.phase(), SupervisorPhase::Connected);
}

#[test]
fn test_keepalive_keeps_the_connection() {
    let mut sup = Supervisor::new();
    sup.step(SupervisorEvent::ConnectSucceeded);
    let action = sup.step(SupervisorEvent::KeepAliveOk);
    assert_eq!(action, SupervisorAction::SleepKeepAlive);
    assert_eq!(sup.phase(), SupervisorPhase::Connected);
}

#[test]
fn test_dead_probe_reopens_the_search() {
    let mut sup = Supervisor::new();
    sup.step(SupervisorEvent::ConnectSucceeded);
    let action = sup.step(SupervisorEvent::KeepAliveFailed);
    assert_eq!(action, SupervisorAction::DropHandleAndDiscover);
    assert_eq!(sup.phase(), SupervisorPhase::Searching { attempts: 0 });
}
