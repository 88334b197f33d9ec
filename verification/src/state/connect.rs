//! The connection supervisor: the state machine behind the perpetual
//! connect/keep-alive/reconnect loop. The loop itself lives outside the
//! library, where the sleeps and the HID calls are; each time it learns
//! something — a probe answered or not, a discovery round connected or
//! not — it steps the machine and performs the action the step returns.

use vstd::prelude::*;

verus! {

/// How many discovery rounds a search batch tries before the long
/// failure backoff.
pub const MAX_CONNECTION_ATTEMPTS: u8 = 10;

/// Seconds between discovery rounds within a batch.
pub const CONNECTION_RETRY_INTERVAL_SECS: u64 = 1;

/// Seconds of backoff after a whole batch of rounds failed.
pub const CONNECTION_FAILURE_RETRY_INTERVAL_SECS: u64 = 10;

/// Seconds between liveness probes while connected.
pub const DEVICE_KEEPALIVE_CHECK_INTERVAL_SECS: u64 = 5;

/// Where the supervisor stands: holding a live connection, or searching
/// with a count of failed discovery rounds in the current batch.
#[derive(Clone, Copy, Debug, PartialEq, Eq, Structural)]
pub enum SupervisorPhase {
    Connected,
    Searching { attempts: u8 },
}

/// What the loop learned since the last step.
#[derive(Clone, Copy, Debug, PartialEq, Eq, Structural)]
pub enum SupervisorEvent {
    /// The liveness probe answered.
    KeepAliveOk,
    /// The liveness probe failed.
    KeepAliveFailed,
    /// A discovery round connected to a deck.
    ConnectSucceeded,
    /// A discovery round ended without a connection.
    ConnectFailed,
}

/// What the loop must do next.
#[derive(Clone, Copy, Debug, PartialEq, Eq, Structural)]
pub enum SupervisorAction {
    /// Sleep the keep-alive interval, then probe again.
    SleepKeepAlive,
    /// Drop the dead handle and run a discovery round.
    DropHandleAndDiscover,
    /// Attach the new handle, spawn its event dispatcher, apply the
    /// stored brightness, render the active page, then probe.
    AfterConnect,
    /// Sleep the short retry interval, then run another discovery round.
    SleepRetryAndDiscover,
    /// Sleep the short retry interval this failed round is owed, then
    /// the long failure backoff, then start a fresh batch of discovery
    /// rounds.
    SleepFailureAndDiscover,
}

/// The sleeps an action asks of the loop, in seconds and in order:
/// every failed discovery round sleeps the short retry interval, and
/// the round that exhausts the batch sleeps the long failure backoff on
/// top of it.
pub open spec fn spec_action_sleeps(a: SupervisorAction) -> Seq<u64> {
    match a {
        SupervisorAction::SleepKeepAlive => seq![DEVICE_KEEPALIVE_CHECK_INTERVAL_SECS],
        SupervisorAction::DropHandleAndDiscover => seq![],
        SupervisorAction::AfterConnect => seq![],
        SupervisorAction::SleepRetryAndDiscover => seq![CONNECTION_RETRY_INTERVAL_SECS],
        SupervisorAction::SleepFailureAndDiscover => seq![
            CONNECTION_RETRY_INTERVAL_SECS,
            CONNECTION_FAILURE_RETRY_INTERVAL_SECS,
        ],
    }
}

/// Whether an event is one the loop can report in the given phase:
/// probes answer only while connected, discovery rounds only while
/// searching.
pub open spec fn spec_event_fits(phase: SupervisorPhase, event: SupervisorEvent) -> bool {
    match phase {
        SupervisorPhase::Connected => event is KeepAliveOk || event is KeepAliveFailed,
        SupervisorPhase::Searching { .. } => event is ConnectSucceeded || event is ConnectFailed,
    }
}

/// One step of the supervisor: a live probe keeps the connection and
/// waits; a dead probe opens a search batch; a connection ends the
/// search; a failed round sleeps its short retry interval, and the
/// round that exhausts the batch follows that sleep with the long
/// backoff and starts the count over.
pub open spec fn spec_supervisor_step(phase: SupervisorPhase, event: SupervisorEvent) -> (
    SupervisorPhase,
    SupervisorAction,
) {
    match (phase, event) {
        (SupervisorPhase::Connected, SupervisorEvent::KeepAliveOk) => (
            SupervisorPhase::Connected,
            SupervisorAction::SleepKeepAlive,
        ),
        (SupervisorPhase::Connected, _) => (
            SupervisorPhase::Searching { attempts: 0 },
            SupervisorAction::DropHandleAndDiscover,
        ),
        (SupervisorPhase::Searching { .. }, SupervisorEvent::ConnectSucceeded) => (
            SupervisorPhase::Connected,
            SupervisorAction::AfterConnect,
        ),
        (SupervisorPhase::Searching { attempts }, _) => {
            if attempts + 1 < MAX_CONNECTION_ATTEMPTS {
                (
                    SupervisorPhase::Searching { attempts: (attempts + 1) as u8 },
                    SupervisorAction::SleepRetryAndDiscover,
                )
            } else {
                (
                    SupervisorPhase::Searching { attempts: 0 },
                    SupervisorAction::SleepFailureAndDiscover,
                )
            }
        },
    }
}

/// The supervisor: the phase of the reconnect loop.
pub struct Supervisor {
    phase: SupervisorPhase,
}

impl View for Supervisor {
    type V = SupervisorPhase;

    closed spec fn view(&self) -> SupervisorPhase {
        self.phase
    }
}

impl Supervisor {
    /// A fresh supervisor: no deck yet, a search about to begin.
    pub fn new() -> (r: Supervisor)
        ensures
            r@ == (SupervisorPhase::Searching { attempts: 0 }),
    {
        Supervisor { phase: SupervisorPhase::Searching { attempts: 0 } }
    }

    /// The current phase.
    pub fn phase(&self) -> (r: SupervisorPhase)
        ensures
            r == self@,
    {
        self.phase
    }

    /// Steps the machine on what the loop learned and returns what to
    /// do next.
    pub fn step(&mut self, event: SupervisorEvent) -> (r: SupervisorAction)
        requires
            spec_event_fits(old(self)@, event),
        ensures
            (final(self)@, r) == spec_supervisor_step(old(self)@, event),
    {
        match (self.phase, event) {
            (SupervisorPhase::Connected, SupervisorEvent::KeepAliveOk) => {
                SupervisorAction::SleepKeepAlive
            },
            (SupervisorPhase::Connected, _) => {
                self.phase = SupervisorPhase::Searching { attempts: 0 };
                SupervisorAction::DropHandleAndDiscover
            },
            (SupervisorPhase::Searching { .. }, SupervisorEvent::ConnectSucceeded) => {
                self.phase = SupervisorPhase::Connected;
                SupervisorAction::AfterConnect
            },
            (SupervisorPhase::Searching { attempts }, _) => {
                if attempts < MAX_CONNECTION_ATTEMPTS - 1 {
                    self.phase = SupervisorPhase::Searching { attempts: attempts + 1 };
                    SupervisorAction::SleepRetryAndDiscover
                } else {
                    self.phase = SupervisorPhase::Searching { attempts: 0 };
                    SupervisorAction::SleepFailureAndDiscover
                }
            },
        }
    }
}

/// The phase after `n` discovery rounds have failed in a row, starting
/// from a fresh search.
pub open spec fn spec_phase_after_failures(n: nat) -> SupervisorPhase
    decreases n,
{
    if n == 0 {
        SupervisorPhase::Searching { attempts: 0 }
    } else {
        spec_supervisor_step(spec_phase_after_failures((n - 1) as nat), SupervisorEvent::ConnectFailed).0
    }
}

proof fn lemma_phase_after_failures(n: nat)
    ensures
        spec_phase_after_failures(n) == (SupervisorPhase::Searching {
            attempts: (n % (MAX_CONNECTION_ATTEMPTS as nat)) as u8,
        }),
    decreases n,
{
    if n == 0 {
    } else {
        lemma_phase_after_failures((n - 1) as nat);
    }
}

/// Law: with discovery that never yields a deck, every failed round
/// sleeps the short retry interval, and the long failure backoff
/// follows it exactly at every multiple of the attempt budget — the
/// whole batch is tried, each round with its retry sleep, before each
/// backoff, over and over.
pub proof fn lemma_connection_attempt_budget(n: nat)
    requires
        n >= 1,
    ensures
        spec_supervisor_step(
            spec_phase_after_failures((n - 1) as nat),
            SupervisorEvent::ConnectFailed,
        ).1 == (if n % (MAX_CONNECTION_ATTEMPTS as nat) == 0 {
            SupervisorAction::SleepFailureAndDiscover
        } else {
            SupervisorAction::SleepRetryAndDiscover
        }),
        spec_action_sleeps(
            spec_supervisor_step(
                spec_phase_after_failures((n - 1) as nat),
                SupervisorEvent::ConnectFailed,
            ).1,
        ) == (if n % (MAX_CONNECTION_ATTEMPTS as nat) == 0 {
            seq![CONNECTION_RETRY_INTERVAL_SECS, CONNECTION_FAILURE_RETRY_INTERVAL_SECS]
        } else {
            seq![CONNECTION_RETRY_INTERVAL_SECS]
        }),
{
    lemma_phase_after_failures((n - 1) as nat);
    if n % (MAX_CONNECTION_ATTEMPTS as nat) == 0 {
        assert(spec_action_sleeps(SupervisorAction::SleepFailureAndDiscover) =~= seq![
            CONNECTION_RETRY_INTERVAL_SECS,
            CONNECTION_FAILURE_RETRY_INTERVAL_SECS,
        ]);
    } else {
        assert(spec_action_sleeps(SupervisorAction::SleepRetryAndDiscover) =~= seq![
            CONNECTION_RETRY_INTERVAL_SECS,
        ]);
    }
}

} // verus!
