//! The health indicator of the dual-backend coordinator: which backend an
//! operation goes to, and how the outcome of an attempt on the primary backend
//! moves the indicator.

use vstd::prelude::*;

verus! {

/// The two states of the indicator.
#[derive(Clone, Copy, Debug, PartialEq, Eq, Structural)]
pub enum Health {
    Healthy,
    Degraded,
}

/// The backend that an operation is sent to.
#[derive(Clone, Copy, Debug, PartialEq, Eq, Structural)]
pub enum Route {
    Primary,
    Fallback,
}

/// What came of the attempt to run one operation on the primary backend.
#[derive(Debug)]
pub enum PrimaryOutcome<T> {
    /// The primary backend was not tried.
    Skipped,
    /// The primary backend answered.
    Succeeded(T),
    /// The call to the primary backend failed.
    Failed,
}

/// Mathematical model of the indicator.
pub struct IndicatorState {
    pub configured: bool,
    pub health: Health,
}

impl IndicatorState {
    /// Without a primary backend the indicator is degraded for good.
    pub open spec fn wf(self) -> bool {
        !self.configured ==> self.health is Degraded
    }

    /// The state at startup.
    pub open spec fn initial(configured: bool) -> IndicatorState {
        IndicatorState {
            configured,
            health: if configured {
                Health::Healthy
            } else {
                Health::Degraded
            },
        }
    }

    /// Operations go to the primary backend exactly while the indicator is
    /// healthy.
    pub open spec fn route(self) -> Route {
        if self.health is Healthy {
            Route::Primary
        } else {
            Route::Fallback
        }
    }

    /// The state after an operation on the primary backend failed.
    pub open spec fn after_failure(self) -> IndicatorState {
        IndicatorState { configured: self.configured, health: Health::Degraded }
    }

    /// The state after an explicit probe of the primary backend.
    pub open spec fn after_probe(self, reachable: bool) -> IndicatorState {
        IndicatorState {
            configured: self.configured,
            health: if self.configured && reachable {
                Health::Healthy
            } else {
                Health::Degraded
            },
        }
    }

    /// The state after the outcome of one operation is taken in: only a
    /// failure moves it.
    pub open spec fn after_outcome<T>(self, outcome: PrimaryOutcome<T>) -> IndicatorState {
        if outcome is Failed {
            self.after_failure()
        } else {
            self
        }
    }
}

/// The answer of the primary backend, if it gave one. `None` sends the
/// operation to the fallback backend.
pub open spec fn primary_answer<T>(outcome: PrimaryOutcome<T>) -> Option<T> {
    match outcome {
        PrimaryOutcome::Succeeded(answer) => Some(answer),
        _ => None,
    }
}

/// The health indicator shared by every operation of the coordinator.
pub struct HealthIndicator {
    configured: bool,
    health: Health,
}

impl View for HealthIndicator {
    type V = IndicatorState;

    closed spec fn view(&self) -> IndicatorState {
        IndicatorState { configured: self.configured, health: self.health }
    }
}

impl HealthIndicator {
    #[verifier::type_invariant]
    pub closed spec fn inv(self) -> bool {
        !self.configured ==> self.health is Degraded
    }

    /// The invariant of the type, stated of the model.
    pub proof fn lemma_inv(self)
        requires
            self.inv(),
        ensures
            self@.wf(),
    {
    }

    /// The indicator at startup: healthy if a primary backend is configured,
    /// degraded for good if none is.
    pub fn new(configured: bool) -> (indicator: HealthIndicator)
        ensures
            indicator@ == IndicatorState::initial(configured),
            indicator@.wf(),
    {
        HealthIndicator {
            configured,
            health: if configured {
                Health::Healthy
            } else {
                Health::Degraded
            },
        }
    }

    /// Whether a primary backend is configured.
    pub fn is_configured(&self) -> (configured: bool)
        ensures
            configured == self@.configured,
    {
        self.configured
    }

    /// The current state.
    pub fn health(&self) -> (health: Health)
        ensures
            health == self@.health,
            self@.wf(),
    {
        proof {
            use_type_invariant(self);
        }
        self.health
    }

    /// The backend that the next operation is sent to.
    pub fn route(&self) -> (route: Route)
        ensures
            route == self@.route(),
            route is Primary ==> self@.configured,
    {
        proof {
            use_type_invariant(self);
        }
        match self.health {
            Health::Healthy => Route::Primary,
            Health::Degraded => Route::Fallback,
        }
    }

    /// Records that an operation on the primary backend failed.
    pub fn record_failure(&mut self)
        ensures
            final(self)@ == old(self)@.after_failure(),
            final(self)@.wf(),
    {
        self.health = Health::Degraded;
    }

    /// Records the result of an explicit probe of the primary backend. This
    /// is the only way back to healthy.
    pub fn record_probe(&mut self, reachable: bool)
        ensures
            final(self)@ == old(self)@.after_probe(reachable),
            final(self)@.wf(),
    {
        if self.configured && reachable {
            self.health = Health::Healthy;
        } else {
            self.health = Health::Degraded;
        }
    }

    /// Takes in the outcome of one operation: hands out the answer of the
    /// primary backend if there is one, and degrades the indicator if the
    /// attempt failed. On `None` the caller runs the operation on the
    /// fallback backend.
    pub fn settle<T>(&mut self, outcome: PrimaryOutcome<T>) -> (answer: Option<T>)
        ensures
            answer == primary_answer(outcome),
            final(self)@ == old(self)@.after_outcome(outcome),
            final(self)@.wf(),
    {
        proof {
            use_type_invariant(&*self);
        }
        match outcome {
            PrimaryOutcome::Succeeded(answer) => Some(answer),
            PrimaryOutcome::Failed => {
                self.health = Health::Degraded;
                None
            },
            PrimaryOutcome::Skipped => None,
        }
    }
}

/// No operation restores a degraded indicator, whatever its outcome: only a
/// probe that finds a configured primary backend reachable does.
pub proof fn lemma_only_probe_restores<T>(
    state: IndicatorState,
    outcome: PrimaryOutcome<T>,
    reachable: bool,
)
    requires
        state.health is Degraded,
    ensures
        state.after_outcome(outcome).health is Degraded,
        state.after_failure().health is Degraded,
        state.after_probe(reachable).health is Healthy <==> state.configured && reachable,
{
}

/// Once an operation has failed on the primary backend, every later operation
/// is routed to the fallback backend until a probe succeeds.
pub proof fn lemma_failure_routes_to_fallback<T>(state: IndicatorState, later: PrimaryOutcome<T>)
    ensures
        state.after_failure().route() is Fallback,
        state.after_failure().after_outcome(later).route() is Fallback,
{
}

} // verus!
