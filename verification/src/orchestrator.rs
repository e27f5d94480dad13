//! The run orchestrator.
//!
//! A run proceeds: build the primary environment; for each declared async
//! capability (events first, then HTTP), build a second, independent
//! environment of the same module and hand it to the already-linked resource
//! of that kind — before the primary entry point is invoked, so inbound calls
//! arriving during entry-point execution are already serviceable; invoke the
//! module's entry-point export synchronously to completion; if the HTTP
//! capability is active, block until the external shutdown signal arrives and
//! then release it.  The first fatal error ends the run.
//!
//! The orchestrator is a state machine: the unverified driver performs each
//! requested engine action (building, instantiating, invoking) and reports
//! the outcome back as a [`RunEvent`]; [`Orchestrator::step`] answers with
//! the next [`RunAction`].

use vstd::prelude::*;

use crate::builder::build_environment;
use crate::builder::lemma_link_all_kinds;
use crate::builder::lemma_link_all_last;
use crate::builder::lemma_plan_kinds;
use crate::builder::link_all;
use crate::builder::plan_has_kind;
use crate::builder::plan_matches;
use crate::builder::resolve_config;
use crate::builder::LinkPlan;
use crate::capability::needs_secondary;
use crate::capability::CapabilityKind;
use crate::config::config_error;
use crate::config::RunConfig;
use crate::errors::SlightError;
use crate::table::with_secondary;
use crate::table::without_secondary;
use crate::table::Environment;
use crate::table::Resource;
use crate::table::ResourceTable;

verus! {

/// Where a run stands, terminal on success or first failure.
#[derive(Clone, Copy, Debug, PartialEq, Eq, Structural)]
pub enum Phase {
    /// Configured; nothing requested from the engine yet.
    Configured,
    /// The primary environment's build was requested from the engine.
    PrimaryRequested,
    /// A second, independent environment for this async capability was
    /// requested from the engine.
    SecondaryRequested(CapabilityKind),
    /// The module's entry-point export was handed to the engine and runs to
    /// completion.
    EntryPointRunning,
    /// The entry point returned; the HTTP capability keeps serving inbound
    /// work until the external shutdown signal arrives.
    ServingAsync,
    /// The run finished successfully.
    Closed,
    /// The run failed; its first fatal error was surfaced.
    Failed,
}

/// What the driver reports back to the orchestrator.
pub enum RunEvent {
    /// Begin the run.
    Start,
    /// The engine built and instantiated the primary environment.
    PrimaryReady(Environment),
    /// The engine built and instantiated the secondary environment that was
    /// most recently requested.
    SecondaryReady(Environment),
    /// The engine failed to build an environment; its message, as-is.
    BuildFailed(String),
    /// The entry point ran to completion.
    EntryPointReturned,
    /// The entry point trapped; the engine's message, as-is.
    EntryPointTrapped(String),
    /// The external shutdown signal arrived.
    ShutdownSignal,
}

/// What the orchestrator asks the driver to do next.
pub enum RunAction {
    /// Build and instantiate the primary environment following the plan.
    BuildPrimary(LinkPlan),
    /// Build and instantiate a second, independent environment of the same
    /// module for this async capability, following the plan.
    BuildSecondary(LinkPlan, CapabilityKind),
    /// Call the module's entry-point export on the primary instantiation.
    InvokeEntryPoint(Environment),
    /// Block until the external shutdown signal, then report it.
    AwaitShutdown,
    /// The run is complete; return success.
    FinishOk,
    /// The run failed; surface this error.
    FinishErr(SlightError),
    /// The event does not apply in the current phase; nothing to do.
    Nothing,
}

/// The module's designated entry-point export, which the primary environment
/// calls to perform the run's synchronous work.
pub fn entry_point() -> (name: &'static str)
    ensures
        name@ == "_start"@,
{
    "_start"
}

/// Whether an event advances the run in the given phase.
pub open spec fn applicable(phase: Phase, event: RunEvent) -> bool {
    match (phase, event) {
        (Phase::Configured, RunEvent::Start) => true,
        (Phase::PrimaryRequested, RunEvent::PrimaryReady(_)) => true,
        (Phase::PrimaryRequested, RunEvent::BuildFailed(_)) => true,
        (Phase::SecondaryRequested(_), RunEvent::SecondaryReady(_)) => true,
        (Phase::SecondaryRequested(_), RunEvent::BuildFailed(_)) => true,
        (Phase::EntryPointRunning, RunEvent::EntryPointReturned) => true,
        (Phase::EntryPointRunning, RunEvent::EntryPointTrapped(_)) => true,
        (Phase::ServingAsync, RunEvent::ShutdownSignal) => true,
        _ => false,
    }
}

/// Which async capability's secondary build is requested next: events first
/// when declared, then HTTP.  `done` is the capability whose adoption just
/// completed, `None` right after the primary build.
pub open spec fn next_secondary(config: RunConfig, done: Option<CapabilityKind>) -> Option<
    CapabilityKind,
> {
    if done is None && config.declares_kind(CapabilityKind::Events) {
        Some(CapabilityKind::Events)
    } else if (done is None || done == Some(CapabilityKind::Events)) && config.declares_kind(
        CapabilityKind::Http,
    ) {
        Some(CapabilityKind::Http)
    } else {
        None
    }
}

fn next_secondary_request(config: &RunConfig, done: Option<CapabilityKind>) -> (r: Option<
    CapabilityKind,
>)
    ensures
        r == next_secondary(*config, done),
{
    let fresh = done.is_none();
    let events_done = match done {
        Some(CapabilityKind::Events) => true,
        _ => false,
    };
    if fresh && config.declares(CapabilityKind::Events) {
        Some(CapabilityKind::Events)
    } else if (fresh || events_done) && config.declares(CapabilityKind::Http) {
        Some(CapabilityKind::Http)
    } else {
        None
    }
}

/// The environment blueprint of a valid configuration; resolution cannot fail
/// once the configuration was found valid.
fn request_plan(config: &RunConfig) -> (plan: LinkPlan)
    requires
        config.valid(),
    ensures
        plan_matches(plan, *config),
{
    match resolve_config(config) {
        Ok(plan) => plan,
        Err(_) => unreached(),
    }
}

/// The run orchestrator: the configuration, the run's shared resource table,
/// the primary environment once built, and the current phase.
pub struct Orchestrator {
    /// The run's configuration, fixed for the whole run.
    pub config: RunConfig,
    /// The shared resource table every environment of the run links against.
    pub table: ResourceTable,
    /// The current phase.
    pub phase: Phase,
    /// The primary environment, once the engine reports it ready.
    pub primary: Option<Environment>,
}

impl Orchestrator {
    /// The kind's resource is linked and holds an adopted secondary
    /// instantiation.
    pub open spec fn adopted(self, kind: CapabilityKind) -> bool {
        self.table@.dom().contains(kind) && self.table@[kind].secondary is Some
    }

    /// The orchestrator's invariant: past the configuration check the
    /// configuration is valid; once the primary build was requested, every
    /// declared capability's canonical key is populated; a secondary build is
    /// only ever requested for a declared async capability; a primary
    /// environment exists from the first secondary request on; and every
    /// declared async capability earlier in the adoption order than the run's
    /// progress has its secondary instantiation adopted.
    pub open spec fn wf(self) -> bool {
        &&& self.table.wf()
        &&& (self.phase != Phase::Configured && self.phase != Phase::Failed
            ==> self.config.valid())
        &&& (match self.phase {
            Phase::PrimaryRequested | Phase::SecondaryRequested(_) | Phase::EntryPointRunning
                | Phase::ServingAsync => forall|k: CapabilityKind|
                self.config.declares_kind(k) ==> #[trigger] self.table@.dom().contains(k),
            _ => true,
        })
        &&& (self.phase matches Phase::SecondaryRequested(kind) ==> needs_secondary(kind)
            && self.config.declares_kind(kind))
        &&& (match self.phase {
            Phase::SecondaryRequested(_) | Phase::EntryPointRunning | Phase::ServingAsync => self.primary is Some,
            _ => true,
        })
        &&& (self.phase == Phase::ServingAsync ==> self.config.declares_kind(CapabilityKind::Http))
        &&& (self.phase == Phase::SecondaryRequested(CapabilityKind::Http)
            && self.config.declares_kind(CapabilityKind::Events) ==> self.adopted(
            CapabilityKind::Events,
        ))
        &&& (self.phase == Phase::EntryPointRunning || self.phase == Phase::ServingAsync ==> {
            &&& (self.config.declares_kind(CapabilityKind::Events) ==> self.adopted(
                CapabilityKind::Events,
            ))
            &&& (self.config.declares_kind(CapabilityKind::Http) ==> self.adopted(
                CapabilityKind::Http,
            ))
        })
    }

    /// A fresh orchestrator for one run: an empty shared table, no
    /// environment, phase `Configured`.
    pub fn new(config: RunConfig) -> (orchestrator: Orchestrator)
        ensures
            orchestrator.config == config,
            orchestrator.table@ == Map::<CapabilityKind, Resource>::empty(),
            orchestrator.phase == Phase::Configured,
            orchestrator.primary is None,
            orchestrator.wf(),
    {
        Orchestrator {
            config,
            table: ResourceTable::new(),
            phase: Phase::Configured,
            primary: None,
        }
    }

    /// Advances the run by one event and answers with the next action.
    ///
    /// Starting a valid configuration links every declared capability into
    /// the shared table and requests the primary build; an invalid one fails
    /// with the configuration's error before anything is linked.  A ready secondary
    /// environment is adopted into its capability's resource before the next
    /// build is requested, and the entry point is only invoked once no
    /// adoption is pending.  After the entry point returns the run either
    /// completes, or serves HTTP until the shutdown signal arrives and the
    /// resource is released.  Failures surface the first fatal error.
    pub fn step(&mut self, event: RunEvent) -> (action: RunAction)
        requires
            old(self).wf(),
        ensures
            final(self).wf(),
            final(self).config == old(self).config,
            !applicable(old(self).phase, event) ==> *final(self) == *old(self) && action
                == RunAction::Nothing,
            old(self).phase == Phase::Configured && event == RunEvent::Start && old(
                self,
            ).config.valid() ==> {
                &&& final(self).phase == Phase::PrimaryRequested
                &&& action matches RunAction::BuildPrimary(plan)
                &&& plan_matches(plan, old(self).config)
                &&& final(self).table@ == link_all(old(self).table@, plan.items@)
                &&& final(self).primary == old(self).primary
            },
            old(self).phase == Phase::Configured && event == RunEvent::Start && !old(
                self,
            ).config.valid() ==> {
                &&& final(self).phase == Phase::Failed
                &&& config_error(old(self).config) matches Some(rejection)
                &&& action == RunAction::FinishErr(rejection)
                &&& final(self).table@ == old(self).table@
            },
            old(self).phase == Phase::PrimaryRequested ==> (event matches RunEvent::PrimaryReady(
                env,
            ) ==> {
                &&& final(self).primary == Some(env)
                &&& final(self).table@ == old(self).table@
                &&& match next_secondary(old(self).config, None) {
                    Some(kind) => final(self).phase == Phase::SecondaryRequested(kind) && (
                    action matches RunAction::BuildSecondary(plan, requested) && requested == kind
                        && plan_matches(plan, old(self).config))
                    ,
                    None => final(self).phase == Phase::EntryPointRunning && action
                        == RunAction::InvokeEntryPoint(env),
                }
            }),
            old(self).phase matches Phase::SecondaryRequested(kind) ==> (
            event matches RunEvent::SecondaryReady(env) ==> {
                &&& final(self).table@ == old(self).table@.insert(
                    kind,
                    with_secondary(old(self).table@[kind], env),
                )
                &&& final(self).primary == old(self).primary
                &&& match next_secondary(old(self).config, Some(kind)) {
                    Some(next) => final(self).phase == Phase::SecondaryRequested(next) && (
                    action matches RunAction::BuildSecondary(plan, requested) && requested == next
                        && plan_matches(plan, old(self).config))
                    ,
                    None => final(self).phase == Phase::EntryPointRunning && action
                        == RunAction::InvokeEntryPoint(old(self).primary->Some_0),
                }
            }),
            (old(self).phase == Phase::PrimaryRequested || old(
                self,
            ).phase matches Phase::SecondaryRequested(_)) ==> (event matches RunEvent::BuildFailed(
                message,
            ) ==> {
                &&& final(self).phase == Phase::Failed
                &&& action == RunAction::FinishErr(SlightError::Execution(message))
                &&& final(self).table@ == old(self).table@
            }),
            old(self).phase == Phase::EntryPointRunning && event == RunEvent::EntryPointReturned
                ==> {
                &&& final(self).table@ == old(self).table@
                &&& final(self).primary == old(self).primary
                &&& if old(self).config.declares_kind(CapabilityKind::Http) {
                    final(self).phase == Phase::ServingAsync && action == RunAction::AwaitShutdown
                } else {
                    final(self).phase == Phase::Closed && action == RunAction::FinishOk
                }
            },
            old(self).phase == Phase::EntryPointRunning ==> (
            event matches RunEvent::EntryPointTrapped(message) ==> {
                &&& final(self).phase == Phase::Failed
                &&& action == RunAction::FinishErr(SlightError::Execution(message))
                &&& final(self).table@ == old(self).table@
            }),
            old(self).phase == Phase::ServingAsync && event == RunEvent::ShutdownSignal ==> {
                &&& final(self).phase == Phase::Closed
                &&& action == RunAction::FinishOk
                &&& final(self).table@ == old(self).table@.insert(
                    CapabilityKind::Http,
                    without_secondary(old(self).table@[CapabilityKind::Http]),
                )
            },
    {
        let phase = self.phase;
        match (phase, event) {
            (Phase::Configured, RunEvent::Start) => {
                match build_environment(&self.config, &mut self.table) {
                    Ok(plan) => {
                        proof {
                            lemma_plan_kinds(self.config, plan);
                            lemma_link_all_kinds(old(self).table@, plan.items@);
                            assert forall|k: CapabilityKind|
                                self.config.declares_kind(k) implies #[trigger] self.table@.dom()
                                .contains(k) by {
                                assert(plan_has_kind(plan.items@, k));
                                lemma_link_all_last(old(self).table@, plan.items@, k);
                            }
                        }
                        self.phase = Phase::PrimaryRequested;
                        RunAction::BuildPrimary(plan)
                    },
                    Err(rejection) => {
                        self.phase = Phase::Failed;
                        RunAction::FinishErr(rejection)
                    },
                }
            },
            (Phase::PrimaryRequested, RunEvent::PrimaryReady(env)) => {
                self.primary = Some(env);
                match next_secondary_request(&self.config, None) {
                    Some(kind) => {
                        let plan = request_plan(&self.config);
                        self.phase = Phase::SecondaryRequested(kind);
                        RunAction::BuildSecondary(plan, kind)
                    },
                    None => {
                        self.phase = Phase::EntryPointRunning;
                        RunAction::InvokeEntryPoint(env)
                    },
                }
            },
            (Phase::SecondaryRequested(kind), RunEvent::SecondaryReady(env)) => {
                match self.table.adopt_secondary(kind, env) {
                    Ok(_) => {},
                    Err(_) => unreached(),
                }
                match next_secondary_request(&self.config, Some(kind)) {
                    Some(next) => {
                        let plan = request_plan(&self.config);
                        self.phase = Phase::SecondaryRequested(next);
                        RunAction::BuildSecondary(plan, next)
                    },
                    None => {
                        self.phase = Phase::EntryPointRunning;
                        RunAction::InvokeEntryPoint(self.primary.unwrap())
                    },
                }
            },
            (Phase::PrimaryRequested, RunEvent::BuildFailed(message)) => {
                self.phase = Phase::Failed;
                RunAction::FinishErr(SlightError::Execution(message))
            },
            (Phase::SecondaryRequested(_), RunEvent::BuildFailed(message)) => {
                self.phase = Phase::Failed;
                RunAction::FinishErr(SlightError::Execution(message))
            },
            (Phase::EntryPointRunning, RunEvent::EntryPointReturned) => {
                if self.config.declares(CapabilityKind::Http) {
                    self.phase = Phase::ServingAsync;
                    RunAction::AwaitShutdown
                } else {
                    self.phase = Phase::Closed;
                    RunAction::FinishOk
                }
            },
            (Phase::EntryPointRunning, RunEvent::EntryPointTrapped(message)) => {
                self.phase = Phase::Failed;
                RunAction::FinishErr(SlightError::Execution(message))
            },
            (Phase::ServingAsync, RunEvent::ShutdownSignal) => {
                match self.table.close(CapabilityKind::Http) {
                    Ok(_) => {},
                    Err(_) => unreached(),
                }
                self.phase = Phase::Closed;
                RunAction::FinishOk
            },
            _ => RunAction::Nothing,
        }
    }
}

/// Law: adoption completes before the module begins executing.  While the
/// entry point runs — and afterwards, while the HTTP capability serves —
/// every declared capability that receives inbound calls holds its adopted
/// secondary instantiation, ready to field them.
pub proof fn lemma_adoption_precedes_entry_point(orchestrator: Orchestrator, kind: CapabilityKind)
    requires
        orchestrator.wf(),
        orchestrator.phase == Phase::EntryPointRunning || orchestrator.phase
            == Phase::ServingAsync,
        needs_secondary(kind),
        orchestrator.config.declares_kind(kind),
    ensures
        orchestrator.adopted(kind),
{
}

} // verus!
