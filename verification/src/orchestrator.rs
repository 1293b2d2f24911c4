//! The composition root's decisions: in which order the chain node, the
//! deployment discovery, the indexer and the public traffic come up, and
//! how the run ends.
//!
//! The surrounding binary performs each requested action — spawn a
//! process, probe an endpoint, run discovery — and reports the outcome
//! as the next event. Startup failures are fatal and stop everything;
//! a termination signal or an unexpected component exit shuts the run
//! down from any phase.

use vstd::prelude::*;

verus! {

use crate::OrchestratorError;

/// Where the run stands.
#[derive(Clone, Copy, Debug, PartialEq, Eq, Structural)]
pub enum Phase {
    /// Nothing started yet.
    Init,
    /// The chain node's spawn was requested.
    ChainStarting,
    /// The chain node was spawned; waiting for its endpoint.
    ChainProbing,
    /// The chain node is reachable; discovery is running.
    Discovering,
    /// Discovery succeeded; the indexer's spawn was requested.
    IndexerStarting,
    /// The indexer was spawned; waiting for its endpoint.
    IndexerProbing,
    /// Everything is up; the proxy serves real traffic.
    Running,
    /// Shut down on request or after a component exited.
    Stopped,
    /// Aborted by a fatal startup failure.
    Failed(OrchestratorError),
}

/// What the surrounding binary reports back.
#[derive(Clone, Copy, Debug, PartialEq, Eq, Structural)]
pub enum OrchestratorEvent {
    /// Whether the chain node's spawn succeeded.
    ChainSpawned(bool),
    /// The chain node's endpoint accepted a connect.
    ChainReady,
    /// Whether deployment discovery produced a record.
    Discovered(bool),
    /// Whether the indexer's spawn succeeded.
    IndexerSpawned(bool),
    /// The indexer's endpoint accepted a connect.
    IndexerReady,
    /// A termination signal arrived.
    ShutdownRequested,
    /// A supervised process or server exited unexpectedly.
    ComponentExited,
}

/// What the orchestrator asks the surrounding binary to do next.
#[derive(Clone, Copy, Debug, PartialEq, Eq, Structural)]
pub enum OrchestratorAction {
    /// Launch the chain node process.
    SpawnChainNode,
    /// Poll the chain node's endpoint until it connects.
    ProbeChainNode,
    /// Run the migration and read the deployment manifest.
    RunDiscovery,
    /// Launch the indexer process.
    SpawnIndexer,
    /// Poll the indexer's endpoint until it connects.
    ProbeIndexer,
    /// Begin routing real traffic.
    BeginServing,
    /// Stop both processes, close the event broker, close the listener.
    StopAll,
}

/// Whether a phase is terminal: nothing further happens in it.
pub open spec fn is_terminal(p: Phase) -> bool {
    p is Stopped || p is Failed
}

/// The next phase and the actions to perform, for one event. Events
/// that do not belong to the present phase change nothing; shutdown and
/// component exit end any non-terminal phase.
pub open spec fn orchestrator_step(p: Phase, ev: OrchestratorEvent) -> (
    Phase,
    Seq<OrchestratorAction>,
) {
    if is_terminal(p) {
        (p, Seq::empty())
    } else {
        match ev {
            OrchestratorEvent::ShutdownRequested | OrchestratorEvent::ComponentExited => (
                Phase::Stopped,
                seq![OrchestratorAction::StopAll],
            ),
            OrchestratorEvent::ChainSpawned(ok) => {
                if p is ChainStarting {
                    if ok {
                        (Phase::ChainProbing, seq![OrchestratorAction::ProbeChainNode])
                    } else {
                        (
                            Phase::Failed(OrchestratorError::SpawnFailed),
                            seq![OrchestratorAction::StopAll],
                        )
                    }
                } else {
                    (p, Seq::empty())
                }
            },
            OrchestratorEvent::ChainReady => {
                if p is ChainProbing {
                    (Phase::Discovering, seq![OrchestratorAction::RunDiscovery])
                } else {
                    (p, Seq::empty())
                }
            },
            OrchestratorEvent::Discovered(ok) => {
                if p is Discovering {
                    if ok {
                        (Phase::IndexerStarting, seq![OrchestratorAction::SpawnIndexer])
                    } else {
                        (
                            Phase::Failed(OrchestratorError::DiscoveryFailed),
                            seq![OrchestratorAction::StopAll],
                        )
                    }
                } else {
                    (p, Seq::empty())
                }
            },
            OrchestratorEvent::IndexerSpawned(ok) => {
                if p is IndexerStarting {
                    if ok {
                        (Phase::IndexerProbing, seq![OrchestratorAction::ProbeIndexer])
                    } else {
                        (
                            Phase::Failed(OrchestratorError::SpawnFailed),
                            seq![OrchestratorAction::StopAll],
                        )
                    }
                } else {
                    (p, Seq::empty())
                }
            },
            OrchestratorEvent::IndexerReady => {
                if p is IndexerProbing {
                    (Phase::Running, seq![OrchestratorAction::BeginServing])
                } else {
                    (p, Seq::empty())
                }
            },
        }
    }
}

/// The composition root's state.
pub struct Orchestrator {
    pub phase: Phase,
}

impl Orchestrator {
    /// A run that has not started anything yet.
    pub fn new() -> (o: Orchestrator)
        ensures
            o.phase is Init,
    {
        Orchestrator { phase: Phase::Init }
    }

    /// Start the run: the chain node is spawned first.
    pub fn begin(&mut self) -> (acts: Vec<OrchestratorAction>)
        requires
            old(self).phase is Init,
        ensures
            final(self).phase is ChainStarting,
            acts@ == seq![OrchestratorAction::SpawnChainNode],
    {
        self.phase = Phase::ChainStarting;
        let mut acts: Vec<OrchestratorAction> = Vec::new();
        acts.push(OrchestratorAction::SpawnChainNode);
        proof {
            assert(acts@ =~= seq![OrchestratorAction::SpawnChainNode]);
        }
        acts
    }

    /// React to one reported outcome.
    pub fn on_event(&mut self, ev: OrchestratorEvent) -> (acts: Vec<OrchestratorAction>)
        ensures
            (final(self).phase, acts@) == orchestrator_step(old(self).phase, ev),
    {
        let ghost expected = orchestrator_step(self.phase, ev);
        let mut acts: Vec<OrchestratorAction> = Vec::new();
        if matches!(self.phase, Phase::Stopped | Phase::Failed(_)) {
            proof {
                assert(acts@ =~= expected.1);
            }
            return acts;
        }
        match ev {
            OrchestratorEvent::ShutdownRequested | OrchestratorEvent::ComponentExited => {
                self.phase = Phase::Stopped;
                acts.push(OrchestratorAction::StopAll);
            },
            OrchestratorEvent::ChainSpawned(ok) => {
                if matches!(self.phase, Phase::ChainStarting) {
                    if ok {
                        self.phase = Phase::ChainProbing;
                        acts.push(OrchestratorAction::ProbeChainNode);
                    } else {
                        self.phase = Phase::Failed(OrchestratorError::SpawnFailed);
                        acts.push(OrchestratorAction::StopAll);
                    }
                }
            },
            OrchestratorEvent::ChainReady => {
                if matches!(self.phase, Phase::ChainProbing) {
                    self.phase = Phase::Discovering;
                    acts.push(OrchestratorAction::RunDiscovery);
                }
            },
            OrchestratorEvent::Discovered(ok) => {
                if matches!(self.phase, Phase::Discovering) {
                    if ok {
                        self.phase = Phase::IndexerStarting;
                        acts.push(OrchestratorAction::SpawnIndexer);
                    } else {
                        self.phase = Phase::Failed(OrchestratorError::DiscoveryFailed);
                        acts.push(OrchestratorAction::StopAll);
                    }
                }
            },
            OrchestratorEvent::IndexerSpawned(ok) => {
                if matches!(self.phase, Phase::IndexerStarting) {
                    if ok {
                        self.phase = Phase::IndexerProbing;
                        acts.push(OrchestratorAction::ProbeIndexer);
                    } else {
                        self.phase = Phase::Failed(OrchestratorError::SpawnFailed);
                        acts.push(OrchestratorAction::StopAll);
                    }
                }
            },
            OrchestratorEvent::IndexerReady => {
                if matches!(self.phase, Phase::IndexerProbing) {
                    self.phase = Phase::Running;
                    acts.push(OrchestratorAction::BeginServing);
                }
            },
        }
        proof {
            assert(acts@ =~= expected.1);
        }
        acts
    }
}

/// The phase reached from `p` by a sequence of events.
pub open spec fn run_phases(p: Phase, evs: Seq<OrchestratorEvent>) -> Phase
    decreases evs.len(),
{
    if evs.len() == 0 {
        p
    } else {
        orchestrator_step(run_phases(p, evs.drop_last()), evs.last()).0
    }
}

/// Discovery — and everything after it — runs only once the chain node
/// was reported ready: startup order is chain node, then readiness,
/// then discovery.
pub proof fn lemma_discovery_needs_chain_ready(evs: Seq<OrchestratorEvent>)
    requires
        ({
            let p = run_phases(Phase::ChainStarting, evs);
            p is Discovering || p is IndexerStarting || p is IndexerProbing || p is Running
        }),
    ensures
        exists|j: int| 0 <= j < evs.len() && evs[j] is ChainReady,
    decreases evs.len(),
{
    if evs.len() > 0 {
        let p = run_phases(Phase::ChainStarting, evs.drop_last());
        if !(p is Discovering || p is IndexerStarting || p is IndexerProbing || p is Running) {
            assert(evs.last() is ChainReady);
            assert(evs[evs.len() - 1] is ChainReady);
        } else {
            lemma_discovery_needs_chain_ready(evs.drop_last());
            let j = choose|j: int|
                0 <= j < evs.drop_last().len() && evs.drop_last()[j] is ChainReady;
            assert(evs[j] is ChainReady);
        }
    }
}

/// The indexer starts only once discovery was reported successful:
/// startup order is discovery, then the indexer.
pub proof fn lemma_indexer_needs_discovery(evs: Seq<OrchestratorEvent>)
    requires
        ({
            let p = run_phases(Phase::ChainStarting, evs);
            p is IndexerStarting || p is IndexerProbing || p is Running
        }),
    ensures
        exists|j: int| 0 <= j < evs.len() && evs[j] == OrchestratorEvent::Discovered(true),
    decreases evs.len(),
{
    if evs.len() > 0 {
        let p = run_phases(Phase::ChainStarting, evs.drop_last());
        if !(p is IndexerStarting || p is IndexerProbing || p is Running) {
            assert(evs[evs.len() - 1] == OrchestratorEvent::Discovered(true));
        } else {
            lemma_indexer_needs_discovery(evs.drop_last());
            let j = choose|j: int|
                0 <= j < evs.drop_last().len() && evs.drop_last()[j]
                    == OrchestratorEvent::Discovered(true);
            assert(evs[j] == OrchestratorEvent::Discovered(true));
        }
    }
}

} // verus!
