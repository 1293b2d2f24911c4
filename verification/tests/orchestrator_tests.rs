use keiko::block::{plan, response_message, Manipulation, Type};
use keiko::orchestrator::{Orchestrator, OrchestratorAction, OrchestratorEvent, Phase};
use keiko::OrchestratorError;

#[test]
fn mining_n_blocks_plans_n_calls() {
    let calls = plan(&Manipulation { action: Type::MineBlock(3) });
    assert_eq!(calls.len(), 3);
    for c in &calls {
        assert_eq!(c.method, "katana_generateBlock");
        assert_eq!(c.param, None);
    }
    assert_eq!(
        response_message(&Manipulation { action: Type::MineBlock(3) }),
        "Mined 3 blocks"
    );
}

#[test]
fn increasing_time_plans_the_increase_then_one_block() {
    let calls = plan(&Manipulation { action: Type::IncreaseTime(90) });
    assert_eq!(calls.len(), 2);
    assert_eq!(calls[0].method, "katana_increaseNextBlockTimestamp");
    assert_eq!(calls[0].param, Some(90));
    assert_eq!(calls[1].method, "katana_generateBlock");
    assert_eq!(calls[1].param, None);
    assert_eq!(
        response_message(&Manipulation { action: Type::IncreaseTime(90) }),
        "Increased block time by 90 seconds"
    );
}

#[test]
fn the_happy_path_brings_every_component_up_in_order() {
    let mut o = Orchestrator::new();
    assert_eq!(o.begin(), vec![OrchestratorAction::SpawnChainNode]);
    assert_eq!(
        o.on_event(OrchestratorEvent::ChainSpawned(true)),
        vec![OrchestratorAction::ProbeChainNode]
    );
    assert_eq!(
        o.on_event(OrchestratorEvent::ChainReady),
        vec![OrchestratorAction::RunDiscovery]
    );
    assert_eq!(
        o.on_event(OrchestratorEvent::Discovered(true)),
        vec![OrchestratorAction::SpawnIndexer]
    );
    assert_eq!(
        o.on_event(OrchestratorEvent::IndexerSpawned(true)),
        vec![OrchestratorAction::ProbeIndexer]
    );
    assert_eq!(
        o.on_event(OrchestratorEvent::IndexerReady),
        vec![OrchestratorAction::BeginServing]
    );
    assert_eq!(o.phase, Phase::Running);
}

#[test]
fn a_spawn_failure_aborts_the_whole_startup() {
    let mut o = Orchestrator::new();
    o.begin();
    let acts = o.on_event(OrchestratorEvent::ChainSpawned(false));
    assert_eq!(acts, vec![OrchestratorAction::StopAll]);
    assert_eq!(o.phase, Phase::Failed(OrchestratorError::SpawnFailed));
    // Nothing moves any more after the failure.
    assert!(o.on_event(OrchestratorEvent::ChainReady).is_empty());
    assert_eq!(o.phase, Phase::Failed(OrchestratorError::SpawnFailed));
}

#[test]
fn a_discovery_failure_aborts_before_the_indexer_starts() {
    let mut o = Orchestrator::new();
    o.begin();
    o.on_event(OrchestratorEvent::ChainSpawned(true));
    o.on_event(OrchestratorEvent::ChainReady);
    let acts = o.on_event(OrchestratorEvent::Discovered(false));
    assert_eq!(acts, vec![OrchestratorAction::StopAll]);
    assert_eq!(o.phase, Phase::Failed(OrchestratorError::DiscoveryFailed));
}

#[test]
fn a_shutdown_signal_stops_the_run_from_any_phase() {
    let mut o = Orchestrator::new();
    o.begin();
    o.on_event(OrchestratorEvent::ChainSpawned(true));
    let acts = o.on_event(OrchestratorEvent::ShutdownRequested);
    assert_eq!(acts, vec![OrchestratorAction::StopAll]);
    assert_eq!(o.phase, Phase::Stopped);
}

#[test]
fn a_component_exit_shuts_the_run_down() {
    let mut o = Orchestrator::new();
    o.begin();
    o.on_event(OrchestratorEvent::ChainSpawned(true));
    o.on_event(OrchestratorEvent::ChainReady);
    let acts = o.on_event(OrchestratorEvent::ComponentExited);
    assert_eq!(acts, vec![OrchestratorAction::StopAll]);
    assert_eq!(o.phase, Phase::Stopped);
}

#[test]
fn events_outside_their_phase_change_nothing() {
    let mut o = Orchestrator::new();
    o.begin();
    // Readiness and discovery reports before the chain node was even
    // spawned are ignored.
    assert!(o.on_event(OrchestratorEvent::ChainReady).is_empty());
    assert!(o.on_event(OrchestratorEvent::Discovered(true)).is_empty());
    assert!(o.on_event(OrchestratorEvent::IndexerReady).is_empty());
    assert_eq!(o.phase, Phase::ChainStarting);
}
