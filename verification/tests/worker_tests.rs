use dojo_sync::car::{SpawnCar, UpdateCar};
use dojo_sync::channel::Category;
use dojo_sync::enemy::{SpawnEnemies, UpdateEnemy};
use dojo_sync::env::{BlockId, BlockTag, DojoEnv};
use dojo_sync::felt::{Felt, ShortStringError};
use dojo_sync::fixed::decode_felt;
use dojo_sync::worker::{
    target, GameEvent, LedgerTarget, Phase, StopReason, Worker, WorkerAction, WorkerConfig,
    WorkerEvent,
};

const LATEST: BlockId = BlockId::Tag(BlockTag::Latest);

fn config(enemy_count: u32) -> WorkerConfig {
    WorkerConfig { model: Felt::from_u128(0x6d6f64656c), enemy_count, block_id: LATEST }
}

fn idle(category: Category, enemy_count: u32) -> Worker {
    let mut worker = Worker::new(category, config(enemy_count));
    assert_eq!(worker.step(WorkerEvent::HandleResolved), Some(WorkerAction::AwaitCommand));
    assert_eq!(worker.phase(), Phase::Idle);
    worker
}

fn query(keys: Vec<Felt>) -> Option<WorkerAction> {
    Some(WorkerAction::Query { entity: Felt::zero(), keys, block_id: LATEST })
}

#[test]
fn targets_and_their_names() {
    assert_eq!(target(Category::SpawnRacers), LedgerTarget::SpawnRacerSystem);
    assert_eq!(target(Category::Drive), LedgerTarget::DriveSystem);
    assert_eq!(target(Category::UpdateVehicle), LedgerTarget::VehicleComponent);
    assert_eq!(target(Category::UpdateEnemies), LedgerTarget::PositionComponent);
    assert_eq!(LedgerTarget::SpawnRacerSystem.name(), "spawn_racer");
    assert_eq!(LedgerTarget::DriveSystem.name(), "drive");
    assert_eq!(LedgerTarget::VehicleComponent.name(), "Vehicle");
    assert_eq!(LedgerTarget::PositionComponent.name(), "Position");
    assert!(LedgerTarget::SpawnRacerSystem.is_system());
    assert!(LedgerTarget::DriveSystem.is_system());
    assert!(!LedgerTarget::VehicleComponent.is_system());
    assert!(!LedgerTarget::PositionComponent.is_system());
}

#[test]
fn config_packs_the_model_name() {
    let env = DojoEnv::new(Felt::from_u128(0xabc));
    let config = WorkerConfig::new(&env, "Racer", 10).unwrap();
    assert_eq!(config.model, Felt::from_u128(0x5261636572));
    assert_eq!(config.enemy_count, 10);
    assert_eq!(config.block_id, LATEST);
}

#[test]
fn config_refuses_a_name_that_is_no_short_string() {
    let env = DojoEnv::new(Felt::zero());
    assert_eq!(
        WorkerConfig::new(&env, "a name of more than thirty-one bytes", 1),
        Err(ShortStringError::StringTooLong)
    );
    assert_eq!(
        WorkerConfig::new(&env, "mod\u{e8}le", 1),
        Err(ShortStringError::NonAsciiCharacter)
    );
}

#[test]
fn a_new_worker_asks_for_its_handle() {
    let worker = Worker::new(Category::UpdateVehicle, config(3));
    assert_eq!(worker.phase(), Phase::Booting);
    assert_eq!(worker.category(), Category::UpdateVehicle);
    assert_eq!(worker.config(), config(3));
    assert_eq!(worker.target(), LedgerTarget::VehicleComponent);
    assert_eq!(
        worker.boot(),
        WorkerAction::Resolve { target: LedgerTarget::VehicleComponent, block_id: LATEST }
    );
    assert!(!worker.is_busy());
}

#[test]
fn a_missing_handle_stops_the_worker() {
    let mut worker = Worker::new(Category::Drive, config(3));
    assert_eq!(worker.step(WorkerEvent::HandleMissing), Some(WorkerAction::Stop));
    assert_eq!(worker.phase(), Phase::Stopped(StopReason::Bootstrap));
    assert_eq!(worker.step(WorkerEvent::Command), None);
    assert_eq!(worker.step(WorkerEvent::HandleResolved), None);
    assert_eq!(worker.phase(), Phase::Stopped(StopReason::Bootstrap));
}

#[test]
fn a_closed_channel_stops_the_worker() {
    let mut worker = idle(Category::UpdateEnemies, 3);
    assert_eq!(worker.step(WorkerEvent::ChannelClosed), Some(WorkerAction::Stop));
    assert_eq!(worker.phase(), Phase::Stopped(StopReason::ChannelClosed));
    assert_eq!(worker.step(WorkerEvent::Command), None);
}

#[test]
fn spawn_racers_calls_with_model_seed_and_three_zeros() {
    let mut worker = idle(Category::SpawnRacers, 3);
    let seed = Felt::from_u128(17 << 64);
    assert_eq!(
        worker.step_with_seed(WorkerEvent::Command, seed),
        Some(WorkerAction::Execute {
            calldata: vec![config(3).model, seed, Felt::zero(), Felt::zero(), Felt::zero()],
        })
    );
    assert!(worker.is_busy());
    assert_eq!(
        worker.step(WorkerEvent::Executed),
        Some(WorkerAction::Emit {
            events: vec![GameEvent::SpawnEnemies(SpawnEnemies), GameEvent::SpawnCar(SpawnCar)],
        })
    );
    assert!(worker.is_busy());
    assert_eq!(worker.step(WorkerEvent::Applied), Some(WorkerAction::AwaitCommand));
    assert_eq!(worker.phase(), Phase::Idle);
}

#[test]
fn spawn_racers_draws_a_seed_of_its_own() {
    for _ in 0..50 {
        let mut worker = idle(Category::SpawnRacers, 3);
        match worker.step(WorkerEvent::Command) {
            Some(WorkerAction::Execute { calldata }) => {
                assert_eq!(calldata.len(), 5);
                assert_eq!(calldata[0], config(3).model);
                let seed = decode_felt(&calldata[1]).unwrap();
                assert_eq!(seed.fraction, 0);
                assert!(seed.whole < 200);
                assert_eq!(calldata[2..], [Felt::zero(); 3]);
            }
            other => panic!("unexpected action {:?}", other),
        }
    }
}

#[test]
fn spawn_racers_failure_emits_nothing() {
    let mut worker = idle(Category::SpawnRacers, 3);
    assert!(worker.step(WorkerEvent::Command).is_some());
    assert_eq!(worker.step(WorkerEvent::CallFailed), Some(WorkerAction::AwaitCommand));
    assert_eq!(worker.phase(), Phase::Idle);
}

#[test]
fn drive_resolves_the_model_and_calls_with_it() {
    let mut worker = idle(Category::Drive, 3);
    let id = Felt::from_u128(99);
    assert_eq!(worker.step(WorkerEvent::Command), Some(WorkerAction::ResolveModelId));
    assert_eq!(worker.phase(), Phase::ResolvingModel);
    assert_eq!(
        worker.step(WorkerEvent::ModelId(Some(id))),
        Some(WorkerAction::Execute { calldata: vec![id] })
    );
    assert_eq!(worker.phase(), Phase::Calling { model_id: id, index: 0 });
    assert_eq!(worker.step(WorkerEvent::Executed), Some(WorkerAction::AwaitCommand));
    assert_eq!(worker.phase(), Phase::Idle);
}

#[test]
fn a_missing_model_skips_the_command() {
    for category in [Category::Drive, Category::UpdateVehicle, Category::UpdateEnemies] {
        let mut worker = idle(category, 3);
        assert_eq!(worker.step(WorkerEvent::Command), Some(WorkerAction::ResolveModelId));
        assert_eq!(worker.step(WorkerEvent::ModelId(None)), Some(WorkerAction::AwaitCommand));
        assert_eq!(worker.phase(), Phase::Idle);
    }
}

#[test]
fn drive_failure_goes_on_to_the_next_command() {
    let mut worker = idle(Category::Drive, 3);
    worker.step(WorkerEvent::Command);
    worker.step(WorkerEvent::ModelId(Some(Felt::from_u128(1))));
    assert_eq!(worker.step(WorkerEvent::CallFailed), Some(WorkerAction::AwaitCommand));
    assert_eq!(worker.step(WorkerEvent::Command), Some(WorkerAction::ResolveModelId));
}

#[test]
fn update_vehicle_reads_and_emits_the_record() {
    let mut worker = idle(Category::UpdateVehicle, 3);
    let id = Felt::from_u128(5);
    let record = vec![Felt::from_u128(1 << 64), Felt::from_u128(2 << 64), Felt::from_u128(3)];
    assert_eq!(worker.step(WorkerEvent::Command), Some(WorkerAction::ResolveModelId));
    assert_eq!(worker.step(WorkerEvent::ModelId(Some(id))), query(vec![id]));
    assert_eq!(
        worker.step(WorkerEvent::Record(record.clone())),
        Some(WorkerAction::Emit {
            events: vec![GameEvent::UpdateCar(UpdateCar { vehicle: record })],
        })
    );
    assert_eq!(worker.step(WorkerEvent::Applied), Some(WorkerAction::AwaitCommand));
}

#[test]
fn update_enemies_reads_every_enemy_in_turn() {
    let mut worker = idle(Category::UpdateEnemies, 3);
    let id = Felt::from_u128(5);
    assert_eq!(worker.step(WorkerEvent::Command), Some(WorkerAction::ResolveModelId));
    let mut action = worker.step(WorkerEvent::ModelId(Some(id)));
    for index in 0..3u64 {
        assert_eq!(action, query(vec![id, Felt::from_u64(index)]));
        let position = vec![Felt::from_u64(10 * index), Felt::from_u64(20 * index)];
        assert_eq!(
            worker.step(WorkerEvent::Record(position.clone())),
            Some(WorkerAction::Emit {
                events: vec![GameEvent::UpdateEnemy(UpdateEnemy {
                    position,
                    enemy_id: Felt::from_u64(index),
                })],
            })
        );
        assert!(worker.is_busy());
        action = worker.step(WorkerEvent::Applied);
    }
    assert_eq!(action, Some(WorkerAction::AwaitCommand));
    assert_eq!(worker.phase(), Phase::Idle);
}

#[test]
fn update_enemies_goes_on_after_a_failed_read() {
    let mut worker = idle(Category::UpdateEnemies, 3);
    let id = Felt::from_u128(5);
    worker.step(WorkerEvent::Command);
    assert_eq!(
        worker.step(WorkerEvent::ModelId(Some(id))),
        query(vec![id, Felt::from_u64(0)])
    );
    assert_eq!(worker.step(WorkerEvent::CallFailed), query(vec![id, Felt::from_u64(1)]));
    assert_eq!(worker.step(WorkerEvent::CallFailed), query(vec![id, Felt::from_u64(2)]));
    assert_eq!(worker.step(WorkerEvent::CallFailed), Some(WorkerAction::AwaitCommand));
}

#[test]
fn update_enemies_without_enemies_reads_nothing() {
    let mut worker = idle(Category::UpdateEnemies, 0);
    worker.step(WorkerEvent::Command);
    assert_eq!(
        worker.step(WorkerEvent::ModelId(Some(Felt::from_u128(5)))),
        Some(WorkerAction::AwaitCommand)
    );
}

#[test]
fn a_command_in_flight_shuts_out_the_next() {
    let mut worker = idle(Category::UpdateVehicle, 3);
    let id = Felt::from_u128(5);
    worker.step(WorkerEvent::Command);
    assert_eq!(worker.step(WorkerEvent::Command), None);
    assert_eq!(worker.phase(), Phase::ResolvingModel);
    worker.step(WorkerEvent::ModelId(Some(id)));
    assert_eq!(worker.step(WorkerEvent::Command), None);
    worker.step(WorkerEvent::Record(vec![]));
    assert_eq!(worker.step(WorkerEvent::Command), None);
    assert_eq!(worker.phase(), Phase::Applying { model_id: id, index: 0 });
    assert_eq!(worker.step(WorkerEvent::Applied), Some(WorkerAction::AwaitCommand));
    assert_eq!(worker.step(WorkerEvent::Command), Some(WorkerAction::ResolveModelId));
}

#[test]
fn two_commands_are_served_in_order() {
    let mut worker = idle(Category::UpdateVehicle, 3);
    let mut served = Vec::new();
    for round in 1..=2u128 {
        let id = Felt::from_u128(round);
        assert_eq!(worker.step(WorkerEvent::Command), Some(WorkerAction::ResolveModelId));
        served.push(worker.step(WorkerEvent::ModelId(Some(id))));
        served.push(worker.step(WorkerEvent::Record(vec![Felt::from_u128(round * 10)])));
        assert_eq!(worker.step(WorkerEvent::Applied), Some(WorkerAction::AwaitCommand));
    }
    assert_eq!(
        served,
        vec![
            query(vec![Felt::from_u128(1)]),
            Some(WorkerAction::Emit {
                events: vec![GameEvent::UpdateCar(UpdateCar {
                    vehicle: vec![Felt::from_u128(10)],
                })],
            }),
            query(vec![Felt::from_u128(2)]),
            Some(WorkerAction::Emit {
                events: vec![GameEvent::UpdateCar(UpdateCar {
                    vehicle: vec![Felt::from_u128(20)],
                })],
            }),
        ]
    );
}

#[test]
fn an_event_out_of_turn_changes_nothing() {
    let mut worker = idle(Category::Drive, 3);
    for event in [
        WorkerEvent::HandleResolved,
        WorkerEvent::HandleMissing,
        WorkerEvent::ModelId(None),
        WorkerEvent::Executed,
        WorkerEvent::Record(vec![]),
        WorkerEvent::CallFailed,
        WorkerEvent::Applied,
    ] {
        assert_eq!(worker.step(event), None);
        assert_eq!(worker.phase(), Phase::Idle);
    }
    worker.step(WorkerEvent::Command);
    worker.step(WorkerEvent::ModelId(Some(Felt::from_u128(1))));
    assert_eq!(worker.step(WorkerEvent::Record(vec![])), None);
    assert_eq!(worker.step(WorkerEvent::Applied), None);
    assert_eq!(worker.step(WorkerEvent::ChannelClosed), None);
    assert!(worker.is_busy());
}

#[test]
fn a_record_is_no_answer_to_an_action() {
    let mut worker = idle(Category::SpawnRacers, 3);
    worker.step(WorkerEvent::Command);
    assert_eq!(worker.step(WorkerEvent::Record(vec![])), None);
    let mut worker = idle(Category::UpdateEnemies, 3);
    worker.step(WorkerEvent::Command);
    worker.step(WorkerEvent::ModelId(Some(Felt::from_u128(1))));
    assert_eq!(worker.step(WorkerEvent::Executed), None);
}
