use dojo_sync::channel::{
    Category, ChannelError, DriveCommand, SpawnRacersCommand, UpdateEnemiesCommand,
    UpdateVehicleCommand,
};
use dojo_sync::dispatch::{sync_dojo_state, DispatchReport};
use dojo_sync::timer::DojoSyncTime;

#[test]
fn nothing_is_enqueued_before_the_timer_is_due() {
    let (spawn, mut spawn_rx) = SpawnRacersCommand::channel();
    let (drive, mut drive_rx) = DriveCommand::channel();
    let (vehicle, mut vehicle_rx) = UpdateVehicleCommand::channel();
    let (enemies, mut enemies_rx) = UpdateEnemiesCommand::channel();
    let mut sync = DojoSyncTime::from_nanos(1_000).unwrap();
    for racer in [false, true] {
        let report = sync_dojo_state(&mut sync, 100, racer, &spawn, &drive, &vehicle, &enemies);
        assert_eq!(
            report,
            DispatchReport {
                due: false,
                spawn_racers: None,
                update_vehicle: None,
                drive: None,
                update_enemies: None,
            }
        );
    }
    assert!(spawn_rx.try_recv().is_err());
    assert!(drive_rx.try_recv().is_err());
    assert!(vehicle_rx.try_recv().is_err());
    assert!(enemies_rx.try_recv().is_err());
}

#[test]
fn without_a_racer_only_the_spawn_is_enqueued() {
    let (spawn, mut spawn_rx) = SpawnRacersCommand::channel();
    let (drive, mut drive_rx) = DriveCommand::channel();
    let (vehicle, mut vehicle_rx) = UpdateVehicleCommand::channel();
    let (enemies, mut enemies_rx) = UpdateEnemiesCommand::channel();
    let mut sync = DojoSyncTime::from_nanos(1_000).unwrap();
    let report = sync_dojo_state(&mut sync, 1_000, false, &spawn, &drive, &vehicle, &enemies);
    assert!(report.due);
    assert_eq!(report.spawn_racers, Some(Ok(())));
    assert_eq!(report.update_vehicle, None);
    assert_eq!(report.drive, None);
    assert_eq!(report.update_enemies, None);
    assert!(spawn_rx.try_recv().is_ok());
    assert!(spawn_rx.try_recv().is_err());
    assert!(drive_rx.try_recv().is_err());
    assert!(vehicle_rx.try_recv().is_err());
    assert!(enemies_rx.try_recv().is_err());
}

#[test]
fn with_a_racer_the_three_others_are_enqueued() {
    let (spawn, mut spawn_rx) = SpawnRacersCommand::channel();
    let (drive, mut drive_rx) = DriveCommand::channel();
    let (vehicle, mut vehicle_rx) = UpdateVehicleCommand::channel();
    let (enemies, mut enemies_rx) = UpdateEnemiesCommand::channel();
    let mut sync = DojoSyncTime::from_nanos(1_000).unwrap();
    let report = sync_dojo_state(&mut sync, 1_000, true, &spawn, &drive, &vehicle, &enemies);
    assert!(report.due);
    assert_eq!(report.outcome(Category::SpawnRacers), None);
    assert_eq!(report.outcome(Category::UpdateVehicle), Some(Ok(())));
    assert_eq!(report.outcome(Category::Drive), Some(Ok(())));
    assert_eq!(report.outcome(Category::UpdateEnemies), Some(Ok(())));
    assert!(spawn_rx.try_recv().is_err());
    assert!(drive_rx.try_recv().is_ok());
    assert!(drive_rx.try_recv().is_err());
    assert!(vehicle_rx.try_recv().is_ok());
    assert!(vehicle_rx.try_recv().is_err());
    assert!(enemies_rx.try_recv().is_ok());
    assert!(enemies_rx.try_recv().is_err());
}

#[test]
fn a_full_channel_drops_the_command_and_the_others_still_go() {
    let (spawn, _spawn_rx) = SpawnRacersCommand::channel();
    let (drive, _drive_rx) = DriveCommand::channel();
    let (vehicle, mut vehicle_rx) = UpdateVehicleCommand::channel();
    let (enemies, _enemies_rx) = UpdateEnemiesCommand::channel();
    for _ in 0..8 {
        assert_eq!(drive.try_send(), Ok(()));
    }
    let mut sync = DojoSyncTime::from_nanos(5).unwrap();
    let report = sync_dojo_state(&mut sync, 5, true, &spawn, &drive, &vehicle, &enemies);
    assert_eq!(report.drive, Some(Err(ChannelError::Full)));
    assert_eq!(report.update_vehicle, Some(Ok(())));
    assert_eq!(report.update_enemies, Some(Ok(())));
    assert!(vehicle_rx.try_recv().is_ok());
}

#[test]
fn a_closed_channel_is_reported() {
    let (spawn, spawn_rx) = SpawnRacersCommand::channel();
    let (drive, _drive_rx) = DriveCommand::channel();
    let (vehicle, _vehicle_rx) = UpdateVehicleCommand::channel();
    let (enemies, _enemies_rx) = UpdateEnemiesCommand::channel();
    drop(spawn_rx);
    let mut sync = DojoSyncTime::from_nanos(5).unwrap();
    let report = sync_dojo_state(&mut sync, 9, false, &spawn, &drive, &vehicle, &enemies);
    assert_eq!(report.spawn_racers, Some(Err(ChannelError::Closed)));
}

#[test]
fn the_dispatcher_fires_once_per_period() {
    let (spawn, mut spawn_rx) = SpawnRacersCommand::channel();
    let (drive, _drive_rx) = DriveCommand::channel();
    let (vehicle, _vehicle_rx) = UpdateVehicleCommand::channel();
    let (enemies, _enemies_rx) = UpdateEnemiesCommand::channel();
    let mut sync = DojoSyncTime::from_nanos(300).unwrap();
    let mut fired = 0;
    for _ in 0..6 {
        if sync_dojo_state(&mut sync, 100, false, &spawn, &drive, &vehicle, &enemies).due {
            fired += 1;
        }
    }
    assert_eq!(fired, 2);
    assert!(spawn_rx.try_recv().is_ok());
    assert!(spawn_rx.try_recv().is_ok());
    assert!(spawn_rx.try_recv().is_err());
}
