use dojo_sync::channel::{
    Category, ChannelError, CommandChannel, CommandSender, DriveCommand, SpawnRacersCommand,
    UpdateEnemiesCommand, UpdateVehicleCommand,
};

#[test]
fn category_capacities() {
    assert_eq!(Category::SpawnRacers.capacity(), 8);
    assert_eq!(Category::Drive.capacity(), 8);
    assert_eq!(Category::UpdateVehicle.capacity(), 16);
    assert_eq!(Category::UpdateEnemies.capacity(), 16);
}

#[test]
fn sender_reports_the_bound_of_its_channel() {
    let (small, _rx_small) = CommandSender::channel(Category::Drive);
    let (large, _rx_large) = CommandSender::channel(Category::UpdateVehicle);
    assert_eq!(small.capacity(), 8);
    assert_eq!(large.capacity(), 16);
    assert_eq!(small.category(), Category::Drive);
}

#[test]
fn spawn_racers_overfill_drops_exactly_one() {
    let (command, _rx) = SpawnRacersCommand::channel();
    let mut accepted = 0;
    let mut dropped = 0;
    for _ in 0..9 {
        match command.try_send() {
            Ok(()) => accepted += 1,
            Err(ChannelError::Full) => dropped += 1,
            Err(ChannelError::Closed) => panic!("receiver is alive"),
        }
    }
    assert_eq!(accepted, 8);
    assert_eq!(dropped, 1);
}

#[test]
fn drive_overfill_drops_exactly_one() {
    let (command, _rx) = DriveCommand::channel();
    let outcomes: Vec<_> = (0..9).map(|_| command.try_send()).collect();
    assert_eq!(outcomes.iter().filter(|o| o.is_ok()).count(), 8);
    assert_eq!(outcomes[8], Err(ChannelError::Full));
}

#[test]
fn update_vehicle_overfill_drops_exactly_one() {
    let (command, _rx) = UpdateVehicleCommand::channel();
    let outcomes: Vec<_> = (0..17).map(|_| command.try_send()).collect();
    assert_eq!(outcomes.iter().filter(|o| o.is_ok()).count(), 16);
    assert_eq!(outcomes[16], Err(ChannelError::Full));
}

#[test]
fn update_enemies_overfill_drops_exactly_one() {
    let (command, _rx) = UpdateEnemiesCommand::channel();
    let outcomes: Vec<_> = (0..17).map(|_| command.try_send()).collect();
    assert_eq!(outcomes.iter().filter(|o| o.is_ok()).count(), 16);
    assert_eq!(outcomes[16], Err(ChannelError::Full));
}

#[test]
fn draining_makes_room_again() {
    let (command, mut rx) = SpawnRacersCommand::channel();
    for _ in 0..8 {
        assert_eq!(command.try_send(), Ok(()));
    }
    assert_eq!(command.try_send(), Err(ChannelError::Full));
    assert!(rx.try_recv().is_ok());
    assert_eq!(command.try_send(), Ok(()));
    assert_eq!(command.try_send(), Err(ChannelError::Full));
}

#[test]
fn send_after_receiver_is_gone_reports_closed() {
    let (command, rx) = UpdateEnemiesCommand::channel();
    drop(rx);
    assert_eq!(command.try_send(), Err(ChannelError::Closed));
}

#[test]
fn whole_channel_takes_its_buffer_and_drops_the_next() {
    for category in [
        Category::SpawnRacers,
        Category::Drive,
        Category::UpdateVehicle,
        Category::UpdateEnemies,
    ] {
        let mut channel = CommandChannel::new(category);
        let capacity = category.capacity();
        let mut dropped = 0;
        for attempt in 0..capacity + 1 {
            assert_eq!(channel.len(), attempt);
            match channel.try_send() {
                Ok(()) => assert!(attempt < capacity),
                Err(e) => {
                    assert_eq!(e, ChannelError::Full);
                    assert_eq!(attempt, capacity);
                    dropped += 1;
                }
            }
        }
        assert_eq!(dropped, 1);
        assert_eq!(channel.len(), capacity);
    }
}

#[test]
fn whole_channel_keeps_dropping_while_full() {
    let mut channel = CommandChannel::new(Category::Drive);
    let outcomes: Vec<_> = (0..12).map(|_| channel.try_send()).collect();
    assert_eq!(outcomes.iter().filter(|o| o.is_ok()).count(), 8);
    assert!(outcomes[8..].iter().all(|o| *o == Err(ChannelError::Full)));
}

#[test]
fn split_hands_out_what_was_enqueued() {
    let mut channel = CommandChannel::new(Category::UpdateEnemies);
    assert_eq!(channel.try_send(), Ok(()));
    assert_eq!(channel.try_send(), Ok(()));
    let (sender, mut rx) = channel.split();
    assert_eq!(sender.category(), Category::UpdateEnemies);
    assert_eq!(sender.capacity(), 16);
    assert!(rx.try_recv().is_ok());
    assert!(rx.try_recv().is_ok());
    assert!(rx.try_recv().is_err());
    assert_eq!(sender.try_send(), Ok(()));
    assert!(rx.try_recv().is_ok());
}

#[test]
fn named_senders_wrap_their_category() {
    let (spawn, _a) = SpawnRacersCommand::channel();
    let (drive, _b) = DriveCommand::channel();
    let (vehicle, _c) = UpdateVehicleCommand::channel();
    let (enemies, _d) = UpdateEnemiesCommand::channel();
    assert_eq!(spawn.sender().category(), Category::SpawnRacers);
    assert_eq!(spawn.sender().capacity(), 8);
    assert_eq!(drive.sender().category(), Category::Drive);
    assert_eq!(drive.sender().capacity(), 8);
    assert_eq!(vehicle.sender().category(), Category::UpdateVehicle);
    assert_eq!(vehicle.sender().capacity(), 16);
    assert_eq!(enemies.sender().category(), Category::UpdateEnemies);
    assert_eq!(enemies.sender().capacity(), 16);
}
