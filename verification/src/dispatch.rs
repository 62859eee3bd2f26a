//! The dispatcher: when the sync timer is due, it enqueues the commands
//! that fit the state of the simulation. It never changes that state.

use crate::channel::{
    Category, ChannelError, DriveCommand, SpawnRacersCommand, UpdateEnemiesCommand,
    UpdateVehicleCommand,
};
use crate::timer::{spec_advance, DojoSyncTime};
use vstd::prelude::*;

verus! {

/// Whether a command of `category` is to be enqueued: only when the timer
/// is due; then the spawn of the racers while no racer exists, and the
/// three other categories once one does.
pub open spec fn planned(due: bool, racer_present: bool, category: Category) -> bool {
    due && match category {
        Category::SpawnRacers => !racer_present,
        Category::Drive | Category::UpdateVehicle | Category::UpdateEnemies => racer_present,
    }
}

/// What one run of the dispatcher did: whether the timer was due, and for
/// each category the outcome of the attempt to enqueue, where one was made.
#[derive(Clone, Copy, Debug, PartialEq, Eq)]
pub struct DispatchReport {
    /// Whether the timer was due.
    pub due: bool,
    /// The attempt to enqueue the spawn of the racers.
    pub spawn_racers: Option<Result<(), ChannelError>>,
    /// The attempt to enqueue the read of the vehicle.
    pub update_vehicle: Option<Result<(), ChannelError>>,
    /// The attempt to enqueue the drive.
    pub drive: Option<Result<(), ChannelError>>,
    /// The attempt to enqueue the read of the enemies.
    pub update_enemies: Option<Result<(), ChannelError>>,
}

impl DispatchReport {
    /// The outcome noted for `category`.
    pub open spec fn spec_outcome(self, category: Category) -> Option<Result<(), ChannelError>> {
        match category {
            Category::SpawnRacers => self.spawn_racers,
            Category::Drive => self.drive,
            Category::UpdateVehicle => self.update_vehicle,
            Category::UpdateEnemies => self.update_enemies,
        }
    }

    /// Whether an attempt was made for `category`.
    pub open spec fn attempted(self, category: Category) -> bool {
        self.spec_outcome(category) is Some
    }

    /// The outcome noted for `category`.
    pub fn outcome(&self, category: Category) -> (outcome: Option<Result<(), ChannelError>>)
        ensures
            outcome == self.spec_outcome(category),
    {
        match category {
            Category::SpawnRacers => self.spawn_racers,
            Category::Drive => self.drive,
            Category::UpdateVehicle => self.update_vehicle,
            Category::UpdateEnemies => self.update_enemies,
        }
    }
}

/// One frame of the dispatcher. Counts `delta_nanos` on the sync timer.
/// Where the timer comes due, tries to enqueue, each without waiting and
/// each on its own: the spawn of the racers if no racer exists; otherwise
/// the read of the vehicle, the drive and the read of the enemies, in this
/// order. A
/// refused command is dropped and noted in the report; nothing is tried
/// again in this frame.
pub fn sync_dojo_state(
    dojo_sync_time: &mut DojoSyncTime,
    delta_nanos: u64,
    racer_present: bool,
    spawn_racers: &SpawnRacersCommand,
    drive: &DriveCommand,
    update_vehicle: &UpdateVehicleCommand,
    update_enemies: &UpdateEnemiesCommand,
) -> (report: DispatchReport)
    ensures
        final(dojo_sync_time).spec_period() == old(dojo_sync_time).spec_period(),
        (final(dojo_sync_time).spec_elapsed(), report.due) == spec_advance(
            old(dojo_sync_time).spec_elapsed(),
            old(dojo_sync_time).spec_period(),
            delta_nanos as nat,
        ),
        forall|category: Category|
            report.attempted(category) <==> planned(report.due, racer_present, category),
{
    let mut report = DispatchReport {
        due: dojo_sync_time.advance(delta_nanos),
        spawn_racers: None,
        update_vehicle: None,
        drive: None,
        update_enemies: None,
    };
    if report.due {
        if !racer_present {
            report.spawn_racers = Some(spawn_racers.try_send());
        } else {
            report.update_vehicle = Some(update_vehicle.try_send());
            report.drive = Some(drive.try_send());
            report.update_enemies = Some(update_enemies.try_send());
        }
    }
    report
}

} // verus!
