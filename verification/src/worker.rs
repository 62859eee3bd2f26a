//! The worker of one category: what it asks of the ledger and of the
//! simulation for each command, one command at a time.
//!
//! The worker itself waits for nothing. Whoever runs it performs the action
//! that a step hands out (wait for a command, call the ledger, run a
//! callback on the simulation thread) and hands back what came of it as the
//! next event.

use crate::car::{SpawnCar, UpdateCar};
use crate::channel::Category;
use crate::enemy::{SpawnEnemies, UpdateEnemy};
use crate::env::{BlockId, DojoEnv};
use crate::felt::{spec_short_string, Felt, ShortStringError};
use crate::fixed::{is_seed, rand_felt_fixed_point};
use vstd::prelude::*;

verus! {

/// What a worker talks to on the ledger.
#[derive(Clone, Copy, Debug, PartialEq, Eq, Structural)]
pub enum LedgerTarget {
    /// The action that spawns the racers.
    SpawnRacerSystem,
    /// The action that advances the racer.
    DriveSystem,
    /// The record of the racer's vehicle.
    VehicleComponent,
    /// The record of one enemy's position.
    PositionComponent,
}

impl LedgerTarget {
    /// Whether the target is an action that changes the ledger, as opposed
    /// to a record that is read.
    pub open spec fn spec_is_system(self) -> bool {
        self is SpawnRacerSystem || self is DriveSystem
    }

    /// Whether the target is an action that changes the ledger.
    pub fn is_system(&self) -> (system: bool)
        ensures
            system == self.spec_is_system(),
    {
        match self {
            LedgerTarget::SpawnRacerSystem | LedgerTarget::DriveSystem => true,
            LedgerTarget::VehicleComponent | LedgerTarget::PositionComponent => false,
        }
    }

    /// The name under which the ledger knows the target.
    pub open spec fn spec_name(self) -> Seq<char> {
        match self {
            LedgerTarget::SpawnRacerSystem => "spawn_racer"@,
            LedgerTarget::DriveSystem => "drive"@,
            LedgerTarget::VehicleComponent => "Vehicle"@,
            LedgerTarget::PositionComponent => "Position"@,
        }
    }

    /// The name under which the ledger knows the target.
    pub fn name(&self) -> (name: &'static str)
        ensures
            name@ == self.spec_name(),
    {
        match self {
            LedgerTarget::SpawnRacerSystem => "spawn_racer",
            LedgerTarget::DriveSystem => "drive",
            LedgerTarget::VehicleComponent => "Vehicle",
            LedgerTarget::PositionComponent => "Position",
        }
    }
}

/// What the worker of `category` talks to.
pub open spec fn spec_target(category: Category) -> LedgerTarget {
    match category {
        Category::SpawnRacers => LedgerTarget::SpawnRacerSystem,
        Category::Drive => LedgerTarget::DriveSystem,
        Category::UpdateVehicle => LedgerTarget::VehicleComponent,
        Category::UpdateEnemies => LedgerTarget::PositionComponent,
    }
}

/// What the worker of `category` talks to.
pub fn target(category: Category) -> (target: LedgerTarget)
    ensures
        target == spec_target(category),
{
    match category {
        Category::SpawnRacers => LedgerTarget::SpawnRacerSystem,
        Category::Drive => LedgerTarget::DriveSystem,
        Category::UpdateVehicle => LedgerTarget::VehicleComponent,
        Category::UpdateEnemies => LedgerTarget::PositionComponent,
    }
}

/// What a worker is configured with.
#[derive(Clone, Copy, Debug, PartialEq, Eq)]
pub struct WorkerConfig {
    /// The model identifier that racers are spawned under.
    pub model: Felt,
    /// How many enemies there are; their indices run from zero.
    pub enemy_count: u32,
    /// The block at which the ledger is read.
    pub block_id: BlockId,
}

impl WorkerConfig {
    /// The configuration of the workers of `env`, for racers spawned under
    /// the model named `model_name`. The name is packed as a short string;
    /// where it cannot be, there is no configuration.
    pub fn new(env: &DojoEnv, model_name: &str, enemy_count: u32) -> (out: Result<
        WorkerConfig,
        ShortStringError,
    >)
        ensures
            match out {
                Ok(config) => {
                    &&& spec_short_string(model_name) == Ok::<Seq<u8>, ShortStringError>(
                        config.model@,
                    )
                    &&& config.enemy_count == enemy_count
                    &&& config.block_id == env.spec_block_id()
                },
                Err(e) => spec_short_string(model_name) == Err::<Seq<u8>, ShortStringError>(e),
            },
    {
        match Felt::from_short_string(model_name) {
            Ok(model) => Ok(WorkerConfig { model, enemy_count, block_id: env.block_id() }),
            Err(e) => Err(e),
        }
    }
}

/// Why a worker stopped.
#[derive(Clone, Copy, Debug, PartialEq, Eq, Structural)]
pub enum StopReason {
    /// The ledger does not know the worker's target. Only this worker
    /// stops.
    Bootstrap,
    /// The command channel was closed.
    ChannelClosed,
}

/// Where a worker stands.
#[derive(Clone, Copy, Debug, PartialEq, Eq)]
pub enum Phase {
    /// It has asked the ledger for its target.
    Booting,
    /// It waits for a command; none is in flight.
    Idle,
    /// It has asked the simulation for the racer's model id.
    ResolvingModel,
    /// A call to the ledger is under way, for the enemy `index` where the
    /// category has one.
    Calling { model_id: Felt, index: u32 },
    /// A callback on the simulation thread is under way.
    Applying { model_id: Felt, index: u32 },
    /// It has stopped for good.
    Stopped(StopReason),
}

impl Phase {
    /// Whether a command is in flight.
    pub open spec fn busy(self) -> bool {
        self is ResolvingModel || self is Calling || self is Applying
    }
}

/// What a worker tells the rest of the simulation.
#[derive(Clone, Debug, PartialEq, Eq)]
pub enum GameEvent {
    /// The car should spawn.
    SpawnCar(SpawnCar),
    /// The enemies should spawn.
    SpawnEnemies(SpawnEnemies),
    /// The vehicle was read.
    UpdateCar(UpdateCar),
    /// The position of an enemy was read.
    UpdateEnemy(UpdateEnemy),
}

/// A [`GameEvent`] in contracts.
pub enum GameEventView {
    SpawnCar,
    SpawnEnemies,
    UpdateCar { vehicle: Seq<Felt> },
    UpdateEnemy { position: Seq<Felt>, enemy_id: Felt },
}

impl View for GameEvent {
    type V = GameEventView;

    open spec fn view(&self) -> GameEventView {
        match *self {
            GameEvent::SpawnCar(_) => GameEventView::SpawnCar,
            GameEvent::SpawnEnemies(_) => GameEventView::SpawnEnemies,
            GameEvent::UpdateCar(update) => GameEventView::UpdateCar { vehicle: update.vehicle@ },
            GameEvent::UpdateEnemy(update) => GameEventView::UpdateEnemy {
                position: update.position@,
                enemy_id: update.enemy_id,
            },
        }
    }
}

/// What came of the action that the worker last handed out.
#[derive(Clone, Debug, PartialEq, Eq)]
pub enum WorkerEvent {
    /// The ledger knows the worker's target.
    HandleResolved,
    /// The ledger does not know the worker's target.
    HandleMissing,
    /// A command arrived.
    Command,
    /// The command channel was closed.
    ChannelClosed,
    /// The simulation answered with the racer's model id, if there is
    /// exactly one racer.
    ModelId(Option<Felt>),
    /// The ledger carried out the action.
    Executed,
    /// The ledger answered with a record.
    Record(Vec<Felt>),
    /// The call to the ledger failed.
    CallFailed,
    /// The callback on the simulation thread has run.
    Applied,
}

/// A [`WorkerEvent`] in contracts.
pub enum WorkerEventView {
    HandleResolved,
    HandleMissing,
    Command,
    ChannelClosed,
    ModelId(Option<Felt>),
    Executed,
    Record(Seq<Felt>),
    CallFailed,
    Applied,
}

impl View for WorkerEvent {
    type V = WorkerEventView;

    open spec fn view(&self) -> WorkerEventView {
        match *self {
            WorkerEvent::HandleResolved => WorkerEventView::HandleResolved,
            WorkerEvent::HandleMissing => WorkerEventView::HandleMissing,
            WorkerEvent::Command => WorkerEventView::Command,
            WorkerEvent::ChannelClosed => WorkerEventView::ChannelClosed,
            WorkerEvent::ModelId(id) => WorkerEventView::ModelId(id),
            WorkerEvent::Executed => WorkerEventView::Executed,
            WorkerEvent::Record(record) => WorkerEventView::Record(record@),
            WorkerEvent::CallFailed => WorkerEventView::CallFailed,
            WorkerEvent::Applied => WorkerEventView::Applied,
        }
    }
}

/// What the worker asks to be done next.
#[derive(Clone, Debug, PartialEq, Eq)]
pub enum WorkerAction {
    /// Ask the ledger for the handle of the worker's target, at this block.
    Resolve { target: LedgerTarget, block_id: BlockId },
    /// Wait for the next command on the worker's channel.
    AwaitCommand,
    /// Ask the simulation for the racer's model id.
    ResolveModelId,
    /// Invoke the worker's action on the ledger with these arguments.
    Execute { calldata: Vec<Felt> },
    /// Read the worker's record from the ledger, under this entity
    /// reference and these keys, at this block.
    Query { entity: Felt, keys: Vec<Felt>, block_id: BlockId },
    /// Send these events in one callback on the simulation thread, in this
    /// order.
    Emit { events: Vec<GameEvent> },
    /// Leave the loop.
    Stop,
}

/// A [`WorkerAction`] in contracts.
pub enum WorkerActionView {
    Resolve { target: LedgerTarget, block_id: BlockId },
    AwaitCommand,
    ResolveModelId,
    Execute { calldata: Seq<Felt> },
    Query { entity: Felt, keys: Seq<Felt>, block_id: BlockId },
    Emit { events: Seq<GameEventView> },
    Stop,
}

impl View for WorkerAction {
    type V = WorkerActionView;

    open spec fn view(&self) -> WorkerActionView {
        match *self {
            WorkerAction::Resolve { target, block_id } => WorkerActionView::Resolve {
                target,
                block_id,
            },
            WorkerAction::AwaitCommand => WorkerActionView::AwaitCommand,
            WorkerAction::ResolveModelId => WorkerActionView::ResolveModelId,
            WorkerAction::Execute { calldata } => WorkerActionView::Execute { calldata: calldata@ },
            WorkerAction::Query { entity, keys, block_id } => WorkerActionView::Query {
                entity,
                keys: keys@,
                block_id,
            },
            WorkerAction::Emit { events } => WorkerActionView::Emit {
                events: events@.map_values(|event: GameEvent| event@),
            },
            WorkerAction::Stop => WorkerActionView::Stop,
        }
    }
}

/// The arguments of the spawn of the racers: the model, the seed, and three
/// zeros.
pub open spec fn spawn_calldata(model: Felt, seed: Felt) -> Seq<Felt> {
    seq![model, seed, Felt::of(0), Felt::of(0), Felt::of(0)]
}

/// The keys under which the position of the enemy `index` is read.
pub open spec fn enemy_keys(model_id: Felt, index: u32) -> Seq<Felt> {
    seq![model_id, Felt::of(index as nat)]
}

/// The read of the worker's record under `keys`: under the zero entity
/// reference, at the configured block.
pub open spec fn query(config: WorkerConfig, keys: Seq<Felt>) -> WorkerActionView {
    WorkerActionView::Query { entity: Felt::of(0), keys, block_id: config.block_id }
}

/// What follows the enemy `index`: the read of the next one, or the wait
/// for the next command once all are done.
pub open spec fn after_enemy(config: WorkerConfig, model_id: Felt, index: u32) -> (
    Phase,
    WorkerActionView,
) {
    if index + 1 < config.enemy_count {
        (
            Phase::Calling { model_id, index: (index + 1) as u32 },
            query(config, enemy_keys(model_id, (index + 1) as u32)),
        )
    } else {
        (Phase::Idle, WorkerActionView::AwaitCommand)
    }
}

/// What follows a call or a callback of a command: for the enemies the
/// next enemy, for the other categories the wait for the next command.
pub open spec fn after_part(
    category: Category,
    config: WorkerConfig,
    model_id: Felt,
    index: u32,
) -> (Phase, WorkerActionView) {
    if category is UpdateEnemies {
        after_enemy(config, model_id, index)
    } else {
        (Phase::Idle, WorkerActionView::AwaitCommand)
    }
}

/// One step of a worker: from where it stands and what came in, where it
/// stands next and what it asks for. There is no step for an event that
/// does not answer what the worker last asked for. `seed` is the seed that
/// a spawn of the racers is sent with.
pub open spec fn spec_step(
    category: Category,
    config: WorkerConfig,
    phase: Phase,
    event: WorkerEventView,
    seed: Felt,
) -> Option<(Phase, WorkerActionView)> {
    match (phase, event) {
        (Phase::Booting, WorkerEventView::HandleResolved) => Some(
            (Phase::Idle, WorkerActionView::AwaitCommand),
        ),
        (Phase::Booting, WorkerEventView::HandleMissing) => Some(
            (Phase::Stopped(StopReason::Bootstrap), WorkerActionView::Stop),
        ),
        (Phase::Idle, WorkerEventView::ChannelClosed) => Some(
            (Phase::Stopped(StopReason::ChannelClosed), WorkerActionView::Stop),
        ),
        (Phase::Idle, WorkerEventView::Command) => if category is SpawnRacers {
            Some(
                (
                    Phase::Calling { model_id: config.model, index: 0 },
                    WorkerActionView::Execute { calldata: spawn_calldata(config.model, seed) },
                ),
            )
        } else {
            Some((Phase::ResolvingModel, WorkerActionView::ResolveModelId))
        },
        (Phase::ResolvingModel, WorkerEventView::ModelId(None)) => Some(
            (Phase::Idle, WorkerActionView::AwaitCommand),
        ),
        (Phase::ResolvingModel, WorkerEventView::ModelId(Some(model_id))) => match category {
            Category::SpawnRacers => None,
            Category::Drive => Some(
                (
                    Phase::Calling { model_id, index: 0 },
                    WorkerActionView::Execute { calldata: seq![model_id] },
                ),
            ),
            Category::UpdateVehicle => Some(
                (
                    Phase::Calling { model_id, index: 0 },
                    query(config, seq![model_id]),
                ),
            ),
            Category::UpdateEnemies => if config.enemy_count == 0 {
                Some((Phase::Idle, WorkerActionView::AwaitCommand))
            } else {
                Some(
                    (
                        Phase::Calling { model_id, index: 0 },
                        query(config, enemy_keys(model_id, 0)),
                    ),
                )
            },
        },
        (Phase::Calling { model_id, index }, WorkerEventView::Executed) => match category {
            Category::SpawnRacers => Some(
                (
                    Phase::Applying { model_id, index },
                    WorkerActionView::Emit {
                        events: seq![GameEventView::SpawnEnemies, GameEventView::SpawnCar],
                    },
                ),
            ),
            Category::Drive => Some((Phase::Idle, WorkerActionView::AwaitCommand)),
            _ => None,
        },
        (Phase::Calling { model_id, index }, WorkerEventView::Record(record)) => match category {
            Category::UpdateVehicle => Some(
                (
                    Phase::Applying { model_id, index },
                    WorkerActionView::Emit {
                        events: seq![GameEventView::UpdateCar { vehicle: record }],
                    },
                ),
            ),
            Category::UpdateEnemies => Some(
                (
                    Phase::Applying { model_id, index },
                    WorkerActionView::Emit {
                        events: seq![
                            GameEventView::UpdateEnemy {
                                position: record,
                                enemy_id: Felt::of(index as nat),
                            },
                        ],
                    },
                ),
            ),
            _ => None,
        },
        (Phase::Calling { model_id, index }, WorkerEventView::CallFailed) => Some(
            after_part(category, config, model_id, index),
        ),
        (Phase::Applying { model_id, index }, WorkerEventView::Applied) => Some(
            after_part(category, config, model_id, index),
        ),
        _ => None,
    }
}

/// Whether a step from `phase` on `event` with `seed` ends in `next` and
/// hands out `action`; where there is no step, nothing changes and nothing
/// is handed out.
pub open spec fn stepped(
    category: Category,
    config: WorkerConfig,
    phase: Phase,
    event: WorkerEventView,
    seed: Felt,
    next: Phase,
    action: Option<WorkerActionView>,
) -> bool {
    match spec_step(category, config, phase, event, seed) {
        Some((after, asked)) => next == after && action == Some(asked),
        None => next == phase && action is None,
    }
}

/// The view of an action that may be missing.
pub open spec fn action_view(action: Option<WorkerAction>) -> Option<WorkerActionView> {
    match action {
        Some(action) => Some(action@),
        None => None,
    }
}

/// The worker of one category.
#[derive(Clone, Copy, Debug, PartialEq, Eq)]
pub struct Worker {
    category: Category,
    config: WorkerConfig,
    phase: Phase,
}

impl Worker {
    /// The category that the worker serves.
    pub closed spec fn spec_category(&self) -> Category {
        self.category
    }

    /// What the worker is configured with.
    pub closed spec fn spec_config(&self) -> WorkerConfig {
        self.config
    }

    /// Where the worker stands.
    pub closed spec fn spec_phase(&self) -> Phase {
        self.phase
    }

    /// A worker that has yet to learn whether the ledger knows its target.
    /// Whoever runs it resolves [`Worker::target`] first and hands in
    /// `HandleResolved` or `HandleMissing`.
    pub fn new(category: Category, config: WorkerConfig) -> (worker: Worker)
        ensures
            worker.spec_category() == category,
            worker.spec_config() == config,
            worker.spec_phase() == Phase::Booting,
    {
        Worker { category, config, phase: Phase::Booting }
    }

    /// The category that the worker serves.
    pub fn category(&self) -> (category: Category)
        ensures
            category == self.spec_category(),
    {
        self.category
    }

    /// What the worker is configured with.
    pub fn config(&self) -> (config: WorkerConfig)
        ensures
            config == self.spec_config(),
    {
        self.config
    }

    /// Where the worker stands.
    pub fn phase(&self) -> (phase: Phase)
        ensures
            phase == self.spec_phase(),
    {
        self.phase
    }

    /// What the worker talks to on the ledger.
    pub fn target(&self) -> (target: LedgerTarget)
        ensures
            target == spec_target(self.spec_category()),
    {
        self::target(self.category)
    }

    /// The first thing to do for a new worker: ask the ledger for the
    /// handle of its target, at the configured block.
    pub fn boot(&self) -> (action: WorkerAction)
        ensures
            action@ == (WorkerActionView::Resolve {
                target: spec_target(self.spec_category()),
                block_id: self.spec_config().block_id,
            }),
    {
        WorkerAction::Resolve { target: self.target(), block_id: self.config.block_id }
    }

    /// Whether a command is in flight.
    pub fn is_busy(&self) -> (busy: bool)
        ensures
            busy == self.spec_phase().busy(),
    {
        match self.phase {
            Phase::ResolvingModel | Phase::Calling { .. } | Phase::Applying { .. } => true,
            _ => false,
        }
    }

    /// What follows a call or a callback of the command in flight.
    fn next_part(&mut self, model_id: Felt, index: u32) -> (action: WorkerAction)
        ensures
            final(self).category == old(self).category,
            final(self).config == old(self).config,
            (final(self).phase, action@) == after_part(
                old(self).category,
                old(self).config,
                model_id,
                index,
            ),
    {
        let more = match self.category {
            Category::UpdateEnemies => index < u32::MAX && index + 1 < self.config.enemy_count,
            _ => false,
        };
        if more {
            let next: u32 = index + 1;
            self.phase = Phase::Calling { model_id, index: next };
            let keys = vec![model_id, Felt::from_u64(next as u64)];
            proof {
                assert(keys@ =~= enemy_keys(model_id, next));
            }
            WorkerAction::Query { entity: Felt::zero(), keys, block_id: self.config.block_id }
        } else {
            self.phase = Phase::Idle;
            WorkerAction::AwaitCommand
        }
    }

    /// One step with the seed given: takes what came of the last action and
    /// hands out the next one. An event that does not answer the last
    /// action changes nothing and gives no action.
    pub fn step_with_seed(&mut self, event: WorkerEvent, seed: Felt) -> (action: Option<
        WorkerAction,
    >)
        ensures
            final(self).spec_category() == old(self).spec_category(),
            final(self).spec_config() == old(self).spec_config(),
            stepped(
                old(self).spec_category(),
                old(self).spec_config(),
                old(self).spec_phase(),
                event@,
                seed,
                final(self).spec_phase(),
                action_view(action),
            ),
    {
        match (self.phase, event) {
            (Phase::Booting, WorkerEvent::HandleResolved) => {
                self.phase = Phase::Idle;
                Some(WorkerAction::AwaitCommand)
            },
            (Phase::Booting, WorkerEvent::HandleMissing) => {
                self.phase = Phase::Stopped(StopReason::Bootstrap);
                Some(WorkerAction::Stop)
            },
            (Phase::Idle, WorkerEvent::ChannelClosed) => {
                self.phase = Phase::Stopped(StopReason::ChannelClosed);
                Some(WorkerAction::Stop)
            },
            (Phase::Idle, WorkerEvent::Command) => {
                match self.category {
                    Category::SpawnRacers => {
                        let model = self.config.model;
                        self.phase = Phase::Calling { model_id: model, index: 0 };
                        let calldata = vec![model, seed, Felt::zero(), Felt::zero(), Felt::zero()];
                        proof {
                            assert(calldata@ =~= spawn_calldata(model, seed));
                        }
                        Some(WorkerAction::Execute { calldata })
                    },
                    _ => {
                        self.phase = Phase::ResolvingModel;
                        Some(WorkerAction::ResolveModelId)
                    },
                }
            },
            (Phase::ResolvingModel, WorkerEvent::ModelId(None)) => {
                self.phase = Phase::Idle;
                Some(WorkerAction::AwaitCommand)
            },
            (Phase::ResolvingModel, WorkerEvent::ModelId(Some(model_id))) => {
                match self.category {
                    Category::SpawnRacers => None,
                    Category::Drive => {
                        self.phase = Phase::Calling { model_id, index: 0 };
                        let calldata = vec![model_id];
                        proof {
                            assert(calldata@ =~= seq![model_id]);
                        }
                        Some(WorkerAction::Execute { calldata })
                    },
                    Category::UpdateVehicle => {
                        self.phase = Phase::Calling { model_id, index: 0 };
                        let keys = vec![model_id];
                        proof {
                            assert(keys@ =~= seq![model_id]);
                        }
                        Some(
                            WorkerAction::Query {
                                entity: Felt::zero(),
                                keys,
                                block_id: self.config.block_id,
                            },
                        )
                    },
                    Category::UpdateEnemies => {
                        if self.config.enemy_count == 0 {
                            self.phase = Phase::Idle;
                            Some(WorkerAction::AwaitCommand)
                        } else {
                            self.phase = Phase::Calling { model_id, index: 0 };
                            let keys = vec![model_id, Felt::from_u64(0)];
                            proof {
                                assert(keys@ =~= enemy_keys(model_id, 0));
                            }
                            Some(
                            WorkerAction::Query {
                                entity: Felt::zero(),
                                keys,
                                block_id: self.config.block_id,
                            },
                        )
                        }
                    },
                }
            },
            (Phase::Calling { model_id, index }, WorkerEvent::Executed) => {
                match self.category {
                    Category::SpawnRacers => {
                        self.phase = Phase::Applying { model_id, index };
                        let events = vec![
                            GameEvent::SpawnEnemies(SpawnEnemies),
                            GameEvent::SpawnCar(SpawnCar),
                        ];
                        proof {
                            assert(events@.map_values(|event: GameEvent| event@)
                                =~= seq![GameEventView::SpawnEnemies, GameEventView::SpawnCar]);
                        }
                        Some(WorkerAction::Emit { events })
                    },
                    Category::Drive => {
                        self.phase = Phase::Idle;
                        Some(WorkerAction::AwaitCommand)
                    },
                    _ => None,
                }
            },
            (Phase::Calling { model_id, index }, WorkerEvent::Record(record)) => {
                match self.category {
                    Category::UpdateVehicle => {
                        self.phase = Phase::Applying { model_id, index };
                        let ghost raw = record@;
                        let events = vec![GameEvent::UpdateCar(UpdateCar { vehicle: record })];
                        proof {
                            assert(events@.map_values(|event: GameEvent| event@)
                                =~= seq![GameEventView::UpdateCar { vehicle: raw }]);
                        }
                        Some(WorkerAction::Emit { events })
                    },
                    Category::UpdateEnemies => {
                        self.phase = Phase::Applying { model_id, index };
                        let ghost raw = record@;
                        let enemy_id = Felt::from_u64(index as u64);
                        let events = vec![
                            GameEvent::UpdateEnemy(UpdateEnemy { position: record, enemy_id }),
                        ];
                        proof {
                            assert(events@.map_values(|event: GameEvent| event@)
                                =~= seq![
                                GameEventView::UpdateEnemy { position: raw, enemy_id },
                            ]);
                        }
                        Some(WorkerAction::Emit { events })
                    },
                    _ => None,
                }
            },
            (Phase::Calling { model_id, index }, WorkerEvent::CallFailed) => {
                Some(self.next_part(model_id, index))
            },
            (Phase::Applying { model_id, index }, WorkerEvent::Applied) => {
                Some(self.next_part(model_id, index))
            },
            _ => None,
        }
    }

    /// One step: takes what came of the last action and hands out the next
    /// one. Where the step sends the spawn of the racers, it draws the seed
    /// for it; whatever seed is drawn, the step is that of
    /// [`Worker::step_with_seed`] with it.
    pub fn step(&mut self, event: WorkerEvent) -> (action: Option<WorkerAction>)
        ensures
            final(self).spec_category() == old(self).spec_category(),
            final(self).spec_config() == old(self).spec_config(),
            exists|seed: Felt|
                #[trigger] is_seed(seed) && stepped(
                    old(self).spec_category(),
                    old(self).spec_config(),
                    old(self).spec_phase(),
                    event@,
                    seed,
                    final(self).spec_phase(),
                    action_view(action),
                ),
    {
        let spawning = match (self.category, self.phase, &event) {
            (Category::SpawnRacers, Phase::Idle, WorkerEvent::Command) => true,
            _ => false,
        };
        let seed = if spawning {
            rand_felt_fixed_point()
        } else {
            Felt::zero()
        };
        assert(is_seed(seed));
        self.step_with_seed(event, seed)
    }
}

/// Where the worker stands after the first `n` of `events`, started in
/// `start`. The step on `events[i]` uses `seeds[i]`.
pub open spec fn phase_at(
    category: Category,
    config: WorkerConfig,
    start: Phase,
    events: Seq<WorkerEventView>,
    seeds: Seq<Felt>,
    n: nat,
) -> Phase
    decreases n,
{
    if n == 0 {
        start
    } else {
        let before = phase_at(category, config, start, events, seeds, (n - 1) as nat);
        match spec_step(category, config, before, events[n - 1], seeds[n - 1]) {
            Some((after, _)) => after,
            None => before,
        }
    }
}

/// What the worker hands out on `events[n]`, if anything.
pub open spec fn action_at(
    category: Category,
    config: WorkerConfig,
    start: Phase,
    events: Seq<WorkerEventView>,
    seeds: Seq<Felt>,
    n: nat,
) -> Option<WorkerActionView> {
    match spec_step(
        category,
        config,
        phase_at(category, config, start, events, seeds, n),
        events[n as int],
        seeds[n as int],
    ) {
        Some((_, asked)) => Some(asked),
        None => None,
    }
}

/// Whether `events[n]` is a command that the worker takes up.
pub open spec fn takes_command(
    category: Category,
    config: WorkerConfig,
    start: Phase,
    events: Seq<WorkerEventView>,
    seeds: Seq<Felt>,
    n: nat,
) -> bool {
    events[n as int] is Command && action_at(category, config, start, events, seeds, n) is Some
}

/// The shape of every step. A command is taken up only by an idle worker,
/// and puts it in flight. The worker asks for the next command exactly when
/// the step leaves it idle. A call to the ledger, a question to the
/// simulation or a callback is asked for only for the command in flight.
/// A command in flight ends in the idle phase or stays in flight.
pub proof fn lemma_step_shape(
    category: Category,
    config: WorkerConfig,
    phase: Phase,
    event: WorkerEventView,
    seed: Felt,
)
    ensures
        spec_step(category, config, phase, event, seed) matches Some((after, asked)) ==> {
            &&& event is Command ==> phase is Idle && after.busy()
            &&& asked is AwaitCommand <==> after is Idle
            &&& asked is Stop <==> after is Stopped
            &&& (asked is Execute || asked is Query || asked is Emit || asked is ResolveModelId)
                <==> after.busy()
            &&& phase.busy() ==> after.busy() || after is Idle
        },
{
}

/// While a command is in flight, the worker takes up no other.
pub proof fn lemma_busy_refuses_command(
    category: Category,
    config: WorkerConfig,
    phase: Phase,
    seed: Felt,
)
    requires
        phase.busy(),
    ensures
        spec_step(category, config, phase, WorkerEventView::Command, seed) is None,
{
}

/// From a point where a command is in flight to a later point where the
/// worker is idle, there is a first step that ends the command: up to it the
/// command stays in flight, and it asks for the next command.
proof fn lemma_first_return(
    category: Category,
    config: WorkerConfig,
    start: Phase,
    events: Seq<WorkerEventView>,
    seeds: Seq<Felt>,
    from: nat,
    to: nat,
) -> (k: nat)
    requires
        from < to,
        phase_at(category, config, start, events, seeds, from).busy(),
        phase_at(category, config, start, events, seeds, to) is Idle,
    ensures
        from <= k < to,
        forall|m: nat|
            from <= m <= k ==> (#[trigger] phase_at(category, config, start, events, seeds, m)).busy(),
        phase_at(category, config, start, events, seeds, k + 1) is Idle,
        action_at(category, config, start, events, seeds, k) == Some(
            WorkerActionView::AwaitCommand,
        ),
    decreases to - from,
{
    let here = phase_at(category, config, start, events, seeds, from);
    let next = phase_at(category, config, start, events, seeds, from + 1);
    lemma_step_shape(category, config, here, events[from as int], seeds[from as int]);
    if next.busy() {
        let k = lemma_first_return(category, config, start, events, seeds, from + 1, to);
        assert forall|m: nat| from <= m <= k implies (#[trigger] phase_at(
            category,
            config,
            start,
            events,
            seeds,
            m,
        )).busy() by {
            if m > from {
                assert(from + 1 <= m);
            }
        }
        k
    } else {
        from
    }
}

/// Commands are served one at a time, in the order in which they were
/// taken up. Between two commands that the worker takes up there is a step
/// at which the first one ends: until then it alone is in flight, with all
/// its calls to the ledger and its callbacks, and at that step the worker
/// asks for the next command. Only after it is the second command taken up.
pub proof fn lemma_commands_in_order(
    category: Category,
    config: WorkerConfig,
    start: Phase,
    events: Seq<WorkerEventView>,
    seeds: Seq<Felt>,
    first: nat,
    second: nat,
) -> (end: nat)
    requires
        first < second,
        takes_command(category, config, start, events, seeds, first),
        takes_command(category, config, start, events, seeds, second),
    ensures
        first < end < second,
        forall|m: nat|
            first < m <= end ==> (#[trigger] phase_at(category, config, start, events, seeds, m)).busy(),
        forall|m: nat|
            first < m <= end ==> !takes_command(category, config, start, events, seeds, m),
        action_at(category, config, start, events, seeds, end) == Some(
            WorkerActionView::AwaitCommand,
        ),
        phase_at(category, config, start, events, seeds, end + 1) is Idle,
{
    let at_first = phase_at(category, config, start, events, seeds, first);
    let at_second = phase_at(category, config, start, events, seeds, second);
    lemma_step_shape(category, config, at_first, events[first as int], seeds[first as int]);
    lemma_step_shape(category, config, at_second, events[second as int], seeds[second as int]);
    assert(phase_at(category, config, start, events, seeds, first + 1).busy());
    let end = lemma_first_return(category, config, start, events, seeds, first + 1, second);
    assert forall|m: nat| first < m <= end implies !takes_command(
        category,
        config,
        start,
        events,
        seeds,
        m,
    ) by {
        let at_m = phase_at(category, config, start, events, seeds, m);
        assert(at_m.busy());
        lemma_step_shape(category, config, at_m, events[m as int], seeds[m as int]);
    }
    end
}

} // verus!
