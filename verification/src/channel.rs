//! Bounded command channels, one per category of command. A command
//! carries no data: that it was sent is the whole message.

use tokio::sync::mpsc::error::TrySendError;
use tokio::sync::mpsc::{Receiver, Sender};
use vstd::prelude::*;

verus! {

/// The sending half of a bounded channel.
#[verifier::external_type_specification]
#[verifier::external_body]
#[verifier::reject_recursive_types(T)]
pub struct ExSender<T>(Sender<T>);

/// The receiving half of a bounded channel.
#[verifier::external_type_specification]
#[verifier::external_body]
#[verifier::reject_recursive_types(T)]
pub struct ExReceiver<T>(Receiver<T>);

/// The refusal of a send that does not wait: the channel is full, or its
/// receiving half is gone. Either way the message comes back.
#[verifier::external_type_specification]
#[verifier::reject_recursive_types(T)]
pub struct ExTrySendError<T>(TrySendError<T>);

/// The number of commands that the channel of `tx` was made to buffer.
pub uninterp spec fn sender_bound(tx: Sender<()>) -> nat;

/// The commands that wait in the channel of `rx`, oldest first.
pub uninterp spec fn receiver_queued(rx: Receiver<()>) -> Seq<()>;

/// The largest buffer that a channel can be made with.
pub open spec fn max_bound() -> nat {
    (usize::MAX / 8) as nat
}

/// The categories of command.
#[derive(Clone, Copy, Debug, PartialEq, Eq, Structural)]
pub enum Category {
    /// Ask the ledger to spawn the racers.
    SpawnRacers,
    /// Ask the ledger to advance the racer.
    Drive,
    /// Read the racer's vehicle back from the ledger.
    UpdateVehicle,
    /// Read the enemies' positions back from the ledger.
    UpdateEnemies,
}

impl Category {
    /// The buffer of this category's channel: 8 for the two that change the
    /// ledger, 16 for the two that read it.
    pub open spec fn spec_capacity(self) -> nat {
        match self {
            Category::SpawnRacers | Category::Drive => 8,
            Category::UpdateVehicle | Category::UpdateEnemies => 16,
        }
    }

    /// The buffer of this category's channel.
    pub fn capacity(&self) -> (capacity: usize)
        ensures
            capacity == self.spec_capacity(),
    {
        match self {
            Category::SpawnRacers | Category::Drive => 8,
            Category::UpdateVehicle | Category::UpdateEnemies => 16,
        }
    }
}

/// Why a command was not enqueued.
#[derive(Clone, Copy, Debug, PartialEq, Eq, Structural)]
pub enum ChannelError {
    /// The channel holds as many commands as it can buffer; the command is
    /// dropped.
    Full,
    /// The receiving half is gone.
    Closed,
}

impl ChannelError {
    /// The library's error for a refusal of the channel.
    pub fn from_try_send(err: &TrySendError<()>) -> (out: ChannelError)
        ensures
            out == match *err {
                TrySendError::Full(_) => ChannelError::Full,
                TrySendError::Closed(_) => ChannelError::Closed,
            },
    {
        match err {
            TrySendError::Full(_) => ChannelError::Full,
            TrySendError::Closed(_) => ChannelError::Closed,
        }
    }
}

/// What one attempt to enqueue does to a channel that buffers `capacity`
/// commands and holds `queued` of them: the number it holds afterwards, and
/// whether the command was taken. It is taken exactly when there is room.
pub open spec fn spec_try_send(queued: nat, capacity: nat) -> (nat, bool) {
    if queued < capacity {
        (queued + 1, true)
    } else {
        (queued, false)
    }
}

/// The number of commands in the channel after `sends` attempts to enqueue
/// with nothing taken out in between.
pub open spec fn queued_after(queued: nat, capacity: nat, sends: nat) -> nat
    decreases sends,
{
    if sends == 0 {
        queued
    } else {
        spec_try_send(queued_after(queued, capacity, (sends - 1) as nat), capacity).0
    }
}

/// The number of commands dropped in `sends` attempts to enqueue with
/// nothing taken out in between.
pub open spec fn drops(queued: nat, capacity: nat, sends: nat) -> nat
    decreases sends,
{
    if sends == 0 {
        0
    } else {
        let before = (sends - 1) as nat;
        let taken = spec_try_send(queued_after(queued, capacity, before), capacity).1;
        drops(queued, capacity, before) + if taken {
            0nat
        } else {
            1nat
        }
    }
}

/// With nothing taken out, the channel takes commands until it is full and
/// drops every one after that.
pub proof fn lemma_burst(queued: nat, capacity: nat, sends: nat)
    requires
        queued <= capacity,
    ensures
        queued_after(queued, capacity, sends) == if queued + sends <= capacity {
            queued + sends
        } else {
            capacity
        },
        drops(queued, capacity, sends) == if queued + sends <= capacity {
            0
        } else {
            queued + sends - capacity
        },
    decreases sends,
{
    if sends > 0 {
        lemma_burst(queued, capacity, (sends - 1) as nat);
    }
}

/// Sending one command more than an empty channel buffers, with nothing
/// taken out in between, drops exactly one command: the last.
pub proof fn lemma_overfill_drops_one(capacity: nat)
    ensures
        drops(0, capacity, capacity + 1) == 1,
        drops(0, capacity, capacity) == 0,
        queued_after(0, capacity, capacity + 1) == capacity,
{
    lemma_burst(0, capacity, capacity + 1);
    lemma_burst(0, capacity, capacity);
}

/// The sending half of one category's channel.
pub struct CommandSender {
    category: Category,
    tx: Sender<()>,
}

impl CommandSender {
    /// The category whose commands this sender enqueues.
    pub closed spec fn spec_category(&self) -> Category {
        self.category
    }

    /// The channel was made with its category's buffer.
    #[verifier::type_invariant]
    spec fn wf(&self) -> bool {
        sender_bound(self.tx) == self.category.spec_capacity()
    }

    /// Makes the channel of `category`, with that category's buffer, and
    /// hands out both halves.
    pub fn channel(category: Category) -> (halves: (CommandSender, Receiver<()>))
        ensures
            halves.0.spec_category() == category,
    {
        CommandChannel::new(category).split()
    }

    /// The category whose commands this sender enqueues.
    pub fn category(&self) -> (category: Category)
        ensures
            category == self.spec_category(),
    {
        self.category
    }

    /// The number of commands that the channel buffers.
    pub fn capacity(&self) -> (capacity: usize)
        ensures
            capacity == self.spec_category().spec_capacity(),
    {
        proof {
            use_type_invariant(self);
        }
        sender_max_capacity(&self.tx)
    }

    /// Tries to enqueue one command without waiting. Whether there is room
    /// depends on what the receiving side has taken out so far, so nothing
    /// is promised of the outcome; a refusal is reported as the channel
    /// gave it.
    pub fn try_send(&self) -> (out: Result<(), ChannelError>) {
        match sender_try_send(&self.tx) {
            Ok(()) => Ok(()),
            Err(err) => Err(ChannelError::from_try_send(&err)),
        }
    }
}

/// A whole channel of one category, both halves in one hand. While it is
/// whole, nobody else sends on it and nothing is taken out of it, so what
/// an attempt to enqueue does is known: this is the channel under a slow
/// ledger, whose worker does not get round to receiving.
pub struct CommandChannel {
    sender: CommandSender,
    receiver: Receiver<()>,
}

impl CommandChannel {
    /// The channel never holds more than it buffers.
    #[verifier::type_invariant]
    spec fn wf(&self) -> bool {
        &&& sender_bound(self.sender.tx) == self.sender.category.spec_capacity()
        &&& receiver_queued(self.receiver).len() <= self.sender.category.spec_capacity()
    }

    /// The category whose commands travel on the channel.
    pub closed spec fn spec_category(&self) -> Category {
        self.sender.category
    }

    /// The number of commands that wait in the channel.
    pub closed spec fn spec_queued(&self) -> nat {
        receiver_queued(self.receiver).len()
    }

    /// The sending half.
    pub closed spec fn spec_sender(&self) -> CommandSender {
        self.sender
    }

    /// Makes the channel of `category`, with that category's buffer and
    /// nothing in it.
    pub fn new(category: Category) -> (channel: CommandChannel)
        ensures
            channel.spec_category() == category,
            channel.spec_sender().spec_category() == category,
            channel.spec_queued() == 0,
    {
        let (tx, receiver) = open_channel(category.capacity());
        CommandChannel { sender: CommandSender { category, tx }, receiver }
    }

    /// The number of commands that wait in the channel: never more than it
    /// buffers.
    pub fn len(&self) -> (queued: usize)
        ensures
            queued == self.spec_queued(),
            queued <= self.spec_category().spec_capacity(),
    {
        proof {
            use_type_invariant(self);
        }
        receiver_len(&self.receiver)
    }

    /// Tries to enqueue one command without waiting. It is taken exactly
    /// when the channel holds less than it buffers; otherwise it is dropped
    /// and the channel reported full.
    pub fn try_send(&mut self) -> (out: Result<(), ChannelError>)
        ensures
            final(self).spec_category() == old(self).spec_category(),
            final(self).spec_sender() == old(self).spec_sender(),
            (final(self).spec_queued(), out is Ok) == spec_try_send(
                old(self).spec_queued(),
                old(self).spec_category().spec_capacity(),
            ),
            out is Err ==> out == Err::<(), ChannelError>(ChannelError::Full),
    {
        proof {
            use_type_invariant(&*self);
        }
        match channel_try_send(self) {
            Ok(()) => Ok(()),
            Err(err) => Err(ChannelError::from_try_send(&err)),
        }
    }

    /// Parts the channel into its halves: the sender for the dispatcher,
    /// the receiver for the worker.
    pub fn split(self) -> (halves: (CommandSender, Receiver<()>))
        ensures
            halves.0 == self.spec_sender(),
    {
        (self.sender, self.receiver)
    }
}

/// The sender of the channel on which spawn-racers commands travel.
pub struct SpawnRacersCommand(CommandSender);

impl SpawnRacersCommand {
    /// The sender is that of the SpawnRacers category.
    #[verifier::type_invariant]
    spec fn wf(&self) -> bool {
        self.0.spec_category() == Category::SpawnRacers
    }

    /// The sender that this command type wraps.
    pub closed spec fn spec_sender(&self) -> CommandSender {
        self.0
    }

    /// Makes the channel, with a buffer of 8 commands, and hands out the
    /// command sender and the receiving half.
    pub fn channel() -> (halves: (SpawnRacersCommand, Receiver<()>))
        ensures
            halves.0.spec_sender().spec_category() == Category::SpawnRacers,
    {
        let (sender, rx) = CommandSender::channel(Category::SpawnRacers);
        (SpawnRacersCommand(sender), rx)
    }

    /// The sender that this command type wraps.
    pub fn sender(&self) -> (sender: &CommandSender)
        ensures
            *sender == self.spec_sender(),
            sender.spec_category() == Category::SpawnRacers,
    {
        proof {
            use_type_invariant(self);
        }
        &self.0
    }

    /// Tries to enqueue one command without waiting; see
    /// [`CommandSender::try_send`].
    pub fn try_send(&self) -> (out: Result<(), ChannelError>) {
        self.0.try_send()
    }
}

/// The sender of the channel on which drive commands travel.
pub struct DriveCommand(CommandSender);

impl DriveCommand {
    /// The sender is that of the Drive category.
    #[verifier::type_invariant]
    spec fn wf(&self) -> bool {
        self.0.spec_category() == Category::Drive
    }

    /// The sender that this command type wraps.
    pub closed spec fn spec_sender(&self) -> CommandSender {
        self.0
    }

    /// Makes the channel, with a buffer of 8 commands, and hands out the
    /// command sender and the receiving half.
    pub fn channel() -> (halves: (DriveCommand, Receiver<()>))
        ensures
            halves.0.spec_sender().spec_category() == Category::Drive,
    {
        let (sender, rx) = CommandSender::channel(Category::Drive);
        (DriveCommand(sender), rx)
    }

    /// The sender that this command type wraps.
    pub fn sender(&self) -> (sender: &CommandSender)
        ensures
            *sender == self.spec_sender(),
            sender.spec_category() == Category::Drive,
    {
        proof {
            use_type_invariant(self);
        }
        &self.0
    }

    /// Tries to enqueue one command without waiting; see
    /// [`CommandSender::try_send`].
    pub fn try_send(&self) -> (out: Result<(), ChannelError>) {
        self.0.try_send()
    }
}

/// The sender of the channel on which update-vehicle commands travel.
pub struct UpdateVehicleCommand(CommandSender);

impl UpdateVehicleCommand {
    /// The sender is that of the UpdateVehicle category.
    #[verifier::type_invariant]
    spec fn wf(&self) -> bool {
        self.0.spec_category() == Category::UpdateVehicle
    }

    /// The sender that this command type wraps.
    pub closed spec fn spec_sender(&self) -> CommandSender {
        self.0
    }

    /// Makes the channel, with a buffer of 16 commands, and hands out the
    /// command sender and the receiving half.
    pub fn channel() -> (halves: (UpdateVehicleCommand, Receiver<()>))
        ensures
            halves.0.spec_sender().spec_category() == Category::UpdateVehicle,
    {
        let (sender, rx) = CommandSender::channel(Category::UpdateVehicle);
        (UpdateVehicleCommand(sender), rx)
    }

    /// The sender that this command type wraps.
    pub fn sender(&self) -> (sender: &CommandSender)
        ensures
            *sender == self.spec_sender(),
            sender.spec_category() == Category::UpdateVehicle,
    {
        proof {
            use_type_invariant(self);
        }
        &self.0
    }

    /// Tries to enqueue one command without waiting; see
    /// [`CommandSender::try_send`].
    pub fn try_send(&self) -> (out: Result<(), ChannelError>) {
        self.0.try_send()
    }
}

/// The sender of the channel on which update-enemies commands travel.
pub struct UpdateEnemiesCommand(CommandSender);

impl UpdateEnemiesCommand {
    /// The sender is that of the UpdateEnemies category.
    #[verifier::type_invariant]
    spec fn wf(&self) -> bool {
        self.0.spec_category() == Category::UpdateEnemies
    }

    /// The sender that this command type wraps.
    pub closed spec fn spec_sender(&self) -> CommandSender {
        self.0
    }

    /// Makes the channel, with a buffer of 16 commands, and hands out the
    /// command sender and the receiving half.
    pub fn channel() -> (halves: (UpdateEnemiesCommand, Receiver<()>))
        ensures
            halves.0.spec_sender().spec_category() == Category::UpdateEnemies,
    {
        let (sender, rx) = CommandSender::channel(Category::UpdateEnemies);
        (UpdateEnemiesCommand(sender), rx)
    }

    /// The sender that this command type wraps.
    pub fn sender(&self) -> (sender: &CommandSender)
        ensures
            *sender == self.spec_sender(),
            sender.spec_category() == Category::UpdateEnemies,
    {
        proof {
            use_type_invariant(self);
        }
        &self.0
    }

    /// Tries to enqueue one command without waiting; see
    /// [`CommandSender::try_send`].
    pub fn try_send(&self) -> (out: Result<(), ChannelError>) {
        self.0.try_send()
    }
}

/// Calls `tokio::sync::mpsc::channel::<()>` with `capacity`. Claimed: the
/// sender reports that bound from then on, and the channel starts empty. A
/// bound of zero, or one above the semaphore's limit of `usize::MAX >> 3`,
/// makes `channel` panic and is left out.
#[verifier::external_body]
fn open_channel(capacity: usize) -> (halves: (Sender<()>, Receiver<()>))
    requires
        0 < capacity <= max_bound(),
    ensures
        sender_bound(halves.0) == capacity,
        receiver_queued(halves.1).len() == 0,
{
    tokio::sync::mpsc::channel::<()>(capacity)
}

/// Calls `Receiver::len`. Claimed: it is the number of commands that wait
/// in the channel.
#[verifier::external_body]
fn receiver_len(rx: &Receiver<()>) -> (queued: usize)
    ensures
        queued == receiver_queued(*rx).len(),
{
    rx.len()
}

/// Calls `Sender::max_capacity`. Claimed: it is the bound that the channel
/// was made with.
#[verifier::external_body]
fn sender_max_capacity(tx: &Sender<()>) -> (capacity: usize)
    ensures
        capacity == sender_bound(*tx),
{
    tx.max_capacity()
}

/// Calls `Sender::try_send` with the unit command, on a channel whose two
/// halves are held together, so that nobody else sends on it or takes from
/// it. Claimed: the sender gives one of as many permits as the channel
/// buffers to each command that waits, so the command is taken exactly when
/// fewer wait than the channel buffers, and then waits behind the others;
/// otherwise the channel is reported full and stays as it was. The sender
/// stays what it was.
#[verifier::external_body]
fn channel_try_send(channel: &mut CommandChannel) -> (out: Result<(), TrySendError<()>>)
    ensures
        final(channel).sender == old(channel).sender,
        match out {
            Ok(()) => {
                &&& receiver_queued(old(channel).receiver).len() < sender_bound(
                    old(channel).sender.tx,
                )
                &&& receiver_queued(final(channel).receiver) == receiver_queued(
                    old(channel).receiver,
                ).push(())
            },
            Err(err) => {
                &&& err is Full
                &&& receiver_queued(old(channel).receiver).len() >= sender_bound(
                    old(channel).sender.tx,
                )
                &&& receiver_queued(final(channel).receiver) == receiver_queued(
                    old(channel).receiver,
                )
            },
        },
    no_unwind
{
    channel.sender.tx.try_send(())
}

/// Calls `Sender::try_send` with the unit command, on a sender alone.
/// Nothing is claimed of the outcome: it depends on what the receiving
/// side has taken out.
#[verifier::external_body]
fn sender_try_send(tx: &Sender<()>) -> (out: Result<(), TrySendError<()>>) {
    tx.try_send(())
}

} // verus!
