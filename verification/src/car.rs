//! The racer's car: the events that concern it, and the model id under
//! which the ledger knows the racer.

use crate::felt::Felt;
use vstd::prelude::*;

verus! {

/// The car should spawn.
#[derive(Clone, Copy, Debug, PartialEq, Eq, Structural)]
pub struct SpawnCar;

/// The vehicle as the ledger gave it.
#[derive(Clone, Debug, PartialEq, Eq)]
pub struct UpdateCar {
    /// The raw record.
    pub vehicle: Vec<Felt>,
}

/// The model of a racer.
#[derive(Clone, Copy, Debug, PartialEq, Eq)]
pub struct Model {
    /// The identifier under which the ledger knows the racer.
    pub id: Felt,
}

/// The model id of the racer, given the models of all racers that exist at
/// this moment: there is one exactly when there is a single racer.
pub fn get_model_id(racers: &Vec<Model>) -> (id: Option<Felt>)
    ensures
        id == if racers@.len() == 1 {
            Some(racers@[0].id)
        } else {
            None
        },
{
    if racers.len() == 1 {
        Some(racers[0].id)
    } else {
        None
    }
}

} // verus!
