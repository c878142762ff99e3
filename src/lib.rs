//! Deterministic fleet-combat resolution for the New Omega game, with the
//! small pieces of universe bookkeeping that sit on top of it.
//!
//! `fleet` holds the data model, `combat` the verified battle engine and its
//! mathematical model, and `universe` the seed-driven helpers used when
//! generating systems and gateways.

pub mod fleet;
pub mod combat;
pub mod universe;

pub use fleet::{
    prepare_ships, FightResult, Move, MoveView, RunningEffect, Ship, ShipModule, TargetingType,
    MAX_ROUNDS, MAX_SHIPS,
};
pub use combat::NewOmega;
pub use universe::{AccountId, NewOmegaUniverse};

