//! The data model shared by the battle engine and its callers.

use vstd::prelude::*;

verus! {

/// Number of ship types, hence of slots in every fleet.
pub const MAX_SHIPS: usize = 4;

/// Number of rounds after which a fight ends regardless of its state.
pub const MAX_ROUNDS: usize = 50;

/// Move kind of a shot (possibly with a reposition).
pub const MOVE_SHOOT: u8 = 1;

/// Move kind of a pure reposition.
pub const MOVE_REPOSITION: u8 = 2;

/// The targeting doctrine of one side, fixed for the whole fight.
#[derive(Clone, Copy, Debug, PartialEq, Eq, Structural)]
pub enum TargetingType {
    Furthest,
    Closest,
    HighestHp,
    LowestHp,
    HighestSpeed,
    LowestSpeed,
    HighestDefence,
    LowestDefence,
    HighestAttack,
    LowestAttack,
}

impl Default for TargetingType {
    fn default() -> (r: Self)
        ensures
            r == TargetingType::Furthest,
    {
        TargetingType::Furthest
    }
}

/// Magnitudes (on a 0-100 scale) of the six effects a fleet slot's modules
/// inflict on the ships it shoots.
#[derive(Clone, Copy, Debug, PartialEq, Eq, Structural)]
pub struct ShipModule {
    /// Power of the snare effect
    pub snare: u8,
    /// Power of the root effect
    pub root: u8,
    /// Power of the blind effect
    pub blind: u8,
    /// Power of the attack debuff effect
    pub attack_debuff: u8,
    /// Power of the defence debuff effect
    pub defence_debuff: u8,
    /// Power of the range debuff effect
    pub range_debuff: u8,
}

impl ShipModule {
    /// A slot without modules.
    pub open spec fn none() -> ShipModule {
        ShipModule {
            snare: 0,
            root: 0,
            blind: 0,
            attack_debuff: 0,
            defence_debuff: 0,
            range_debuff: 0,
        }
    }
}

impl Default for ShipModule {
    fn default() -> (r: Self)
        ensures
            r == ShipModule::none(),
    {
        ShipModule {
            snare: 0,
            root: 0,
            blind: 0,
            attack_debuff: 0,
            defence_debuff: 0,
            range_debuff: 0,
        }
    }
}

/// Rounds left on each of the six effects running on one fleet slot.
#[derive(Clone, Copy, Debug, PartialEq, Eq, Structural)]
pub struct RunningEffect {
    /// Number of rounds left on the snare effect
    pub snare: u8,
    /// Number of rounds left on the root effect
    pub root: u8,
    /// Number of rounds left on the blind effect
    pub blind: u8,
    /// Number of rounds left on the attack debuff effect
    pub attack_debuff: u8,
    /// Number of rounds left on the defence debuff effect
    pub defence_debuff: u8,
    /// Number of rounds left on the range debuff effect
    pub range_debuff: u8,
}

impl RunningEffect {
    /// No effect running.
    pub open spec fn none() -> RunningEffect {
        RunningEffect {
            snare: 0,
            root: 0,
            blind: 0,
            attack_debuff: 0,
            defence_debuff: 0,
            range_debuff: 0,
        }
    }

    /// Every counter is at most `n`.
    pub open spec fn bounded_by(self, n: int) -> bool {
        &&& self.snare <= n
        &&& self.root <= n
        &&& self.blind <= n
        &&& self.attack_debuff <= n
        &&& self.defence_debuff <= n
        &&& self.range_debuff <= n
    }
}

impl Default for RunningEffect {
    fn default() -> (r: Self)
        ensures
            r == RunningEffect::none(),
    {
        RunningEffect {
            snare: 0,
            root: 0,
            blind: 0,
            attack_debuff: 0,
            defence_debuff: 0,
            range_debuff: 0,
        }
    }
}

/// A ship type of the catalog. Both fleets share one catalog, and a slot's
/// index is the index of its type.
#[derive(Clone, Copy, Debug, PartialEq, Eq, Structural)]
pub struct Ship {
    /// Command Power (to calculate fleet weights)
    pub cp: u16,
    /// Health Points of the ship
    pub hp: u16,
    /// Base attack
    pub attack_base: u16,
    /// Variable attack (subject to random)
    pub attack_variable: u16,
    /// Defence of the ship
    pub defence: u16,
    /// Speed, number of fields the ship can move in a round
    pub speed: u8,
    /// Range, number of fields in front of it the ship can shoot to in a round
    pub range: u8,
}

impl Ship {
    /// A catalog entry the engine can divide by: positive hit points and a
    /// positive attack variance.
    pub open spec fn well_formed(self) -> bool {
        self.hp > 0 && self.attack_variable > 0
    }
}

/// A catalog the engine can run on: one well-formed type for every slot.
pub open spec fn catalog_wf(ships: Seq<Ship>) -> bool {
    &&& ships.len() >= MAX_SHIPS
    &&& forall|i: int| 0 <= i < MAX_SHIPS ==> (#[trigger] ships[i]).well_formed()
}

/// One logged action of a fleet slot in a fight.
#[derive(Clone, Copy, Debug)]
pub struct Move {
    /// Shoot (1) or Reposition (2)
    pub move_type: u8,
    /// Round the move took place in
    pub round: u8,
    /// Source ship id
    pub source: u8,
    /// Target ship id, in the case of shoot
    pub target: u8,
    /// Position to move to, if needed
    pub target_position: i16,
    /// Damage of the shot, if needed
    pub damage: u32,
    /// Effects running on the attacker
    pub effects_lhs: [RunningEffect; MAX_SHIPS],
    /// Effects running on the defender
    pub effects_rhs: [RunningEffect; MAX_SHIPS],
}

/// A `Move` with its effect snapshots as sequences.
pub struct MoveView {
    pub move_type: u8,
    pub round: u8,
    pub source: u8,
    pub target: u8,
    pub target_position: i16,
    pub damage: u32,
    pub effects_lhs: Seq<RunningEffect>,
    pub effects_rhs: Seq<RunningEffect>,
}

impl View for Move {
    type V = MoveView;

    open spec fn view(&self) -> MoveView {
        MoveView {
            move_type: self.move_type,
            round: self.round,
            source: self.source,
            target: self.target,
            target_position: self.target_position,
            damage: self.damage,
            effects_lhs: self.effects_lhs@,
            effects_rhs: self.effects_rhs@,
        }
    }
}

/// The outcome of a fight, echoing the inputs it was computed from.
#[derive(Debug)]
pub struct FightResult {
    /// Attacker fleet composition
    pub selection_lhs: [u8; MAX_SHIPS],
    /// Defender fleet composition
    pub selection_rhs: [u8; MAX_SHIPS],
    /// Attacker ship modules
    pub modules_lhs: [ShipModule; MAX_SHIPS],
    /// Defender ship modules
    pub modules_rhs: [ShipModule; MAX_SHIPS],
    /// Attacker targeting
    pub targeting_lhs: TargetingType,
    /// Defender targeting
    pub targeting_rhs: TargetingType,
    /// Did the attacker die?
    pub lhs_dead: bool,
    /// Did the defender die?
    pub rhs_dead: bool,
    /// Length of the fight in rounds
    pub rounds: u8,
    /// Random seed the fight was generated with
    pub seed: u64,
    /// Attackers ships lost
    pub ships_lost_lhs: [u8; MAX_SHIPS],
    /// Defenders ships lost
    pub ships_lost_rhs: [u8; MAX_SHIPS],
}

/// The default catalog of four ship types.
pub open spec fn default_catalog() -> Seq<Ship> {
    seq![
        Ship { cp: 1, hp: 120, attack_base: 80, attack_variable: 20, defence: 20, speed: 4, range: 4 },
        Ship { cp: 3, hp: 150, attack_base: 65, attack_variable: 20, defence: 30, speed: 3, range: 8 },
        Ship { cp: 4, hp: 220, attack_base: 65, attack_variable: 20, defence: 35, speed: 2, range: 15 },
        Ship { cp: 10, hp: 450, attack_base: 80, attack_variable: 20, defence: 40, speed: 1, range: 30 },
    ]
}

/// Builds the default catalog.
pub fn prepare_ships() -> (ships: Vec<Ship>)
    ensures
        ships@ == default_catalog(),
        catalog_wf(ships@),
{
    let mut ships: Vec<Ship> = Vec::new();
    ships.push(Ship { cp: 1, hp: 120, attack_base: 80, attack_variable: 20, defence: 20, speed: 4, range: 4 });
    ships.push(Ship { cp: 3, hp: 150, attack_base: 65, attack_variable: 20, defence: 30, speed: 3, range: 8 });
    ships.push(Ship { cp: 4, hp: 220, attack_base: 65, attack_variable: 20, defence: 35, speed: 2, range: 15 });
    ships.push(Ship { cp: 10, hp: 450, attack_base: 80, attack_variable: 20, defence: 40, speed: 1, range: 30 });
    assert(ships@ =~= default_catalog());
    ships
}

} // verus!
