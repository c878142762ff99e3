//! The battle engine: effect model, target selection, damage model and the
//! round simulator, each stated against the mathematical model below.

use vstd::prelude::*;
use crate::fleet::{
    catalog_wf, FightResult, Move, MoveView, RunningEffect, Ship, ShipModule, TargetingType,
    MAX_ROUNDS, MAX_SHIPS, MOVE_REPOSITION, MOVE_SHOOT,
};

verus! {

/// The fight simulator. It holds no state: every fight is computed from its
/// inputs alone.
pub struct NewOmega {}

// ---------------------------------------------------------------------------
// Effect model
// ---------------------------------------------------------------------------

/// Attack under the running effects: halved by an attack debuff.
pub open spec fn attack_stat(stat: u16, effect: RunningEffect) -> u16 {
    if effect.attack_debuff > 0 { (stat / 2) as u16 } else { stat }
}

/// Defence under the running effects: halved by a defence debuff.
pub open spec fn defence_stat(stat: u16, effect: RunningEffect) -> u16 {
    if effect.defence_debuff > 0 { (stat / 2) as u16 } else { stat }
}

/// Range under the running effects: halved by a range debuff.
pub open spec fn range_stat(stat: u8, effect: RunningEffect) -> u8 {
    if effect.range_debuff > 0 { (stat / 2) as u8 } else { stat }
}

/// Speed under the running effects: root and blind immobilise, a snare
/// halves it, in that order of precedence.
pub open spec fn speed_stat(stat: u8, effect: RunningEffect) -> u8 {
    if effect.root > 0 {
        0
    } else if effect.blind > 0 {
        0
    } else if effect.snare > 0 {
        (stat / 2) as u8
    } else {
        stat
    }
}

/// One count down on every running counter of a slot.
pub open spec fn retired(e: RunningEffect) -> RunningEffect {
    RunningEffect {
        snare: if e.snare > 0 { (e.snare - 1) as u8 } else { 0 },
        root: if e.root > 0 { (e.root - 1) as u8 } else { 0 },
        blind: if e.blind > 0 { (e.blind - 1) as u8 } else { 0 },
        attack_debuff: if e.attack_debuff > 0 { (e.attack_debuff - 1) as u8 } else { 0 },
        defence_debuff: if e.defence_debuff > 0 { (e.defence_debuff - 1) as u8 } else { 0 },
        range_debuff: if e.range_debuff > 0 { (e.range_debuff - 1) as u8 } else { 0 },
    }
}

/// One more round of every effect whose module magnitude exceeds the roll.
pub open spec fn applied(e: RunningEffect, m: ShipModule, roll: u8) -> RunningEffect {
    RunningEffect {
        snare: if roll < m.snare { (e.snare + 1) as u8 } else { e.snare },
        root: if roll < m.root { (e.root + 1) as u8 } else { e.root },
        blind: if roll < m.blind { (e.blind + 1) as u8 } else { e.blind },
        attack_debuff: if roll < m.attack_debuff { (e.attack_debuff + 1) as u8 } else { e.attack_debuff },
        defence_debuff: if roll < m.defence_debuff { (e.defence_debuff + 1) as u8 } else { e.defence_debuff },
        range_debuff: if roll < m.range_debuff { (e.range_debuff + 1) as u8 } else { e.range_debuff },
    }
}

/// The fight-wide dice roll that decides which module effects trigger.
pub open spec fn dice_roll(seed: u64) -> u8 {
    (seed % 100) as u8
}

// ---------------------------------------------------------------------------
// Target selection
// ---------------------------------------------------------------------------

/// Distance between two positions on the line.
pub open spec fn distance(a: i16, b: i16) -> u16 {
    if a >= b { (a - b) as u16 } else { (b - a) as u16 }
}

/// The value a doctrine ranks an enemy slot by.
pub open spec fn targeting_value(
    targeting: TargetingType,
    target: int,
    delta: u16,
    ships: Seq<Ship>,
    effects: Seq<RunningEffect>,
) -> u16 {
    match targeting {
        TargetingType::Closest | TargetingType::Furthest => delta,
        TargetingType::LowestAttack | TargetingType::HighestAttack => attack_stat(
            ships[target].attack_base,
            effects[target],
        ),
        TargetingType::LowestDefence | TargetingType::HighestDefence => defence_stat(
            ships[target].defence,
            effects[target],
        ),
        TargetingType::LowestSpeed | TargetingType::HighestSpeed => speed_stat(
            ships[target].speed,
            effects[target],
        ) as u16,
        TargetingType::LowestHp | TargetingType::HighestHp => ships[target].hp,
    }
}

/// Whether a doctrine prefers `cur` strictly over `best`.
pub open spec fn prefers(targeting: TargetingType, cur: u16, best: u16) -> bool {
    match targeting {
        TargetingType::Closest | TargetingType::LowestAttack | TargetingType::LowestDefence
        | TargetingType::LowestSpeed | TargetingType::LowestHp => cur < best,
        _ => cur > best,
    }
}

/// The enemy slot examined at step `n` of the scan (0-based), which runs
/// from the highest index down.
pub open spec fn scan_slot(n: int) -> int {
    MAX_SHIPS - 1 - n
}

/// Whether enemy slot `e` can be reached this round: alive, and within the
/// shooter's range plus speed.
pub open spec fn reachable(
    ships: Seq<Ship>,
    current: int,
    positions_own: Seq<i16>,
    positions_enemy: Seq<i16>,
    hps_enemy: Seq<i32>,
    effects_own: Seq<RunningEffect>,
    e: int,
) -> bool {
    let delta = distance(positions_own[current], positions_enemy[e]);
    &&& delta <= range_stat(ships[current].range, effects_own[current]) + speed_stat(
        ships[current].speed,
        effects_own[current],
    )
    &&& hps_enemy[e] > 0
}

/// State of the target scan after examining `n` enemy slots:
/// (best slot, or `MAX_SHIPS` if none yet; its value; the advance needed).
pub open spec fn scan_targets(
    ships: Seq<Ship>,
    current: int,
    positions_own: Seq<i16>,
    positions_enemy: Seq<i16>,
    hps_enemy: Seq<i32>,
    effects_own: Seq<RunningEffect>,
    effects_enemy: Seq<RunningEffect>,
    targeting: TargetingType,
    n: nat,
) -> (int, int, int)
    decreases n,
{
    if n == 0 {
        (MAX_SHIPS as int, 0, 0)
    } else {
        let prev = scan_targets(
            ships,
            current,
            positions_own,
            positions_enemy,
            hps_enemy,
            effects_own,
            effects_enemy,
            targeting,
            (n - 1) as nat,
        );
        let e = scan_slot(n - 1);
        let delta = distance(positions_own[current], positions_enemy[e]);
        let range = range_stat(ships[current].range, effects_own[current]);
        let value = targeting_value(targeting, e, delta, ships, effects_enemy);
        if reachable(ships, current, positions_own, positions_enemy, hps_enemy, effects_own, e)
            && (prev.0 == MAX_SHIPS || prefers(targeting, value, prev.1 as u16)) {
            (e, value as int, if delta > range { delta - range } else { 0 })
        } else {
            prev
        }
    }
}

/// The target choice of slot `current`: (found, slot, advance needed).
/// A blinded slot acquires no target.
pub open spec fn target_choice(
    ships: Seq<Ship>,
    current: int,
    positions_own: Seq<i16>,
    positions_enemy: Seq<i16>,
    hps_enemy: Seq<i32>,
    effects_own: Seq<RunningEffect>,
    effects_enemy: Seq<RunningEffect>,
    targeting: TargetingType,
) -> (bool, u8, u8) {
    if effects_own[current].blind == 0 {
        let s = scan_targets(
            ships,
            current,
            positions_own,
            positions_enemy,
            hps_enemy,
            effects_own,
            effects_enemy,
            targeting,
            MAX_SHIPS as nat,
        );
        (s.0 < MAX_SHIPS, s.0 as u8, s.2 as u8)
    } else {
        (false, MAX_SHIPS as u8, 0)
    }
}

/// The value doctrine `targeting` gives enemy slot `e`, seen from slot
/// `current`.
pub open spec fn enemy_value(
    ships: Seq<Ship>,
    current: int,
    positions_own: Seq<i16>,
    positions_enemy: Seq<i16>,
    effects_enemy: Seq<RunningEffect>,
    targeting: TargetingType,
    e: int,
) -> u16 {
    targeting_value(
        targeting,
        e,
        distance(positions_own[current], positions_enemy[e]),
        ships,
        effects_enemy,
    )
}

/// How far slot `current` must advance to have enemy slot `e` in range.
pub open spec fn advance_needed(
    ships: Seq<Ship>,
    current: int,
    positions_own: Seq<i16>,
    positions_enemy: Seq<i16>,
    effects_own: Seq<RunningEffect>,
    e: int,
) -> int {
    let delta = distance(positions_own[current], positions_enemy[e]);
    let range = range_stat(ships[current].range, effects_own[current]);
    if delta > range { delta - range } else { 0 }
}

/// What the scan holds after `n` steps: no target exactly when none of the
/// examined slots is reachable; otherwise the best examined reachable slot,
/// strictly preferred to every reachable slot above it and not beaten by
/// any reachable slot below it.
proof fn lemma_scan_best(
    ships: Seq<Ship>,
    current: int,
    positions_own: Seq<i16>,
    positions_enemy: Seq<i16>,
    hps_enemy: Seq<i32>,
    effects_own: Seq<RunningEffect>,
    effects_enemy: Seq<RunningEffect>,
    targeting: TargetingType,
    n: nat,
)
    requires
        n <= MAX_SHIPS,
    ensures
        ({
            let st = scan_targets(
                ships,
                current,
                positions_own,
                positions_enemy,
                hps_enemy,
                effects_own,
                effects_enemy,
                targeting,
                n,
            );
            let lo = MAX_SHIPS - n;
            &&& st.0 == MAX_SHIPS ==> st.2 == 0
            &&& (st.0 == MAX_SHIPS) == (forall|e: int| lo <= e < MAX_SHIPS ==> !#[trigger] reachable(ships, current, positions_own, positions_enemy, hps_enemy, effects_own, e))
            &&& st.0 != MAX_SHIPS ==> {
                &&& lo <= st.0 < MAX_SHIPS
                &&& reachable(ships, current, positions_own, positions_enemy, hps_enemy, effects_own, st.0)
                &&& st.1 == enemy_value(ships, current, positions_own, positions_enemy, effects_enemy, targeting, st.0) as int
                &&& st.2 == advance_needed(ships, current, positions_own, positions_enemy, effects_own, st.0)
                &&& forall|e: int|
                    st.0 < e < MAX_SHIPS && #[trigger] reachable(ships, current, positions_own, positions_enemy, hps_enemy, effects_own, e) ==> prefers(
                        targeting,
                        enemy_value(ships, current, positions_own, positions_enemy, effects_enemy, targeting, st.0),
                        enemy_value(ships, current, positions_own, positions_enemy, effects_enemy, targeting, e),
                    )
                &&& forall|e: int|
                    lo <= e < st.0 && #[trigger] reachable(ships, current, positions_own, positions_enemy, hps_enemy, effects_own, e) ==> !prefers(
                        targeting,
                        enemy_value(ships, current, positions_own, positions_enemy, effects_enemy, targeting, e),
                        enemy_value(ships, current, positions_own, positions_enemy, effects_enemy, targeting, st.0),
                    )
            }
        }),
    decreases n,
{
    if n > 0 {
        lemma_scan_best(
            ships,
            current,
            positions_own,
            positions_enemy,
            hps_enemy,
            effects_own,
            effects_enemy,
            targeting,
            (n - 1) as nat,
        );
    }
}

/// The target choice of a slot that is not blinded is the best reachable
/// enemy slot under its doctrine: there is one exactly when some enemy slot
/// is reachable; it is reachable itself; it is strictly preferred to every
/// reachable slot with a higher index and no reachable slot with a lower
/// index is strictly preferred to it (so ties go to the highest index); and
/// the advance is what brings it into range.
pub proof fn lemma_target_choice_is_best(
    ships: Seq<Ship>,
    current: int,
    positions_own: Seq<i16>,
    positions_enemy: Seq<i16>,
    hps_enemy: Seq<i32>,
    effects_own: Seq<RunningEffect>,
    effects_enemy: Seq<RunningEffect>,
    targeting: TargetingType,
)
    requires
        effects_own[current].blind == 0,
    ensures
        ({
            let c = target_choice(
                ships,
                current,
                positions_own,
                positions_enemy,
                hps_enemy,
                effects_own,
                effects_enemy,
                targeting,
            );
            let t = c.1 as int;
            &&& c.0 == exists|e: int| 0 <= e < MAX_SHIPS && #[trigger] reachable(ships, current, positions_own, positions_enemy, hps_enemy, effects_own, e)
            &&& c.0 ==> {
                &&& t < MAX_SHIPS
                &&& reachable(ships, current, positions_own, positions_enemy, hps_enemy, effects_own, t)
                &&& c.2 == advance_needed(ships, current, positions_own, positions_enemy, effects_own, t)
                &&& forall|e: int|
                    t < e < MAX_SHIPS && #[trigger] reachable(ships, current, positions_own, positions_enemy, hps_enemy, effects_own, e) ==> prefers(
                        targeting,
                        enemy_value(ships, current, positions_own, positions_enemy, effects_enemy, targeting, t),
                        enemy_value(ships, current, positions_own, positions_enemy, effects_enemy, targeting, e),
                    )
                &&& forall|e: int|
                    0 <= e < t && #[trigger] reachable(ships, current, positions_own, positions_enemy, hps_enemy, effects_own, e) ==> !prefers(
                        targeting,
                        enemy_value(ships, current, positions_own, positions_enemy, effects_enemy, targeting, e),
                        enemy_value(ships, current, positions_own, positions_enemy, effects_enemy, targeting, t),
                    )
            }
            &&& !c.0 ==> t == MAX_SHIPS && c.2 == 0
        }),
{
    lemma_scan_best(
        ships,
        current,
        positions_own,
        positions_enemy,
        hps_enemy,
        effects_own,
        effects_enemy,
        targeting,
        MAX_SHIPS as nat,
    );
    let st = scan_targets(
        ships,
        current,
        positions_own,
        positions_enemy,
        hps_enemy,
        effects_own,
        effects_enemy,
        targeting,
        MAX_SHIPS as nat,
    );
    if st.0 != MAX_SHIPS {
        assert(0 <= st.2 <= 255);
    }
}

// ---------------------------------------------------------------------------
// Damage model
// ---------------------------------------------------------------------------

/// Number of ships a hit point pool stands for, rounded up.
pub open spec fn stack_count(hp_total: int, hp: int) -> int {
    if hp_total % hp == 0 { hp_total / hp } else { hp_total / hp + 1 }
}

/// Damage slot `source` deals to enemy slot `target` with `source_hp` hit
/// points left: the attack (with its variance) beyond the target's defence,
/// once per ship of the stack, capped at one target hull per ship.
pub open spec fn damage(
    variables: Seq<u16>,
    effects_source: Seq<RunningEffect>,
    effects_target: Seq<RunningEffect>,
    ships: Seq<Ship>,
    source: int,
    target: int,
    source_hp: int,
) -> int {
    let attack = attack_stat(ships[source].attack_base, effects_source[source]) + variables[source];
    let count = stack_count(source_hp, ships[source].hp as int);
    let cap = count * ships[target].hp;
    let defence = defence_stat(ships[target].defence, effects_target[target]);
    let defence = if defence > attack { attack } else { defence as int };
    let raw = (attack - defence) * count;
    if raw > cap { cap } else { raw }
}

// ---------------------------------------------------------------------------
// Round simulator
// ---------------------------------------------------------------------------

/// What stays fixed for a whole fight.
pub struct FightSetup {
    pub seed: u64,
    pub ships: Seq<Ship>,
    pub variables_lhs: Seq<u16>,
    pub variables_rhs: Seq<u16>,
    pub modules_lhs: Seq<ShipModule>,
    pub modules_rhs: Seq<ShipModule>,
    pub targeting_lhs: TargetingType,
    pub targeting_rhs: TargetingType,
}

/// The state of a fight between two rounds or two slot turns: positions,
/// hit point pools and running effects of both sides, and the move logs.
pub struct Battle {
    pub positions_lhs: Seq<i16>,
    pub positions_rhs: Seq<i16>,
    pub hps_lhs: Seq<i32>,
    pub hps_rhs: Seq<i32>,
    pub effects_lhs: Seq<RunningEffect>,
    pub effects_rhs: Seq<RunningEffect>,
    pub moves_lhs: Seq<MoveView>,
    pub moves_rhs: Seq<MoveView>,
}

/// The per-fight variance coefficient of each slot, from the seed.
pub open spec fn variances(seed: int, ships: Seq<Ship>) -> Seq<u16> {
    Seq::new(MAX_SHIPS as nat, |i: int| (seed % (ships[i].attack_variable as int)) as u16)
}

/// Everything fixed for a fight with these inputs. The defender's variance
/// comes from half the seed.
pub open spec fn fight_setup(
    seed: u64,
    ships: Seq<Ship>,
    modules_lhs: Seq<ShipModule>,
    modules_rhs: Seq<ShipModule>,
    targeting_lhs: TargetingType,
    targeting_rhs: TargetingType,
) -> FightSetup {
    FightSetup {
        seed,
        ships,
        variables_lhs: variances(seed as int, ships),
        variables_rhs: variances(seed as int / 2, ships),
        modules_lhs,
        modules_rhs,
        targeting_lhs,
        targeting_rhs,
    }
}

/// Initial hit point pool of every slot of a fleet.
pub open spec fn initial_hps(ships: Seq<Ship>, selection: Seq<u8>) -> Seq<i32> {
    Seq::new(MAX_SHIPS as nat, |i: int| (ships[i].hp * selection[i]) as i32)
}

/// The battle before the first round: the attacker at 10..13, the defender
/// at -10..-13, full pools, no effects, empty logs.
pub open spec fn initial_battle(ships: Seq<Ship>, selection_lhs: Seq<u8>, selection_rhs: Seq<u8>) -> Battle {
    Battle {
        positions_lhs: seq![10i16, 11i16, 12i16, 13i16],
        positions_rhs: seq![-10i16, -11i16, -12i16, -13i16],
        hps_lhs: initial_hps(ships, selection_lhs),
        hps_rhs: initial_hps(ships, selection_rhs),
        effects_lhs: Seq::new(MAX_SHIPS as nat, |i: int| RunningEffect::none()),
        effects_rhs: Seq::new(MAX_SHIPS as nat, |i: int| RunningEffect::none()),
        moves_lhs: Seq::empty(),
        moves_rhs: Seq::empty(),
    }
}

/// The logged form of a shot.
pub open spec fn shot(
    round: int,
    source: int,
    target: int,
    damage: int,
    position: i16,
    effects_lhs: Seq<RunningEffect>,
    effects_rhs: Seq<RunningEffect>,
) -> MoveView {
    MoveView {
        move_type: MOVE_SHOOT,
        round: round as u8,
        source: source as u8,
        target: target as u8,
        target_position: position,
        damage: damage as u32,
        effects_lhs,
        effects_rhs,
    }
}

/// The logged form of a reposition.
pub open spec fn reposition(
    round: int,
    source: int,
    position: i16,
    effects_lhs: Seq<RunningEffect>,
    effects_rhs: Seq<RunningEffect>,
) -> MoveView {
    MoveView {
        move_type: MOVE_REPOSITION,
        round: round as u8,
        source: source as u8,
        target: 0,
        target_position: position,
        damage: 0,
        effects_lhs,
        effects_rhs,
    }
}

/// The defender's slot `i` carries out its choice `choice`: with a target it
/// deals `dmg`, advances and inflicts its module effects; without one it
/// advances by `speed`. Either way its own effects count down first.
pub open spec fn defender_acts(
    s: FightSetup,
    b: Battle,
    round: int,
    i: int,
    choice: (bool, u8, u8),
    dmg: int,
    speed: u8,
) -> Battle {
    let effects_rhs = b.effects_rhs.update(i, retired(b.effects_rhs[i]));
    if choice.0 {
        let t = choice.1 as int;
        let position = (b.positions_rhs[i] + choice.2) as i16;
        let effects_lhs = b.effects_lhs.update(
            t,
            applied(b.effects_lhs[t], s.modules_rhs[i], dice_roll(s.seed)),
        );
        Battle {
            hps_lhs: b.hps_lhs.update(t, (b.hps_lhs[t] - dmg) as i32),
            positions_rhs: b.positions_rhs.update(i, position),
            effects_lhs,
            effects_rhs,
            moves_rhs: b.moves_rhs.push(shot(round, i, t, dmg, position, effects_lhs, effects_rhs)),
            ..b
        }
    } else {
        let position = (b.positions_rhs[i] + speed) as i16;
        Battle {
            positions_rhs: b.positions_rhs.update(i, position),
            effects_rhs,
            moves_rhs: b.moves_rhs.push(reposition(round, i, position, b.effects_lhs, effects_rhs)),
            ..b
        }
    }
}

/// The attacker's slot `i` carries out its choice, mirrored: it advances
/// towards lower positions.
pub open spec fn attacker_acts(
    s: FightSetup,
    b: Battle,
    round: int,
    i: int,
    choice: (bool, u8, u8),
    dmg: int,
    speed: u8,
) -> Battle {
    let effects_lhs = b.effects_lhs.update(i, retired(b.effects_lhs[i]));
    if choice.0 {
        let t = choice.1 as int;
        let position = (b.positions_lhs[i] - choice.2) as i16;
        let effects_rhs = b.effects_rhs.update(
            t,
            applied(b.effects_rhs[t], s.modules_lhs[i], dice_roll(s.seed)),
        );
        Battle {
            hps_rhs: b.hps_rhs.update(t, (b.hps_rhs[t] - dmg) as i32),
            positions_lhs: b.positions_lhs.update(i, position),
            effects_lhs,
            effects_rhs,
            moves_lhs: b.moves_lhs.push(shot(round, i, t, dmg, position, effects_lhs, effects_rhs)),
            ..b
        }
    } else {
        let position = (b.positions_lhs[i] - speed) as i16;
        Battle {
            positions_lhs: b.positions_lhs.update(i, position),
            effects_lhs,
            moves_lhs: b.moves_lhs.push(reposition(round, i, position, effects_lhs, b.effects_rhs)),
            ..b
        }
    }
}

/// The turn of slot `i` in a round. Both sides choose a target and compute
/// their damage from the state at the start of the turn; then the
/// defender's slot acts, then the attacker's. A slot with no hit points
/// left does nothing.
pub open spec fn slot_turn(s: FightSetup, b: Battle, round: int, i: int) -> Battle {
    let lhs_speed = speed_stat(s.ships[i].speed, b.effects_lhs[i]);
    let rhs_speed = speed_stat(s.ships[i].speed, b.effects_rhs[i]);
    let lhs_choice = target_choice(
        s.ships,
        i,
        b.positions_lhs,
        b.positions_rhs,
        b.hps_rhs,
        b.effects_lhs,
        b.effects_rhs,
        s.targeting_lhs,
    );
    let lhs_damage = damage(
        s.variables_lhs,
        b.effects_lhs,
        b.effects_rhs,
        s.ships,
        i,
        lhs_choice.1 as int,
        b.hps_lhs[i] as int,
    );
    let rhs_choice = target_choice(
        s.ships,
        i,
        b.positions_rhs,
        b.positions_lhs,
        b.hps_lhs,
        b.effects_rhs,
        b.effects_lhs,
        s.targeting_rhs,
    );
    let rhs_damage = damage(
        s.variables_rhs,
        b.effects_rhs,
        b.effects_lhs,
        s.ships,
        i,
        rhs_choice.1 as int,
        b.hps_rhs[i] as int,
    );
    let after_rhs = if b.hps_rhs[i] > 0 {
        defender_acts(s, b, round, i, rhs_choice, rhs_damage, rhs_speed)
    } else {
        b
    };
    if b.hps_lhs[i] > 0 {
        attacker_acts(s, after_rhs, round, i, lhs_choice, lhs_damage, lhs_speed)
    } else {
        after_rhs
    }
}

/// The battle after the turns of the first `n` slots of a round.
pub open spec fn round_turns(s: FightSetup, b: Battle, round: int, n: nat) -> Battle
    decreases n,
{
    if n == 0 {
        b
    } else {
        slot_turn(s, round_turns(s, b, round, (n - 1) as nat), round, n - 1)
    }
}

/// The fight from round `round` on: it ends before a round in which either
/// side is already dead, or after `MAX_ROUNDS` rounds. Gives the final
/// battle and the number of rounds fought.
pub open spec fn play(s: FightSetup, b: Battle, round: nat) -> (Battle, nat)
    decreases MAX_ROUNDS - round,
{
    if round >= MAX_ROUNDS || all_dead(b.hps_lhs) || all_dead(b.hps_rhs) {
        (b, round)
    } else {
        play(s, round_turns(s, b, round as int, MAX_SHIPS as nat), round + 1)
    }
}

/// The whole fight on these inputs: final battle and rounds fought.
pub open spec fn fight_outcome(
    seed: u64,
    ships: Seq<Ship>,
    selection_lhs: Seq<u8>,
    selection_rhs: Seq<u8>,
    modules_lhs: Seq<ShipModule>,
    modules_rhs: Seq<ShipModule>,
    targeting_lhs: TargetingType,
    targeting_rhs: TargetingType,
) -> (Battle, nat) {
    play(
        fight_setup(seed, ships, modules_lhs, modules_rhs, targeting_lhs, targeting_rhs),
        initial_battle(ships, selection_lhs, selection_rhs),
        0,
    )
}

/// Ships lost per slot: the hit points gone, in whole ships (rounded down).
pub open spec fn ships_lost(ships: Seq<Ship>, selection: Seq<u8>, hps: Seq<i32>) -> Seq<u8> {
    Seq::new(
        MAX_SHIPS as nat,
        |i: int|
            ((selection[i] * ships[i].hp - (if hps[i] > 0 { hps[i] as int } else { 0 }))
                / (ships[i].hp as int)) as u8,
    )
}

/// Number of ships in a fleet.
pub open spec fn fleet_size(selection: Seq<u8>) -> int {
    selection[0] + selection[1] + selection[2] + selection[3]
}

/// The logged moves, in their view form.
pub open spec fn move_views(moves: Seq<Move>) -> Seq<MoveView> {
    moves.map_values(|m: Move| m@)
}

/// `r` is the result of the fight on these inputs: it echoes them, and its
/// round count, death flags and losses are those of the fight's outcome. The
/// attacker counts as dead only against a non-empty defender.
pub open spec fn is_fight_result(
    r: FightResult,
    seed: u64,
    ships: Seq<Ship>,
    selection_lhs: [u8; MAX_SHIPS],
    selection_rhs: [u8; MAX_SHIPS],
    modules_lhs: [ShipModule; MAX_SHIPS],
    modules_rhs: [ShipModule; MAX_SHIPS],
    targeting_lhs: TargetingType,
    targeting_rhs: TargetingType,
) -> bool {
    let outcome = fight_outcome(
        seed,
        ships,
        selection_lhs@,
        selection_rhs@,
        modules_lhs@,
        modules_rhs@,
        targeting_lhs,
        targeting_rhs,
    );
    let end = outcome.0;
    &&& r.selection_lhs == selection_lhs
    &&& r.selection_rhs == selection_rhs
    &&& r.modules_lhs == modules_lhs
    &&& r.modules_rhs == modules_rhs
    &&& r.targeting_lhs == targeting_lhs
    &&& r.targeting_rhs == targeting_rhs
    &&& r.seed == seed
    &&& r.rounds == outcome.1
    &&& r.rhs_dead == all_dead(end.hps_rhs)
    &&& r.lhs_dead == (fleet_size(selection_rhs@) > 0 && all_dead(end.hps_lhs))
    &&& r.ships_lost_lhs@ == ships_lost(ships, selection_lhs@, end.hps_lhs)
    &&& r.ships_lost_rhs@ == ships_lost(ships, selection_rhs@, end.hps_rhs)
}

/// A fight's result is a function of its inputs: any two results of a fight
/// on the same inputs are equal, whether or not either call logged its moves
/// (the logging flag is no input of the result).
pub proof fn lemma_fight_result_unique(
    r1: FightResult,
    r2: FightResult,
    seed: u64,
    ships: Seq<Ship>,
    selection_lhs: [u8; MAX_SHIPS],
    selection_rhs: [u8; MAX_SHIPS],
    modules_lhs: [ShipModule; MAX_SHIPS],
    modules_rhs: [ShipModule; MAX_SHIPS],
    targeting_lhs: TargetingType,
    targeting_rhs: TargetingType,
)
    requires
        is_fight_result(
            r1,
            seed,
            ships,
            selection_lhs,
            selection_rhs,
            modules_lhs,
            modules_rhs,
            targeting_lhs,
            targeting_rhs,
        ),
        is_fight_result(
            r2,
            seed,
            ships,
            selection_lhs,
            selection_rhs,
            modules_lhs,
            modules_rhs,
            targeting_lhs,
            targeting_rhs,
        ),
    ensures
        r1 == r2,
{
    assert(r1.ships_lost_lhs =~= r2.ships_lost_lhs);
    assert(r1.ships_lost_rhs =~= r2.ships_lost_rhs);
}

/// A move log is determined by its view: two logs that a fight describes by
/// the same sequence of moves are identical.
pub proof fn lemma_move_log_unique(log1: Seq<Move>, log2: Seq<Move>)
    requires
        move_views(log1) == move_views(log2),
    ensures
        log1 == log2,
{
    assert(log1.len() == move_views(log1).len());
    assert(log2.len() == move_views(log2).len());
    assert forall|k: int| 0 <= k < log1.len() implies log1[k] == log2[k] by {
        assert(move_views(log1)[k] == log1[k]@);
        assert(move_views(log2)[k] == log2[k]@);
        assert(log1[k].effects_lhs =~= log2[k].effects_lhs);
        assert(log1[k].effects_rhs =~= log2[k].effects_rhs);
    }
    assert(log1 =~= log2);
}

/// No slot of the fleet has hit points left.
pub open spec fn all_dead(hps: Seq<i32>) -> bool {
    forall|i: int| 0 <= i < MAX_SHIPS ==> #[trigger] hps[i] <= 0
}

/// The most damage one shot can deal: a full stack of 255 ships, each
/// capped at a hull of 65535 hit points.
spec fn max_shot() -> int {
    255int * 65535int
}

/// The exec state of a fight is the battle `b`.
spec fn holds_battle(
    b: Battle,
    positions_lhs: Seq<i16>,
    positions_rhs: Seq<i16>,
    hps_lhs: Seq<i32>,
    hps_rhs: Seq<i32>,
    effects_lhs: Seq<RunningEffect>,
    effects_rhs: Seq<RunningEffect>,
    moves_lhs: Seq<Move>,
    moves_rhs: Seq<Move>,
    log_moves: bool,
) -> bool {
    &&& b.positions_lhs == positions_lhs
    &&& b.positions_rhs == positions_rhs
    &&& b.hps_lhs == hps_lhs
    &&& b.hps_rhs == hps_rhs
    &&& b.effects_lhs == effects_lhs
    &&& b.effects_rhs == effects_rhs
    &&& log_moves ==> move_views(moves_lhs) == b.moves_lhs
    &&& log_moves ==> move_views(moves_rhs) == b.moves_rhs
}

/// Bounds that hold in round `round` after `done` slot turns: pools between
/// minus one shot and their initial value, effect counters below four per
/// round, and positions at most 255 fields per turn from their start.
spec fn battle_bounded(b: Battle, init_lhs: Seq<i32>, init_rhs: Seq<i32>, round: int, done: int) -> bool {
    &&& forall|k: int|
        0 <= k < MAX_SHIPS ==> -max_shot() <= #[trigger] b.hps_lhs[k] <= init_lhs[k]
    &&& forall|k: int|
        0 <= k < MAX_SHIPS ==> -max_shot() <= #[trigger] b.hps_rhs[k] <= init_rhs[k]
    &&& forall|k: int|
        0 <= k < MAX_SHIPS ==> (#[trigger] b.effects_lhs[k]).bounded_by(4 * round + done)
    &&& forall|k: int|
        0 <= k < MAX_SHIPS ==> (#[trigger] b.effects_rhs[k]).bounded_by(4 * round + done)
    &&& forall|k: int|
        0 <= k < MAX_SHIPS ==> -(13 + 255 * round + if k < done { 255int } else { 0 })
            <= #[trigger] b.positions_lhs[k] <= 13 + 255 * round + if k < done { 255int } else { 0 }
    &&& forall|k: int|
        0 <= k < MAX_SHIPS ==> -(13 + 255 * round + if k < done { 255int } else { 0 })
            <= #[trigger] b.positions_rhs[k] <= 13 + 255 * round + if k < done { 255int } else { 0 }
}

proof fn lemma_views_push(moves: Seq<Move>, m: Move)
    ensures
        move_views(moves.push(m)) == move_views(moves).push(m@),
{
    assert(move_views(moves.push(m)) =~= move_views(moves).push(m@));
}

/// A pool of at most `selection` full hulls stands for at most
/// `selection` ships.
proof fn lemma_stack_count_bound(pool: int, hp: int, selection: int)
    requires
        0 < pool <= selection * hp,
        hp > 0,
        0 <= selection,
    ensures
        1 <= stack_count(pool, hp) <= selection,
{
    let q = pool / hp;
    let r = pool % hp;
    vstd::arithmetic::div_mod::lemma_fundamental_div_mod(pool, hp);
    assert(pool == hp * q + r);
    assert(0 <= r < hp);
    assert(q >= 0) by {
        vstd::arithmetic::div_mod::lemma_div_pos_is_pos(pool, hp);
    }
    if r == 0 {
        assert(q * hp <= selection * hp) by {
            vstd::arithmetic::mul::lemma_mul_is_commutative(q, hp);
        }
        vstd::arithmetic::mul::lemma_mul_inequality_converse(q, selection, hp);
        if q == 0 {
            assert(hp * 0 == 0);
        }
    } else {
        if q >= selection {
            vstd::arithmetic::mul::lemma_mul_inequality(selection, q, hp);
            vstd::arithmetic::mul::lemma_mul_is_commutative(q, hp);
        }
    }
}

/// A target the scan settles on is a live enemy slot.
proof fn lemma_scan_found(
    ships: Seq<Ship>,
    current: int,
    positions_own: Seq<i16>,
    positions_enemy: Seq<i16>,
    hps_enemy: Seq<i32>,
    effects_own: Seq<RunningEffect>,
    effects_enemy: Seq<RunningEffect>,
    targeting: TargetingType,
    n: nat,
)
    requires
        n <= MAX_SHIPS,
    ensures
        ({
            let t = scan_targets(
                ships,
                current,
                positions_own,
                positions_enemy,
                hps_enemy,
                effects_own,
                effects_enemy,
                targeting,
                n,
            ).0;
            t == MAX_SHIPS || (0 <= t < MAX_SHIPS && hps_enemy[t] > 0)
        }),
    decreases n,
{
    if n > 0 {
        lemma_scan_found(
            ships,
            current,
            positions_own,
            positions_enemy,
            hps_enemy,
            effects_own,
            effects_enemy,
            targeting,
            (n - 1) as nat,
        );
    }
}

proof fn lemma_initial_bounded(ships: Seq<Ship>, selection_lhs: Seq<u8>, selection_rhs: Seq<u8>)
    ensures
        battle_bounded(
            initial_battle(ships, selection_lhs, selection_rhs),
            initial_hps(ships, selection_lhs),
            initial_hps(ships, selection_rhs),
            0,
            0,
        ),
{
    let b = initial_battle(ships, selection_lhs, selection_rhs);
    assert forall|k: int| 0 <= k < MAX_SHIPS implies -13 <= #[trigger] b.positions_lhs[k] <= 13
        && -13 <= b.positions_rhs[k] <= 13 by {
        if k == 0 {
        } else if k == 1 {
        } else if k == 2 {
        } else {
        }
    }
    assert forall|k: int| 0 <= k < MAX_SHIPS implies 0 <= #[trigger] (ships[k].hp * selection_lhs[k])
        <= max_shot() by {
        vstd::arithmetic::mul::lemma_mul_upper_bound(ships[k].hp as int, 65535, selection_lhs[k] as int, 255);
    }
    assert forall|k: int| 0 <= k < MAX_SHIPS implies 0 <= #[trigger] (ships[k].hp * selection_rhs[k])
        <= max_shot() by {
        vstd::arithmetic::mul::lemma_mul_upper_bound(ships[k].hp as int, 65535, selection_rhs[k] as int, 255);
    }
}

impl NewOmega {
    pub fn new() -> (r: Self) {
        NewOmega {}
    }

    pub fn default() -> (r: Self) {
        NewOmega::new()
    }

    /// Maximum of two values.
    pub fn max(&self, lhs: i32, rhs: i32) -> (r: i32)
        ensures
            r == if lhs > rhs { lhs } else { rhs },
    {
        if lhs > rhs {
            lhs
        } else {
            rhs
        }
    }

    /// Checks whether a fleet is dead, according to its slots' hit points.
    pub fn is_dead(&self, ship_hps: [i32; MAX_SHIPS]) -> (r: bool)
        ensures
            r == all_dead(ship_hps@),
    {
        let mut is_target_dead: bool = true;
        let mut i: usize = 0;
        while i < MAX_SHIPS
            invariant
                i <= MAX_SHIPS,
                is_target_dead == (forall|k: int| 0 <= k < i ==> #[trigger] ship_hps@[k] <= 0),
            decreases MAX_SHIPS - i,
        {
            if ship_hps[i] > 0 {
                is_target_dead = false;
            }
            i = i + 1;
        }
        is_target_dead
    }

    /// Defence stat of a ship under its running effects.
    pub fn get_defence_stat(&self, stat: u16, effect: &RunningEffect) -> (r: u16)
        ensures
            r == defence_stat(stat, *effect),
    {
        if effect.defence_debuff > 0 {
            stat / 2
        } else {
            stat
        }
    }

    /// Attack stat of a ship under its running effects.
    pub fn get_attack_stat(&self, stat: u16, effect: &RunningEffect) -> (r: u16)
        ensures
            r == attack_stat(stat, *effect),
    {
        if effect.attack_debuff > 0 {
            stat / 2
        } else {
            stat
        }
    }

    /// Range stat of a ship under its running effects.
    pub fn get_range_stat(&self, stat: u8, effect: &RunningEffect) -> (r: u8)
        ensures
            r == range_stat(stat, *effect),
    {
        if effect.range_debuff > 0 {
            stat / 2
        } else {
            stat
        }
    }

    /// Speed stat of a ship under its running effects.
    pub fn get_speed_stat(&self, stat: u8, effect: &RunningEffect) -> (r: u8)
        ensures
            r == speed_stat(stat, *effect),
    {
        if effect.root > 0 {
            0
        } else if effect.blind > 0 {
            0
        } else if effect.snare > 0 {
            stat / 2
        } else {
            stat
        }
    }

    /// Picks a target for slot `current_ship`: scans the enemy slots from the
    /// highest index down and keeps a reachable one whenever the doctrine
    /// strictly prefers it, so ties go to the highest index.
    ///
    /// Returns whether a target was found, its slot (`MAX_SHIPS` if none) and
    /// how far the shooter must advance to have it in range.
    pub fn get_target(
        &self,
        ships: &Vec<Ship>,
        current_ship: u8,
        ship_positions_own: [i16; MAX_SHIPS],
        ship_positions_enemy: [i16; MAX_SHIPS],
        ship_hps_enemy: [i32; MAX_SHIPS],
        effects_own: &[RunningEffect; MAX_SHIPS],
        effects_enemy: &[RunningEffect; MAX_SHIPS],
        targeting: TargetingType,
    ) -> (r: (bool, u8, u8))
        requires
            catalog_wf(ships@),
            current_ship < MAX_SHIPS,
        ensures
            r == target_choice(
                ships@,
                current_ship as int,
                ship_positions_own@,
                ship_positions_enemy@,
                ship_hps_enemy@,
                effects_own@,
                effects_enemy@,
                targeting,
            ),
            r.0 == (r.1 < MAX_SHIPS),
            r.0 ==> ship_hps_enemy@[r.1 as int] > 0,
    {
        let current: usize = current_ship as usize;
        let position: i16 = ship_positions_own[current];
        let mut proposed_move: u8 = 0;
        let mut best_target: u8 = MAX_SHIPS as u8;
        let mut best_value: u16 = 0;
        let ghost cur = current as int;

        if effects_own[current].blind == 0 {
            let range: u8 = self.get_range_stat(ships[current].range, &effects_own[current]);
            let speed: u8 = self.get_speed_stat(ships[current].speed, &effects_own[current]);
            let mut n: usize = 0;
            while n < MAX_SHIPS
                invariant
                    n <= MAX_SHIPS,
                    catalog_wf(ships@),
                    current < MAX_SHIPS,
                    cur == current,
                    position == ship_positions_own@[cur],
                    range == range_stat(ships@[cur].range, effects_own@[cur]),
                    speed == speed_stat(ships@[cur].speed, effects_own@[cur]),
                    (best_target as int, best_value as int, proposed_move as int) == scan_targets(
                        ships@,
                        cur,
                        ship_positions_own@,
                        ship_positions_enemy@,
                        ship_hps_enemy@,
                        effects_own@,
                        effects_enemy@,
                        targeting,
                        n as nat,
                    ),
                decreases MAX_SHIPS - n,
            {
                let enemy: usize = MAX_SHIPS - 1 - n;
                let enemy_position: i16 = ship_positions_enemy[enemy];
                let delta: u16 = if position >= enemy_position {
                    (position as i32 - enemy_position as i32) as u16
                } else {
                    (enemy_position as i32 - position as i32) as u16
                };
                if delta as u32 <= range as u32 + speed as u32 && ship_hps_enemy[enemy] > 0 {
                    let cur_value: u16 = self.get_stat_for_targeting(
                        targeting,
                        enemy,
                        delta,
                        ships,
                        effects_enemy,
                    );
                    if best_target == MAX_SHIPS as u8 || self.is_stat_better_for_targeting(
                        targeting,
                        cur_value,
                        best_value,
                    ) {
                        best_target = enemy as u8;
                        best_value = cur_value;
                        if delta > range as u16 {
                            proposed_move = (delta - range as u16) as u8;
                        } else {
                            proposed_move = 0;
                        }
                    }
                }
                n = n + 1;
            }
        }
        proof {
            lemma_scan_found(
                ships@,
                cur,
                ship_positions_own@,
                ship_positions_enemy@,
                ship_hps_enemy@,
                effects_own@,
                effects_enemy@,
                targeting,
                MAX_SHIPS as nat,
            );
        }
        (best_target < MAX_SHIPS as u8, best_target, proposed_move)
    }

    /// The value doctrine `targeting` ranks enemy slot `target_usize` by, at
    /// distance `delta`.
    pub fn get_stat_for_targeting(
        &self,
        targeting: TargetingType,
        target_usize: usize,
        delta: u16,
        ships: &Vec<Ship>,
        effects: &[RunningEffect; MAX_SHIPS],
    ) -> (r: u16)
        requires
            catalog_wf(ships@),
            target_usize < MAX_SHIPS,
        ensures
            r == targeting_value(targeting, target_usize as int, delta, ships@, effects@),
    {
        let attack: u16 = self.get_attack_stat(ships[target_usize].attack_base, &effects[target_usize]);
        let defence: u16 = self.get_defence_stat(ships[target_usize].defence, &effects[target_usize]);
        let speed: u16 = self.get_speed_stat(ships[target_usize].speed, &effects[target_usize]) as u16;
        let hp: u16 = ships[target_usize].hp;

        match targeting {
            TargetingType::Closest => delta,
            TargetingType::Furthest => delta,
            TargetingType::LowestAttack => attack,
            TargetingType::LowestDefence => defence,
            TargetingType::LowestSpeed => speed,
            TargetingType::LowestHp => hp,
            TargetingType::HighestAttack => attack,
            TargetingType::HighestDefence => defence,
            TargetingType::HighestSpeed => speed,
            TargetingType::HighestHp => hp,
        }
    }

    /// Whether doctrine `targeting` strictly prefers `cur_value` over
    /// `best_value`: lower for Closest and the Lowest doctrines, higher for
    /// Furthest and the Highest ones.
    pub fn is_stat_better_for_targeting(
        &self,
        targeting: TargetingType,
        cur_value: u16,
        best_value: u16,
    ) -> (r: bool)
        ensures
            r == prefers(targeting, cur_value, best_value),
    {
        match targeting {
            TargetingType::Closest => cur_value < best_value,
            TargetingType::Furthest => cur_value > best_value,
            TargetingType::LowestAttack => cur_value < best_value,
            TargetingType::LowestDefence => cur_value < best_value,
            TargetingType::LowestSpeed => cur_value < best_value,
            TargetingType::LowestHp => cur_value < best_value,
            TargetingType::HighestAttack => cur_value > best_value,
            TargetingType::HighestDefence => cur_value > best_value,
            TargetingType::HighestSpeed => cur_value > best_value,
            TargetingType::HighestHp => cur_value > best_value,
        }
    }

    /// Number of ships a pool of `hp_total` hit points stands for, at `hp`
    /// per ship, rounded up.
    pub fn get_number_of_ships_from_hp(&self, hp_total: u32, hp: u16) -> (r: u16)
        requires
            hp > 0,
            stack_count(hp_total as int, hp as int) <= u16::MAX,
        ensures
            r == stack_count(hp_total as int, hp as int),
    {
        let hp32: u32 = hp as u32;
        if hp_total % hp32 == 0 {
            (hp_total / hp32) as u16
        } else {
            (hp_total / hp32) as u16 + 1
        }
    }

    /// Damage slot `source` deals to enemy slot `target` while it has
    /// `source_hp` hit points left.
    pub fn calculate_damage(
        &self,
        variables: [u16; MAX_SHIPS],
        effects_source: &[RunningEffect; MAX_SHIPS],
        effects_target: &[RunningEffect; MAX_SHIPS],
        ships: &Vec<Ship>,
        source: u8,
        target: u8,
        source_hp: u32,
    ) -> (r: u32)
        requires
            catalog_wf(ships@),
            source < MAX_SHIPS,
            target < MAX_SHIPS,
            stack_count(source_hp as int, ships@[source as int].hp as int) <= u16::MAX,
        ensures
            r == damage(
                variables@,
                effects_source@,
                effects_target@,
                ships@,
                source as int,
                target as int,
                source_hp as int,
            ),
            0 <= r <= stack_count(source_hp as int, ships@[source as int].hp as int)
                * ships@[target as int].hp,
    {
        let s: usize = source as usize;
        let t: usize = target as usize;
        let attack: u32 = self.get_attack_stat(ships[s].attack_base, &effects_source[s]) as u32
            + variables[s] as u32;
        let count: u16 = self.get_number_of_ships_from_hp(source_hp, ships[s].hp);
        proof {
            vstd::arithmetic::mul::lemma_mul_upper_bound(count as int, u16::MAX as int, ships@[t as int].hp as int, u16::MAX as int);
        }
        let cap: u32 = (count as u32) * (ships[t].hp as u32);
        let mut defence: u32 = self.get_defence_stat(ships[t].defence, &effects_target[t]) as u32;
        if defence > attack {
            defence = attack;
        }
        proof {
            vstd::arithmetic::mul::lemma_mul_upper_bound((attack - defence) as int, u32::MAX as int, count as int, u16::MAX as int);
        }
        let raw: u64 = (attack - defence) as u64 * (count as u64);
        if raw > cap as u64 {
            cap
        } else {
            raw as u32
        }
    }

    /// Appends a shot to a move log.
    pub fn log_shoot(
        &self,
        round: u8,
        moves: &mut Vec<Move>,
        source: u8,
        target: u8,
        damage: u32,
        position: i16,
        effects_lhs: &[RunningEffect; MAX_SHIPS],
        effects_rhs: &[RunningEffect; MAX_SHIPS],
    )
        ensures
            final(moves)@ == old(moves)@.push(
                Move {
                    move_type: MOVE_SHOOT,
                    round: round,
                    source: source,
                    target: target,
                    target_position: position,
                    damage: damage,
                    effects_lhs: *effects_lhs,
                    effects_rhs: *effects_rhs,
                },
            ),
    {
        moves.push(
            Move {
                move_type: MOVE_SHOOT,
                round: round,
                source: source,
                target: target,
                target_position: position,
                damage: damage,
                effects_lhs: *effects_lhs,
                effects_rhs: *effects_rhs,
            },
        );
    }

    /// Appends a reposition to a move log.
    pub fn log_move(
        &self,
        round: u8,
        moves: &mut Vec<Move>,
        source: u8,
        target_position: i16,
        effects_lhs: &[RunningEffect; MAX_SHIPS],
        effects_rhs: &[RunningEffect; MAX_SHIPS],
    )
        ensures
            final(moves)@ == old(moves)@.push(
                Move {
                    move_type: MOVE_REPOSITION,
                    round: round,
                    source: source,
                    target: 0,
                    target_position: target_position,
                    damage: 0,
                    effects_lhs: *effects_lhs,
                    effects_rhs: *effects_rhs,
                },
            ),
    {
        moves.push(
            Move {
                move_type: MOVE_REPOSITION,
                round: round,
                source: source,
                target: 0,
                target_position: target_position,
                damage: 0,
                effects_lhs: *effects_lhs,
                effects_rhs: *effects_rhs,
            },
        );
    }

    /// Counts down every running effect of slot `target` by one round.
    pub fn retire_effects(&self, effects_target: &mut [RunningEffect; MAX_SHIPS], target: u8)
        requires
            target < MAX_SHIPS,
        ensures
            final(effects_target)@ == old(effects_target)@.update(
                target as int,
                retired(old(effects_target)@[target as int]),
            ),
    {
        let t: usize = target as usize;
        let mut e: RunningEffect = effects_target[t];
        if e.snare > 0 {
            e.snare = e.snare - 1;
        }
        if e.root > 0 {
            e.root = e.root - 1;
        }
        if e.blind > 0 {
            e.blind = e.blind - 1;
        }
        if e.defence_debuff > 0 {
            e.defence_debuff = e.defence_debuff - 1;
        }
        if e.attack_debuff > 0 {
            e.attack_debuff = e.attack_debuff - 1;
        }
        if e.range_debuff > 0 {
            e.range_debuff = e.range_debuff - 1;
        }
        effects_target[t] = e;
    }

    /// Lets the modules of slot `source` lengthen the effects running on
    /// enemy slot `target`, by one round for each effect whose magnitude
    /// exceeds the fight's dice roll.
    pub fn apply_effects(
        &self,
        modules_source: &[ShipModule; MAX_SHIPS],
        effects_target: &mut [RunningEffect; MAX_SHIPS],
        source: u8,
        target: u8,
        seed: u64,
    )
        requires
            source < MAX_SHIPS,
            target < MAX_SHIPS,
            old(effects_target)@[target as int].bounded_by(u8::MAX - 1),
        ensures
            final(effects_target)@ == old(effects_target)@.update(
                target as int,
                applied(
                    old(effects_target)@[target as int],
                    modules_source@[source as int],
                    dice_roll(seed),
                ),
            ),
    {
        let m: ShipModule = modules_source[source as usize];
        let t: usize = target as usize;
        let mut e: RunningEffect = effects_target[t];
        let roll: u8 = (seed % 100) as u8;
        let effect_length: u8 = 1;

        if roll < m.snare {
            e.snare = e.snare + effect_length;
        }
        if roll < m.root {
            e.root = e.root + effect_length;
        }
        if roll < m.blind {
            e.blind = e.blind + effect_length;
        }
        if roll < m.defence_debuff {
            e.defence_debuff = e.defence_debuff + effect_length;
        }
        if roll < m.attack_debuff {
            e.attack_debuff = e.attack_debuff + effect_length;
        }
        if roll < m.range_debuff {
            e.range_debuff = e.range_debuff + effect_length;
        }
        effects_target[t] = e;
    }

    /// The turn of slot `current` in round `round` (see `slot_turn`): both
    /// sides pick their target and damage from the state at the start of the
    /// turn, then the defender's slot acts, then the attacker's.
    #[verifier::rlimit(100)]
    fn resolve_turn(
        &self,
        seed: u64,
        log_moves: bool,
        ships: &Vec<Ship>,
        round: u8,
        current: u8,
        variables_lhs: &[u16; MAX_SHIPS],
        variables_rhs: &[u16; MAX_SHIPS],
        modules_lhs: &[ShipModule; MAX_SHIPS],
        modules_rhs: &[ShipModule; MAX_SHIPS],
        targeting_lhs: TargetingType,
        targeting_rhs: TargetingType,
        ship_positions_lhs: &mut [i16; MAX_SHIPS],
        ship_positions_rhs: &mut [i16; MAX_SHIPS],
        ship_hps_lhs: &mut [i32; MAX_SHIPS],
        ship_hps_rhs: &mut [i32; MAX_SHIPS],
        effects_lhs: &mut [RunningEffect; MAX_SHIPS],
        effects_rhs: &mut [RunningEffect; MAX_SHIPS],
        moves_lhs: &mut Vec<Move>,
        moves_rhs: &mut Vec<Move>,
        b: Ghost<Battle>,
        init_lhs: Ghost<Seq<i32>>,
        init_rhs: Ghost<Seq<i32>>,
    )
        requires
            current < MAX_SHIPS,
            round < MAX_ROUNDS,
            catalog_wf(ships@),
            variables_lhs@ == variances(seed as int, ships@),
            variables_rhs@ == variances(seed as int / 2, ships@),
            forall|k: int| 0 <= k < MAX_SHIPS ==> {
                &&& #[trigger] init_lhs@[k] <= 255 * ships@[k].hp
                &&& init_rhs@[k] <= 255 * ships@[k].hp
            },
            holds_battle(
                b@,
                old(ship_positions_lhs)@,
                old(ship_positions_rhs)@,
                old(ship_hps_lhs)@,
                old(ship_hps_rhs)@,
                old(effects_lhs)@,
                old(effects_rhs)@,
                old(moves_lhs)@,
                old(moves_rhs)@,
                log_moves,
            ),
            battle_bounded(b@, init_lhs@, init_rhs@, round as int, current as int),
        ensures
            ({
                let s = fight_setup(seed, ships@, modules_lhs@, modules_rhs@, targeting_lhs, targeting_rhs);
                let after = slot_turn(s, b@, round as int, current as int);
                &&& holds_battle(
                    after,
                    final(ship_positions_lhs)@,
                    final(ship_positions_rhs)@,
                    final(ship_hps_lhs)@,
                    final(ship_hps_rhs)@,
                    final(effects_lhs)@,
                    final(effects_rhs)@,
                    final(moves_lhs)@,
                    final(moves_rhs)@,
                    log_moves,
                )
                &&& battle_bounded(after, init_lhs@, init_rhs@, round as int, current as int + 1)
            }),
    {
        let ghost s = fight_setup(seed, ships@, modules_lhs@, modules_rhs@, targeting_lhs, targeting_rhs);
        let ghost bb = b@;
        let ghost ci = current as int;
        let c: usize = current as usize;
        let ghost lhs_choice = target_choice(
            s.ships,
            ci,
            bb.positions_lhs,
            bb.positions_rhs,
            bb.hps_rhs,
            bb.effects_lhs,
            bb.effects_rhs,
            s.targeting_lhs,
        );
        let ghost rhs_choice = target_choice(
            s.ships,
            ci,
            bb.positions_rhs,
            bb.positions_lhs,
            bb.hps_lhs,
            bb.effects_rhs,
            bb.effects_lhs,
            s.targeting_rhs,
        );
        let ghost lhs_dmg = damage(
            s.variables_lhs,
            bb.effects_lhs,
            bb.effects_rhs,
            s.ships,
            ci,
            lhs_choice.1 as int,
            bb.hps_lhs[ci] as int,
        );
        let ghost rhs_dmg = damage(
            s.variables_rhs,
            bb.effects_rhs,
            bb.effects_lhs,
            s.ships,
            ci,
            rhs_choice.1 as int,
            bb.hps_rhs[ci] as int,
        );
        let lhs_alive: bool = ship_hps_lhs[c] > 0;
        let rhs_alive: bool = ship_hps_rhs[c] > 0;
        let lhs_speed: u8 = self.get_speed_stat(ships[c].speed, &effects_lhs[c]);
        let rhs_speed: u8 = self.get_speed_stat(ships[c].speed, &effects_rhs[c]);
        let mut lhs_has_target: bool = false;
        let mut lhs_target: u8 = 0;
        let mut lhs_delta_move: u8 = 0;
        let mut lhs_damage: u32 = 0;
        let mut rhs_has_target: bool = false;
        let mut rhs_target: u8 = 0;
        let mut rhs_delta_move: u8 = 0;
        let mut rhs_damage: u32 = 0;

        // Both sides decide from the state at the start of the turn
        if lhs_alive {
            let choice = self.get_target(
                ships,
                current,
                *ship_positions_lhs,
                *ship_positions_rhs,
                *ship_hps_rhs,
                effects_lhs,
                effects_rhs,
                targeting_lhs,
            );
            lhs_has_target = choice.0;
            lhs_target = choice.1;
            lhs_delta_move = choice.2;
            if lhs_has_target {
                proof {
                    lemma_stack_count_bound(bb.hps_lhs[ci] as int, ships@[ci].hp as int, 255);
                }
                lhs_damage = self.calculate_damage(
                    *variables_lhs,
                    effects_lhs,
                    effects_rhs,
                    ships,
                    current,
                    lhs_target,
                    ship_hps_lhs[c] as u32,
                );
            }
        }
        if rhs_alive {
            let choice = self.get_target(
                ships,
                current,
                *ship_positions_rhs,
                *ship_positions_lhs,
                *ship_hps_lhs,
                effects_rhs,
                effects_lhs,
                targeting_rhs,
            );
            rhs_has_target = choice.0;
            rhs_target = choice.1;
            rhs_delta_move = choice.2;
            if rhs_has_target {
                proof {
                    lemma_stack_count_bound(bb.hps_rhs[ci] as int, ships@[ci].hp as int, 255);
                }
                rhs_damage = self.calculate_damage(
                    *variables_rhs,
                    effects_rhs,
                    effects_lhs,
                    ships,
                    current,
                    rhs_target,
                    ship_hps_rhs[c] as u32,
                );
            }
        }
        proof {
            if lhs_alive && lhs_has_target {
                lemma_scan_found(
                    s.ships,
                    ci,
                    bb.positions_lhs,
                    bb.positions_rhs,
                    bb.hps_rhs,
                    bb.effects_lhs,
                    bb.effects_rhs,
                    s.targeting_lhs,
                    MAX_SHIPS as nat,
                );
                let count = stack_count(bb.hps_lhs[ci] as int, ships@[ci].hp as int);
                vstd::arithmetic::mul::lemma_mul_upper_bound(
                    count,
                    255,
                    ships@[lhs_target as int].hp as int,
                    65535,
                );
            }
            if rhs_alive && rhs_has_target {
                lemma_scan_found(
                    s.ships,
                    ci,
                    bb.positions_rhs,
                    bb.positions_lhs,
                    bb.hps_lhs,
                    bb.effects_rhs,
                    bb.effects_lhs,
                    s.targeting_rhs,
                    MAX_SHIPS as nat,
                );
                let count = stack_count(bb.hps_rhs[ci] as int, ships@[ci].hp as int);
                vstd::arithmetic::mul::lemma_mul_upper_bound(
                    count,
                    255,
                    ships@[rhs_target as int].hp as int,
                    65535,
                );
            }
        }

        // The defender acts first
        if rhs_alive {
            if rhs_has_target {
                let t: usize = rhs_target as usize;
                ship_hps_lhs[t] = ship_hps_lhs[t] - rhs_damage as i32;
                ship_positions_rhs[c] = ship_positions_rhs[c] + rhs_delta_move as i16;
                self.retire_effects(effects_rhs, current);
                self.apply_effects(modules_rhs, effects_lhs, current, rhs_target, seed);
                if log_moves {
                    let ghost before = moves_rhs@;
                    self.log_shoot(
                        round,
                        moves_rhs,
                        current,
                        rhs_target,
                        rhs_damage,
                        ship_positions_rhs[c],
                        effects_lhs,
                        effects_rhs,
                    );
                    proof {
                        lemma_views_push(before, moves_rhs@.last());
                    }
                }
            } else {
                self.retire_effects(effects_rhs, current);
                ship_positions_rhs[c] = ship_positions_rhs[c] + rhs_speed as i16;
                if log_moves {
                    let ghost before = moves_rhs@;
                    self.log_move(round, moves_rhs, current, ship_positions_rhs[c], effects_lhs, effects_rhs);
                    proof {
                        lemma_views_push(before, moves_rhs@.last());
                    }
                }
            }
        }
        let ghost mid = if bb.hps_rhs[ci] > 0 {
            defender_acts(s, bb, round as int, ci, rhs_choice, rhs_dmg, rhs_speed)
        } else {
            bb
        };
        assert(holds_battle(
            mid,
            ship_positions_lhs@,
            ship_positions_rhs@,
            ship_hps_lhs@,
            ship_hps_rhs@,
            effects_lhs@,
            effects_rhs@,
            moves_lhs@,
            moves_rhs@,
            log_moves,
        ));

        // Then the attacker
        if lhs_alive {
            if lhs_has_target {
                let t: usize = lhs_target as usize;
                ship_hps_rhs[t] = ship_hps_rhs[t] - lhs_damage as i32;
                ship_positions_lhs[c] = ship_positions_lhs[c] - lhs_delta_move as i16;
                self.retire_effects(effects_lhs, current);
                self.apply_effects(modules_lhs, effects_rhs, current, lhs_target, seed);
                if log_moves {
                    let ghost before = moves_lhs@;
                    self.log_shoot(
                        round,
                        moves_lhs,
                        current,
                        lhs_target,
                        lhs_damage,
                        ship_positions_lhs[c],
                        effects_lhs,
                        effects_rhs,
                    );
                    proof {
                        lemma_views_push(before, moves_lhs@.last());
                    }
                }
            } else {
                self.retire_effects(effects_lhs, current);
                ship_positions_lhs[c] = ship_positions_lhs[c] - lhs_speed as i16;
                if log_moves {
                    let ghost before = moves_lhs@;
                    self.log_move(round, moves_lhs, current, ship_positions_lhs[c], effects_lhs, effects_rhs);
                    proof {
                        lemma_views_push(before, moves_lhs@.last());
                    }
                }
            }
        }
    }

    /// Simulates a fight between an attacker (`lhs`) and a defender (`rhs`).
    ///
    /// The result is a function of the inputs other than `log_moves`, which
    /// only decides whether the two move logs are returned.
    pub fn fight(
        &self,
        seed: u64,
        log_moves: bool,
        ships: Vec<Ship>,
        selection_lhs: [u8; MAX_SHIPS],
        selection_rhs: [u8; MAX_SHIPS],
        modules_lhs: [ShipModule; MAX_SHIPS],
        modules_rhs: [ShipModule; MAX_SHIPS],
        targeting_lhs: TargetingType,
        targeting_rhs: TargetingType,
    ) -> (r: (FightResult, Option<Vec<Move>>, Option<Vec<Move>>))
        requires
            catalog_wf(ships@),
        ensures
            is_fight_result(
                r.0,
                seed,
                ships@,
                selection_lhs,
                selection_rhs,
                modules_lhs,
                modules_rhs,
                targeting_lhs,
                targeting_rhs,
            ),
            ({
                let end = fight_outcome(
                    seed,
                    ships@,
                    selection_lhs@,
                    selection_rhs@,
                    modules_lhs@,
                    modules_rhs@,
                    targeting_lhs,
                    targeting_rhs,
                ).0;
                &&& log_moves ==> r.1 is Some && move_views(r.1->0@) == end.moves_lhs
                &&& log_moves ==> r.2 is Some && move_views(r.2->0@) == end.moves_rhs
                &&& !log_moves ==> r.1 is None && r.2 is None
            }),
            r.0.rounds <= MAX_ROUNDS,
            forall|i: int|
                0 <= i < MAX_SHIPS ==> #[trigger] r.0.ships_lost_lhs[i] <= selection_lhs[i]
                    && r.0.ships_lost_rhs[i] <= selection_rhs[i],
    {
        let ghost s = fight_setup(seed, ships@, modules_lhs@, modules_rhs@, targeting_lhs, targeting_rhs);
        let ghost init_lhs = initial_hps(ships@, selection_lhs@);
        let ghost init_rhs = initial_hps(ships@, selection_rhs@);

        // Starting ship positions for both sides
        let mut ship_positions_lhs: [i16; MAX_SHIPS] = [10, 11, 12, 13];
        let mut ship_positions_rhs: [i16; MAX_SHIPS] = [-10, -11, -12, -13];
        // Current ship HPs, per ship type
        let mut ship_hps_lhs: [i32; MAX_SHIPS] = [0, 0, 0, 0];
        let mut ship_hps_rhs: [i32; MAX_SHIPS] = [0, 0, 0, 0];
        // Variable damage coefficients, fixed for the whole fight
        let mut variables_lhs: [u16; MAX_SHIPS] = [0, 0, 0, 0];
        let mut variables_rhs: [u16; MAX_SHIPS] = [0, 0, 0, 0];
        // Running effects
        let no_effect: RunningEffect = RunningEffect::default();
        let mut effects_lhs: [RunningEffect; MAX_SHIPS] = [no_effect, no_effect, no_effect, no_effect];
        let mut effects_rhs: [RunningEffect; MAX_SHIPS] = [no_effect, no_effect, no_effect, no_effect];

        let mut i: usize = 0;
        while i < MAX_SHIPS
            invariant
                i <= MAX_SHIPS,
                catalog_wf(ships@),
                s == fight_setup(seed, ships@, modules_lhs@, modules_rhs@, targeting_lhs, targeting_rhs),
                init_lhs == initial_hps(ships@, selection_lhs@),
                init_rhs == initial_hps(ships@, selection_rhs@),
                forall|k: int| 0 <= k < i ==> #[trigger] ship_hps_lhs@[k] == init_lhs[k],
                forall|k: int| 0 <= k < i ==> #[trigger] ship_hps_rhs@[k] == init_rhs[k],
                forall|k: int| 0 <= k < i ==> #[trigger] variables_lhs@[k] == s.variables_lhs[k],
                forall|k: int| 0 <= k < i ==> #[trigger] variables_rhs@[k] == s.variables_rhs[k],
                forall|k: int| 0 <= k < i ==> {
                    &&& 0 <= #[trigger] init_lhs[k] == selection_lhs@[k] * ships@[k].hp <= max_shot()
                    &&& 0 <= init_rhs[k] == selection_rhs@[k] * ships@[k].hp <= max_shot()
                    &&& init_lhs[k] <= 255 * ships@[k].hp
                    &&& init_rhs[k] <= 255 * ships@[k].hp
                },
            decreases MAX_SHIPS - i,
        {
            let hp: u16 = ships[i].hp;
            proof {
                vstd::arithmetic::mul::lemma_mul_upper_bound(hp as int, 65535, selection_lhs@[i as int] as int, 255);
                vstd::arithmetic::mul::lemma_mul_upper_bound(hp as int, 65535, selection_rhs@[i as int] as int, 255);
                vstd::arithmetic::mul::lemma_mul_is_commutative(hp as int, selection_lhs@[i as int] as int);
                vstd::arithmetic::mul::lemma_mul_is_commutative(hp as int, selection_rhs@[i as int] as int);
                vstd::arithmetic::mul::lemma_mul_inequality(selection_lhs@[i as int] as int, 255, hp as int);
                vstd::arithmetic::mul::lemma_mul_inequality(selection_rhs@[i as int] as int, 255, hp as int);
            }
            ship_hps_lhs[i] = (hp as i32) * (selection_lhs[i] as i32);
            ship_hps_rhs[i] = (hp as i32) * (selection_rhs[i] as i32);
            let variance: u64 = ships[i].attack_variable as u64;
            variables_lhs[i] = (seed % variance) as u16;
            variables_rhs[i] = ((seed / 2) % variance) as u16;
            assert(ship_hps_lhs@[i as int] == init_lhs[i as int]);
            assert(ship_hps_rhs@[i as int] == init_rhs[i as int]);
            assert(variables_lhs@[i as int] == s.variables_lhs[i as int]);
            assert(variables_rhs@[i as int] == s.variables_rhs[i as int]);
            i = i + 1;
        }

        let mut moves_lhs: Vec<Move> = Vec::new();
        let mut moves_rhs: Vec<Move> = Vec::new();
        let ghost mut b: Battle = initial_battle(ships@, selection_lhs@, selection_rhs@);
        proof {
            lemma_initial_bounded(ships@, selection_lhs@, selection_rhs@);
            assert(ship_positions_lhs@ =~= b.positions_lhs);
            assert(ship_positions_rhs@ =~= b.positions_rhs);
            assert(ship_hps_lhs@ =~= b.hps_lhs);
            assert(ship_hps_rhs@ =~= b.hps_rhs);
            assert(effects_lhs@ =~= b.effects_lhs);
            assert(effects_rhs@ =~= b.effects_rhs);
            assert(variables_lhs@ =~= s.variables_lhs);
            assert(variables_rhs@ =~= s.variables_rhs);
            assert(move_views(moves_lhs@) =~= b.moves_lhs);
            assert(move_views(moves_rhs@) =~= b.moves_rhs);
        }

        let mut total_rounds: u8 = 0;
        let mut round: usize = 0;
        let mut finished: bool = false;
        while round < MAX_ROUNDS && !finished
            invariant
                round <= MAX_ROUNDS,
                total_rounds == round,
                catalog_wf(ships@),
                s == fight_setup(seed, ships@, modules_lhs@, modules_rhs@, targeting_lhs, targeting_rhs),
                variables_lhs@ == s.variables_lhs,
                variables_rhs@ == s.variables_rhs,
                init_lhs == initial_hps(ships@, selection_lhs@),
                init_rhs == initial_hps(ships@, selection_rhs@),
                forall|k: int| 0 <= k < MAX_SHIPS ==> {
                    &&& 0 <= #[trigger] init_lhs[k] == selection_lhs@[k] * ships@[k].hp <= max_shot()
                    &&& 0 <= init_rhs[k] == selection_rhs@[k] * ships@[k].hp <= max_shot()
                    &&& init_lhs[k] <= 255 * ships@[k].hp
                    &&& init_rhs[k] <= 255 * ships@[k].hp
                },
                play(s, b, round as nat) == fight_outcome(
                    seed,
                    ships@,
                    selection_lhs@,
                    selection_rhs@,
                    modules_lhs@,
                    modules_rhs@,
                    targeting_lhs,
                    targeting_rhs,
                ),
                holds_battle(
                    b,
                    ship_positions_lhs@,
                    ship_positions_rhs@,
                    ship_hps_lhs@,
                    ship_hps_rhs@,
                    effects_lhs@,
                    effects_rhs@,
                    moves_lhs@,
                    moves_rhs@,
                    log_moves,
                ),
                battle_bounded(b, init_lhs, init_rhs, round as int, 0),
                finished ==> all_dead(b.hps_lhs) || all_dead(b.hps_rhs),
            decreases MAX_ROUNDS - round, if finished { 0int } else { 1int },
        {
            if self.is_dead(ship_hps_lhs) || self.is_dead(ship_hps_rhs) {
                finished = true;
            } else {
                let round_u8: u8 = round as u8;
                total_rounds = total_rounds + 1;
                let ghost b_start: Battle = b;

                let mut current: usize = 0;
                while current < MAX_SHIPS
                    invariant
                        current <= MAX_SHIPS,
                        round < MAX_ROUNDS,
                        round_u8 == round,
                        catalog_wf(ships@),
                        s == fight_setup(seed, ships@, modules_lhs@, modules_rhs@, targeting_lhs, targeting_rhs),
                        variables_lhs@ == s.variables_lhs,
                        variables_rhs@ == s.variables_rhs,
                        forall|k: int| 0 <= k < MAX_SHIPS ==> {
                            &&& 0 <= #[trigger] init_lhs[k] == selection_lhs@[k] * ships@[k].hp <= max_shot()
                            &&& 0 <= init_rhs[k] == selection_rhs@[k] * ships@[k].hp <= max_shot()
                            &&& init_lhs[k] <= 255 * ships@[k].hp
                            &&& init_rhs[k] <= 255 * ships@[k].hp
                        },
                        b == round_turns(s, b_start, round as int, current as nat),
                        holds_battle(
                            b,
                            ship_positions_lhs@,
                            ship_positions_rhs@,
                            ship_hps_lhs@,
                            ship_hps_rhs@,
                            effects_lhs@,
                            effects_rhs@,
                            moves_lhs@,
                            moves_rhs@,
                            log_moves,
                        ),
                        battle_bounded(b, init_lhs, init_rhs, round as int, current as int),
                    decreases MAX_SHIPS - current,
                {
                    self.resolve_turn(
                        seed,
                        log_moves,
                        &ships,
                        round_u8,
                        current as u8,
                        &variables_lhs,
                        &variables_rhs,
                        &modules_lhs,
                        &modules_rhs,
                        targeting_lhs,
                        targeting_rhs,
                        &mut ship_positions_lhs,
                        &mut ship_positions_rhs,
                        &mut ship_hps_lhs,
                        &mut ship_hps_rhs,
                        &mut effects_lhs,
                        &mut effects_rhs,
                        &mut moves_lhs,
                        &mut moves_rhs,
                        Ghost(b),
                        Ghost(init_lhs),
                        Ghost(init_rhs),
                    );
                    proof {
                        b = slot_turn(s, b, round as int, current as int);
                    }
                    current = current + 1;
                }
                round = round + 1;
            }
        }

        // Ships lost, from the hit points left
        let mut ships_lost_lhs: [u8; MAX_SHIPS] = [0, 0, 0, 0];
        let mut ships_lost_rhs: [u8; MAX_SHIPS] = [0, 0, 0, 0];
        let mut i: usize = 0;
        while i < MAX_SHIPS
            invariant
                i <= MAX_SHIPS,
                catalog_wf(ships@),
                b.hps_lhs == ship_hps_lhs@,
                b.hps_rhs == ship_hps_rhs@,
                battle_bounded(b, init_lhs, init_rhs, round as int, 0),
                forall|k: int| 0 <= k < MAX_SHIPS ==> {
                    &&& 0 <= #[trigger] init_lhs[k] == selection_lhs@[k] * ships@[k].hp <= max_shot()
                    &&& 0 <= init_rhs[k] == selection_rhs@[k] * ships@[k].hp <= max_shot()
                    &&& init_lhs[k] <= 255 * ships@[k].hp
                    &&& init_rhs[k] <= 255 * ships@[k].hp
                },
                forall|k: int| 0 <= k < i ==> {
                    &&& #[trigger] ships_lost_lhs@[k] == ships_lost(ships@, selection_lhs@, b.hps_lhs)[k]
                    &&& ships_lost_lhs@[k] <= selection_lhs@[k]
                },
                forall|k: int| 0 <= k < i ==> {
                    &&& #[trigger] ships_lost_rhs@[k] == ships_lost(ships@, selection_rhs@, b.hps_rhs)[k]
                    &&& ships_lost_rhs@[k] <= selection_rhs@[k]
                },
            decreases MAX_SHIPS - i,
        {
            let hp: u32 = ships[i].hp as u32;
            let safe_hp_lhs: u32 = self.max(ship_hps_lhs[i], 0) as u32;
            let safe_hp_rhs: u32 = self.max(ship_hps_rhs[i], 0) as u32;
            let full_lhs: u32 = selection_lhs[i] as u32 * hp;
            let full_rhs: u32 = selection_rhs[i] as u32 * hp;
            proof {
                let k = i as int;
                vstd::arithmetic::div_mod::lemma_div_is_ordered((full_lhs - safe_hp_lhs) as int, full_lhs as int, hp as int);
                vstd::arithmetic::div_mod::lemma_div_is_ordered((full_rhs - safe_hp_rhs) as int, full_rhs as int, hp as int);
                vstd::arithmetic::div_mod::lemma_div_by_multiple(selection_lhs@[k] as int, hp as int);
                vstd::arithmetic::div_mod::lemma_div_by_multiple(selection_rhs@[k] as int, hp as int);
            }
            ships_lost_lhs[i] = ((full_lhs - safe_hp_lhs) / hp) as u8;
            ships_lost_rhs[i] = ((full_rhs - safe_hp_rhs) / hp) as u8;
            assert(ships_lost_lhs@[i as int] == ships_lost(ships@, selection_lhs@, b.hps_lhs)[i as int]);
            assert(ships_lost_rhs@[i as int] == ships_lost(ships@, selection_rhs@, b.hps_rhs)[i as int]);
            i = i + 1;
        }
        proof {
            assert(ships_lost_lhs@ =~= ships_lost(ships@, selection_lhs@, b.hps_lhs));
            assert(ships_lost_rhs@ =~= ships_lost(ships@, selection_rhs@, b.hps_rhs));
            assert forall|k: int| 0 <= k < MAX_SHIPS implies ships_lost_lhs[k] <= selection_lhs[k]
                && ships_lost_rhs[k] <= selection_rhs[k] by {
                assert(ships_lost_lhs@[k] <= selection_lhs@[k]);
                assert(ships_lost_rhs@[k] <= selection_rhs@[k]);
            }
        }

        let total_rhs_ships: u16 = selection_rhs[0] as u16 + selection_rhs[1] as u16
            + selection_rhs[2] as u16 + selection_rhs[3] as u16;
        let lhs_dead: bool = total_rhs_ships > 0 && self.is_dead(ship_hps_lhs);
        let rhs_dead: bool = self.is_dead(ship_hps_rhs);

        let result = FightResult {
            selection_lhs: selection_lhs,
            selection_rhs: selection_rhs,
            modules_lhs: modules_lhs,
            modules_rhs: modules_rhs,
            targeting_lhs: targeting_lhs,
            targeting_rhs: targeting_rhs,
            lhs_dead: lhs_dead,
            rhs_dead: rhs_dead,
            ships_lost_lhs: ships_lost_lhs,
            ships_lost_rhs: ships_lost_rhs,
            rounds: total_rounds,
            seed: seed,
        };

        if log_moves {
            (result, Some(moves_lhs), Some(moves_rhs))
        } else {
            (result, None, None)
        }
    }
}

} // verus!
