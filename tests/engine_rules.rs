use newomega::{
    prepare_ships, FightResult, Move, NewOmega, RunningEffect, Ship, ShipModule, TargetingType,
    MAX_ROUNDS, MAX_SHIPS,
};

fn no_effects() -> [RunningEffect; MAX_SHIPS] {
    [RunningEffect::default(); MAX_SHIPS]
}

fn no_modules() -> [ShipModule; MAX_SHIPS] {
    [ShipModule::default(); MAX_SHIPS]
}

fn run(
    seed: u64,
    log_moves: bool,
    lhs: [u8; MAX_SHIPS],
    rhs: [u8; MAX_SHIPS],
    modules_lhs: [ShipModule; MAX_SHIPS],
    targeting_lhs: TargetingType,
    targeting_rhs: TargetingType,
) -> (FightResult, Option<Vec<Move>>, Option<Vec<Move>>) {
    NewOmega::new().fight(
        seed,
        log_moves,
        prepare_ships(),
        lhs,
        rhs,
        modules_lhs,
        no_modules(),
        targeting_lhs,
        targeting_rhs,
    )
}

fn same_result(a: &FightResult, b: &FightResult) -> bool {
    a.lhs_dead == b.lhs_dead
        && a.rhs_dead == b.rhs_dead
        && a.rounds == b.rounds
        && a.seed == b.seed
        && a.ships_lost_lhs == b.ships_lost_lhs
        && a.ships_lost_rhs == b.ships_lost_rhs
        && a.selection_lhs == b.selection_lhs
        && a.selection_rhs == b.selection_rhs
}

fn same_moves(a: &[Move], b: &[Move]) -> bool {
    a.len() == b.len()
        && a.iter().zip(b.iter()).all(|(x, y)| {
            x.move_type == y.move_type
                && x.round == y.round
                && x.source == y.source
                && x.target == y.target
                && x.target_position == y.target_position
                && x.damage == y.damage
                && x.effects_lhs == y.effects_lhs
                && x.effects_rhs == y.effects_rhs
        })
}

#[test]
fn effect_model_halves_and_immobilises() {
    let c = NewOmega::new();
    let mut e = RunningEffect::default();
    assert_eq!(c.get_attack_stat(81, &e), 81);
    assert_eq!(c.get_speed_stat(5, &e), 5);
    e.attack_debuff = 1;
    e.defence_debuff = 2;
    e.range_debuff = 3;
    assert_eq!(c.get_attack_stat(81, &e), 40);
    assert_eq!(c.get_defence_stat(35, &e), 17);
    assert_eq!(c.get_range_stat(15, &e), 7);
    e.snare = 1;
    assert_eq!(c.get_speed_stat(5, &e), 2);
    e.blind = 1;
    assert_eq!(c.get_speed_stat(5, &e), 0);
    e.blind = 0;
    e.root = 1;
    assert_eq!(c.get_speed_stat(5, &e), 0);
}

#[test]
fn stack_count_rounds_up() {
    let c = NewOmega::new();
    assert_eq!(c.get_number_of_ships_from_hp(120, 120), 1);
    assert_eq!(c.get_number_of_ships_from_hp(121, 120), 2);
    assert_eq!(c.get_number_of_ships_from_hp(119, 120), 1);
    assert_eq!(c.get_number_of_ships_from_hp(0, 120), 0);
    assert_eq!(c.get_number_of_ships_from_hp(2400, 120), 20);
}

#[test]
fn damage_is_capped_by_target_hulls() {
    let c = NewOmega::new();
    let ships = vec![
        Ship { cp: 1, hp: 10, attack_base: 500, attack_variable: 1, defence: 0, speed: 1, range: 1 },
        Ship { cp: 1, hp: 10, attack_base: 500, attack_variable: 1, defence: 0, speed: 1, range: 1 },
        Ship { cp: 1, hp: 7, attack_base: 1, attack_variable: 1, defence: 0, speed: 1, range: 1 },
        Ship { cp: 1, hp: 10, attack_base: 1, attack_variable: 1, defence: 900, speed: 1, range: 1 },
    ];
    // three ships (25 hp at 10 per ship) against hulls of 7: capped at 21
    assert_eq!(c.calculate_damage([0; MAX_SHIPS], &no_effects(), &no_effects(), &ships, 0, 2, 25), 21);
    // defence above attack deals nothing
    assert_eq!(c.calculate_damage([0; MAX_SHIPS], &no_effects(), &no_effects(), &ships, 2, 3, 7), 0);
}

#[test]
fn damage_uses_effects_on_both_sides() {
    let c = NewOmega::new();
    let ships = prepare_ships();
    let mut source = no_effects();
    source[0].attack_debuff = 1;
    // attack 80 / 2 + 0 = 40, defence 20: 20 per ship
    assert_eq!(c.calculate_damage([0; MAX_SHIPS], &source, &no_effects(), &ships, 0, 0, 120), 20);
    let mut target = no_effects();
    target[0].defence_debuff = 1;
    // attack 80 + 0, defence 20 / 2 = 10: 70 per ship
    assert_eq!(c.calculate_damage([0; MAX_SHIPS], &no_effects(), &target, &ships, 0, 0, 120), 70);
}

#[test]
fn retire_and_apply_effects() {
    let c = NewOmega::new();
    let mut effects = no_effects();
    effects[1].snare = 2;
    effects[1].root = 0;
    effects[1].blind = 1;
    c.retire_effects(&mut effects, 1);
    assert_eq!(effects[1].snare, 1);
    assert_eq!(effects[1].root, 0);
    assert_eq!(effects[1].blind, 0);
    assert_eq!(effects[0], RunningEffect::default());

    let mut modules = no_modules();
    modules[2].snare = 40;
    modules[2].root = 37;
    modules[2].range_debuff = 100;
    // roll = 1337 % 100 = 37: snare (40) and range debuff (100) trigger, root (37) does not
    c.apply_effects(&modules, &mut effects, 2, 3, 1337);
    assert_eq!(effects[3].snare, 1);
    assert_eq!(effects[3].root, 0);
    assert_eq!(effects[3].range_debuff, 1);
    c.apply_effects(&modules, &mut effects, 2, 3, 1337);
    assert_eq!(effects[3].snare, 2);
}

#[test]
fn blind_ship_acquires_no_target() {
    let c = NewOmega::new();
    let ships = prepare_ships();
    let mut own = no_effects();
    own[3].blind = 1;
    let r = c.get_target(
        &ships,
        3,
        [10, 11, 12, 13],
        [-10, -11, -12, -13],
        [1000; MAX_SHIPS],
        &own,
        &no_effects(),
        TargetingType::Closest,
    );
    assert_eq!(r, (false, MAX_SHIPS as u8, 0));
}

#[test]
fn target_out_of_reach_or_dead_is_skipped() {
    let c = NewOmega::new();
    let ships = prepare_ships();
    // slot 0 reaches range 4 + speed 4 = 8 fields: only enemies at distance <= 8
    let r = c.get_target(
        &ships,
        0,
        [10, 11, 12, 13],
        [3, 2, 1, 30],
        [1000, 0, 1000, 1000],
        &no_effects(),
        &no_effects(),
        TargetingType::Furthest,
    );
    // enemy 3 is 20 away, enemy 1 is dead; enemy 2 at 9 is out of reach; enemy 0 at 7
    assert_eq!(r, (true, 0, 3));
    let none = c.get_target(
        &ships,
        0,
        [10, 11, 12, 13],
        [-10, -11, -12, -13],
        [1000; MAX_SHIPS],
        &no_effects(),
        &no_effects(),
        TargetingType::Closest,
    );
    assert_eq!(none, (false, MAX_SHIPS as u8, 0));
}

#[test]
fn targeting_ties_go_to_highest_index() {
    let c = NewOmega::new();
    let ships = prepare_ships();
    let r = c.get_target(
        &ships,
        3,
        [10, 11, 12, 13],
        [0, 0, 0, 0],
        [1000; MAX_SHIPS],
        &no_effects(),
        &no_effects(),
        TargetingType::Closest,
    );
    assert_eq!(r, (true, 3, 0));
    let lowest_hp = c.get_target(
        &ships,
        3,
        [10, 11, 12, 13],
        [0, 0, 0, 0],
        [1000; MAX_SHIPS],
        &no_effects(),
        &no_effects(),
        TargetingType::LowestHp,
    );
    assert_eq!(lowest_hp, (true, 0, 0));
}

#[test]
fn fight_is_deterministic() {
    let a = run(42, true, [3, 2, 1, 1], [2, 2, 2, 1], no_modules(), TargetingType::Closest, TargetingType::HighestHp);
    let b = run(42, true, [3, 2, 1, 1], [2, 2, 2, 1], no_modules(), TargetingType::Closest, TargetingType::HighestHp);
    assert!(same_result(&a.0, &b.0));
    assert!(same_moves(a.1.as_ref().unwrap(), b.1.as_ref().unwrap()));
    assert!(same_moves(a.2.as_ref().unwrap(), b.2.as_ref().unwrap()));
}

#[test]
fn logging_does_not_change_the_result() {
    let quiet = run(1337, false, [20, 20, 20, 20], [5, 5, 5, 5], no_modules(), TargetingType::Closest, TargetingType::Closest);
    let logged = run(1337, true, [20, 20, 20, 20], [5, 5, 5, 5], no_modules(), TargetingType::Closest, TargetingType::Closest);
    assert!(same_result(&quiet.0, &logged.0));
    assert!(quiet.1.is_none());
    assert!(quiet.2.is_none());
    assert!(logged.1.is_some());
    assert!(!logged.1.unwrap().is_empty());
}

#[test]
fn fight_respects_bounds() {
    let mut modules = no_modules();
    modules[1].root = 90;
    modules[2].blind = 60;
    let (result, _, _) = run(7, false, [255, 0, 3, 1], [9, 255, 0, 2], modules, TargetingType::LowestDefence, TargetingType::Furthest);
    assert!(result.rounds as usize <= MAX_ROUNDS);
    for i in 0..MAX_SHIPS {
        assert!(result.ships_lost_lhs[i] <= result.selection_lhs[i]);
        assert!(result.ships_lost_rhs[i] <= result.selection_rhs[i]);
    }
}

#[test]
fn fight_against_empty_fleet_ends_at_once() {
    let (result, moves_lhs, moves_rhs) = run(5, true, [1, 1, 1, 1], [0, 0, 0, 0], no_modules(), TargetingType::Closest, TargetingType::Closest);
    assert!(result.rhs_dead);
    assert!(!result.lhs_dead);
    assert_eq!(result.rounds, 0);
    assert_eq!(result.ships_lost_lhs, [0, 0, 0, 0]);
    assert!(moves_lhs.unwrap().is_empty());
    assert!(moves_rhs.unwrap().is_empty());
    let (both_empty, _, _) = run(5, false, [0; MAX_SHIPS], [0; MAX_SHIPS], no_modules(), TargetingType::Closest, TargetingType::Closest);
    assert!(both_empty.rhs_dead);
    assert!(!both_empty.lhs_dead);
    assert_eq!(both_empty.rounds, 0);
}

#[test]
fn empty_attacker_is_dead_against_a_fleet() {
    let (result, _, _) = run(5, false, [0, 0, 0, 0], [1, 0, 0, 0], no_modules(), TargetingType::Closest, TargetingType::Closest);
    assert!(result.lhs_dead);
    assert!(!result.rhs_dead);
    assert_eq!(result.rounds, 0);
    assert_eq!(result.ships_lost_rhs, [0, 0, 0, 0]);
}

#[test]
fn first_round_log_of_a_small_fight() {
    // one corvette each: 20 fields apart, each closes 4 per round
    let (result, moves_lhs, moves_rhs) = run(0, true, [1, 0, 0, 0], [1, 0, 0, 0], no_modules(), TargetingType::Closest, TargetingType::Closest);
    let moves_lhs = moves_lhs.unwrap();
    let moves_rhs = moves_rhs.unwrap();
    assert_eq!(moves_rhs[0].move_type, 2);
    assert_eq!(moves_rhs[0].target_position, -6);
    assert_eq!(moves_lhs[0].move_type, 2);
    assert_eq!(moves_lhs[0].target_position, 6);
    assert!(result.rounds as usize <= MAX_ROUNDS);
}
