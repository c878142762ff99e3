use newomega::{
    prepare_ships, Move, NewOmega, RunningEffect, Ship, ShipModule, TargetingType, MAX_SHIPS,
};

fn default_effects() -> [RunningEffect; MAX_SHIPS] {
    [RunningEffect::default(); MAX_SHIPS]
}

#[test]
fn test_fight_end_to_end() {
    let contract = NewOmega::default();
    let ships: Vec<Ship> = prepare_ships();
    let seed: u64 = 1337;
    let log_moves: bool = true;
    let selection_lhs: [u8; MAX_SHIPS] = [20, 20, 20, 20];
    let selection_rhs: [u8; MAX_SHIPS] = [5, 5, 5, 5];
    let modules_lhs: [ShipModule; MAX_SHIPS] = [ShipModule::default(); MAX_SHIPS];
    let modules_rhs: [ShipModule; MAX_SHIPS] = [ShipModule::default(); MAX_SHIPS];
    let targeting_lhs: TargetingType = TargetingType::Closest;
    let targeting_rhs: TargetingType = TargetingType::Closest;

    let (result, _moves_lhs, _moves_rhs) = contract.fight(
        seed,
        log_moves,
        ships,
        selection_lhs,
        selection_rhs,
        modules_lhs,
        modules_rhs,
        targeting_lhs,
        targeting_rhs,
    );

    assert!(result.rhs_dead);
}

#[test]
fn test_damage_calculation() {
    let contract = NewOmega::default();
    let ships: Vec<Ship> = prepare_ships();
    let effects_source: [RunningEffect; MAX_SHIPS] = default_effects();
    let effects_target: [RunningEffect; MAX_SHIPS] = default_effects();
    let variables: [u16; MAX_SHIPS] = [0, 1, 2, 3];
    let source: u8 = 0;
    let target: u8 = 0;
    let source_hp: u32 = ships[source as usize].hp as u32;
    let damage: u32 = contract.calculate_damage(
        variables,
        &effects_source,
        &effects_target,
        &ships,
        source,
        target,
        source_hp,
    );

    let source_hp_damaged: u32 = source_hp - 1;
    let damage_damaged: u32 = contract.calculate_damage(
        variables,
        &effects_source,
        &effects_target,
        &ships,
        source,
        target,
        source_hp_damaged,
    );

    let source_hp_bigstack: u32 = source_hp * 32;
    let damage_bigstack: u32 = contract.calculate_damage(
        variables,
        &effects_source,
        &effects_source,
        &ships,
        source,
        target,
        source_hp_bigstack,
    );

    assert_eq!(damage, 60);
    assert_eq!(damage_damaged, 60);
    assert_eq!(damage_bigstack, 60 * 32);
}

#[test]
fn test_is_stat_better_for_targeting() {
    let contract = NewOmega::default();

    assert!(contract.is_stat_better_for_targeting(TargetingType::Closest, 5, 7));
    assert!(contract.is_stat_better_for_targeting(TargetingType::Furthest, 7, 5));
    assert!(contract.is_stat_better_for_targeting(TargetingType::HighestHp, 7, 5));
    assert!(contract.is_stat_better_for_targeting(TargetingType::LowestSpeed, 2, 5));
}

#[test]
fn test_get_stat_for_targeting() {
    let contract = NewOmega::default();
    let ships: Vec<Ship> = prepare_ships();
    let effects_target: [RunningEffect; MAX_SHIPS] = default_effects();

    let delta: u16 = 11;
    assert_eq!(
        contract.get_stat_for_targeting(TargetingType::Closest, 0, delta, &ships, &effects_target),
        delta
    );
    assert_eq!(
        contract.get_stat_for_targeting(TargetingType::Furthest, 0, delta, &ships, &effects_target),
        delta
    );
    assert_eq!(
        contract.get_stat_for_targeting(TargetingType::HighestHp, 0, delta, &ships, &effects_target),
        ships[0].hp
    );
    assert_eq!(
        contract.get_stat_for_targeting(TargetingType::LowestSpeed, 0, delta, &ships, &effects_target),
        ships[0].speed as u16
    );
}

#[test]
fn test_get_target() {
    let contract = NewOmega::default();
    let ships: Vec<Ship> = prepare_ships();
    let effects_source: [RunningEffect; MAX_SHIPS] = default_effects();
    let effects_target: [RunningEffect; MAX_SHIPS] = default_effects();
    let ship_positions_lhs: [i16; MAX_SHIPS] = [10, 11, 12, 13];
    let ship_positions_rhs: [i16; MAX_SHIPS] = [-10, -11, -12, -13];
    let ship_hps_enemy: [i32; MAX_SHIPS] = [1000, 1000, 1000, 1000];
    let current_ship: u8 = MAX_SHIPS as u8 - 1;

    let (has_target, target, _delta_move) = contract.get_target(
        &ships,
        current_ship,
        ship_positions_lhs,
        ship_positions_rhs,
        ship_hps_enemy,
        &effects_source,
        &effects_target,
        TargetingType::Closest,
    );

    assert!(has_target);
    assert_eq!(target, 0);

    let (has_target, target, _delta_move) = contract.get_target(
        &ships,
        current_ship,
        ship_positions_lhs,
        ship_positions_rhs,
        ship_hps_enemy,
        &effects_source,
        &effects_target,
        TargetingType::Furthest,
    );

    assert!(has_target);
    assert_eq!(target, current_ship);
}

#[test]
fn test_isdead() {
    let contract = NewOmega::default();
    let alive_ship_hps: [i32; MAX_SHIPS] = [20, -20, 0, 0];
    let is_dead_first: bool = contract.is_dead(alive_ship_hps);

    assert_eq!(is_dead_first, false);

    let dead_ship_hps: [i32; MAX_SHIPS] = [-100, -20, 0, 0];
    let is_dead_second: bool = contract.is_dead(dead_ship_hps);

    assert_eq!(is_dead_second, true);
}
