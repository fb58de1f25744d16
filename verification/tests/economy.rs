use battlesim::gameobject::GameChar;
use battlesim::gamestate::{GameState, Side};
use battlesim::player::{BuildError, Player, Unitcount};

const DT: u32 = 100_000_000;

#[test]
fn build_with_one_mineral_short_changes_nothing() {
    let mut p = Player::new(Side::Left);
    p.minerals = 9; // a ling costs 10
    let r = p.build_unit(GameChar::ling(Side::Left));
    assert_eq!(r, Err(BuildError::InsufficientMinerals));
    assert_eq!(p.minerals, 9);
    assert_eq!(p.units.len(), 0);
}

#[test]
fn build_with_exact_cost_deducts_and_appends() {
    let mut p = Player::new(Side::Left);
    p.minerals = 10;
    let r = p.build_unit(GameChar::ling(Side::Left));
    assert_eq!(r, Ok(()));
    assert_eq!(p.minerals, 0);
    assert_eq!(p.units.len(), 1);
    assert_eq!(p.units[0], GameChar::ling(Side::Left));
}

#[test]
fn build_named_goes_through_the_catalog() {
    let mut p = Player::new(Side::Right);
    p.minerals = 25;
    assert_eq!(p.build_named("hydra", Side::Right), Ok(()));
    assert_eq!(p.minerals, 5);
    assert_eq!(p.units.len(), 1);
    assert_eq!(p.units[0], GameChar::hydra(Side::Right));

    assert_eq!(
        p.build_named("hydra", Side::Right),
        Err(BuildError::InsufficientMinerals)
    );
    assert_eq!(p.minerals, 5);
    assert_eq!(p.units.len(), 1);

    assert_eq!(
        p.build_named("mutalisk", Side::Right),
        Err(BuildError::UnknownArchetype)
    );
    assert_eq!(p.minerals, 5);
    assert_eq!(p.units.len(), 1);
}

#[test]
fn clear_units_empties_only_the_roster() {
    let mut p = Player::new(Side::Left);
    p.minerals = 40;
    p.build_unit(GameChar::ling(Side::Left)).unwrap();
    p.build_unit(GameChar::bane(Side::Left)).unwrap();
    assert_eq!(p.units.len(), 2);
    p.clear_units();
    assert_eq!(p.units.len(), 0);
    assert_eq!(p.minerals, 0);
    assert_eq!(p.base.hp, 10_000);
}

#[test]
fn minerals_grow_one_per_tick_without_builds() {
    let mut state = GameState::new();
    assert_eq!(state.left.minerals, 0);
    assert_eq!(state.right.minerals, 0);
    for _ in 0..7 {
        state.update(DT);
    }
    assert_eq!(state.left.minerals, 7);
    assert_eq!(state.right.minerals, 7);
}

#[test]
fn mineral_income_saturates_at_the_machine_limit() {
    let mut state = GameState::new();
    state.left.minerals = u32::MAX;
    state.right.minerals = u32::MAX - 1;
    state.update(DT);
    assert_eq!(state.left.minerals, u32::MAX);
    assert_eq!(state.right.minerals, u32::MAX);
}

#[test]
fn unitcount_totals_its_tallies() {
    let c = Unitcount::new(1, 2, 3);
    assert_eq!(c.total(), 6);
    assert_eq!(Unitcount::new(0, 0, 0).total(), 0);
}

#[test]
fn unitcount_tallies_a_roster_by_archetype() {
    let units = vec![
        GameChar::ling(Side::Left),
        GameChar::bane(Side::Left),
        GameChar::ling(Side::Left),
        GameChar::hydra(Side::Left),
        GameChar::ling(Side::Left),
    ];
    let c = Unitcount::of_units(&units);
    assert_eq!(c, Unitcount::new(3, 1, 1));
    assert_eq!(c.total(), 5);

    let empty: Vec<GameChar> = Vec::new();
    assert_eq!(Unitcount::of_units(&empty).total(), 0);
}
