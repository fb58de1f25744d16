use battlesim::constants::NORM_ONE;
use battlesim::gameobject::{Base, CharStats, GameChar};
use battlesim::gamestate::{GameState, Side};
use battlesim::traits::Position;

/// One tenth of a second per frame: an elapsed-time fraction of exactly 1.
const DT: u32 = 100_000_000;

/// A ling for `side` standing at the given normalized position.
fn ling_at(side: Side, position: i64) -> GameChar {
    GameChar {
        position,
        ..GameChar::ling(side)
    }
}

#[test]
fn damage_saturates_at_zero_hitpoints() {
    let mut c = GameChar::ling(Side::Left);
    c.apply_damage(0);
    assert_eq!(c.stats.hp, 1_000); // zero damage is a no-op
    c.apply_damage(999);
    assert_eq!(c.stats.hp, 1);
    c.apply_damage(50_000);
    assert_eq!(c.stats.hp, 0); // clamped, never negative
    c.apply_damage(1);
    assert_eq!(c.stats.hp, 0);

    let mut b = Base::new(Side::Right);
    b.apply_damage(10_000);
    assert_eq!(b.hp, 0);
    b.apply_damage(10_000);
    assert_eq!(b.hp, 0);
}

#[test]
fn range_check_uses_the_attackers_own_range() {
    // separation of 100 world units: inside the hydra's 150 range, far
    // outside the ling's 3.
    let ling = ling_at(Side::Left, 0);
    let hydra = GameChar {
        position: 20_000_000_000,
        ..GameChar::hydra(Side::Right)
    };
    assert!(!ling.in_range(&hydra));
    assert!(hydra.in_range(&ling));
}

#[test]
fn range_comparison_is_strict() {
    // separation of exactly 3.0 world units is out of a ling's range
    let ling = ling_at(Side::Left, 0);
    let at_limit = ling_at(Side::Right, 600_000_000);
    assert!(!ling.in_range(&at_limit));
    let just_inside = ling_at(Side::Right, 599_999_999);
    assert!(ling.in_range(&just_inside));
}

#[test]
fn unit_with_nothing_in_range_moves_exactly_one_step() {
    let mut state = GameState::new();
    state.left.units.push(GameChar::ling(Side::Left));
    state.update(DT);
    // effective speed 20 position units per nanosecond, times 1e8 nanoseconds
    assert_eq!(state.left.units[0].position, 2_000_000_000);
    assert_eq!(state.left.units[0].position(), 10_000_000_000); // 10 world units
    assert_eq!(state.left.units[0].stats.hp, 1_000);

    // a Right unit moves the other way
    let mut state = GameState::new();
    state.right.units.push(GameChar::ling(Side::Right));
    state.update(DT);
    assert_eq!(state.right.units[0].position, NORM_ONE - 2_000_000_000);

    // the step scales linearly with the elapsed frame time
    state.update(DT / 4);
    assert_eq!(state.right.units[0].position, NORM_ONE - 2_500_000_000);
}

#[test]
fn unit_that_attacks_does_not_move() {
    let mut state = GameState::new();
    let mid = NORM_ONE / 2;
    state.left.units.push(ling_at(Side::Left, mid));
    state.right.units.push(ling_at(Side::Right, mid));
    state.update(DT);
    assert_eq!(state.left.units[0].position, mid);
    assert_eq!(state.right.units[0].position, mid);
    assert_eq!(state.left.units[0].stats.hp, 996);
    assert_eq!(state.right.units[0].stats.hp, 996);
}

#[test]
fn lethally_wounded_unit_still_acts_before_removal() {
    let mut state = GameState::new();
    let mid = NORM_ONE / 2;
    state.left.units.push(ling_at(Side::Left, mid));
    let mut doomed = ling_at(Side::Right, mid);
    doomed.stats.hp = 1; // killed by the Left attack resolved first
    state.right.units.push(doomed);

    state.update(DT);
    // the dead unit completed its own attack within the same tick...
    assert_eq!(state.left.units.len(), 1);
    assert_eq!(state.left.units[0].stats.hp, 996);
    // ...and is gone at the start of the next tick
    assert_eq!(state.right.units.len(), 0);

    state.update(DT);
    // with no opponent left, the survivor moves again
    assert_eq!(state.left.units[0].position, mid + 2_000_000_000);
}

#[test]
fn attacks_stop_at_the_target_allowance() {
    let mut state = GameState::new();
    let mid = NORM_ONE / 2;
    state.left.units.push(ling_at(Side::Left, mid));
    state.right.units.push(ling_at(Side::Right, mid));
    state.right.units.push(ling_at(Side::Right, mid));
    state.update(DT);
    // one target allowed: the first foe in collection order takes the hit
    assert_eq!(state.right.units[0].stats.hp, 996);
    assert_eq!(state.right.units[1].stats.hp, 1_000);
    // both Right lings answered
    assert_eq!(state.left.units[0].stats.hp, 992);
}

#[test]
fn unit_with_an_attack_left_also_strikes_the_base() {
    let mut state = GameState::new();
    // a Left ling parked right next to the Right base
    state.left.units.push(ling_at(Side::Left, NORM_ONE - 100_000_000));
    state.update(DT);
    assert_eq!(state.right.base.hp, 10_000 - 4);
    // it attacked, so it did not move
    assert_eq!(state.left.units[0].position, NORM_ONE - 100_000_000);
    // a unit blocking the way soaks the attack instead
    state.right.units.push(ling_at(Side::Right, NORM_ONE - 100_000_000));
    state.update(DT);
    assert_eq!(state.right.base.hp, 10_000 - 4);
    assert_eq!(state.right.units[0].stats.hp, 996);
}

#[test]
fn custom_stats_keep_their_own_allowance() {
    let mut state = GameState::new();
    let mid = NORM_ONE / 2;
    let twin_striker = GameChar {
        stats: CharStats {
            targets: 2,
            ..GameChar::ling(Side::Left).stats
        },
        ..ling_at(Side::Left, mid)
    };
    state.left.units.push(twin_striker);
    state.right.units.push(ling_at(Side::Right, mid));
    state.right.units.push(ling_at(Side::Right, mid));
    state.right.units.push(ling_at(Side::Right, mid));
    state.update(DT);
    // two targets allowed: the first two foes each take one hit
    assert_eq!(state.right.units[0].stats.hp, 996);
    assert_eq!(state.right.units[1].stats.hp, 996);
    assert_eq!(state.right.units[2].stats.hp, 1_000);
}

#[test]
fn dead_foes_are_not_targets() {
    let mut state = GameState::new();
    let mid: i64 = NORM_ONE / 2;
    state.left.units.push(ling_at(Side::Left, mid));
    let mut corpse = ling_at(Side::Right, mid);
    corpse.stats.hp = 0;
    state.right.units.push(corpse); // ahead in collection order
    state.right.units.push(ling_at(Side::Right, mid));
    state.update(DT);
    // the attack skips the corpse and lands on the living foe behind it
    assert_eq!(state.right.units.len(), 1);
    assert_eq!(state.right.units[0].stats.hp, 996);
    // both Right units still acted before the corpse was pruned
    assert_eq!(state.left.units[0].stats.hp, 992);
    // the attacker struck something, so it did not move
    assert_eq!(state.left.units[0].position, mid);
}

#[test]
fn attackers_do_not_waste_attacks_on_fresh_corpses() {
    let mut state = GameState::new();
    let mid: i64 = NORM_ONE / 2;
    state.left.units.push(ling_at(Side::Left, mid));
    state.left.units.push(ling_at(Side::Left, mid));
    let mut weak = ling_at(Side::Right, mid);
    weak.stats.hp = 4; // dies to the first attack of the tick
    state.right.units.push(weak);
    state.update(DT);
    // the first Left ling kills the weak foe; the second then finds no
    // living target and no base in range, so it moves on
    assert_eq!(state.left.units[0].position, mid);
    assert_eq!(state.left.units[1].position, mid + 2_000_000_000);
    // the dying foe still answered before being pruned
    assert_eq!(state.left.units[0].stats.hp, 996);
    assert_eq!(state.left.units[1].stats.hp, 1_000);
    assert_eq!(state.right.units.len(), 0);
}

#[test]
fn two_lings_close_stop_and_trade_until_both_fall() {
    let mut state = GameState::new();
    state.left.minerals = 10;
    state.right.minerals = 10;
    state.left.build_unit(GameChar::ling(Side::Left)).unwrap();
    state.right.build_unit(GameChar::ling(Side::Right)).unwrap();
    // world positions 0 and 500: separation 500, far beyond range 3
    assert_eq!(state.left.units[0].position(), 0);
    assert_eq!(state.right.units[0].position(), 500_000_000_000);

    // pure movement, 20 world units closed per tick, until they meet at the
    // midpoint after 25 ticks
    for _ in 0..25 {
        state.update(DT);
    }
    assert_eq!(state.left.units[0].position(), 250_000_000_000);
    assert_eq!(state.right.units[0].position(), 250_000_000_000);
    assert_eq!(state.left.units[0].stats.hp, 1_000);
    assert_eq!(state.right.units[0].stats.hp, 1_000);

    // in range now: both stand and trade 0.04 hitpoints per tick
    for _ in 0..249 {
        state.update(DT);
    }
    assert_eq!(state.left.units[0].position(), 250_000_000_000);
    assert_eq!(state.right.units[0].position(), 250_000_000_000);
    assert_eq!(state.left.units[0].stats.hp, 4);
    assert_eq!(state.right.units[0].stats.hp, 4);

    // the 250th trading tick kills both at once; dead units are removed at
    // the end of that same tick
    state.update(DT);
    assert_eq!(state.left.units.len(), 0);
    assert_eq!(state.right.units.len(), 0);

    // economy ran through all 275 ticks
    assert_eq!(state.left.minerals, 275);
    assert_eq!(state.right.minerals, 275);
}
