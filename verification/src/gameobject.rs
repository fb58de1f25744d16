//! Combat entities: unit archetypes, units, bases, damage and movement.

use vstd::prelude::*;
use crate::constants::{
    NORM_ONE, POS_TO_WORLD, POS_BOUND, HP_SCALE, DAMAGE_DIVISOR, NANOS_PER_SECOND,
};
use crate::gamestate::Side;
use crate::player::BuildError;
use crate::traits::Position;

verus! {

/// The unit archetypes of the catalog, carried on each unit and compared by
/// value when archetype-specific behaviour is needed.
#[derive(Debug, Clone, Copy, PartialEq, Eq, Structural)]
pub enum Archetype {
    Ling,
    Hydra,
    Bane,
}

/// The immutable stats a unit is built with, in the fixed-point scales of
/// [`crate::constants`]: `hp` and `damage` in centi-hitpoints, `speed` in
/// tenths of a speed point, `range` in world fixed-point units.
#[derive(Debug, Clone, Copy, PartialEq, Eq, Structural)]
pub struct CharStats {
    pub cost: u32,
    pub hp: u32,
    pub damage: u32,
    pub speed: u32,
    pub range: u64,
    pub targets: usize,
}

/// A mobile combat unit: an instance of an archetype owned by one side.
#[derive(Debug, Clone, Copy, PartialEq, Eq, Structural)]
pub struct GameChar {
    pub kind: Archetype,
    pub stats: CharStats,
    /// Normalized position in position units (`NORM_ONE` per map width).
    pub position: i64,
    pub side: Side,
}

/// The stationary base each player defends.
#[derive(Debug, Clone, Copy, PartialEq, Eq, Structural)]
pub struct Base {
    /// Remaining hit points in centi-hitpoints.
    pub hp: u32,
    /// Normalized position in position units.
    pub position: i64,
}

/// Subtraction saturating at zero: `lhs - rhs`, or `0` when `rhs` exceeds
/// `lhs`.  All hit-point reduction goes through this, so hit points can
/// never be negative.
pub open spec fn spec_sat_sub(lhs: u32, rhs: u32) -> u32 {
    if rhs <= lhs {
        (lhs - rhs) as u32
    } else {
        0u32
    }
}

/// Saturating subtraction: computes `lhs - rhs`, saturating at zero instead
/// of going negative.
pub fn zero_saturating_sub(lhs: u32, rhs: u32) -> (r: u32)
    ensures
        r == spec_sat_sub(lhs, rhs),
{
    if rhs <= lhs {
        lhs - rhs
    } else {
        0
    }
}

/// Saturating damage never leaves hit points below zero (the type has no
/// negative values), zero damage is a no-op, and damage never raises hit
/// points.
pub proof fn lemma_damage_saturating(lhs: u32, rhs: u32)
    ensures
        spec_sat_sub(lhs, rhs) >= 0,
        spec_sat_sub(lhs, 0) == lhs,
        spec_sat_sub(lhs, rhs) <= lhs,
{
}

/// Whether an attacker standing at normalized position `attacker_pos` with
/// attack range `range` (world fixed-point units) reaches a target at
/// normalized position `target_pos`: the world-space separation must be
/// strictly below the attacker's own range.
pub open spec fn in_range_spec(attacker_pos: int, range: int, target_pos: int) -> bool {
    let d = attacker_pos * POS_TO_WORLD - target_pos * POS_TO_WORLD;
    (if d < 0 {
        -d
    } else {
        d
    }) < range
}

/// The normalized position a newly spawned entity of `side` starts at:
/// the left edge for Left, the right edge for Right.
pub open spec fn spawn_pos(side: Side) -> i64 {
    if side == Side::Left {
        0i64
    } else {
        NORM_ONE
    }
}

/// The catalog stats of each archetype.
pub open spec fn archetype_stats(kind: Archetype) -> CharStats {
    match kind {
        Archetype::Ling => CharStats {
            cost: 10,
            hp: 1_000,
            damage: 400,
            speed: 20,
            range: 3_000_000_000,
            targets: 1,
        },
        Archetype::Hydra => CharStats {
            cost: 20,
            hp: 1_200,
            damage: 400,
            speed: 10,
            range: 150_000_000_000,
            targets: 1,
        },
        Archetype::Bane => CharStats {
            cost: 30,
            hp: 1_500,
            damage: 1_000,
            speed: 5,
            range: 3_000_000_000,
            targets: 1,
        },
    }
}

/// The display name of each archetype.
pub open spec fn kind_name(kind: Archetype) -> Seq<char> {
    match kind {
        Archetype::Ling => "ling"@,
        Archetype::Hydra => "hydra"@,
        Archetype::Bane => "bane"@,
    }
}

/// The archetype a catalog name refers to, if any.
pub open spec fn name_kind(name: Seq<char>) -> Option<Archetype> {
    if name == "ling"@ {
        Some(Archetype::Ling)
    } else if name == "hydra"@ {
        Some(Archetype::Hydra)
    } else if name == "bane"@ {
        Some(Archetype::Bane)
    } else {
        None
    }
}

/// The unit that building `kind` for `side` yields: full catalog hit points,
/// standing at its side's home edge.
pub open spec fn spawn_unit(kind: Archetype, side: Side) -> GameChar {
    GameChar {
        kind,
        stats: archetype_stats(kind),
        position: spawn_pos(side),
        side,
    }
}

impl GameChar {
    /// `self` with its remaining hit points replaced by `h`.
    pub open spec fn with_hp(self, h: u32) -> GameChar {
        GameChar { stats: CharStats { hp: h, ..self.stats }, ..self }
    }

    /// `self` with `amount` centi-hitpoints of damage applied, saturating
    /// at zero.
    pub open spec fn damaged(self, amount: u32) -> GameChar {
        self.with_hp(spec_sat_sub(self.stats.hp, amount))
    }

    /// The length of one movement step over `dt_nanos` nanoseconds of frame
    /// time, in position units: effective speed times elapsed time.
    pub open spec fn step_len(self, dt_nanos: u32) -> int {
        self.stats.speed * dt_nanos
    }

    /// `self` after moving forward for `dt_nanos` nanoseconds: Left units
    /// advance with increasing position, Right units with decreasing, and
    /// the result is clamped to `[-POS_BOUND, POS_BOUND]`.
    pub open spec fn moved(self, dt_nanos: u32) -> GameChar {
        let delta = if self.side == Side::Left {
            self.step_len(dt_nanos)
        } else {
            -self.step_len(dt_nanos)
        };
        GameChar { position: clamp_pos(self.position + delta), ..self }
    }

    /// A zergling: fast, cheap melee fighter.
    pub fn ling(side: Side) -> (c: GameChar)
        ensures
            c == spawn_unit(Archetype::Ling, side),
            c.pos_wf(),
    {
        GameChar {
            kind: Archetype::Ling,
            stats: CharStats {
                cost: 10,
                hp: 1_000,
                damage: 400,
                speed: 20,
                range: 3_000_000_000,
                targets: 1,
            },
            position: if side == Side::Left { 0 } else { NORM_ONE },
            side,
        }
    }

    /// A hydra: ranged damage.
    pub fn hydra(side: Side) -> (c: GameChar)
        ensures
            c == spawn_unit(Archetype::Hydra, side),
            c.pos_wf(),
    {
        GameChar {
            kind: Archetype::Hydra,
            stats: CharStats {
                cost: 20,
                hp: 1_200,
                damage: 400,
                speed: 10,
                range: 150_000_000_000,
                targets: 1,
            },
            position: if side == Side::Left { 0 } else { NORM_ONE },
            side,
        }
    }

    /// A baneling: high damage, slow, decent hit points.
    pub fn bane(side: Side) -> (c: GameChar)
        ensures
            c == spawn_unit(Archetype::Bane, side),
            c.pos_wf(),
    {
        GameChar {
            kind: Archetype::Bane,
            stats: CharStats {
                cost: 30,
                hp: 1_500,
                damage: 1_000,
                speed: 5,
                range: 3_000_000_000,
                targets: 1,
            },
            position: if side == Side::Left { 0 } else { NORM_ONE },
            side,
        }
    }

    /// The damage this unit deals per attack, in centi-hitpoints: its base
    /// damage scaled down by `DAMAGE_DIVISOR`.
    pub open spec fn effective_damage(self) -> u32 {
        self.stats.damage / DAMAGE_DIVISOR
    }

    /// The display name of this unit's archetype, e.g. to select a sprite.
    pub fn name(&self) -> (r: String)
        ensures
            r@ == kind_name(self.kind),
    {
        match self.kind {
            Archetype::Ling => String::from_str("ling"),
            Archetype::Hydra => String::from_str("hydra"),
            Archetype::Bane => String::from_str("bane"),
        }
    }

    /// Builds the catalog unit called `name` for `side`; a name outside the
    /// catalog is refused with [`BuildError::UnknownArchetype`].
    pub fn from_name(name: &str, side: Side) -> (r: Result<GameChar, BuildError>)
        ensures
            name_kind(name@) matches Some(kind) ==> r == Ok::<GameChar, BuildError>(
                spawn_unit(kind, side),
            ),
            name_kind(name@) is None ==> r == Err::<GameChar, BuildError>(
                BuildError::UnknownArchetype,
            ),
    {
        let n = name.to_owned();
        if n == String::from_str("ling") {
            Ok(GameChar::ling(side))
        } else if n == String::from_str("hydra") {
            Ok(GameChar::hydra(side))
        } else if n == String::from_str("bane") {
            Ok(GameChar::bane(side))
        } else {
            Err(BuildError::UnknownArchetype)
        }
    }

    /// Whether a target at normalized position `target_pos` is inside this
    /// unit's attack range.
    pub open spec fn reaches(self, target_pos: int) -> bool {
        in_range_spec(self.position as int, self.stats.range as int, target_pos)
    }

    /// The damage value of the unit, scaled by the global damage scale.
    pub fn damage(&self) -> (d: u32)
        ensures
            d == self.effective_damage(),
    {
        self.stats.damage / DAMAGE_DIVISOR
    }

    /// The horizontal speed of the unit after the global movement-speed
    /// scale, in position units per nanosecond of frame time.
    pub fn speed(&self) -> (s: u32)
        ensures
            s == self.stats.speed,
    {
        self.stats.speed
    }

    /// Whether `other` is within this unit's attack range.  The check uses
    /// this unit's own range, so it need not be symmetric.
    pub fn in_range<T: Position>(&self, other: &T) -> (r: bool)
        requires
            self.pos_wf(),
            other.pos_wf(),
        ensures
            r == in_range_spec(self.norm_pos(), self.stats.range as int, other.norm_pos()),
    {
        proof {
            self.pos_wf_bound();
            other.pos_wf_bound();
        }
        let a = self.position();
        let b = other.position();
        let d = if a >= b {
            a - b
        } else {
            b - a
        };
        (d as u64) < self.stats.range
    }

    /// Reduces this unit's hit points by `amount` centi-hitpoints,
    /// saturating at zero.
    pub fn apply_damage(&mut self, amount: u32)
        ensures
            *final(self) == old(self).damaged(amount),
    {
        self.stats.hp = zero_saturating_sub(self.stats.hp, amount);
    }

    /// Moves this unit forward on the horizontal axis, away from its own
    /// base: its effective speed times the elapsed frame time.
    pub fn move_forward(&mut self, dt_nanos: u32)
        requires
            old(self).pos_wf(),
            dt_nanos < NANOS_PER_SECOND,
        ensures
            *final(self) == old(self).moved(dt_nanos),
            final(self).pos_wf(),
    {
        proof {
            assert(0 <= (self.stats.speed as int) * (dt_nanos as int) <= 4_294_967_295int
                * 999_999_999int) by (nonlinear_arith)
                requires
                    0 <= self.stats.speed <= 4_294_967_295u32,
                    0 <= dt_nanos <= 999_999_999u32,
            ;
        }
        let step: i64 = (self.stats.speed as i64) * (dt_nanos as i64);
        match self.side {
            Side::Left => {
                let p = self.position + step;
                self.position = if p > POS_BOUND {
                    POS_BOUND
                } else {
                    p
                };
            }
            Side::Right => {
                let p = self.position - step;
                self.position = if p < -POS_BOUND {
                    -POS_BOUND
                } else {
                    p
                };
            }
        }
    }

    /// One full action for this unit: scan `enemies` in collection order and
    /// attack each living foe in range once, up to the unit's target
    /// allowance; if attacks remain and the opposing `base` is in range,
    /// damage it too; a unit that attacked nothing instead moves forward by
    /// its effective speed times the elapsed frame time.
    #[verifier::loop_isolation(false)]
    pub fn attack_move(&mut self, enemies: &mut Vec<GameChar>, base: &mut Base, dt_nanos: u32)
        requires
            old(self).pos_wf(),
            old(base).pos_wf(),
            dt_nanos < NANOS_PER_SECOND,
            forall|j: int| 0 <= j < old(enemies)@.len() ==> (#[trigger] old(enemies)@[j]).pos_wf(),
        ensures
            final(enemies)@ == foes_after_attack(*old(self), old(enemies)@),
            *final(base) == base_after_attack(*old(self), old(enemies)@, *old(base)),
            *final(self) == unit_after_attack(*old(self), old(enemies)@, *old(base), dt_nanos),
            final(self).pos_wf(),
            final(enemies)@.len() == old(enemies)@.len(),
            forall|j: int| 0 <= j < old(enemies)@.len() ==> (#[trigger] final(enemies)@[j]).position
                == old(enemies)@[j].position,
    {
        let ghost u0 = *self;
        let ghost foes0 = enemies@;
        let dmg = self.damage();
        let mut attack_count: usize = 0;
        let mut i: usize = 0;
        while i < enemies.len() && attack_count < self.stats.targets
            invariant
                0 <= i <= foes0.len(),
                enemies@.len() == foes0.len(),
                attack_count == hits_before(u0, foes0, i as int),
                attack_count <= u0.stats.targets,
                forall|j: int| 0 <= j < i ==> #[trigger] enemies@[j] == (if strikes_foe(
                    u0,
                    foes0,
                    j,
                ) {
                    foes0[j].damaged(u0.effective_damage())
                } else {
                    foes0[j]
                }),
                forall|j: int| i <= j < foes0.len() ==> #[trigger] enemies@[j] == foes0[j],
            decreases foes0.len() - i,
        {
            let foe = enemies[i];
            if foe.stats.hp > 0 && self.in_range(&foe) {
                attack_count = attack_count + 1;
                let mut f = foe;
                f.apply_damage(dmg);
                enemies.set(i, f);
            }
            i = i + 1;
        }
        proof {
            lemma_hits_before_bounds(u0, foes0, foes0.len() as int);
            if (i as int) < foes0.len() {
                assert forall|j: int| i <= j < foes0.len() implies !strikes_foe(
                    u0,
                    foes0,
                    j,
                ) by {
                    lemma_hits_before_monotone(u0, foes0, i as int, j);
                    lemma_hits_before_bounds(u0, foes0, j);
                }
                lemma_hits_before_monotone(u0, foes0, i as int, foes0.len() as int);
            }
            assert(attack_count == unit_hits(u0, foes0));
            assert(enemies@ =~= foes_after_attack(u0, foes0));
        }
        let hit_base = attack_count < self.stats.targets && self.in_range(&*base);
        if hit_base {
            base.apply_damage(dmg);
        }
        if attack_count == 0 && !hit_base {
            self.move_forward(dt_nanos);
        }
    }
}

/// How many attacks `u` has made after scanning the first `i` foes of
/// `foes` in collection order: each living foe inside `u`'s range is
/// attacked once until `u.stats.targets` attacks have been made.  A foe
/// whose hit points are already gone is not a target: dead units are never
/// mutated further.
pub open spec fn hits_before(u: GameChar, foes: Seq<GameChar>, i: int) -> int
    decreases i,
{
    if i <= 0 {
        0
    } else {
        let prev = hits_before(u, foes, i - 1);
        if prev < u.stats.targets && foes[i - 1].stats.hp > 0 && u.reaches(
            foes[i - 1].position as int,
        ) {
            prev + 1
        } else {
            prev
        }
    }
}

/// Whether `u`, scanning `foes` in collection order, attacks the foe at
/// index `j`: the foe is alive and in range, and `u` still has an attack
/// left.
pub open spec fn strikes_foe(u: GameChar, foes: Seq<GameChar>, j: int) -> bool {
    hits_before(u, foes, j) < u.stats.targets && foes[j].stats.hp > 0 && u.reaches(
        foes[j].position as int,
    )
}

/// The total number of attacks `u` makes on `foes`.
pub open spec fn unit_hits(u: GameChar, foes: Seq<GameChar>) -> int {
    hits_before(u, foes, foes.len() as int)
}

/// The foes after `u`'s attack scan: every struck foe has taken `u`'s
/// effective damage once, all others are unchanged, order is kept.
pub open spec fn foes_after_attack(u: GameChar, foes: Seq<GameChar>) -> Seq<GameChar> {
    Seq::new(
        foes.len(),
        |j: int|
            if strikes_foe(u, foes, j) {
                foes[j].damaged(u.effective_damage())
            } else {
                foes[j]
            },
    )
}

/// Whether `u` also attacks the opposing base: it found fewer foes in range
/// than it may attack, and the base is in range.
pub open spec fn strikes_base(u: GameChar, foes: Seq<GameChar>, base: Base) -> bool {
    unit_hits(u, foes) < u.stats.targets && u.reaches(base.position as int)
}

/// Whether `u` attacks anything at all this tick, unit or base.
pub open spec fn attacks_any(u: GameChar, foes: Seq<GameChar>, base: Base) -> bool {
    unit_hits(u, foes) > 0 || strikes_base(u, foes, base)
}

/// The base after `u`'s action: damaged once if `u` strikes it.
pub open spec fn base_after_attack(u: GameChar, foes: Seq<GameChar>, base: Base) -> Base {
    if strikes_base(u, foes, base) {
        base.damaged(u.effective_damage())
    } else {
        base
    }
}

/// `u` after its own action: a unit that attacked anything stands still,
/// one that attacked nothing moves forward.
pub open spec fn unit_after_attack(u: GameChar, foes: Seq<GameChar>, base: Base, dt_nanos: u32) -> GameChar {
    if attacks_any(u, foes, base) {
        u
    } else {
        u.moved(dt_nanos)
    }
}

/// A unit's attack count does not depend on its own remaining hit points.
pub proof fn lemma_hits_before_own_hp(u: GameChar, h: u32, foes: Seq<GameChar>, i: int)
    ensures
        hits_before(u.with_hp(h), foes, i) == hits_before(u, foes, i),
    decreases i,
{
    if i > 0 {
        lemma_hits_before_own_hp(u, h, foes, i - 1);
    }
}

/// End-of-tick death ordering, the acting half: what a unit does during a
/// tick does not depend on its own remaining hit points.  A unit lethally
/// wounded by the side that acts first therefore still performs its full
/// action cycle — same targets struck, same base damage, same movement —
/// before the end-of-tick pruning consults hit points at all.
pub proof fn lemma_wounded_unit_still_acts(
    u: GameChar,
    h: u32,
    foes: Seq<GameChar>,
    base: Base,
    dt_nanos: u32,
)
    ensures
        foes_after_attack(u.with_hp(h), foes) == foes_after_attack(u, foes),
        base_after_attack(u.with_hp(h), foes, base) == base_after_attack(u, foes, base),
        unit_after_attack(u.with_hp(h), foes, base, dt_nanos) == unit_after_attack(
            u,
            foes,
            base,
            dt_nanos,
        ).with_hp(h),
{
    let w = u.with_hp(h);
    assert forall|j: int| 0 <= j <= foes.len() implies hits_before(w, foes, j) == hits_before(
        u,
        foes,
        j,
    ) by {
        lemma_hits_before_own_hp(u, h, foes, j);
    }
    assert(foes_after_attack(w, foes) =~= foes_after_attack(u, foes));
}

/// Movement-vs-combat exclusivity: a unit that attacks anything, foe or
/// base, stands still for the tick; a unit with nothing in range advances
/// its position by exactly its effective speed times the elapsed frame
/// time, in its side's direction (whenever the step stays inside the
/// position bounds, which it always does on the battlefield proper).
pub proof fn lemma_movement_exclusive(u: GameChar, foes: Seq<GameChar>, base: Base, dt_nanos: u32)
    ensures
        attacks_any(u, foes, base) ==> unit_after_attack(u, foes, base, dt_nanos).position
            == u.position,
        !attacks_any(u, foes, base) && u.side == Side::Left && -POS_BOUND <= u.position
            + u.step_len(dt_nanos) <= POS_BOUND ==> unit_after_attack(
            u,
            foes,
            base,
            dt_nanos,
        ).position == u.position + u.step_len(dt_nanos),
        !attacks_any(u, foes, base) && u.side == Side::Right && -POS_BOUND <= u.position
            - u.step_len(dt_nanos) <= POS_BOUND ==> unit_after_attack(
            u,
            foes,
            base,
            dt_nanos,
        ).position == u.position - u.step_len(dt_nanos),
{
}

/// The attack count never exceeds the unit's target allowance.
pub proof fn lemma_hits_before_bounds(u: GameChar, foes: Seq<GameChar>, i: int)
    ensures
        0 <= hits_before(u, foes, i) <= u.stats.targets,
    decreases i,
{
    if i > 0 {
        lemma_hits_before_bounds(u, foes, i - 1);
    }
}

/// The attack count only grows as the scan proceeds.
pub proof fn lemma_hits_before_monotone(u: GameChar, foes: Seq<GameChar>, i: int, j: int)
    requires
        i <= j,
    ensures
        hits_before(u, foes, i) <= hits_before(u, foes, j),
    decreases j - i,
{
    if i < j {
        lemma_hits_before_monotone(u, foes, i, j - 1);
    }
}

/// Clamps a normalized position into `[-POS_BOUND, POS_BOUND]`.
pub open spec fn clamp_pos(p: int) -> i64 {
    if p > POS_BOUND as int {
        POS_BOUND
    } else if p < -(POS_BOUND as int) {
        (-POS_BOUND) as i64
    } else {
        p as i64
    }
}

impl Base {
    /// `self` with `amount` centi-hitpoints of damage applied, saturating
    /// at zero.
    pub open spec fn damaged(self, amount: u32) -> Base {
        Base { hp: spec_sat_sub(self.hp, amount), ..self }
    }

    /// The base a player of `side` starts the match with: 100 hitpoints,
    /// standing at its side's home edge.
    pub open spec fn new_spec(side: Side) -> Base {
        Base { hp: (100 * HP_SCALE) as u32, position: spawn_pos(side) }
    }

    /// A new base on the given side of the map, at full hit points.
    pub fn new(side: Side) -> (b: Base)
        ensures
            b == Base::new_spec(side),
            b.pos_wf(),
    {
        Base {
            hp: 100 * HP_SCALE,
            position: if side == Side::Left { 0 } else { NORM_ONE },
        }
    }

    /// Whether this base's hit points have reached zero.  The simulation
    /// itself attaches no consequence to this: it is the observable event a
    /// match controller decides the game on.
    pub fn is_destroyed(&self) -> (r: bool)
        ensures
            r == (self.hp == 0),
    {
        self.hp == 0
    }

    /// Reduces this base's hit points by `amount` centi-hitpoints,
    /// saturating at zero.
    pub fn apply_damage(&mut self, amount: u32)
        ensures
            *final(self) == old(self).damaged(amount),
    {
        self.hp = zero_saturating_sub(self.hp, amount);
    }
}

impl Position for GameChar {
    open spec fn norm_pos(&self) -> int {
        self.position as int
    }

    open spec fn pos_wf(&self) -> bool {
        -POS_BOUND <= self.position <= POS_BOUND
    }

    proof fn pos_wf_bound(&self) {
    }

    /// The unit's horizontal world position: its normalized position times
    /// the map scale.
    fn position(&self) -> (p: i64) {
        self.position * POS_TO_WORLD
    }
}

impl Position for Base {
    open spec fn norm_pos(&self) -> int {
        self.position as int
    }

    open spec fn pos_wf(&self) -> bool {
        -POS_BOUND <= self.position <= POS_BOUND
    }

    proof fn pos_wf_bound(&self) {
    }

    /// The base's horizontal world position: its normalized position times
    /// the map scale.
    fn position(&self) -> (p: i64) {
        self.position * POS_TO_WORLD
    }
}

} // verus!
