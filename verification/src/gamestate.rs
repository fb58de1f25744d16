//! The global game state and the per-tick simulation step.

use vstd::prelude::*;
use crate::constants::{MINERALS_PER_TICK, NANOS_PER_SECOND};
use crate::gameobject::{
    GameChar, Base, foes_after_attack, base_after_attack, unit_after_attack,
};
use crate::player::{Player, PlayerView, Controltype};
use crate::traits::Position;

verus! {

/// Identifies the two sides of the battlefield.
///
/// A side fixes a unit's spawn edge and its direction of travel: Left units
/// advance with increasing normalized position, Right units with decreasing.
#[derive(Debug, Clone, Copy, PartialEq, Eq, Structural)]
pub enum Side {
    Left,
    Right,
}

/// The mathematical value of the whole game state.
#[verifier::ext_equal]
pub struct GameStateView {
    pub left: PlayerView,
    pub right: PlayerView,
}

/// Tracks the global game state: the two opposing players.
#[derive(Debug, Clone)]
pub struct GameState {
    pub left: Player,
    pub right: Player,
}

impl View for GameState {
    type V = GameStateView;

    open spec fn view(&self) -> GameStateView {
        GameStateView { left: self.left@, right: self.right@ }
    }
}

/// One side's attack-and-move sweep: the units of `actors`, in collection
/// order, each perform their full action against the opposing `foes` and
/// `base`.  Yields the actors, foes and base after the sweep.
pub open spec fn pass(actors: Seq<GameChar>, foes: Seq<GameChar>, base: Base, dt_nanos: u32) -> (
    Seq<GameChar>,
    Seq<GameChar>,
    Base,
)
    decreases actors.len(),
{
    if actors.len() == 0 {
        (actors, foes, base)
    } else {
        let u = actors[0];
        let acted = unit_after_attack(u, foes, base, dt_nanos);
        let rest = pass(actors.skip(1), foes_after_attack(u, foes), base_after_attack(u, foes, base), dt_nanos);
        (seq![acted] + rest.0, rest.1, rest.2)
    }
}

/// A roster with the dead pruned: the units with positive hit points, in
/// their original order.
pub open spec fn alive(s: Seq<GameChar>) -> Seq<GameChar>
    decreases s.len(),
{
    if s.len() == 0 {
        s
    } else if s.last().stats.hp > 0 {
        alive(s.drop_last()).push(s.last())
    } else {
        alive(s.drop_last())
    }
}

/// End-of-tick death ordering, the pruning half: removal happens only
/// here, and it removes exactly the units whose hit points are gone —
/// every survivor has positive hit points, and a roster with no dead units
/// is kept whole.
pub proof fn lemma_alive_members(s: Seq<GameChar>)
    ensures
        forall|i: int| 0 <= i < alive(s).len() ==> (#[trigger] alive(s)[i]).stats.hp > 0,
        (forall|i: int| 0 <= i < s.len() ==> (#[trigger] s[i]).stats.hp > 0) ==> alive(s) == s,
    decreases s.len(),
{
    if s.len() > 0 {
        lemma_alive_members(s.drop_last());
        assert(s.last() == s[s.len() - 1]);
        assert forall|i: int| 0 <= i < alive(s).len() implies (#[trigger] alive(s)[i]).stats.hp
            > 0 by {
            if s.last().stats.hp > 0 && i == alive(s).len() - 1 {
                assert(alive(s)[i] == s.last());
            } else {
                assert(alive(s)[i] == alive(s.drop_last())[i]);
            }
        }
        if forall|i: int| 0 <= i < s.len() ==> (#[trigger] s[i]).stats.hp > 0 {
            assert forall|i: int| 0 <= i < s.drop_last().len() implies (#[trigger] s.drop_last()[i]).stats.hp
                > 0 by {
                assert(s.drop_last()[i] == s[i]);
            }
            assert(alive(s.drop_last()).push(s.last()) =~= s);
        }
    }
}

/// Pruning keeps well-formed positions well-formed.
pub proof fn lemma_alive_wf(s: Seq<GameChar>)
    requires
        forall|i: int| 0 <= i < s.len() ==> (#[trigger] s[i]).pos_wf(),
    ensures
        forall|i: int| 0 <= i < alive(s).len() ==> (#[trigger] alive(s)[i]).pos_wf(),
    decreases s.len(),
{
    if s.len() > 0 {
        assert forall|i: int| 0 <= i < s.drop_last().len() implies (#[trigger] s.drop_last()[i]).pos_wf() by {
            assert(s.drop_last()[i] == s[i]);
        }
        lemma_alive_wf(s.drop_last());
        assert(s.last() == s[s.len() - 1]);
        assert forall|i: int| 0 <= i < alive(s).len() implies (#[trigger] alive(s)[i]).pos_wf() by {
            if s.last().stats.hp > 0 && i == alive(s).len() - 1 {
                assert(alive(s)[i] == s.last());
            } else {
                assert(alive(s)[i] == alive(s.drop_last())[i]);
            }
        }
    }
}

/// A mineral balance after one tick's fixed income, saturating at the
/// machine limit.
pub open spec fn gain(m: u32) -> u32 {
    if m + MINERALS_PER_TICK <= u32::MAX {
        (m + MINERALS_PER_TICK) as u32
    } else {
        m
    }
}

/// The whole game state after one tick: the Left side's sweep is resolved
/// first against the pre-tick Right roster, then the Right side's sweep runs
/// against the already-damaged Left roster; only after both sweeps does each
/// player earn minerals and lose its dead units.  A unit reduced to zero hit
/// points during the tick therefore still completes its own action before it
/// is removed.
pub open spec fn tick(s: GameStateView, dt_nanos: u32) -> GameStateView {
    let first = pass(s.left.units, s.right.units, s.right.base, dt_nanos);
    let second = pass(first.1, first.0, s.left.base, dt_nanos);
    GameStateView {
        left: PlayerView {
            units: alive(second.1),
            minerals: gain(s.left.minerals),
            base: second.2,
        },
        right: PlayerView {
            units: alive(second.0),
            minerals: gain(s.right.minerals),
            base: first.2,
        },
    }
}

/// The game state after `n` ticks of `dt_nanos` each, with no intervening
/// build commands.
pub open spec fn run(s: GameStateView, dt_nanos: u32, n: nat) -> GameStateView
    decreases n,
{
    if n == 0 {
        s
    } else {
        tick(run(s, dt_nanos, (n - 1) as nat), dt_nanos)
    }
}

/// Economy: after `n` ticks with no build commands, each side's mineral
/// balance has grown by exactly `n` at the fixed one-per-tick rate (stated
/// below the machine limit, where the income cannot saturate).
pub proof fn lemma_economy(s: GameStateView, dt_nanos: u32, n: nat)
    requires
        s.left.minerals + n <= u32::MAX,
        s.right.minerals + n <= u32::MAX,
    ensures
        run(s, dt_nanos, n).left.minerals == s.left.minerals + n,
        run(s, dt_nanos, n).right.minerals == s.right.minerals + n,
    decreases n,
{
    if n > 0 {
        lemma_economy(s, dt_nanos, (n - 1) as nat);
    }
}

/// Runs one side's sweep in place: each actor in collection order attacks
/// the opposing roster and base or moves forward.
#[verifier::loop_isolation(false)]
fn run_pass(actors: &mut Vec<GameChar>, foes: &mut Vec<GameChar>, base: &mut Base, dt_nanos: u32)
    requires
        dt_nanos < NANOS_PER_SECOND,
        old(base).pos_wf(),
        forall|j: int| 0 <= j < old(actors)@.len() ==> (#[trigger] old(actors)@[j]).pos_wf(),
        forall|j: int| 0 <= j < old(foes)@.len() ==> (#[trigger] old(foes)@[j]).pos_wf(),
    ensures
        final(actors)@ == pass(old(actors)@, old(foes)@, *old(base), dt_nanos).0,
        final(foes)@ == pass(old(actors)@, old(foes)@, *old(base), dt_nanos).1,
        *final(base) == pass(old(actors)@, old(foes)@, *old(base), dt_nanos).2,
        final(actors)@.len() == old(actors)@.len(),
        final(foes)@.len() == old(foes)@.len(),
        forall|j: int| 0 <= j < final(actors)@.len() ==> (#[trigger] final(actors)@[j]).pos_wf(),
        forall|j: int| 0 <= j < old(foes)@.len() ==> (#[trigger] final(foes)@[j]).position
            == old(foes)@[j].position,
        final(base).position == old(base).position,
{
    let ghost a0 = actors@;
    let ghost f0 = foes@;
    let ghost b0 = *base;
    let ghost target = pass(a0, f0, b0, dt_nanos);
    proof {
        assert(a0.skip(0) =~= a0);
        assert(actors@.take(0) + target.0 =~= target.0);
    }
    let mut i: usize = 0;
    while i < actors.len()
        invariant
            0 <= i <= a0.len(),
            actors@.len() == a0.len(),
            foes@.len() == f0.len(),
            forall|j: int| i <= j < a0.len() ==> #[trigger] actors@[j] == a0[j],
            forall|j: int| 0 <= j < i ==> (#[trigger] actors@[j]).pos_wf(),
            forall|j: int| 0 <= j < f0.len() ==> (#[trigger] foes@[j]).position == f0[j].position,
            base.position == b0.position,
            target.0 == actors@.take(i as int) + pass(a0.skip(i as int), foes@, *base, dt_nanos).0,
            target.1 == pass(a0.skip(i as int), foes@, *base, dt_nanos).1,
            target.2 == pass(a0.skip(i as int), foes@, *base, dt_nanos).2,
        decreases a0.len() - i,
    {
        let ghost foes_pre = foes@;
        let ghost base_pre = *base;
        let ghost i0 = i as int;
        let mut u = actors[i];
        u.attack_move(foes, base, dt_nanos);
        actors.set(i, u);
        proof {
            let rem_next = pass(a0.skip(i0 + 1), foes@, *base, dt_nanos);
            assert(a0.skip(i0)[0] == a0[i0]);
            assert(a0.skip(i0).skip(1) =~= a0.skip(i0 + 1));
            assert(pass(a0.skip(i0), foes_pre, base_pre, dt_nanos).0 =~= seq![actors@[i0]]
                + rem_next.0);
            assert(actors@.take(i0 + 1) =~= actors@.take(i0) + seq![actors@[i0]]);
            assert(target.0 =~= actors@.take(i0 + 1) + rem_next.0);
        }
        i = i + 1;
    }
    proof {
        assert(a0.skip(a0.len() as int) =~= Seq::<GameChar>::empty());
        assert(actors@.take(a0.len() as int) =~= actors@);
        assert(actors@ + pass(a0.skip(a0.len() as int), foes@, *base, dt_nanos).0 =~= actors@);
    }
}

/// The end-of-tick bookkeeping for one player: earn the fixed mineral
/// income, then drop every unit whose hit points have reached zero,
/// preserving the order of the survivors.
fn economy_and_cleanup(p: &mut Player)
    ensures
        final(p).units@ == alive(old(p).units@),
        final(p).minerals == gain(old(p).minerals),
        final(p).base == old(p).base,
        final(p).controltype == old(p).controltype,
{
    if p.minerals <= u32::MAX - MINERALS_PER_TICK {
        p.minerals = p.minerals + MINERALS_PER_TICK;
    }
    let ghost u0 = p.units@;
    let mut living: Vec<GameChar> = Vec::new();
    let mut i: usize = 0;
    while i < p.units.len()
        invariant
            0 <= i <= u0.len(),
            p.units@ == u0,
            living@ == alive(u0.take(i as int)),
        decreases u0.len() - i,
    {
        proof {
            assert(u0.take(i as int + 1).drop_last() =~= u0.take(i as int));
            assert(u0.take(i as int + 1).last() == u0[i as int]);
        }
        let u = p.units[i];
        if u.stats.hp > 0 {
            living.push(u);
        }
        i = i + 1;
    }
    proof {
        assert(u0.take(u0.len() as int) =~= u0);
    }
    p.units = living;
}

impl GameState {
    /// Both players' units and bases stand within the positions the
    /// arithmetic is exact on.
    pub open spec fn wf(self) -> bool {
        self.left.wf() && self.right.wf()
    }

    /// A fresh match: two human players, each with an empty roster, no
    /// minerals, and a full-health base at its home edge.
    pub fn new() -> (s: GameState)
        ensures
            s.left.units@ == Seq::<GameChar>::empty(),
            s.left.minerals == 0,
            s.left.base == Base::new_spec(Side::Left),
            s.left.controltype == Controltype::Human,
            s.right.units@ == Seq::<GameChar>::empty(),
            s.right.minerals == 0,
            s.right.base == Base::new_spec(Side::Right),
            s.right.controltype == Controltype::Human,
            s.wf(),
    {
        GameState { left: Player::new(Side::Left), right: Player::new(Side::Right) }
    }

    /// Advances the simulation by one tick of `dt_nanos` nanoseconds of
    /// frame time: the Left sweep, then the Right sweep, then each player's
    /// economy and cleanup, exactly as [`tick`] states.
    pub fn update(&mut self, dt_nanos: u32)
        requires
            old(self).wf(),
            dt_nanos < NANOS_PER_SECOND,
        ensures
            final(self)@ == tick(old(self)@, dt_nanos),
            final(self).left.controltype == old(self).left.controltype,
            final(self).right.controltype == old(self).right.controltype,
            final(self).wf(),
    {
        let ghost s0 = old(self)@;
        run_pass(&mut self.left.units, &mut self.right.units, &mut self.right.base, dt_nanos);
        run_pass(&mut self.right.units, &mut self.left.units, &mut self.left.base, dt_nanos);
        economy_and_cleanup(&mut self.left);
        economy_and_cleanup(&mut self.right);
        proof {
            let first = pass(s0.left.units, s0.right.units, s0.right.base, dt_nanos);
            let second = pass(first.1, first.0, s0.left.base, dt_nanos);
            lemma_alive_wf(second.0);
            lemma_alive_wf(second.1);
            assert(self@ =~= tick(s0, dt_nanos));
        }
    }
}

} // verus!
