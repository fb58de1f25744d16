//! A player: one base, a roster of units, and a mineral balance.

use vstd::prelude::*;
use crate::gameobject::{GameChar, Base, Archetype, archetype_stats, name_kind, spawn_unit};
use crate::gamestate::Side;
use crate::traits::Position;

verus! {

/// Why a build request was refused.
#[derive(Debug, Clone, Copy, PartialEq, Eq, Structural)]
pub enum BuildError {
    /// The request named an archetype the catalog does not have.
    UnknownArchetype,
    /// The archetype's cost exceeds the player's mineral balance.
    InsufficientMinerals,
}

/// How a player is controlled.
#[derive(Debug, Clone, Copy, PartialEq, Eq, Structural)]
pub enum Controltype {
    Human,
    SimpleAI,
}

/// A player: its unit roster in spawn order, its mineral balance, and its
/// base.
#[derive(Debug, Clone)]
pub struct Player {
    pub units: Vec<GameChar>,
    pub minerals: u32,
    pub base: Base,
    pub controltype: Controltype,
}

/// The mathematical value of a player: what the tick contracts speak of.
#[verifier::ext_equal]
pub struct PlayerView {
    pub units: Seq<GameChar>,
    pub minerals: u32,
    pub base: Base,
}

impl View for Player {
    type V = PlayerView;

    open spec fn view(&self) -> PlayerView {
        PlayerView { units: self.units@, minerals: self.minerals, base: self.base }
    }
}

impl Player {
    /// Every unit and the base stand within the positions the arithmetic
    /// is exact on.
    pub open spec fn wf(self) -> bool {
        &&& self.base.pos_wf()
        &&& forall|i: int| 0 <= i < self.units@.len() ==> (#[trigger] self.units@[i]).pos_wf()
    }

    /// A new human-controlled player for `side`: no units, no minerals, a
    /// fresh base.
    pub fn new(side: Side) -> (p: Player)
        ensures
            p.units@ == Seq::<GameChar>::empty(),
            p.minerals == 0,
            p.base == Base::new_spec(side),
            p.controltype == Controltype::Human,
            p.wf(),
    {
        Player {
            units: Vec::new(),
            minerals: 0,
            base: Base::new(side),
            controltype: Controltype::Human,
        }
    }

    /// A new player for `side` controlled by the simple rule-based AI.
    pub fn new_ai(side: Side) -> (p: Player)
        ensures
            p.units@ == Seq::<GameChar>::empty(),
            p.minerals == 0,
            p.base == Base::new_spec(side),
            p.controltype == Controltype::SimpleAI,
            p.wf(),
    {
        Player {
            units: Vec::new(),
            minerals: 0,
            base: Base::new(side),
            controltype: Controltype::SimpleAI,
        }
    }

    /// Builds `unit` if the player can afford it: deducts its cost and
    /// appends it to the roster.  With too few minerals, nothing changes
    /// and the request is reported as refused.
    pub fn build_unit(&mut self, unit: GameChar) -> (r: Result<(), BuildError>)
        ensures
            unit.stats.cost <= old(self).minerals ==> {
                &&& r == Ok::<(), BuildError>(())
                &&& final(self).units@ == old(self).units@.push(unit)
                &&& final(self).minerals == old(self).minerals - unit.stats.cost
                &&& final(self).base == old(self).base
                &&& final(self).controltype == old(self).controltype
            },
            unit.stats.cost > old(self).minerals ==> {
                &&& r == Err::<(), BuildError>(BuildError::InsufficientMinerals)
                &&& final(self).units@ == old(self).units@
                &&& final(self).minerals == old(self).minerals
                &&& final(self).base == old(self).base
                &&& final(self).controltype == old(self).controltype
            },
    {
        if unit.stats.cost <= self.minerals {
            self.minerals = self.minerals - unit.stats.cost;
            self.units.push(unit);
            Ok(())
        } else {
            Err(BuildError::InsufficientMinerals)
        }
    }

    /// Handles a named build request for this player's `side`: a name
    /// outside the catalog is refused with no state change; a catalog unit
    /// is built exactly when the player can afford its cost.
    pub fn build_named(&mut self, name: &str, side: Side) -> (r: Result<(), BuildError>)
        ensures
            name_kind(name@) is None ==> {
                &&& r == Err::<(), BuildError>(BuildError::UnknownArchetype)
                &&& final(self).units@ == old(self).units@
                &&& final(self).minerals == old(self).minerals
                &&& final(self).base == old(self).base
                &&& final(self).controltype == old(self).controltype
            },
            name_kind(name@) matches Some(kind) ==> {
                &&& archetype_stats(kind).cost <= old(self).minerals ==> {
                    &&& r == Ok::<(), BuildError>(())
                    &&& final(self).units@ == old(self).units@.push(spawn_unit(kind, side))
                    &&& final(self).minerals == old(self).minerals - archetype_stats(kind).cost
                    &&& final(self).base == old(self).base
                    &&& final(self).controltype == old(self).controltype
                }
                &&& archetype_stats(kind).cost > old(self).minerals ==> {
                    &&& r == Err::<(), BuildError>(BuildError::InsufficientMinerals)
                    &&& final(self).units@ == old(self).units@
                    &&& final(self).minerals == old(self).minerals
                    &&& final(self).base == old(self).base
                    &&& final(self).controltype == old(self).controltype
                }
            },
    {
        match GameChar::from_name(name, side) {
            Ok(unit) => self.build_unit(unit),
            Err(e) => Err(e),
        }
    }

    /// Empties the unit roster (a manual reset), leaving minerals and base
    /// untouched.
    pub fn clear_units(&mut self)
        ensures
            final(self).units@ == Seq::<GameChar>::empty(),
            final(self).minerals == old(self).minerals,
            final(self).base == old(self).base,
            final(self).controltype == old(self).controltype,
    {
        self.units = Vec::new();
    }
}

/// How many units of `kind` a roster holds.
pub open spec fn count_kind(s: Seq<GameChar>, kind: Archetype) -> int
    decreases s.len(),
{
    if s.len() == 0 {
        0
    } else {
        count_kind(s.drop_last(), kind) + if s.last().kind == kind {
            1int
        } else {
            0int
        }
    }
}

/// A per-archetype count is between zero and the roster's length.
pub proof fn lemma_count_kind_le_len(s: Seq<GameChar>, kind: Archetype)
    ensures
        0 <= count_kind(s, kind) <= s.len(),
    decreases s.len(),
{
    if s.len() > 0 {
        lemma_count_kind_le_len(s.drop_last(), kind);
    }
}

/// How many units of each archetype a roster holds.
#[derive(Debug, Clone, Copy, PartialEq, Eq, Structural)]
pub struct Unitcount {
    pub lingcount: u32,
    pub hydracount: u32,
    pub banecount: u32,
}

impl Unitcount {
    /// A count with the given per-archetype tallies.
    pub fn new(lingcount: u32, hydracount: u32, banecount: u32) -> (c: Unitcount)
        ensures
            c == (Unitcount { lingcount, hydracount, banecount }),
    {
        Unitcount { lingcount, hydracount, banecount }
    }

    /// The total number of units counted.
    pub fn total(&self) -> (t: u32)
        requires
            self.lingcount + self.hydracount + self.banecount <= u32::MAX,
        ensures
            t == self.lingcount + self.hydracount + self.banecount,
    {
        self.lingcount + self.hydracount + self.banecount
    }

    /// Tallies a roster by archetype.
    pub fn of_units(units: &Vec<GameChar>) -> (c: Unitcount)
        requires
            units@.len() <= u32::MAX,
        ensures
            c.lingcount == count_kind(units@, Archetype::Ling),
            c.hydracount == count_kind(units@, Archetype::Hydra),
            c.banecount == count_kind(units@, Archetype::Bane),
    {
        let mut lingcount: u32 = 0;
        let mut hydracount: u32 = 0;
        let mut banecount: u32 = 0;
        let mut i: usize = 0;
        while i < units.len()
            invariant
                0 <= i <= units@.len(),
                units@.len() <= u32::MAX,
                lingcount == count_kind(units@.take(i as int), Archetype::Ling),
                hydracount == count_kind(units@.take(i as int), Archetype::Hydra),
                banecount == count_kind(units@.take(i as int), Archetype::Bane),
            decreases units@.len() - i,
        {
            proof {
                assert(units@.take(i as int + 1).drop_last() =~= units@.take(i as int));
                assert(units@.take(i as int + 1).last() == units@[i as int]);
                lemma_count_kind_le_len(units@.take(i as int), Archetype::Ling);
                lemma_count_kind_le_len(units@.take(i as int), Archetype::Hydra);
                lemma_count_kind_le_len(units@.take(i as int), Archetype::Bane);
            }
            let u = units[i];
            match u.kind {
                Archetype::Ling => {
                    lingcount = lingcount + 1;
                }
                Archetype::Hydra => {
                    hydracount = hydracount + 1;
                }
                Archetype::Bane => {
                    banecount = banecount + 1;
                }
            }
            i = i + 1;
        }
        proof {
            assert(units@.take(units@.len() as int) =~= units@);
        }
        Unitcount { lingcount, hydracount, banecount }
    }
}

} // verus!
