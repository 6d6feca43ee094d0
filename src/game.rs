//! The state of a game in progress, and a memoizing wrapper for costly
//! computations.
use vstd::prelude::*;
use std::collections::HashMap;
use std::hash::Hash;
use std::rc::Rc;
use vstd::std_specs::hash::obeys_key_model;

pub mod entities;
pub mod map;

use entities::GameEntity;
use map::GameMap;

verus! {

broadcast use vstd::std_specs::hash::group_hash_axioms;

/// The entities of a game in progress.
#[derive(Debug)]
pub struct GameState {
    pub entities: Vec<Rc<GameEntity>>,
}

/// A game in progress on a map.
#[derive(Debug)]
pub struct ActiveGame {
    pub map: GameMap,
    pub state: GameState,
    pub started_time: u32,
}

/// Starts a game on `map`, with no entities, at time zero.
pub fn start_game(map: GameMap) -> (r: ActiveGame)
    ensures
        r.map == map,
        r.state.entities@.len() == 0,
        r.started_time == 0,
{
    ActiveGame { map, state: GameState { entities: Vec::new() }, started_time: 0 }
}

/// Remembers the results of a calculation, so that it runs at most once for
/// each argument.
#[verifier::reject_recursive_types(T)]
#[verifier::reject_recursive_types(U)]
#[verifier::reject_recursive_types(V)]
pub struct Cacher<T, U, V> where T: Fn(U) -> V {
    calculation: T,
    values: HashMap<U, V>,
}

impl<T, U, V> Cacher<T, U, V> where T: Fn(U) -> V, U: Eq + Hash + Copy, V: Eq + Copy {
    /// The calculation whose results are remembered.
    pub closed spec fn calc(&self) -> T {
        self.calculation
    }

    /// The results remembered so far, by argument.
    pub closed spec fn cached(&self) -> Map<U, V> {
        self.values@
    }

    /// Every remembered result is one that the calculation can give for its
    /// argument.
    pub closed spec fn wf(&self) -> bool {
        forall|k: U| #[trigger] self.values@.contains_key(k) ==> call_ensures(self.calculation, (k,), self.values@[k])
    }

    pub fn new(calculation: T) -> (r: Self)
        ensures
            r.calc() == calculation,
            r.cached() == Map::<U, V>::empty(),
            r.wf(),
    {
        Cacher { calculation, values: HashMap::new() }
    }

    /// The result of the calculation on `arg`: the remembered one when there
    /// is one, else a new one, which is then remembered.
    pub fn value(&mut self, arg: U) -> (r: V)
        requires
            old(self).wf(),
            obeys_key_model::<U>(),
            forall|u: U| #[trigger] call_requires(old(self).calc(), (u,)),
        ensures
            final(self).wf(),
            final(self).calc() == old(self).calc(),
            call_ensures(old(self).calc(), (arg,), r),
            old(self).cached().contains_key(arg) ==> r == old(self).cached()[arg],
            final(self).cached() == old(self).cached().insert(arg, r),
    {
        match self.values.get(&arg) {
            Some(v) => {
                let r = *v;
                proof {
                    assert(self.values@.insert(arg, r) =~= self.values@);
                }
                r
            },
            None => {
                proof {
                    assert(call_requires(old(self).calc(), (arg,)));
                }
                let v = (self.calculation)(arg);
                self.values.insert(arg, v);
                v
            },
        }
    }
}

} // verus!
