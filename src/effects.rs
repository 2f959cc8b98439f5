//! Status effects: turn-limited global modifiers, and the outcomes that a
//! wrongly presented item can have.

use crate::money::Money;
use vstd::prelude::*;

verus! {

/// A global modifier that stays active for a number of turns.
#[derive(Clone, Copy, Debug, PartialEq, Eq, Hash, Structural)]
pub enum StatusEffect {
    /// Ambient lights off; a light follows the pointer instead.
    LightsOut,
    /// A full-screen distortion filter.
    Trippy,
    /// Extra waiting every turn, and a chance that the customer leaves.
    Diarrhea,
    /// Counts down from `i32::MAX`: in practice it never ends by itself.
    Cancer,
    /// All chests are moved to random slots, once.
    Reshuffle,
}

/// What a wrongly presented item does.
#[derive(Clone, Copy, Debug, PartialEq, Eq, Structural)]
pub enum SideEffect {
    NoEffect,
    MoneyLoss(Money),
    StatusEffectEnable(StatusEffect, i32),
    CureDiarrhea,
    ToggleCancer,
    CustomerKill,
    Reshuffle,
}

/// The countdown that `Cancer` starts with.
pub const INFINITE_TURNS: i32 = 2147483647;

/// One pass of the per-turn countdown: every counter drops by one, and an
/// effect whose counter would fall below zero is removed.
pub open spec fn pass(m: Map<StatusEffect, int>) -> Map<StatusEffect, int> {
    Map::new(|e: StatusEffect| m.contains_key(e) && m[e] >= 1, |e: StatusEffect| m[e] - 1)
}

/// The counters after `k` passes.
pub open spec fn passes(m: Map<StatusEffect, int>, k: nat) -> Map<StatusEffect, int>
    decreases k,
{
    if k == 0 {
        m
    } else {
        pass(passes(m, (k - 1) as nat))
    }
}

/// An effect enabled with `n` turns left stays active through exactly `n`
/// passes of the countdown, with `n - k` turns left after the `k`-th, and
/// is gone after pass `n + 1`.
pub proof fn lemma_effect_lifetime(m: Map<StatusEffect, int>, e: StatusEffect, n: int, k: nat)
    requires
        m.contains_key(e),
        m[e] == n,
        n >= 0,
    ensures
        passes(m, k).contains_key(e) <==> k <= n,
        k <= n ==> passes(m, k)[e] == n - k,
    decreases k,
{
    if k > 0 {
        lemma_effect_lifetime(m, e, n, (k - 1) as nat);
    }
}

/// The place of each effect in the order in which a turn's pass visits them.
pub open spec fn effect_index(e: StatusEffect) -> int {
    match e {
        StatusEffect::LightsOut => 0,
        StatusEffect::Trippy => 1,
        StatusEffect::Diarrhea => 2,
        StatusEffect::Cancer => 3,
        StatusEffect::Reshuffle => 4,
    }
}

/// The active effects, each with the number of turns it has left.
#[derive(Clone, Copy, Debug)]
pub struct StatusEffects {
    pub lights_out: Option<i32>,
    pub trippy: Option<i32>,
    pub diarrhea: Option<i32>,
    pub cancer: Option<i32>,
    pub reshuffle: Option<i32>,
}

impl StatusEffects {
    pub open spec fn counter(&self, e: StatusEffect) -> Option<i32> {
        match e {
            StatusEffect::LightsOut => self.lights_out,
            StatusEffect::Trippy => self.trippy,
            StatusEffect::Diarrhea => self.diarrhea,
            StatusEffect::Cancer => self.cancer,
            StatusEffect::Reshuffle => self.reshuffle,
        }
    }

    pub open spec fn view(&self) -> Map<StatusEffect, int> {
        Map::new(|e: StatusEffect| self.counter(e) is Some, |e: StatusEffect| self.counter(e)->0 as int)
    }

    /// No counter is negative.
    pub open spec fn wf(&self) -> bool {
        forall|e: StatusEffect| #[trigger] self.counter(e) is Some ==> self.counter(e)->0 >= 0
    }

    pub fn new() -> (r: StatusEffects)
        ensures
            r@ == Map::<StatusEffect, int>::empty(),
            r.wf(),
    {
        let r = StatusEffects {
            lights_out: None,
            trippy: None,
            diarrhea: None,
            cancer: None,
            reshuffle: None,
        };
        assert(r@ =~= Map::<StatusEffect, int>::empty());
        r
    }

    pub fn get(&self, e: StatusEffect) -> (r: Option<i32>)
        ensures
            r == self.counter(e),
            r is Some <==> self@.contains_key(e),
            r is Some ==> r->0 as int == self@[e],
    {
        match e {
            StatusEffect::LightsOut => self.lights_out,
            StatusEffect::Trippy => self.trippy,
            StatusEffect::Diarrhea => self.diarrhea,
            StatusEffect::Cancer => self.cancer,
            StatusEffect::Reshuffle => self.reshuffle,
        }
    }

    pub fn contains(&self, e: StatusEffect) -> (r: bool)
        ensures
            r == self@.contains_key(e),
    {
        self.get(e).is_some()
    }

    fn set(&mut self, e: StatusEffect, c: Option<i32>)
        ensures
            final(self).counter(e) == c,
            forall|f: StatusEffect| f != e ==> #[trigger] final(self).counter(f) == old(self).counter(f),
    {
        match e {
            StatusEffect::LightsOut => self.lights_out = c,
            StatusEffect::Trippy => self.trippy = c,
            StatusEffect::Diarrhea => self.diarrhea = c,
            StatusEffect::Cancer => self.cancer = c,
            StatusEffect::Reshuffle => self.reshuffle = c,
        }
    }

    /// Enables `e` for `turns` more turns, or refreshes its countdown.
    pub fn insert(&mut self, e: StatusEffect, turns: i32)
        requires
            old(self).wf(),
            turns >= 0,
        ensures
            final(self).wf(),
            final(self)@ == old(self)@.insert(e, turns as int),
    {
        self.set(e, Some(turns));
        assert(self@ =~= old(self)@.insert(e, turns as int));
    }

    /// Ends `e`; returns the turns it had left, if it was active.
    pub fn remove(&mut self, e: StatusEffect) -> (r: Option<i32>)
        requires
            old(self).wf(),
        ensures
            final(self).wf(),
            final(self)@ == old(self)@.remove(e),
            r == old(self).counter(e),
    {
        let r = self.get(e);
        self.set(e, None);
        assert(self@ =~= old(self)@.remove(e));
        r
    }

    /// Counts one counter down; true when the effect has just ended.
    fn count_down(&mut self, e: StatusEffect) -> (ended: bool)
        requires
            old(self).wf(),
        ensures
            final(self).wf(),
            final(self).counter(e) == (if old(self).counter(e) is Some && old(self).counter(e)->0
                >= 1 {
                Some((old(self).counter(e)->0 - 1) as i32)
            } else {
                None::<i32>
            }),
            forall|f: StatusEffect| f != e ==> #[trigger] final(self).counter(f) == old(self).counter(f),
            ended == (old(self).counter(e) == Some(0i32)),
    {
        match self.get(e) {
            Some(c) => {
                if c >= 1 {
                    self.set(e, Some(c - 1));
                    false
                } else {
                    self.set(e, None);
                    true
                }
            },
            None => false,
        }
    }

    /// One turn passes: every counter drops by one, and the effects whose
    /// counter would fall below zero end. Returns the effects that ended and
    /// those still active, each in the order `LightsOut`, `Trippy`,
    /// `Diarrhea`, `Cancer`, `Reshuffle`.
    pub fn pass_turn(&mut self) -> (r: (Vec<StatusEffect>, Vec<StatusEffect>))
        requires
            old(self).wf(),
        ensures
            final(self).wf(),
            final(self)@ == pass(old(self)@),
            r.0@.no_duplicates(),
            r.1@.no_duplicates(),
            forall|e: StatusEffect|
                #[trigger] r.0@.contains(e) <==> (old(self)@.contains_key(e) && old(self)@[e] == 0),
            forall|e: StatusEffect| #[trigger] r.1@.contains(e) <==> final(self)@.contains_key(e),
    {
        let ghost s0 = *self;
        let all = vec![
            StatusEffect::LightsOut,
            StatusEffect::Trippy,
            StatusEffect::Diarrhea,
            StatusEffect::Cancer,
            StatusEffect::Reshuffle,
        ];
        let mut ended: Vec<StatusEffect> = Vec::new();
        let mut live: Vec<StatusEffect> = Vec::new();
        assert forall|k: int| 0 <= k < 5 implies effect_index(#[trigger] all@[k]) == k by {
            if k == 0 {
            } else if k == 1 {
            } else if k == 2 {
            } else if k == 3 {
            } else {
            }
        }
        let mut i: usize = 0;
        while i < all.len()
            invariant
                i <= all@.len(),
                all@ == seq![
                    StatusEffect::LightsOut,
                    StatusEffect::Trippy,
                    StatusEffect::Diarrhea,
                    StatusEffect::Cancer,
                    StatusEffect::Reshuffle,
                ],
                forall|k: int| 0 <= k < 5 ==> effect_index(#[trigger] all@[k]) == k,
                self.wf(),
                s0.wf(),
                forall|k: int| 0 <= k < i ==> #[trigger] self.counter(all@[k]) == (if s0.counter(
                    all@[k],
                ) is Some && s0.counter(all@[k])->0 >= 1 {
                    Some((s0.counter(all@[k])->0 - 1) as i32)
                } else {
                    None::<i32>
                }),
                forall|k: int| i <= k < 5 ==> #[trigger] self.counter(all@[k]) == s0.counter(all@[k]),
                ended@.no_duplicates(),
                live@.no_duplicates(),
                forall|e: StatusEffect| #[trigger]
                    ended@.contains(e) <==> (effect_index(e) < i && s0.counter(e) == Some(0i32)),
                forall|e: StatusEffect| #[trigger]
                    live@.contains(e) <==> (effect_index(e) < i && self.counter(e) is Some),
            decreases all@.len() - i,
        {
            let e = all[i];
            let ghost ended0 = ended@;
            let ghost live0 = live@;
            let ghost self0 = *self;
            let gone = self.count_down(e);
            assert(effect_index(e) == i);
            if gone {
                assert(!ended@.contains(e));
                ended.push(e);
            } else if self.contains(e) {
                assert(!live@.contains(e));
                live.push(e);
            }
            assert forall|f: StatusEffect| #[trigger]
                ended@.contains(f) <==> (effect_index(f) < i + 1 && s0.counter(f) == Some(0i32)) by {
                if f != e {
                    if ended@.contains(f) {
                        if gone {
                            let j = choose|j: int| 0 <= j < ended@.len() && ended@[j] == f;
                            assert(ended0[j] == f);
                        }
                    }
                    if ended0.contains(f) {
                        let j = choose|j: int| 0 <= j < ended0.len() && ended0[j] == f;
                        assert(ended@[j] == f);
                    }
                } else if gone {
                    assert(ended@[ended@.len() - 1] == e);
                }
            }
            assert forall|f: StatusEffect| #[trigger]
                live@.contains(f) <==> (effect_index(f) < i + 1 && self.counter(f) is Some) by {
                if f != e {
                    assert(self.counter(f) == self0.counter(f));
                    if live@.contains(f) {
                        if !gone && self.counter(e) is Some {
                            let j = choose|j: int| 0 <= j < live@.len() && live@[j] == f;
                            assert(live0[j] == f);
                        }
                    }
                    if live0.contains(f) {
                        let j = choose|j: int| 0 <= j < live0.len() && live0[j] == f;
                        assert(live@[j] == f);
                    }
                } else if !gone && self.counter(e) is Some {
                    assert(live@[live@.len() - 1] == e);
                }
            }
            i += 1;
        }
        assert forall|e: StatusEffect| true implies #[trigger] self.counter(e) == (if s0.counter(
            e,
        ) is Some && s0.counter(e)->0 >= 1 {
            Some((s0.counter(e)->0 - 1) as i32)
        } else {
            None::<i32>
        }) by {
            let k = effect_index(e);
            assert(all@[k] == e);
        }
        assert(self@ =~= pass(s0@));
        assert forall|e: StatusEffect| #[trigger]
            ended@.contains(e) <==> (s0@.contains_key(e) && s0@[e] == 0) by {
            let k = effect_index(e);
            assert(all@[k] == e);
        }
        assert forall|e: StatusEffect| #[trigger] live@.contains(e) <==> self@.contains_key(e) by {
            let k = effect_index(e);
            assert(all@[k] == e);
        }
        (ended, live)
    }
}

} // verus!
