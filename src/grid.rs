//! The chest grid: 20 chests in a 5 by 4 grid of slots. A chest keeps its
//! item; swaps and reshuffles move chests between slots.

use crate::item::Item;
use crate::random::shuffle;
use vstd::multiset::Multiset;
use vstd::prelude::*;
use vstd::seq_lib::{to_multiset_build, to_multiset_contains, to_multiset_len, to_multiset_remove};

verus! {

pub const COLUMNS: i32 = 5;

pub const ROWS: i32 = 4;

pub const SLOTS: usize = 20;

/// Whether `(x, y)` names a slot of the grid.
pub open spec fn in_grid(x: int, y: int) -> bool {
    0 <= x < 5 && 0 <= y < 4
}

/// The slot of coordinate `(x, y)`; `(0, 0)` is the front slot, slot 0.
pub open spec fn slot_index(x: int, y: int) -> int {
    x * 4 + y
}

/// The coordinate of slot `s`.
pub open spec fn slot_coord(s: int) -> (int, int) {
    (s / 4, s % 4)
}

/// Permuting a sequence permutes its image under any function.
pub proof fn lemma_map_keeps_multiset<A, B>(p: Seq<A>, q: Seq<A>, f: spec_fn(A) -> B)
    requires
        p.to_multiset() == q.to_multiset(),
    ensures
        p.map_values(f).to_multiset() == q.map_values(f).to_multiset(),
    decreases p.len(),
{
    broadcast use vstd::multiset::group_multiset_axioms;

    to_multiset_len(p);
    to_multiset_len(q);
    if p.len() == 0 {
        assert(p.map_values(f) =~= q.map_values(f));
    } else {
        let x = p.last();
        let p1 = p.drop_last();
        assert(p == p1.push(x));
        to_multiset_build(p1, x);
        to_multiset_contains(q, x);
        assert(q.to_multiset().count(x) > 0);
        let i = choose|i: int| 0 <= i < q.len() && q[i] == x;
        let q1 = q.remove(i);
        to_multiset_remove(q, i);
        assert(p1.to_multiset() =~= q1.to_multiset());
        lemma_map_keeps_multiset(p1, q1, f);
        let pm = p.map_values(f);
        let qm = q.map_values(f);
        assert(pm == p1.map_values(f).push(f(x)));
        to_multiset_build(p1.map_values(f), f(x));
        assert(qm.remove(i) =~= q1.map_values(f));
        to_multiset_remove(qm, i);
        to_multiset_contains(qm, f(x));
        assert(qm[i] == f(x));
        assert(pm.to_multiset() =~= qm.to_multiset());
    }
}

/// The chests of the grid. Chest `c` holds `contents[c]` for the whole
/// game; `layout[s]` is the chest that stands in slot `s`.
#[derive(Debug)]
pub struct Chests {
    layout: Vec<usize>,
    contents: Vec<Item>,
}

impl Chests {
    pub closed spec fn layout(&self) -> Seq<usize> {
        self.layout@
    }

    pub closed spec fn contents(&self) -> Seq<Item> {
        self.contents@
    }

    /// Every slot holds one chest and every chest stands in one slot.
    pub open spec fn wf(&self) -> bool {
        &&& self.layout().len() == 20
        &&& self.contents().len() == 20
        &&& self.layout().no_duplicates()
        &&& forall|s: int| 0 <= s < 20 ==> #[trigger] self.layout()[s] < 20
    }

    /// The item in each slot.
    pub open spec fn view(&self) -> Seq<Item> {
        self.layout().map_values(|c: usize| self.contents()[c as int])
    }

    /// A grid with chest `c` in slot `c`, holding `items[c]`.
    pub fn from_items(items: Vec<Item>) -> (r: Chests)
        requires
            items@.len() == 20,
        ensures
            r.wf(),
            r@ == items@,
            r.contents() == items@,
    {
        let mut layout: Vec<usize> = Vec::new();
        let mut c: usize = 0;
        while c < SLOTS
            invariant
                c <= 20,
                layout@.len() == c,
                forall|s: int| 0 <= s < c ==> layout@[s] == s,
            decreases 20 - c,
        {
            layout.push(c);
            c += 1;
        }
        let r = Chests { layout, contents: items };
        assert(r@ =~= items@);
        r
    }

    /// The starting grid: two barrels, six burgers, three guns, three pills
    /// and six screwdrivers, in random slots.
    pub fn new_random() -> (r: Chests)
        ensures
            r.wf(),
            r@.to_multiset() == stock().to_multiset(),
    {
        let mut items: Vec<Item> = Vec::new();
        let mut k: usize = 0;
        while k < SLOTS
            invariant
                k <= 20,
                items@ == stock().subrange(0, k as int),
            decreases 20 - k,
        {
            let it = if k < 2 {
                Item::Barrel
            } else if k < 8 {
                Item::Burger
            } else if k < 11 {
                Item::Gun
            } else if k < 14 {
                Item::Pill
            } else {
                Item::Screwdriver
            };
            items.push(it);
            assert(stock().subrange(0, k + 1) =~= stock().subrange(0, k as int).push(it));
            k += 1;
        }
        assert(items@ =~= stock());
        let ghost before = items@;
        shuffle(&mut items);
        proof {
            to_multiset_len(before);
            to_multiset_len(items@);
        }
        Chests::from_items(items)
    }

    /// The chest in slot `(x, y)`, and its item.
    pub fn chest_at(&self, x: i32, y: i32) -> (r: (usize, Item))
        requires
            self.wf(),
            in_grid(x as int, y as int),
        ensures
            r.0 == self.layout()[slot_index(x as int, y as int)],
            r.1 == self@[slot_index(x as int, y as int)],
    {
        let c = self.layout[(x * ROWS + y) as usize];
        (c, self.contents[c])
    }

    /// The item in the front slot.
    pub fn front_item(&self) -> (r: Item)
        requires
            self.wf(),
        ensures
            r == self@[0],
    {
        self.contents[self.layout[0]]
    }

    /// Exchanges the chest in slot `(x, y)` with the one in the front slot.
    pub fn swap_with_first(&mut self, x: i32, y: i32)
        requires
            old(self).wf(),
            in_grid(x as int, y as int),
        ensures
            final(self).wf(),
            final(self).contents() == old(self).contents(),
            final(self).layout() == old(self).layout().update(0, old(self).layout()[slot_index(
                x as int,
                y as int,
            )]).update(slot_index(x as int, y as int), old(self).layout()[0]),
            final(self)@ == old(self)@.update(0, old(self)@[slot_index(x as int, y as int)]).update(
                slot_index(x as int, y as int),
                old(self)@[0],
            ),
    {
        let s = (x * ROWS + y) as usize;
        let first = self.layout[0];
        let other = self.layout[s];
        self.layout.set(0, other);
        self.layout.set(s, first);
        let ghost l0 = old(self).layout@;
        assert forall|a: int, b: int|
            0 <= a < 20 && 0 <= b < 20 && a != b implies self.layout@[a] != self.layout@[b] by {
            let pa = if a == s {
                0
            } else if a == 0 {
                s as int
            } else {
                a
            };
            let pb = if b == s {
                0
            } else if b == 0 {
                s as int
            } else {
                b
            };
            assert(self.layout@[a] == l0[pa]);
            assert(self.layout@[b] == l0[pb]);
        }
        assert(self@ =~= old(self)@.update(0, old(self)@[s as int]).update(s as int, old(self)@[0]));
    }

    /// Moves every chest to a random slot. Returns, for each slot `s`, the
    /// chest now in it and the slot it came from.
    pub fn reshuffle(&mut self) -> (moves: Vec<(usize, usize)>)
        requires
            old(self).wf(),
        ensures
            final(self).wf(),
            final(self).contents() == old(self).contents(),
            final(self).layout().to_multiset() == old(self).layout().to_multiset(),
            final(self)@.to_multiset() == old(self)@.to_multiset(),
            moves@.len() == 20,
            forall|s: int|
                0 <= s < 20 ==> {
                    &&& (#[trigger] moves@[s]).0 == final(self).layout()[s]
                    &&& moves@[s].1 < 20
                    &&& old(self).layout()[moves@[s].1 as int] == moves@[s].0
                },
    {
        let ghost l0 = self.layout@;
        // where each chest stood before
        let mut from: Vec<usize> = Vec::new();
        let mut c: usize = 0;
        while c < SLOTS
            invariant
                c <= 20,
                from@.len() == c,
            decreases 20 - c,
        {
            from.push(0);
            c += 1;
        }
        let mut s: usize = 0;
        while s < SLOTS
            invariant
                s <= 20,
                self.wf(),
                self.layout@ == l0,
                from@.len() == 20,
                forall|t: int| 0 <= t < s ==> from@[#[trigger] l0[t] as int] == t,
            decreases 20 - s,
        {
            let c = self.layout[s];
            from.set(c, s);
            assert forall|t: int| 0 <= t < s + 1 implies from@[#[trigger] l0[t] as int] == t by {
                if t < s {
                    assert(l0[t] != l0[s as int]);
                }
            }
            s += 1;
        }
        let ghost contents = self.contents@;
        shuffle(&mut self.layout);
        let ghost l1 = self.layout@;
        proof {
            to_multiset_len(l0);
            to_multiset_len(l1);
            l0.lemma_multiset_has_no_duplicates();
            assert forall|x: usize| l1.to_multiset().contains(x) implies l1.to_multiset().count(x)
                == 1 by {}
            l1.lemma_multiset_has_no_duplicates_conv();
            assert forall|t: int| 0 <= t < 20 implies #[trigger] l1[t] < 20 by {
                to_multiset_contains(l1, l1[t]);
                to_multiset_contains(l0, l1[t]);
                assert(l1.contains(l1[t]));
            }
            lemma_map_keeps_multiset(l0, l1, |c: usize| contents[c as int]);
        }
        let mut moves: Vec<(usize, usize)> = Vec::new();
        let mut s: usize = 0;
        while s < SLOTS
            invariant
                s <= 20,
                self.wf(),
                self.layout@ == l1,
                from@.len() == 20,
                forall|t: int| 0 <= t < 20 ==> from@[#[trigger] l0[t] as int] == t,
                l0.to_multiset() == l1.to_multiset(),
                l0.len() == 20,
                forall|t: int| 0 <= t < 20 ==> #[trigger] l0[t] < 20,
                moves@.len() == s,
                forall|t: int|
                    0 <= t < s ==> {
                        &&& (#[trigger] moves@[t]).0 == l1[t]
                        &&& moves@[t].1 < 20
                        &&& l0[moves@[t].1 as int] == moves@[t].0
                    },
            decreases 20 - s,
        {
            let c = self.layout[s];
            proof {
                to_multiset_contains(l1, c);
                to_multiset_contains(l0, c);
                assert(l1.contains(c));
                let t = choose|t: int| 0 <= t < l0.len() && l0[t] == c;
                assert(from@[c as int] == t);
            }
            moves.push((c, from[c]));
            s += 1;
        }
        moves
    }
}

/// The starting stock, grouped by item.
pub open spec fn stock() -> Seq<Item> {
    Seq::new(
        20,
        |k: int|
            if k < 2 {
                Item::Barrel
            } else if k < 8 {
                Item::Burger
            } else if k < 11 {
                Item::Gun
            } else if k < 14 {
                Item::Pill
            } else {
                Item::Screwdriver
            },
    )
}

} // verus!
