//! The news feed: leveled narration lines, of which the player sees the
//! most recent ones.

use std::collections::VecDeque;
use vstd::prelude::*;

verus! {

/// How a line of the feed is shown.
#[derive(Clone, Copy, Debug, PartialEq, Eq, Hash, Structural)]
pub enum NewsLevel {
    /// News from the world outside the shop.
    External,
    /// Something that happened in the shop.
    Event,
    /// A customer got what they asked for.
    Correct,
    /// Something went wrong.
    Wrong,
}

/// One line of narration and how it is shown.
#[derive(Debug)]
pub struct NewsFeedUpdate(pub NewsLevel, pub String);

/// How many lines the feed keeps.
pub const MAX_LEN: usize = 20;

/// The last `MAX_LEN` elements of `s`, or all of them if there are fewer.
pub open spec fn recent<T>(s: Seq<T>) -> Seq<T> {
    if s.len() > 20 {
        s.subrange(s.len() - 20, s.len() as int)
    } else {
        s
    }
}

/// The feed, oldest line first.
#[derive(Debug)]
pub struct NewsFeed {
    pub entries: VecDeque<NewsFeedUpdate>,
}

impl NewsFeed {
    pub fn new() -> (r: NewsFeed)
        ensures
            r.entries@.len() == 0,
    {
        NewsFeed { entries: VecDeque::new() }
    }

    /// Appends `updates` in order, then drops the oldest lines until at most
    /// `MAX_LEN` are left.
    pub fn update(&mut self, updates: Vec<NewsFeedUpdate>)
        ensures
            final(self).entries@ == recent(old(self).entries@ + updates@),
    {
        let ghost full = self.entries@ + updates@;
        let mut updates = updates;
        while updates.len() > 0
            invariant
                self.entries@ + updates@ == full,
            decreases updates@.len(),
        {
            let ghost before = self.entries@;
            let ghost rest = updates@;
            let u = updates.remove(0);
            self.entries.push_back(u);
            assert(self.entries@ + updates@ =~= before + rest);
        }
        assert(self.entries@ =~= full);
        while self.entries.len() > MAX_LEN
            invariant
                full.len() >= self.entries@.len(),
                self.entries@ == full.subrange(
                    full.len() - self.entries@.len(),
                    full.len() as int,
                ),
                self.entries@.len() >= 20 || self.entries@ == full,
            decreases self.entries@.len(),
        {
            self.entries.pop_front();
        }
        assert(self.entries@ == recent(full));
    }

    pub fn len(&self) -> (r: usize)
        ensures
            r == self.entries@.len(),
    {
        self.entries.len()
    }
}

} // verus!
