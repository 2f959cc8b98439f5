//! The turn engine: the state of a game, the cues that tell the outside
//! world what to animate, play and show, and the tick that carries out the
//! front instruction of the queue.

use crate::grid::{in_grid, Chests, COLUMNS, ROWS};
use crate::item::Item;
use crate::money::Money;
use crate::news::{NewsFeedUpdate, NewsLevel};
use crate::queue::{advanced, lemma_pending_advanced, lemma_pending_no_waits, pending, script, stage, Instruction};
use crate::effects::{StatusEffect, StatusEffects};
use crate::steps::{
    camera_moved, counted_down, effects_resolved, hidden, presented, request_resolved, same_but_queue,
    same_shop, swapped, turn_ended,
};
use std::collections::VecDeque;
use vstd::prelude::*;

verus! {

/// A sound to play.
#[derive(Clone, Copy, Debug, PartialEq, Eq, Structural)]
pub enum Sound {
    Correct,
    Death,
    Eat,
    Energized,
    Fart,
    Flush,
    Gunshot,
    LargeHit,
    NukeSiren,
    SadTrombone,
    Siren,
    SmallHit,
    Strange,
    WinMusic,
}

/// The height of the arc along which a chest moves.
#[derive(Clone, Copy, Debug, PartialEq, Eq, Structural)]
pub enum Arc {
    /// One chest height.
    Low,
    /// Two chest heights.
    High,
    /// Anywhere from the floor to two chest heights.
    Random,
}

/// What the engine asks of the world outside it: animations, sounds and
/// narration. None of them reports back.
#[derive(Debug)]
pub enum Cue {
    News(NewsFeedUpdate),
    Play(Sound),
    /// Move `chest` from slot `from` to slot `to` (coordinates), lifting it
    /// to the arc's height on the way.
    MoveChest { chest: usize, from: (i32, i32), to: (i32, i32), arc: Arc },
    CameraToFirstChest,
    CameraToRest,
    /// Show this item rising above the front slot.
    PresentItem(Item),
    /// Lower the presented item.
    HideItem,
    /// Remove the presented item from the scene.
    RemoveItem,
    /// Ambient lights on or off; the pointer light is then off or on.
    Lights(bool),
    /// The full-screen distortion filter on or off.
    Distortion(bool),
    /// Raise the chest at this coordinate a little, as hovered.
    LiftChest((i32, i32)),
    /// Put the chest at this coordinate back down.
    LowerChest((i32, i32)),
    /// A step found the state other than a turn's script leaves it, and
    /// went on as this says.
    Diagnostic(&'static str),
}

/// What the player starts with.
pub const STARTING_MONEY: i32 = 1000;

/// The state of a game, owned by the turn engine.
#[derive(Debug)]
pub struct TurnState {
    pub instructions: VecDeque<Instruction>,
    pub chests: Chests,
    pub hovered: Option<(i32, i32)>,
    pub status_effects: StatusEffects,
    /// The item being presented, if any.
    pub active_item: Option<Item>,
    /// What the current customer asked for, and how they put it.
    pub requested_item: Option<(&'static str, Item)>,
    /// The last request that was fulfilled, until the next customer comes.
    pub prev_requested_item: Option<Item>,
    pub customer_number: i32,
    /// Headlines waiting to be shown, one per turn.
    pub global_news: VecDeque<&'static str>,
    /// The war's headlines waiting to be shown, one per turn.
    pub war_news: VecDeque<&'static str>,
    pub war: bool,
    pub win: bool,
    pub money: Money,
}

impl TurnState {
    /// The parts of the state whose shape the engine relies on.
    pub open spec fn wf(&self) -> bool {
        &&& self.chests.wf()
        &&& self.status_effects.wf()
    }

    /// Between turns the queue is empty; during a turn what is left of it
    /// is the end of the script, and an item is presented exactly from the
    /// moment it appears until the status effects are resolved.
    pub open spec fn turn_inv(&self) -> bool {
        let p = pending(self.instructions@);
        &&& p.len() <= 8
        &&& forall|i: int| 0 <= i < p.len() ==> stage(#[trigger] p[i]) == 8 - p.len() + i
        &&& (self.active_item is Some <==> 2 <= p.len() <= 5)
    }
}

/// Whether `c` is the line `text` at `level`.
pub open spec fn says(c: Cue, level: NewsLevel, text: Seq<char>) -> bool {
    c matches Cue::News(u) && u.0 == level && u.1@ == text
}

/// A line of narration.
pub fn line(level: NewsLevel, text: &str) -> (c: Cue)
    ensures
        c matches Cue::News(u) && u.0 == level && u.1@ == text@,
{
    Cue::News(NewsFeedUpdate(level, String::from_str(text)))
}

/// `a`, then `b`, then `c`, as one string.
pub fn join3(a: &str, b: &str, c: &str) -> (r: String)
    ensures
        r@ == a@ + b@ + c@,
{
    let mut r = String::from_str(a);
    r.append(b);
    r.append(c);
    r
}

/// The chest under the pointer, given where the pointer meets the shop
/// floor, in thousandths of a floor unit. Chests stand 1.2 units apart;
/// the grid spans -2.9 to 2.9 across and -2.3 to 2.3 deep.
pub fn chest_under_pointer(x_mm: i32, y_mm: i32) -> (r: Option<(i32, i32)>)
    ensures
        r == (if -2900 <= x_mm < 2900 && -2300 <= y_mm < 2300 {
            Some((((x_mm + 2900) / 1200) as i32, ((y_mm + 2300) / 1200) as i32))
        } else {
            None
        }),
        r matches Some(p) ==> in_grid(p.0 as int, p.1 as int),
{
    if -2900 <= x_mm && x_mm < 2900 && -2300 <= y_mm && y_mm < 2300 {
        Some(((x_mm + 2900) / 1200, (y_mm + 2300) / 1200))
    } else {
        None
    }
}

/// Whether a click on the hovered coordinate `h` starts a turn: it is a
/// chest of the grid other than the front one.
pub open spec fn selectable(h: Option<(i32, i32)>) -> bool {
    h matches Some(p) && in_grid(p.0 as int, p.1 as int) && p != (0i32, 0i32)
}

/// What the pointer hovers when over `target`: that coordinate if it is in
/// the grid, else nothing.
pub open spec fn hover_target(target: Option<(i32, i32)>) -> Option<(i32, i32)> {
    if target matches Some(p) && in_grid(p.0 as int, p.1 as int) {
        target
    } else {
        None
    }
}

/// The two lines that open a game.
pub fn opening_news() -> (r: Vec<NewsFeedUpdate>)
    ensures
        r@.len() == 2,
        r@[0].0 == NewsLevel::External,
        r@[1].0 == NewsLevel::Event,
{
    vec![
        NewsFeedUpdate(NewsLevel::External, String::from_str("News Flash: The local junkyard has a new owner! Maybe now our little town will forget the tragic demise of the previous owner...")),
        NewsFeedUpdate(NewsLevel::Event, String::from_str("It is my honor to welcome my new employer! My name is Trevor Utorial! With any luck, we can redouble the $1000 in your pocket within three days! We should probably write down the inventory before opening shop! Bring a crate to the front to see what is inside!")),
    ]
}

/// What a tick `delta_ms` milliseconds after the last does: nothing when
/// the queue is empty, else what the front instruction's handler does.
pub open spec fn ticked(a: &TurnState, b: &TurnState, delta_ms: u64) -> bool {
    if a.instructions@.len() == 0 {
        same_but_queue(a, b) && b.instructions == a.instructions
    } else {
        match a.instructions@[0] {
            Instruction::Wait(_) => counted_down(a, b, delta_ms),
            Instruction::SwapWithFirst(_, _) => swapped(a, b),
            Instruction::MoveCameraToFirstChest => camera_moved(a, b),
            Instruction::PresentItem => presented(a, b),
            Instruction::ResolveRequest => request_resolved(a, b),
            Instruction::HideItem => hidden(a, b),
            Instruction::MoveCameraToRest => camera_moved(a, b),
            Instruction::ResolveStatusEffects => effects_resolved(a, b),
            Instruction::EndOfTurn => turn_ended(a, b),
        }
    }
}

impl TurnState {
    /// A game about to start with the given chests: no customer yet, no
    /// effect, `STARTING_MONEY` in hand.
    pub fn with_chests(chests: Chests) -> (r: TurnState)
        requires
            chests.wf(),
        ensures
            r.wf(),
            r.turn_inv(),
            r.chests == chests,
            r.instructions@.len() == 0,
            r.hovered is None,
            r.status_effects@ == Map::<StatusEffect, int>::empty(),
            r.active_item is None,
            r.requested_item is None,
            r.prev_requested_item is None,
            r.customer_number == 0,
            r.global_news@.len() == 0,
            r.war_news@.len() == 0,
            !r.war,
            !r.win,
            r.money.spec_value() == STARTING_MONEY,
    {
        TurnState {
            instructions: VecDeque::new(),
            chests,
            hovered: None,
            status_effects: StatusEffects::new(),
            active_item: None,
            requested_item: None,
            prev_requested_item: None,
            customer_number: 0,
            global_news: VecDeque::new(),
            war_news: VecDeque::new(),
            war: false,
            win: false,
            money: Money::new(STARTING_MONEY),
        }
    }

    /// A game about to start, with the starting stock in random chests.
    pub fn new() -> (r: TurnState)
        ensures
            r.wf(),
            r.turn_inv(),
            r.chests@.to_multiset() == crate::grid::stock().to_multiset(),
            r.instructions@.len() == 0,
            r.hovered is None,
            r.status_effects@ == Map::<StatusEffect, int>::empty(),
            r.active_item is None,
            r.requested_item is None,
            r.prev_requested_item is None,
            r.customer_number == 0,
            r.global_news@.len() == 0,
            r.war_news@.len() == 0,
            !r.war,
            !r.win,
            r.money.spec_value() == STARTING_MONEY,
    {
        TurnState::with_chests(Chests::new_random())
    }

    /// Whether a turn is running; clicks and pointer moves are ignored
    /// meanwhile.
    pub fn is_busy(&self) -> (r: bool)
        ensures
            r == (self.instructions@.len() > 0),
    {
        self.instructions.len() > 0
    }

    /// The player clicked. When no turn is running and a chest other than
    /// the front one is hovered, the turn's full script is queued for it
    /// and the hover ends; otherwise the click is ignored.
    pub fn click(&mut self) -> (accepted: bool)
        requires
            old(self).wf(),
        ensures
            final(self).wf(),
            old(self).turn_inv() ==> final(self).turn_inv(),
            accepted == (old(self).instructions@.len() == 0 && selectable(old(self).hovered)),
            accepted ==> final(self).instructions@ == script(old(self).hovered->0)
                && final(self).hovered is None,
            !accepted ==> final(self).instructions == old(self).instructions && final(self).hovered
                == old(self).hovered,
            final(self).chests == old(self).chests,
            final(self).status_effects == old(self).status_effects,
            final(self).active_item == old(self).active_item,
            same_shop(old(self), final(self)),
    {
        if self.instructions.len() > 0 {
            return false;
        }
        match self.hovered {
            Some((x, y)) => {
                if !(0 <= x && x < COLUMNS && 0 <= y && y < ROWS) || (x == 0 && y == 0) {
                    return false;
                }
                self.instructions.push_back(Instruction::SwapWithFirst(x, y));
                self.instructions.push_back(Instruction::MoveCameraToFirstChest);
                self.instructions.push_back(Instruction::PresentItem);
                self.instructions.push_back(Instruction::ResolveRequest);
                self.instructions.push_back(Instruction::HideItem);
                self.instructions.push_back(Instruction::MoveCameraToRest);
                self.instructions.push_back(Instruction::ResolveStatusEffects);
                self.instructions.push_back(Instruction::EndOfTurn);
                self.hovered = None;
                proof {
                    assert(self.instructions@ =~= script((x, y)));
                    lemma_pending_no_waits(self.instructions@);
                    assert(pending(old(self).instructions@) == Seq::<Instruction>::empty());
                }
                true
            },
            None => false,
        }
    }

    /// The pointer moved over `target` (a chest's coordinate, or `None`
    /// off the grid). While no turn is running, the hovered chest is lifted
    /// and the one hovered before is put back.
    pub fn pointer_moved(&mut self, target: Option<(i32, i32)>) -> (cues: Vec<Cue>)
        ensures
            old(self).instructions@.len() > 0 ==> final(self).hovered == old(self).hovered
                && cues@.len() == 0,
            old(self).instructions@.len() == 0 ==> {
                let over = hover_target(target);
                &&& final(self).hovered == over
                &&& over is Some && old(self).hovered == over ==> cues@.len() == 0
                &&& over is Some && old(self).hovered != over ==> cues@.last() == Cue::LiftChest(
                    over->0,
                ) && cues@.len() == (if old(self).hovered is Some {
                    2int
                } else {
                    1int
                })
                &&& over is None ==> cues@.len() == (if old(self).hovered is Some {
                    1int
                } else {
                    0int
                })
                &&& old(self).hovered is Some && final(self).hovered != old(self).hovered
                    ==> cues@[0] == Cue::LowerChest(old(self).hovered->0)
            },
            final(self).instructions == old(self).instructions,
            final(self).chests == old(self).chests,
            final(self).status_effects == old(self).status_effects,
            final(self).active_item == old(self).active_item,
            same_shop(old(self), final(self)),
    {
        let mut cues: Vec<Cue> = Vec::new();
        if self.instructions.len() > 0 {
            return cues;
        }
        let over = match target {
            Some((x, y)) => if 0 <= x && x < COLUMNS && 0 <= y && y < ROWS {
                target
            } else {
                None
            },
            None => None,
        };
        if over == self.hovered {
            return cues;
        }
        if let Some(old_pos) = self.hovered {
            cues.push(Cue::LowerChest(old_pos));
        }
        if let Some(pos) = over {
            cues.push(Cue::LiftChest(pos));
        }
        self.hovered = over;
        cues
    }

    /// One tick of the engine, `delta_ms` milliseconds after the last: the
    /// instruction at the front of the queue, and only that one, is carried
    /// out by its handler. A wait counts down; any other instruction is
    /// consumed, leaving a wait in its place or nothing.
    pub fn step(&mut self, delta_ms: u64) -> (cues: Vec<Cue>)
        requires
            old(self).wf(),
        ensures
            final(self).wf(),
            ticked(old(self), final(self), delta_ms),
            advanced(old(self).instructions@, final(self).instructions@),
            old(self).instructions@.len() > 0 && old(self).instructions@[0] is Wait ==> pending(
                final(self).instructions@,
            ) == pending(old(self).instructions@),
            old(self).instructions@.len() > 0 && !(old(self).instructions@[0] is Wait) ==> pending(
                final(self).instructions@,
            ) == pending(old(self).instructions@).drop_first(),
            old(self).turn_inv() ==> final(self).turn_inv(),
    {
        if self.instructions.len() == 0 {
            return Vec::new();
        }
        let ghost s0 = self.active_item;
        let cues = match self.instructions[0] {
            Instruction::Wait(_) => {
                self.wait(delta_ms);
                Vec::new()
            },
            Instruction::SwapWithFirst(_, _) => self.swap_with_first(),
            Instruction::MoveCameraToFirstChest => self.camera_to_first(),
            Instruction::PresentItem => self.present_item(),
            Instruction::ResolveRequest => self.resolve_request(),
            Instruction::HideItem => self.hide_item(),
            Instruction::MoveCameraToRest => self.camera_to_rest(),
            Instruction::ResolveStatusEffects => self.resolve_status_effects(),
            Instruction::EndOfTurn => self.end_of_turn(),
        };
        proof {
            let q0 = old(self).instructions@;
            let q1 = self.instructions@;
            lemma_pending_advanced(q0, q1);
            if old(self).turn_inv() {
                let p0 = pending(q0);
                let p1 = pending(q1);
                if !(q0[0] is Wait) {
                    assert(stage(p0[0]) == 8 - p0.len());
                    assert forall|i: int| 0 <= i < p1.len() implies stage(#[trigger] p1[i]) == 8
                        - p1.len() + i by {
                        assert(p1[i] == p0[i + 1]);
                    }
                }
            }
        }
        cues
    }
}

} // verus!
