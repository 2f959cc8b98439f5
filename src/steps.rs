//! What each instruction does when it reaches the front of the queue.

use crate::effects::{pass, SideEffect, StatusEffect, StatusEffects, INFINITE_TURNS};
use crate::grid::{in_grid, slot_coord, slot_index, COLUMNS, ROWS};
use crate::item::{drawable, possible_outcome, possible_side_effect, within_jitter, Item, FINALE_TURN};
use crate::money::{clamp_i32, decimal, int_chars, money_chars, Money};
use crate::news::{NewsFeedUpdate, NewsLevel};
use crate::queue::{replace_front, take_front, Instruction};
use crate::random::{pick, roll};
use crate::turn::{join3, line, says, Arc, Cue, Sound, TurnState};
use vstd::prelude::*;

verus! {

/// How long the chest swap animation takes, in milliseconds.
pub const SWAP_MS: u64 = 1000;

/// How long a camera move takes, in milliseconds.
pub const CAMERA_MS: u64 = 1000;

/// How long the presented item takes to rise or sink, in milliseconds.
pub const PRESENT_MS: u64 = 2000;

/// How long the player reads the outcome of a request, in milliseconds.
pub const RESOLVE_MS: u64 = 2000;

/// The extra wait that a reshuffle takes, in milliseconds.
pub const RESHUFFLE_MS: u64 = 1000;

/// The extra wait that a toilet run takes, in milliseconds.
pub const TOILET_MS: u64 = 5000;

/// What a shot customer's funeral costs.
pub const FUNERAL_COST: i32 = 5000;

/// Reported when a swap names a coordinate outside the grid.
pub const OFF_GRID: &'static str = "a swap named a slot outside the grid; skipped";

/// Reported when an item is presented while another is still on show.
pub const STILL_PRESENTED: &'static str = "an item was still presented; removed it";

/// Reported when a step needs a presented item and there is none.
pub const NOTHING_PRESENTED: &'static str = "no item is presented; step skipped";

/// Everything but the queue is the same in both states.
pub open spec fn same_but_queue(a: &TurnState, b: &TurnState) -> bool {
    &&& a.chests == b.chests
    &&& a.hovered == b.hovered
    &&& a.status_effects == b.status_effects
    &&& a.active_item == b.active_item
    &&& same_shop(a, b)
}

/// The front instruction is replaced by a wait of `ms` milliseconds.
pub open spec fn waits(a: &TurnState, b: &TurnState, ms: u64) -> bool {
    b.instructions@ == a.instructions@.update(0, Instruction::Wait(ms))
}

/// The front instruction leaves the queue.
pub open spec fn skipped(a: &TurnState, b: &TurnState) -> bool {
    b.instructions@ == a.instructions@.drop_first()
}

/// The customer, the news and the balance are as they were.
pub open spec fn same_shop(a: &TurnState, b: &TurnState) -> bool {
    &&& a.requested_item == b.requested_item
    &&& a.prev_requested_item == b.prev_requested_item
    &&& a.customer_number == b.customer_number
    &&& a.global_news == b.global_news
    &&& a.war_news == b.war_news
    &&& a.war == b.war
    &&& a.win == b.win
    &&& a.money == b.money
}

/// What a wait at the front does `delta` milliseconds later: it counts
/// down, and leaves the queue once it reaches zero.
pub open spec fn counted_down(a: &TurnState, b: &TurnState, delta: u64) -> bool {
    let r = a.instructions@[0]->Wait_0;
    &&& same_but_queue(a, b)
    &&& r <= delta ==> skipped(a, b)
    &&& r > delta ==> waits(a, b, (r - delta) as u64)
}

/// What `SwapWithFirst(x, y)` at the front does: the chests at `(x, y)`
/// and at the front change places, and the step waits for them; outside
/// the grid the step is skipped.
pub open spec fn swapped(a: &TurnState, b: &TurnState) -> bool {
    let x = a.instructions@[0]->SwapWithFirst_0 as int;
    let y = a.instructions@[0]->SwapWithFirst_1 as int;
    &&& b.chests.wf()
    &&& in_grid(x, y) ==> {
        &&& waits(a, b, SWAP_MS)
        &&& b.chests@ == a.chests@.update(0, a.chests@[slot_index(x, y)]).update(
            slot_index(x, y),
            a.chests@[0],
        )
        &&& b.chests.layout() == a.chests.layout().update(0, a.chests.layout()[slot_index(x, y)]).update(
            slot_index(x, y),
            a.chests.layout()[0],
        )
        &&& b.chests.contents() == a.chests.contents()
    }
    &&& !in_grid(x, y) ==> skipped(a, b) && b.chests == a.chests
    &&& b.hovered == a.hovered
    &&& b.status_effects == a.status_effects
    &&& b.active_item == a.active_item
    &&& same_shop(a, b)
}

/// What a camera move at the front does: the step waits for the camera.
pub open spec fn camera_moved(a: &TurnState, b: &TurnState) -> bool {
    same_but_queue(a, b) && waits(a, b, CAMERA_MS)
}

/// What `PresentItem` at the front does: the front chest's item is
/// presented, or a gun when no customer waits, and the step waits for it
/// to rise.
pub open spec fn presented(a: &TurnState, b: &TurnState) -> bool {
    &&& waits(a, b, PRESENT_MS)
    &&& b.active_item == Some(
        if a.requested_item is Some {
            a.chests@[0]
        } else {
            Item::Gun
        },
    )
    &&& b.chests == a.chests
    &&& b.hovered == a.hovered
    &&& b.status_effects == a.status_effects
    &&& same_shop(a, b)
}

/// What `HideItem` at the front does: the step waits for the item to sink;
/// it is skipped when no item is presented.
pub open spec fn hidden(a: &TurnState, b: &TurnState) -> bool {
    &&& same_but_queue(a, b)
    &&& a.active_item is Some ==> waits(a, b, PRESENT_MS)
    &&& a.active_item is None ==> skipped(a, b)
}

impl TurnState {
    /// A `Wait` at the front counts down by the time elapsed, and leaves
    /// the queue once it reaches zero.
    pub fn wait(&mut self, delta_ms: u64)
        requires
            old(self).instructions@.len() > 0,
            old(self).instructions@[0] is Wait,
        ensures
            counted_down(old(self), final(self), delta_ms),
    {
        if let Instruction::Wait(remaining) = self.instructions[0] {
            if remaining <= delta_ms {
                take_front(&mut self.instructions);
            } else {
                replace_front(&mut self.instructions, Instruction::Wait(remaining - delta_ms));
            }
        }
    }

    /// Exchanges the picked chest with the front one, the two crossing on
    /// arcs of different heights, and waits for them to land. A coordinate
    /// outside the grid is skipped.
    pub fn swap_with_first(&mut self) -> (cues: Vec<Cue>)
        requires
            old(self).wf(),
            old(self).instructions@.len() > 0,
            old(self).instructions@[0] is SwapWithFirst,
        ensures
            final(self).wf(),
            swapped(old(self), final(self)),
            ({
                let x = old(self).instructions@[0]->SwapWithFirst_0;
                let y = old(self).instructions@[0]->SwapWithFirst_1;
                &&& in_grid(x as int, y as int) ==> cues@ == seq![
                    Cue::MoveChest {
                        chest: old(self).chests.layout()[0],
                        from: (0i32, 0i32),
                        to: (x, y),
                        arc: Arc::High,
                    },
                    Cue::MoveChest {
                        chest: old(self).chests.layout()[slot_index(x as int, y as int)],
                        from: (x, y),
                        to: (0i32, 0i32),
                        arc: Arc::Low,
                    },
                ]
                &&& !in_grid(x as int, y as int) ==> cues@ == seq![Cue::Diagnostic(OFF_GRID)]
            }),
    {
        let mut cues: Vec<Cue> = Vec::new();
        if let Instruction::SwapWithFirst(x, y) = self.instructions[0] {
            if 0 <= x && x < COLUMNS && 0 <= y && y < ROWS {
                let (front, _) = self.chests.chest_at(0, 0);
                let (picked, _) = self.chests.chest_at(x, y);
                cues.push(Cue::MoveChest { chest: front, from: (0, 0), to: (x, y), arc: Arc::High });
                cues.push(Cue::MoveChest { chest: picked, from: (x, y), to: (0, 0), arc: Arc::Low });
                self.chests.swap_with_first(x, y);
                replace_front(&mut self.instructions, Instruction::Wait(SWAP_MS));
            } else {
                take_front(&mut self.instructions);
                cues.push(Cue::Diagnostic(OFF_GRID));
            }
        }
        cues
    }

    /// Moves the camera to look at the front slot, and waits for it.
    pub fn camera_to_first(&mut self) -> (cues: Vec<Cue>)
        requires
            old(self).instructions@.len() > 0,
            old(self).instructions@[0] is MoveCameraToFirstChest,
        ensures
            camera_moved(old(self), final(self)),
            cues@ == seq![Cue::CameraToFirstChest],
    {
        replace_front(&mut self.instructions, Instruction::Wait(CAMERA_MS));
        vec![Cue::CameraToFirstChest]
    }

    /// Moves the camera back to its resting place, and waits for it.
    pub fn camera_to_rest(&mut self) -> (cues: Vec<Cue>)
        requires
            old(self).instructions@.len() > 0,
            old(self).instructions@[0] is MoveCameraToRest,
        ensures
            camera_moved(old(self), final(self)),
            cues@ == seq![Cue::CameraToRest],
    {
        replace_front(&mut self.instructions, Instruction::Wait(CAMERA_MS));
        vec![Cue::CameraToRest]
    }

    /// Presents the item of the front chest, or a gun when no customer is
    /// waiting, and waits for it to rise. An item still on show is removed
    /// first.
    pub fn present_item(&mut self) -> (cues: Vec<Cue>)
        requires
            old(self).wf(),
            old(self).instructions@.len() > 0,
            old(self).instructions@[0] is PresentItem,
        ensures
            presented(old(self), final(self)),
            old(self).active_item is Some ==> cues@ == seq![
                Cue::Diagnostic(STILL_PRESENTED),
                Cue::RemoveItem,
                Cue::PresentItem(final(self).active_item->0),
            ],
            old(self).active_item is None ==> cues@ == seq![
                Cue::PresentItem(final(self).active_item->0),
            ],
    {
        let mut cues: Vec<Cue> = Vec::new();
        if self.active_item.is_some() {
            cues.push(Cue::Diagnostic(STILL_PRESENTED));
            cues.push(Cue::RemoveItem);
        }
        let item = if self.requested_item.is_some() {
            self.chests.front_item()
        } else {
            Item::Gun
        };
        self.active_item = Some(item);
        cues.push(Cue::PresentItem(item));
        replace_front(&mut self.instructions, Instruction::Wait(PRESENT_MS));
        cues
    }

    /// Lowers the presented item, and waits for it. Skipped when no item is
    /// presented.
    pub fn hide_item(&mut self) -> (cues: Vec<Cue>)
        requires
            old(self).instructions@.len() > 0,
            old(self).instructions@[0] is HideItem,
        ensures
            hidden(old(self), final(self)),
            old(self).active_item is Some ==> cues@ == seq![Cue::HideItem],
            old(self).active_item is None ==> cues@ == seq![Cue::Diagnostic(NOTHING_PRESENTED)],
    {
        if self.active_item.is_none() {
            take_front(&mut self.instructions);
            return vec![Cue::Diagnostic(NOTHING_PRESENTED)];
        }
        replace_front(&mut self.instructions, Instruction::Wait(PRESENT_MS));
        vec![Cue::HideItem]
    }
}

/// The status effects after a mishap with outcome `e`.
pub open spec fn effects_after(m: Map<StatusEffect, int>, e: SideEffect) -> Map<StatusEffect, int> {
    match e {
        SideEffect::StatusEffectEnable(s, n) => m.insert(s, n as int),
        SideEffect::CureDiarrhea => m.remove(StatusEffect::Diarrhea),
        SideEffect::ToggleCancer => if m.contains_key(StatusEffect::Cancer) {
            m.remove(StatusEffect::Cancer)
        } else {
            m.insert(StatusEffect::Cancer, INFINITE_TURNS as int)
        },
        SideEffect::Reshuffle => m.insert(StatusEffect::Reshuffle, 1),
        _ => m,
    }
}

/// The balance after a mishap with outcome `e`.
pub open spec fn money_after(m: Money, e: SideEffect) -> int {
    match e {
        SideEffect::MoneyLoss(loss) => clamp_i32(m.spec_value() - loss.spec_value()) as int,
        _ => m.spec_value(),
    }
}

/// The request after a mishap with outcome `e`.
pub open spec fn request_after(r: Option<(&'static str, Item)>, e: SideEffect) -> Option<
    (&'static str, Item),
> {
    if e is CustomerKill {
        None
    } else {
        r
    }
}

/// An outcome that the engine can apply: status effects last zero turns
/// or more.
pub open spec fn applicable(e: SideEffect) -> bool {
    e matches SideEffect::StatusEffectEnable(_, n) ==> n >= 0
}

/// The war's headlines, in the order they are shown.
pub open spec fn war_story() -> Seq<&'static str> {
    seq![
        "Dirty bomb exploded in the capital of neigboring country, they blame our army!",
        "Our country retaliates with nukes! For the motherland!",
        "World war! Every country launches nukes to everyone!",
        "Seriously, stop playing. You won, but you destroyed the world in the process. Mankind is not the same anymore. You are a millionaire in a world where money has no meaning. Sleep tight.",
    ]
}

/// What a mishap's narration ends with: the new balance after a loss, or
/// the news of a cure or of cancer.
pub open spec fn mishap_note(m: Map<StatusEffect, int>, e: SideEffect, balance: int) -> Seq<char> {
    match e {
        SideEffect::MoneyLoss(_) => " Your new balance is "@ + money_chars(balance) + "."@,
        SideEffect::CureDiarrhea => if m.contains_key(StatusEffect::Diarrhea) {
            " Your diarrhea was cured! The power of Imodium will turn the hands of fate!"@
        } else {
            Seq::empty()
        },
        SideEffect::ToggleCancer => if m.contains_key(StatusEffect::Cancer) {
            "The radiation cured your cancer!"@
        } else {
            "You got cancer! You probably won't find out before 5 years pass, though."@
        },
        _ => Seq::empty(),
    }
}

/// A customer paid `gain` for `item`, which they asked for: the request is
/// closed and remembered, and a radioactive barrel starts the war.
pub open spec fn paid(a: &TurnState, b: &TurnState, item: Item, gain: Money) -> bool {
    &&& b.money.spec_value() == clamp_i32(a.money.spec_value() + gain.spec_value())
    &&& b.prev_requested_item == Some(item)
    &&& b.requested_item is None
    &&& item == Item::Barrel ==> b.war && b.war_news@ == a.war_news@ + war_story()
    &&& item != Item::Barrel ==> b.war == a.war && b.war_news == a.war_news
    &&& b.status_effects == a.status_effects
}

/// The mishap `e` happened to the player.
pub open spec fn suffered(a: &TurnState, b: &TurnState, e: SideEffect) -> bool {
    &&& b.status_effects@ == effects_after(a.status_effects@, e)
    &&& b.money.spec_value() == money_after(a.money, e)
    &&& b.requested_item == request_after(a.requested_item, e)
    &&& b.prev_requested_item == a.prev_requested_item
    &&& b.war == a.war
    &&& b.war_news == a.war_news
}

/// The gun went off with no customer there: the funeral costs
/// `FUNERAL_COST`, and the chests get reshuffled once.
pub open spec fn misfired(a: &TurnState, b: &TurnState) -> bool {
    &&& b.money.spec_value() == clamp_i32(a.money.spec_value() - FUNERAL_COST)
    &&& b.status_effects@ == a.status_effects@.insert(StatusEffect::Reshuffle, 1)
    &&& b.requested_item == a.requested_item
    &&& b.prev_requested_item == a.prev_requested_item
    &&& b.war == a.war
    &&& b.war_news == a.war_news
}

/// Whether the mishap `e` cured an active effect, which a jingle greets.
pub open spec fn cured(m: Map<StatusEffect, int>, e: SideEffect) -> bool {
    ||| (e is CureDiarrhea && m.contains_key(StatusEffect::Diarrhea))
    ||| (e is ToggleCancer && m.contains_key(StatusEffect::Cancer))
}

/// The cues of a delivery: the jingle, then the one Correct line naming
/// what was found, the payment and the new balance.
pub open spec fn delivery_told(b: &TurnState, found: Seq<char>, gain: Money, cues: Seq<Cue>) -> bool {
    &&& cues.len() == 2
    &&& cues[0] == Cue::Play(Sound::Correct)
    &&& says(
        cues[1],
        NewsLevel::Correct,
        "Success! You found a box of "@ + found + ", as the customer requested! They paid you "@
            + money_chars(gain.spec_value()) + "! Your new balance is "@ + money_chars(
            b.money.spec_value(),
        ) + "."@,
    )
}

/// The cues of a mishap: a jingle only when something was cured, then the
/// one Wrong line naming the request, what was found, the story and its
/// ending.
pub open spec fn mishap_told(
    a: &TurnState,
    b: &TurnState,
    found: Seq<char>,
    story: Seq<char>,
    e: SideEffect,
    cues: Seq<Cue>,
) -> bool {
    let text = "Customer requested "@ + (a.requested_item->0).0@ + ", but you found "@ + found
        + " instead! "@ + story + mishap_note(a.status_effects@, e, b.money.spec_value());
    &&& cues.len() == (if cured(a.status_effects@, e) {
        2int
    } else {
        1int
    })
    &&& cured(a.status_effects@, e) ==> cues[0] == Cue::Play(Sound::Correct)
    &&& says(cues.last(), NewsLevel::Wrong, text)
}

/// The cues of a misfire: a gunshot and a hit, then three Wrong lines, the
/// last naming the funeral's cost and the new balance.
pub open spec fn misfire_told(b: &TurnState, cues: Seq<Cue>) -> bool {
    &&& cues.len() == 5
    &&& cues[0] == Cue::Play(Sound::Gunshot)
    &&& cues[1] == Cue::Play(Sound::LargeHit)
    &&& says(
        cues[2],
        NewsLevel::Wrong,
        "Oh no, the firearm discharged in your hands and T. Utorial lies dead inside a pool of blood..."@,
    )
    &&& says(
        cues[3],
        NewsLevel::Wrong,
        "After cleaning up, the realization hits you like that bullet hit Mr Utorial - you are on your own!"@,
    )
    &&& says(
        cues[4],
        NewsLevel::Wrong,
        "Cleaning up messed the boxes, while the funeral cost "@ + money_chars(FUNERAL_COST as int)
            + ". Your new balance is "@ + money_chars(b.money.spec_value()) + "."@,
    )
}

/// The cues of `ResolveRequest`, told for the outcome that
/// `request_resolved` describes.
pub open spec fn request_told(a: &TurnState, b: &TurnState, cues: Seq<Cue>) -> bool {
    match a.active_item {
        None => cues.len() == 1 && cues[0] == Cue::Diagnostic(NOTHING_PRESENTED),
        Some(item) => match a.requested_item {
            None => misfire_told(b, cues),
            Some(request) => if request.1 == item {
                exists|found: &'static str, gain: Money|
                    #![trigger delivery_told(b, found@, gain, cues)]
                    item.found_words().contains(found) && within_jitter(item.gain_base(), gain)
                        && paid(a, b, item, gain) && delivery_told(b, found@, gain, cues)
            } else {
                exists|found: &'static str, story: Seq<char>, e: SideEffect|
                    #![trigger mishap_told(a, b, found@, story, e, cues)]
                    item.found_words().contains(found) && possible_outcome(item, story, e)
                        && suffered(a, b, e) && mishap_told(a, b, found@, story, e, cues)
            },
        },
    }
}

/// What `ResolveRequest` at the front does. With no item presented the
/// step is skipped. Otherwise the step waits while the player reads the
/// outcome, which is a misfire when no customer waits, a payment of about
/// the item's price when it is what the customer asked for, and one of the
/// item's mishaps when it is not.
pub open spec fn request_resolved(a: &TurnState, b: &TurnState) -> bool {
    match a.active_item {
        None => skipped(a, b) && same_but_queue(a, b),
        Some(item) => {
            &&& waits(a, b, RESOLVE_MS)
            &&& b.chests == a.chests
            &&& b.hovered == a.hovered
            &&& b.active_item == a.active_item
            &&& b.customer_number == a.customer_number
            &&& b.global_news == a.global_news
            &&& b.win == a.win
            &&& match a.requested_item {
                None => misfired(a, b),
                Some(request) => if request.1 == item {
                    exists|gain: Money|
                        within_jitter(item.gain_base(), gain) && #[trigger] paid(a, b, item, gain)
                } else {
                    exists|e: SideEffect| possible_side_effect(item, e) && #[trigger] suffered(a, b, e)
                },
            }
        },
    }
}

impl TurnState {
    /// The customer gets what they asked for: they pay `gain`, the request
    /// is closed and remembered, and a radioactive barrel starts a war.
    pub fn deliver(&mut self, item: Item, found: &str, gain: Money) -> (cues: Vec<Cue>)
        ensures
            paid(old(self), final(self), item, gain),
            delivery_told(final(self), found@, gain, cues@),
            final(self).instructions == old(self).instructions,
            final(self).chests == old(self).chests,
            final(self).hovered == old(self).hovered,
            final(self).active_item == old(self).active_item,
            final(self).customer_number == old(self).customer_number,
            final(self).global_news == old(self).global_news,
            final(self).win == old(self).win,
    {
        self.money.add_assign(gain);
        let mut text = join3("Success! You found a box of ", found, ", as the customer requested! They paid you ");
        let paid = gain.text();
        text.append(paid.as_str());
        text.append("! Your new balance is ");
        let balance = self.money.text();
        text.append(balance.as_str());
        text.append(".");
        self.prev_requested_item = Some(item);
        if item == Item::Barrel {
            self.war_news.push_back("Dirty bomb exploded in the capital of neigboring country, they blame our army!");
            self.war_news.push_back("Our country retaliates with nukes! For the motherland!");
            self.war_news.push_back("World war! Every country launches nukes to everyone!");
            self.war_news.push_back("Seriously, stop playing. You won, but you destroyed the world in the process. Mankind is not the same anymore. You are a millionaire in a world where money has no meaning. Sleep tight.");
            self.war = true;
            assert(self.war_news@ =~= old(self).war_news@ + war_story());
        }
        self.requested_item = None;
        vec![Cue::Play(Sound::Correct), Cue::News(NewsFeedUpdate(NewsLevel::Correct, text))]
    }

    /// The player presented `item`, found as `found`, where the customer
    /// asked for another: the mishap `side.1` happens, narrated by `side.0`.
    pub fn mishap(&mut self, item: Item, found: &str, side: (String, SideEffect)) -> (cues: Vec<
        Cue,
    >)
        requires
            old(self).wf(),
            old(self).requested_item is Some,
            applicable(side.1),
        ensures
            final(self).wf(),
            suffered(old(self), final(self), side.1),
            mishap_told(old(self), final(self), found@, side.0@, side.1, cues@),
            final(self).instructions == old(self).instructions,
            final(self).chests == old(self).chests,
            final(self).hovered == old(self).hovered,
            final(self).active_item == old(self).active_item,
            final(self).customer_number == old(self).customer_number,
            final(self).global_news == old(self).global_news,
            final(self).win == old(self).win,
    {
        let (story, effect) = side;
        let mut cues: Vec<Cue> = Vec::new();
        let asked = match self.requested_item {
            Some((words, _)) => words,
            None => "",
        };
        let mut text = join3("Customer requested ", asked, ", but you found ");
        text.append(found);
        text.append(" instead! ");
        text.append(story.as_str());
        let ghost base = text@;
        match effect {
            SideEffect::NoEffect => {},
            SideEffect::MoneyLoss(loss) => {
                self.money.sub_assign(loss);
                text.append(" Your new balance is ");
                let balance = self.money.text();
                text.append(balance.as_str());
                text.append(".");
            },
            SideEffect::StatusEffectEnable(e, turns) => {
                self.status_effects.insert(e, turns);
            },
            SideEffect::CureDiarrhea => {
                if self.status_effects.remove(StatusEffect::Diarrhea).is_some() {
                    cues.push(Cue::Play(Sound::Correct));
                    text.append(" Your diarrhea was cured! The power of Imodium will turn the hands of fate!");
                }
            },
            SideEffect::ToggleCancer => {
                if self.status_effects.remove(StatusEffect::Cancer).is_some() {
                    cues.push(Cue::Play(Sound::Correct));
                    text.append("The radiation cured your cancer!");
                } else {
                    self.status_effects.insert(StatusEffect::Cancer, INFINITE_TURNS);
                    text.append("You got cancer! You probably won't find out before 5 years pass, though.");
                }
            },
            SideEffect::CustomerKill => {
                self.requested_item = None;
            },
            SideEffect::Reshuffle => {
                self.status_effects.insert(StatusEffect::Reshuffle, 1);
            },
        }
        assert(text@ =~= base + mishap_note(old(self).status_effects@, effect, self.money.spec_value()));
        cues.push(Cue::News(NewsFeedUpdate(NewsLevel::Wrong, text)));
        assert(self.status_effects@ == effects_after(old(self).status_effects@, effect));
        cues
    }

    /// No customer was waiting, and the presented gun went off: the
    /// funeral costs `FUNERAL_COST`, and the cleanup reshuffles the chests
    /// once.
    pub fn misfire(&mut self) -> (cues: Vec<Cue>)
        requires
            old(self).wf(),
        ensures
            final(self).wf(),
            misfired(old(self), final(self)),
            misfire_told(final(self), cues@),
            final(self).instructions == old(self).instructions,
            final(self).chests == old(self).chests,
            final(self).hovered == old(self).hovered,
            final(self).active_item == old(self).active_item,
            final(self).customer_number == old(self).customer_number,
            final(self).global_news == old(self).global_news,
            final(self).win == old(self).win,
    {
        let cost = Money::new(FUNERAL_COST);
        self.money.sub_assign(cost);
        let mut text = String::from_str("Cleaning up messed the boxes, while the funeral cost ");
        let funeral = cost.text();
        text.append(funeral.as_str());
        text.append(". Your new balance is ");
        let balance = self.money.text();
        text.append(balance.as_str());
        text.append(".");
        self.status_effects.insert(StatusEffect::Reshuffle, 1);
        vec![
            Cue::Play(Sound::Gunshot),
            Cue::Play(Sound::LargeHit),
            line(NewsLevel::Wrong, "Oh no, the firearm discharged in your hands and T. Utorial lies dead inside a pool of blood..."),
            line(NewsLevel::Wrong, "After cleaning up, the realization hits you like that bullet hit Mr Utorial - you are on your own!"),
            Cue::News(NewsFeedUpdate(NewsLevel::Wrong, text)),
        ]
    }

    /// Settles the presented item against the request, then waits while the
    /// player reads the outcome. Skipped when no item is presented.
    pub fn resolve_request(&mut self) -> (cues: Vec<Cue>)
        requires
            old(self).wf(),
            old(self).instructions@.len() > 0,
            old(self).instructions@[0] is ResolveRequest,
        ensures
            final(self).wf(),
            request_resolved(old(self), final(self)),
            request_told(old(self), final(self), cues@),
    {
        let item = match self.active_item {
            Some(item) => item,
            None => {
                take_front(&mut self.instructions);
                return vec![Cue::Diagnostic(NOTHING_PRESENTED)];
            },
        };
        replace_front(&mut self.instructions, Instruction::Wait(RESOLVE_MS));
        let cues = match self.requested_item {
            None => self.misfire(),
            Some((_, wanted)) => {
                let found = item.found();
                if wanted == item {
                    let gain = item.gain();
                    let cues = self.deliver(item, found, gain);
                    assert(paid(old(self), self, item, gain));
                    assert(delivery_told(self, found@, gain, cues@));
                    cues
                } else {
                    let side = item.side_effect();
                    let ghost story = side.0@;
                    let ghost e = side.1;
                    proof {
                        let (k, loss) = choose|k: int, loss: Money|
                            0 <= k < crate::item::outcome_count(item) && within_jitter(
                                crate::item::loss_base(item, k),
                                loss,
                            ) && e == crate::item::side_effect_of(item, k, loss);
                        assert(applicable(e));
                    }
                    let cues = self.mishap(item, found, side);
                    assert(suffered(old(self), self, e));
                    assert(mishap_told(old(self), self, found@, story, e, cues@));
                    cues
                }
            },
        };
        cues
    }
}

/// The extra wait, in milliseconds, that the effects left after a pass add
/// to a turn.
pub open spec fn effects_wait(m: Map<StatusEffect, int>) -> int {
    (if m.contains_key(StatusEffect::Reshuffle) {
        RESHUFFLE_MS as int
    } else {
        0
    }) + (if m.contains_key(StatusEffect::Diarrhea) {
        TOILET_MS as int
    } else {
        0
    })
}

/// What resolving the status effects does, when an item is presented and
/// `roll` (from 0 to 10) decides whether a customer waits through a toilet
/// run: the item goes, every counter counts down, a live reshuffle permutes
/// the chests, and a live diarrhea drives the customer away on a roll above
/// 7. The step then waits for what the live effects take, if anything.
pub open spec fn status_resolved(a: &TurnState, b: &TurnState, roll: int) -> bool {
    let after = pass(a.status_effects@);
    let wait = effects_wait(after);
    &&& b.active_item is None
    &&& b.status_effects@ == after
    &&& b.chests.wf()
    &&& b.chests.contents() == a.chests.contents()
    &&& b.chests@.to_multiset() == a.chests@.to_multiset()
    &&& !after.contains_key(StatusEffect::Reshuffle) ==> b.chests == a.chests
    &&& b.requested_item == (if after.contains_key(StatusEffect::Diarrhea) && a.requested_item is Some
        && roll > 7 {
        None
    } else {
        a.requested_item
    })
    &&& wait > 0 ==> b.instructions@ == a.instructions@.update(0, Instruction::Wait(wait as u64))
    &&& wait == 0 ==> b.instructions@ == a.instructions@.drop_first()
    &&& b.hovered == a.hovered
    &&& b.prev_requested_item == a.prev_requested_item
    &&& b.customer_number == a.customer_number
    &&& b.global_news == a.global_news
    &&& b.war_news == a.war_news
    &&& b.war == a.war
    &&& b.win == a.win
    &&& b.money == a.money
}

/// The visual switches that a pass over the counters `m` calls for: lights
/// out and distortion on for the effects that stay, lights on and
/// distortion off for those that end.
pub open spec fn visual_toggles(m: Map<StatusEffect, int>) -> Seq<Cue> {
    let after = pass(m);
    (if after.contains_key(StatusEffect::LightsOut) {
        seq![Cue::Lights(false)]
    } else {
        Seq::empty()
    }) + (if after.contains_key(StatusEffect::Trippy) {
        seq![Cue::Distortion(true)]
    } else {
        Seq::empty()
    }) + (if m.contains_key(StatusEffect::LightsOut) && m[StatusEffect::LightsOut] == 0 {
        seq![Cue::Lights(true)]
    } else {
        Seq::empty()
    }) + (if m.contains_key(StatusEffect::Trippy) && m[StatusEffect::Trippy] == 0 {
        seq![Cue::Distortion(false)]
    } else {
        Seq::empty()
    })
}

/// What `ResolveStatusEffects` at the front does: skipped when no item is
/// presented, else the effects are resolved on some roll from 0 to 10.
pub open spec fn effects_resolved(a: &TurnState, b: &TurnState) -> bool {
    &&& a.active_item is None ==> skipped(a, b) && same_but_queue(a, b)
    &&& a.active_item is Some ==> exists|r: int| 0 <= r <= 10 && #[trigger] status_resolved(a, b, r)
}

/// The coordinate of slot `s`.
fn coord_of(s: usize) -> (r: (i32, i32))
    requires
        s < 20,
    ensures
        r.0 as int == slot_coord(s as int).0,
        r.1 as int == slot_coord(s as int).1,
        in_grid(r.0 as int, r.1 as int),
        slot_index(r.0 as int, r.1 as int) == s,
{
    ((s / 4) as i32, (s % 4) as i32)
}

/// Whether `e` ends on the next pass over the counters `m`.
pub open spec fn ends(m: Map<StatusEffect, int>, e: StatusEffect) -> bool {
    m.contains_key(e) && m[e] == 0
}

/// The lines that the effects ending on the next pass over `m` leave, in
/// the order `LightsOut`, `Trippy`, `Diarrhea`, `Cancer`.
pub open spec fn ending_lines(m: Map<StatusEffect, int>) -> Seq<Seq<char>> {
    (if ends(m, StatusEffect::LightsOut) {
        seq!["Finally, the power is back!"@]
    } else {
        Seq::empty()
    }) + (if ends(m, StatusEffect::Trippy) {
        seq!["Your vision is back to normal!"@]
    } else {
        Seq::empty()
    }) + (if ends(m, StatusEffect::Diarrhea) {
        seq!["Your stomach feels better!"@]
    } else {
        Seq::empty()
    }) + (if ends(m, StatusEffect::Cancer) {
        seq![CANCER_ENDED@]
    } else {
        Seq::empty()
    })
}

/// The line that ends an infinite countdown.
pub const CANCER_ENDED: &'static str = "You mean to tell me that you played the game for 2147483647 turns. Suuuure buddy, sure you did. I'm not mad though, it means one of three things: a)  You scripted the game for 2147483647 turns (lol), b) cheated or c) read the source code. In all cases, thank you for giving my little game such interest. You are the real winner of this game, and you may screenshot this text as proof of your achievement!";

/// The wordings of a toilet run: with no customer there; with a customer
/// who waits, on a roll up to 7; with a customer who leaves, on a roll
/// above 7.
pub open spec fn toilet_words(customer: bool, roll: int) -> Seq<&'static str> {
    if !customer {
        seq!["The customer left just in time for the toilet instruments to start playing!"]
    } else if roll > 7 {
        seq![
            "The customer is leaving, but the burger needs to return to its people. To the toilet!",
            "A disgusted customer leaves as you have to rush to the toilet. Again.",
        ]
    } else {
        seq![
            "You had to go to the toilet! Thankfully, the customer is waiting.",
            "Emergency toilet run! The customer will listen to all kinds of sounds...",
        ]
    }
}

/// Whether `c` moves, on a random arc, the chest that now stands in slot
/// `s` of `b` from the slot where it stood in `a`.
pub open spec fn moved_chest(a: &TurnState, b: &TurnState, s: int, c: Cue) -> bool {
    c matches Cue::MoveChest { chest, from, to, arc } && arc == Arc::Random && chest
        == b.chests.layout()[s] && to.0 as int == slot_coord(s).0 && to.1 as int == slot_coord(
        s,
    ).1 && in_grid(from.0 as int, from.1 as int) && a.chests.layout()[slot_index(
        from.0 as int,
        from.1 as int,
    )] == chest
}

/// How many chests a pass over the counters `m` moves: all of them when a
/// reshuffle stays live, else none.
pub open spec fn move_count(m: Map<StatusEffect, int>) -> int {
    if pass(m).contains_key(StatusEffect::Reshuffle) {
        20
    } else {
        0
    }
}

/// The cues of resolving the status effects on `roll`: the item goes, the
/// lights and the distortion filter follow the effects, each chest is moved
/// when a reshuffle is live, each effect that ends says so, and a live
/// diarrhea flushes and tells of the toilet run.
pub open spec fn status_told(a: &TurnState, b: &TurnState, roll: int, cues: Seq<Cue>) -> bool {
    let m = a.status_effects@;
    let after = pass(m);
    let head = seq![Cue::RemoveItem] + visual_toggles(m);
    let moves = move_count(m);
    let endings = ending_lines(m);
    let e0 = head.len() + moves;
    let t0 = e0 + endings.len();
    let words = toilet_words(a.requested_item is Some, roll);
    &&& cues.len() == t0 + (if after.contains_key(StatusEffect::Diarrhea) {
        2int
    } else {
        0int
    })
    &&& cues.subrange(0, head.len() as int) == head
    &&& forall|i: int| 0 <= i < moves ==> moved_chest(a, b, i, #[trigger] cues[head.len() + i])
    &&& forall|k: int|
        0 <= k < endings.len() ==> says(#[trigger] cues[e0 + k], NewsLevel::Event, endings[k])
    &&& after.contains_key(StatusEffect::Diarrhea) ==> {
        &&& cues[t0] == Cue::Play(Sound::Flush)
        &&& exists|w: &'static str|
            #[trigger] words.contains(w) && says(
                cues[t0 + 1],
                NewsLevel::Event,
                w@,
            )
    }
}

/// One random-arc move cue per slot: the chest now in slot `s` comes from
/// slot `moves[s].1`.
fn move_cues(moves: &Vec<(usize, usize)>) -> (r: Vec<Cue>)
    requires
        moves@.len() == 20,
        forall|t: int| 0 <= t < 20 ==> (#[trigger] moves@[t]).1 < 20,
    ensures
        r@.len() == 20,
        forall|i: int|
            0 <= i < 20 ==> (#[trigger] r@[i] matches Cue::MoveChest { chest, from, to, arc } && arc
                == Arc::Random && chest == moves@[i].0 && to.0 as int == slot_coord(i).0 && to.1 as int
                == slot_coord(i).1 && in_grid(from.0 as int, from.1 as int) && slot_index(
                from.0 as int,
                from.1 as int,
            ) == moves@[i].1),
{
    let mut r: Vec<Cue> = Vec::new();
    let mut s: usize = 0;
    while s < moves.len()
        invariant
            moves@.len() == 20,
            s <= 20,
            forall|t: int| 0 <= t < 20 ==> (#[trigger] moves@[t]).1 < 20,
            r@.len() == s,
            forall|i: int|
                0 <= i < s ==> (#[trigger] r@[i] matches Cue::MoveChest { chest, from, to, arc }
                    && arc == Arc::Random && chest == moves@[i].0 && to.0 as int == slot_coord(i).0
                    && to.1 as int == slot_coord(i).1 && in_grid(from.0 as int, from.1 as int)
                    && slot_index(from.0 as int, from.1 as int) == moves@[i].1),
        decreases 20 - s,
    {
        let (chest, from) = moves[s];
        r.push(Cue::MoveChest { chest, from: coord_of(from), to: coord_of(s), arc: Arc::Random });
        s += 1;
    }
    r
}

/// The lines of the effects that end on the next pass over `before`.
fn ending_cues(before: &StatusEffects) -> (r: Vec<Cue>)
    ensures
        r@.len() == ending_lines(before@).len(),
        forall|k: int|
            0 <= k < r@.len() ==> says(#[trigger] r@[k], NewsLevel::Event, ending_lines(before@)[k]),
{
    let mut r: Vec<Cue> = Vec::new();
    let ghost m = before@;
    if before.get(StatusEffect::LightsOut) == Some(0i32) {
        r.push(line(NewsLevel::Event, "Finally, the power is back!"));
    }
    let ghost r1 = r@;
    if before.get(StatusEffect::Trippy) == Some(0i32) {
        r.push(line(NewsLevel::Event, "Your vision is back to normal!"));
    }
    let ghost r2 = r@;
    if before.get(StatusEffect::Diarrhea) == Some(0i32) {
        r.push(line(NewsLevel::Event, "Your stomach feels better!"));
    }
    let ghost r3 = r@;
    if before.get(StatusEffect::Cancer) == Some(0i32) {
        r.push(line(NewsLevel::Event, CANCER_ENDED));
    }
    proof {
        let l1 = if ends(m, StatusEffect::LightsOut) {
            seq!["Finally, the power is back!"@]
        } else {
            Seq::empty()
        };
        let l2 = if ends(m, StatusEffect::Trippy) {
            seq!["Your vision is back to normal!"@]
        } else {
            Seq::empty()
        };
        let l3 = if ends(m, StatusEffect::Diarrhea) {
            seq!["Your stomach feels better!"@]
        } else {
            Seq::empty()
        };
        let l4 = if ends(m, StatusEffect::Cancer) {
            seq![CANCER_ENDED@]
        } else {
            Seq::empty()
        };
        let all = l1 + l2 + l3 + l4;
        assert(ending_lines(m) == all);
        assert forall|k: int| 0 <= k < r@.len() implies says(
            #[trigger] r@[k],
            NewsLevel::Event,
            all[k],
        ) by {
            if k < r1.len() {
                assert(r@[k] == r1[k]);
                assert(all[k] == l1[k]);
            } else if k < r2.len() {
                assert(r@[k] == r2[k]);
                assert(all[k] == l2[k - l1.len()]);
            } else if k < r3.len() {
                assert(r@[k] == r3[k]);
                assert(all[k] == l3[k - l1.len() - l2.len()]);
            } else {
                assert(all[k] == l4[k - l1.len() - l2.len() - l3.len()]);
            }
        }
    }
    r
}

impl TurnState {
    /// Resolves the status effects at the end of a turn; `stay_roll`, from
    /// 0 to 10, decides whether a customer waits through a toilet run.
    /// Skipped when no item is presented.
    #[verifier::rlimit(40)]
    pub fn resolve_status_effects_with(&mut self, stay_roll: i32) -> (cues: Vec<Cue>)
        requires
            old(self).wf(),
            old(self).instructions@.len() > 0,
            old(self).instructions@[0] is ResolveStatusEffects,
            0 <= stay_roll <= 10,
        ensures
            final(self).wf(),
            old(self).active_item is None ==> final(self).instructions@ == old(
                self,
            ).instructions@.drop_first() && same_but_queue(old(self), final(self)),
            old(self).active_item is None ==> cues@ == seq![Cue::Diagnostic(NOTHING_PRESENTED)],
            old(self).active_item is Some ==> status_resolved(old(self), final(self), stay_roll as int),
            old(self).active_item is Some ==> status_told(
                old(self),
                final(self),
                stay_roll as int,
                cues@,
            ),
    {
        if self.active_item.is_none() {
            take_front(&mut self.instructions);
            return vec![Cue::Diagnostic(NOTHING_PRESENTED)];
        }
        let mut cues: Vec<Cue> = vec![Cue::RemoveItem];
        self.active_item = None;
        let mut wait: u64 = 0;
        let before = self.status_effects;
        let _ = self.status_effects.pass_turn();
        if self.status_effects.contains(StatusEffect::LightsOut) {
            cues.push(Cue::Lights(false));
        }
        if self.status_effects.contains(StatusEffect::Trippy) {
            cues.push(Cue::Distortion(true));
        }
        if before.get(StatusEffect::LightsOut) == Some(0i32) {
            cues.push(Cue::Lights(true));
        }
        if before.get(StatusEffect::Trippy) == Some(0i32) {
            cues.push(Cue::Distortion(false));
        }
        let ghost head = cues@;
        assert(head =~= seq![Cue::RemoveItem] + visual_toggles(before@));
        let ghost layout0 = self.chests.layout();
        let mut moved: Vec<Cue> = Vec::new();
        if self.status_effects.contains(StatusEffect::Reshuffle) {
            let moves = self.chests.reshuffle();
            moved = move_cues(&moves);
            wait = RESHUFFLE_MS;
            proof {
                assert forall|i: int| 0 <= i < 20 implies moved_chest(
                    old(self),
                    self,
                    i,
                    #[trigger] moved@[i],
                ) by {
                    assert(moves@[i].0 == self.chests.layout()[i]);
                }
            }
        }
        let ghost moved_v = moved@;
        let mut endings = ending_cues(&before);
        let ghost endings_v = endings@;
        let mut toilet: Vec<Cue> = Vec::new();
        let ghost mut word: &'static str = "";
        if self.status_effects.contains(StatusEffect::Diarrhea) {
            toilet.push(Cue::Play(Sound::Flush));
            let w = if self.requested_item.is_some() {
                if stay_roll > 7 {
                    self.requested_item = None;
                    let words = vec![
                        "The customer is leaving, but the burger needs to return to its people. To the toilet!",
                        "A disgusted customer leaves as you have to rush to the toilet. Again.",
                    ];
                    pick(&words)
                } else {
                    let words = vec![
                        "You had to go to the toilet! Thankfully, the customer is waiting.",
                        "Emergency toilet run! The customer will listen to all kinds of sounds...",
                    ];
                    pick(&words)
                }
            } else {
                let w = "The customer left just in time for the toilet instruments to start playing!";
                assert(toilet_words(false, stay_roll as int)[0] == w);
                w
            };
            assert(toilet_words(old(self).requested_item is Some, stay_roll as int).contains(w));
            toilet.push(line(NewsLevel::Event, w));
            proof {
                word = w;
            }
            wait = wait + TOILET_MS;
        }
        let ghost toilet_v = toilet@;
        cues.append(&mut moved);
        cues.append(&mut endings);
        cues.append(&mut toilet);
        proof {
            let all = head + moved_v + endings_v + toilet_v;
            assert(cues@ == all);
            assert(all.subrange(0, head.len() as int) =~= head);
            assert forall|i: int| 0 <= i < moved_v.len() implies #[trigger] all[head.len() + i]
                == moved_v[i] by {}
            assert forall|k: int| 0 <= k < endings_v.len() implies #[trigger] all[head.len()
                + moved_v.len() + k] == endings_v[k] by {}
            let t0 = (head.len() + moved_v.len() + endings_v.len()) as int;
            if toilet_v.len() > 0 {
                assert(all[t0] == toilet_v[0]);
                assert(all[t0 + 1] == toilet_v[1]);
            }
        }
        if wait > 0 {
            replace_front(&mut self.instructions, Instruction::Wait(wait));
        } else {
            take_front(&mut self.instructions);
        }
        proof {
            let t0 = (head.len() + moved_v.len() + endings_v.len()) as int;
            if toilet_v.len() > 0 {
                assert(toilet_words(old(self).requested_item is Some, stay_roll as int).contains(word));
                assert(says(cues@[t0 + 1], NewsLevel::Event, word@));
            }
            let m = old(self).status_effects@;
            let hd = seq![Cue::RemoveItem] + visual_toggles(m);
            assert(hd == head);
            let mv = move_count(m);
            assert(moved_v.len() == mv);
            assert(endings_v.len() == ending_lines(m).len());
            assert(cues@.len() == t0 + (if pass(m).contains_key(StatusEffect::Diarrhea) {
                2int
            } else {
                0int
            }));
            assert(cues@.subrange(0, hd.len() as int) == hd);
            assert forall|i: int| 0 <= i < mv implies moved_chest(
                old(self),
                self,
                i,
                #[trigger] cues@[hd.len() + i],
            ) by {
                assert(cues@[hd.len() + i] == moved_v[i]);
            }
            assert forall|k: int| 0 <= k < ending_lines(m).len() implies says(
                #[trigger] cues@[hd.len() + mv + k],
                NewsLevel::Event,
                ending_lines(m)[k],
            ) by {
                assert(cues@[hd.len() + mv + k] == endings_v[k]);
            }
            assert(status_told(old(self), self, stay_roll as int, cues@));
        }
        cues
    }

    /// Resolves the status effects at the end of a turn, rolling whether a
    /// customer waits through a toilet run. Skipped when no item is
    /// presented.
    pub fn resolve_status_effects(&mut self) -> (cues: Vec<Cue>)
        requires
            old(self).wf(),
            old(self).instructions@.len() > 0,
            old(self).instructions@[0] is ResolveStatusEffects,
        ensures
            final(self).wf(),
            effects_resolved(old(self), final(self)),
            old(self).active_item is None ==> cues@ == seq![Cue::Diagnostic(NOTHING_PRESENTED)],
            old(self).active_item is Some ==> exists|r: int|
                0 <= r <= 10 && status_resolved(old(self), final(self), r) && #[trigger] status_told(
                    old(self),
                    final(self),
                    r,
                    cues@,
                ),
    {
        let stay_roll = roll(0, 10);
        let cues = self.resolve_status_effects_with(stay_roll);
        assert(old(self).active_item is Some ==> status_told(old(self), self, stay_roll as int, cues@));
        cues
    }
}

/// A queue of headlines after the first, if any, was shown.
pub open spec fn shown(q: Seq<&'static str>) -> Seq<&'static str> {
    if q.len() > 0 {
        q.drop_first()
    } else {
        q
    }
}

/// The customer number after a turn in which the request was met: one
/// more, except that the finale's customer stays until the war begins.
pub open spec fn next_customer(n: i32, war: bool) -> i32 {
    if (n != FINALE_TURN || war) && n < i32::MAX {
        (n + 1) as i32
    } else {
        n
    }
}

/// How customer `n` is announced.
pub open spec fn arrival(n: i32) -> Seq<char> {
    if n == FINALE_TURN {
        "A shady figure just arrived! They requested "@
    } else {
        "A new customer just arrived! They requested "@
    }
}

/// Whether the delivered item `prev`, if any, can make a headline.
pub open spec fn makes_headline(prev: Option<Item>) -> bool {
    prev matches Some(i) && i.headlines().len() > 0
}

/// What `EndOfTurn` at the front does: it leaves the queue, at most one
/// pending headline and one war headline are shown, the win is declared
/// once the war story is told; an open request stays open, and otherwise
/// the next customer comes with a request that may be drawn for them.
pub open spec fn turn_ended(a: &TurnState, b: &TurnState) -> bool {
    &&& skipped(a, b)
    &&& b.war_news@ == shown(a.war_news@)
    &&& b.win == (a.win || (a.war && b.war_news@.len() == 0))
    &&& a.requested_item is Some ==> {
        &&& b.requested_item == a.requested_item
        &&& b.customer_number == a.customer_number
        &&& b.prev_requested_item == a.prev_requested_item
        &&& b.global_news@ == shown(a.global_news@)
    }
    &&& a.requested_item is None ==> {
        &&& b.customer_number == next_customer(a.customer_number, a.war)
        &&& b.requested_item is Some
        &&& drawable(b.customer_number as int, a.prev_requested_item, (b.requested_item->0).1)
        &&& (b.requested_item->0).1.request_words().contains((b.requested_item->0).0)
        &&& b.prev_requested_item is None
        &&& makes_headline(a.prev_requested_item) ==> exists|h: &'static str|
            #[trigger] a.prev_requested_item->0.headlines().contains(h) && b.global_news@ == shown(
                a.global_news@,
            ).push(h)
        &&& !makes_headline(a.prev_requested_item) ==> b.global_news@ == shown(a.global_news@)
    }
    &&& b.chests == a.chests
    &&& b.hovered == a.hovered
    &&& b.status_effects == a.status_effects
    &&& b.active_item == a.active_item
    &&& b.war == a.war
    &&& b.money == a.money
}

/// What the sixth customer's arrival brings to mind.
pub const ADVICE: &'static str = "\"I won't cover the debt by just selling the legal stuff\". \"I should probably advertise other stuff\".";

/// The cues of `EndOfTurn`: the pending headline, if any; the war's next
/// headline, if any, after a gunshot for the first and a siren while more
/// follow; the win music when the war story is over; then either the
/// reminder of the open request, or the sixth customer's advice where it is
/// due and the next customer's arrival.
pub open spec fn turn_end_told(a: &TurnState, b: &TurnState, cues: Seq<Cue>) -> bool {
    let wn = a.war_news@.len();
    let g: int = if a.global_news@.len() > 0 {
        1
    } else {
        0
    };
    let gun: int = if wn == 4 {
        1
    } else {
        0
    };
    let siren: int = if wn >= 2 {
        1
    } else {
        0
    };
    let w: int = if wn > 0 {
        1 + gun + siren
    } else {
        0
    };
    let won: int = if !a.win && b.win {
        1
    } else {
        0
    };
    let o = g + w + won;
    let adv: int = if b.customer_number == 6 {
        1
    } else {
        0
    };
    &&& a.global_news@.len() > 0 ==> says(cues[0], NewsLevel::External, a.global_news@[0]@)
    &&& wn == 4 ==> cues[g] == Cue::Play(Sound::Gunshot)
    &&& wn >= 2 ==> cues[g + gun] == Cue::Play(Sound::NukeSiren)
    &&& wn > 0 ==> says(cues[g + gun + siren], NewsLevel::External, a.war_news@[0]@)
    &&& won == 1 ==> cues[g + w] == Cue::Play(Sound::WinMusic)
    &&& a.requested_item is Some ==> {
        &&& cues.len() == o + 1
        &&& says(
            cues[o],
            NewsLevel::Event,
            "The customer is still waiting for "@ + (a.requested_item->0).0@ + "."@,
        )
    }
    &&& a.requested_item is None ==> {
        &&& cues.len() == o + adv + 1
        &&& adv == 1 ==> says(cues[o], NewsLevel::Event, ADVICE@)
        &&& says(
            cues[o + adv],
            NewsLevel::Event,
            "Turn "@ + int_chars(b.customer_number as int) + "/20: "@ + arrival(b.customer_number)
                + (b.requested_item->0).0@ + "."@,
        )
    }
}

impl TurnState {
    /// Closes a turn: shows at most one pending headline and one war
    /// headline, declares the win once the war story is told, and either
    /// reminds the player of the open request or brings the next customer
    /// with a new request.
    pub fn end_of_turn(&mut self) -> (cues: Vec<Cue>)
        requires
            old(self).wf(),
            old(self).instructions@.len() > 0,
            old(self).instructions@[0] is EndOfTurn,
        ensures
            final(self).wf(),
            turn_ended(old(self), final(self)),
            turn_end_told(old(self), final(self), cues@),
    {
        let mut cues: Vec<Cue> = Vec::new();
        if self.global_news.len() > 0 {
            let headline = take_front(&mut self.global_news);
            cues.push(line(NewsLevel::External, headline));
        }
        let ghost rest = self.global_news@;
        assert(rest == shown(old(self).global_news@));
        if self.war_news.len() > 0 {
            let headline = take_front(&mut self.war_news);
            if self.war_news.len() == 3 {
                cues.push(Cue::Play(Sound::Gunshot));
            }
            if self.war_news.len() > 0 {
                cues.push(Cue::Play(Sound::NukeSiren));
            }
            cues.push(line(NewsLevel::External, headline));
        }
        if !self.win && self.war && self.war_news.len() == 0 {
            self.win = true;
            cues.push(Cue::Play(Sound::WinMusic));
        }
        match self.requested_item {
            Some((words, _)) => {
                cues.push(
                    Cue::News(
                        NewsFeedUpdate(
                            NewsLevel::Event,
                            join3("The customer is still waiting for ", words, "."),
                        ),
                    ),
                );
            },
            None => {
                if (self.customer_number != FINALE_TURN || self.war) && self.customer_number
                    < i32::MAX {
                    self.customer_number = self.customer_number + 1;
                }
                let item = Item::new_random(self.customer_number, self.prev_requested_item);
                if let Some(prev) = self.prev_requested_item {
                    if let Some(headline) = prev.global_side_effect() {
                        self.global_news.push_back(headline);
                        assert(self.global_news@ == rest.push(headline));
                    } else {
                        assert(prev.headlines().len() == 0);
                    }
                }
                self.prev_requested_item = None;
                let words = item.request();
                self.requested_item = Some((words, item));
                if self.customer_number == 6 {
                    cues.push(line(NewsLevel::Event, ADVICE));
                }
                let turn = decimal(self.customer_number);
                let mut text = join3("Turn ", turn.as_str(), "/20: ");
                let ghost head = text@;
                if self.customer_number == FINALE_TURN {
                    text.append("A shady figure just arrived! They requested ");
                } else {
                    text.append("A new customer just arrived! They requested ");
                }
                text.append(words);
                text.append(".");
                assert(text@ =~= head + arrival(self.customer_number) + words@ + "."@);
                cues.push(Cue::News(NewsFeedUpdate(NewsLevel::Event, text)));
            },
        }
        take_front(&mut self.instructions);
        cues
    }
}

} // verus!
