//! The items that chests hold: what customers ask for, what they pay, and
//! what goes wrong when the wrong item is presented.

use crate::effects::{SideEffect, StatusEffect};
use crate::money::{money_chars, Money};
use crate::random::{pick, roll};
use vstd::prelude::*;

verus! {

/// What a chest can hold, and a customer can ask for.
#[derive(Clone, Copy, Debug, PartialEq, Eq, Hash, Structural)]
pub enum Item {
    Barrel,
    Burger,
    Gun,
    Pill,
    Screwdriver,
}

/// The turn on which the one special customer arrives.
pub const FINALE_TURN: i32 = 21;

/// The items that customers ask for on a given turn: an early tier, a
/// middle tier, and the finale.
pub open spec fn tier(turn: int) -> Seq<Item> {
    if 1 <= turn <= 5 {
        seq![Item::Burger, Item::Screwdriver]
    } else if turn == 21 {
        seq![Item::Barrel]
    } else {
        seq![Item::Burger, Item::Screwdriver, Item::Gun, Item::Pill]
    }
}

/// Whether `x` may be drawn on `turn` after `prev` was delivered: it is in
/// the tier, and it is not `prev` unless the tier has no other item.
pub open spec fn drawable(turn: int, prev: Option<Item>, x: Item) -> bool {
    &&& tier(turn).contains(x)
    &&& (tier(turn).len() > 1 && prev is Some ==> x != prev->0)
}

/// Whether `m` is a jittered payment of `base`: within a twentieth of
/// `base` either way, the twentieth rounded toward zero.
pub open spec fn within_jitter(base: int, m: Money) -> bool {
    base - base / 20 <= m.spec_value() <= base + base / 20
}

/// `base` moved by `offset`, which is at most a twentieth of `base` either
/// way.
pub fn jittered(base: i32, offset: i32) -> (m: Money)
    requires
        0 <= base,
        base + base / 20 <= i32::MAX,
        -(base / 20) <= offset <= base / 20,
    ensures
        m.spec_value() == base + offset,
        within_jitter(base as int, m),
{
    Money::new(base + offset)
}

/// A payment of about `base`: uniformly within a twentieth of it either way.
pub fn random_money(base: i32) -> (m: Money)
    requires
        0 <= base,
        base + base / 20 <= i32::MAX,
    ensures
        within_jitter(base as int, m),
{
    let offset = roll(-(base / 20), base / 20);
    jittered(base, offset)
}

/// `prefix`, the amount as the player sees it, then `suffix`.
pub fn with_amount(prefix: &str, m: Money, suffix: &str) -> (r: String)
    ensures
        r@ == prefix@ + money_chars(m.spec_value()) + suffix@,
{
    let mut r = String::from_str(prefix);
    let amount = m.text();
    r.append(amount.as_str());
    r.append(suffix);
    r
}

/// How many outcomes the side-effect table of an item has.
pub open spec fn outcome_count(item: Item) -> int {
    if item == Item::Barrel {
        5
    } else {
        4
    }
}

/// The base of the loss that outcome `k` of an item's table costs, or 0
/// where that outcome costs nothing.
pub open spec fn loss_base(item: Item, k: int) -> int {
    match item {
        Item::Barrel => if k == 1 {
            200
        } else if k == 3 {
            2000
        } else {
            0
        },
        Item::Burger => if k == 1 {
            500
        } else {
            0
        },
        Item::Gun => if k == 0 {
            1000
        } else if k == 2 {
            250
        } else {
            0
        },
        Item::Pill => if k == 3 {
            1500
        } else {
            0
        },
        Item::Screwdriver => if k == 0 {
            100
        } else if k == 2 {
            1000
        } else {
            0
        },
    }
}

/// Outcome `k` of an item's side-effect table, `loss` being the jittered
/// amount where the outcome costs money.
pub open spec fn side_effect_of(item: Item, k: int, loss: Money) -> SideEffect {
    match item {
        Item::Barrel => if k == 0 {
            SideEffect::ToggleCancer
        } else if k == 2 {
            SideEffect::Reshuffle
        } else if k == 4 {
            SideEffect::CustomerKill
        } else {
            SideEffect::MoneyLoss(loss)
        },
        Item::Burger => if k == 0 {
            SideEffect::StatusEffectEnable(StatusEffect::Diarrhea, 3)
        } else if k == 1 {
            SideEffect::MoneyLoss(loss)
        } else if k == 2 {
            SideEffect::CustomerKill
        } else {
            SideEffect::NoEffect
        },
        Item::Gun => if k == 1 {
            SideEffect::CustomerKill
        } else if k == 3 {
            SideEffect::NoEffect
        } else {
            SideEffect::MoneyLoss(loss)
        },
        Item::Pill => if k == 0 {
            SideEffect::StatusEffectEnable(StatusEffect::Trippy, 5)
        } else if k == 1 {
            SideEffect::Reshuffle
        } else if k == 2 {
            SideEffect::CureDiarrhea
        } else {
            SideEffect::MoneyLoss(loss)
        },
        Item::Screwdriver => if k == 1 {
            SideEffect::CustomerKill
        } else if k == 3 {
            SideEffect::StatusEffectEnable(StatusEffect::LightsOut, 5)
        } else {
            SideEffect::MoneyLoss(loss)
        },
    }
}

/// The narration of outcome `k` of an item's side-effect table, `loss`
/// being what the outcome costs where it costs money.
pub open spec fn side_effect_text(item: Item, k: int, loss: Money) -> Seq<char> {
    match item {
        Item::Barrel => if k == 0 {
            Seq::empty()
        } else if k == 1 {
            "You got scared and had to eat all the iodine tablets, didn't you? Restocking cost you "@ + money_chars(loss.spec_value()) + "!"@
        } else if k == 2 {
            "The government raided the junkyard to find any more runaway radioactives! They sure left a mess and moved everything around!"@
        } else if k == 3 {
            "You had to go to the ER with severe radiation positioning. You are ok now, but the bill was "@ + money_chars(loss.spec_value()) + "!"@
        } else {
            "The radioactive goo spilled and made a mess! Luckily the customer helped you clean up, before promptly dying from radiation poisoning."@
        },
        Item::Burger => if k == 0 {
            "You asked yourself, \"what could go wrong\" and ate the burger. That was when you felt your stomach slowly turning upside down."@
        } else if k == 1 {
            "Clearly, a bite won't hurt? After a severe food poisoning, the hospital thinks otherwise. Your idiocy cost "@ + money_chars(loss.spec_value()) + "."@
        } else if k == 2 {
            "\"Just a small bite,\" you muttered, \"it won't hurt\". Then you ran to the bathroom to puke. The customer got angry waiting and left."@
        } else {
            "Mmm, tasty!"@
        },
        Item::Gun => if k == 0 {
            "You accidentally shot yourself in the foot! An ambulance is on the way! Better have the "@ + money_chars(loss.spec_value()) + " in hand!"@
        } else if k == 1 {
            "The bullet flew across the junkyard, ricocheting on walls, chests and the stop sign, finally arriving at the customers head."@
        } else if k == 2 {
            "The illegal firearm discharge was reported to the police, the fine is "@ + money_chars(loss.spec_value()) + "!"@
        } else {
            "The bullet flew across the junkyard, ricocheting on walls, chests and the stop sign, finally exiting the building through the window. Let's hope nobody saw that."@
        },
        Item::Pill => if k == 0 {
            "\"Mmm, a random pill!\", you thought before eating it. Suddenly, your vision became funny."@
        } else if k == 1 {
            "After eating the pill, a sudden burst of energy ran through your body! \"Must reorganize everything!\" you cried, as you changed the position of all boxes!"@
        } else if k == 2 {
            "You know the taste of this pill alright. It is Imodium!"@
        } else {
            "An inspector saw you holding this illegal drug. You paid him "@ + money_chars(loss.spec_value()) + ". Was it a fine or a bribe? Was he a real inspector? Who knows."@
        },
        Item::Screwdriver => if k == 0 {
            "You got hurt with this rusty screwdriver and must get a tetanus shot! Have "@ + money_chars(loss.spec_value()) + " at the ready!"@
        } else if k == 1 {
            "As this wasn't what you were searching for, you threw it behind you. The scream of the customer confirmed that the hit was fatal."@
        } else if k == 2 {
            "As this wasn't what you were searching for, you threw it behind you. The scream of the customer confirmed that the hit was not fatal; You got sued for "@ + money_chars(loss.spec_value()) + " instead."@
        } else {
            "\"I have a great idea!\" you muttered as you stuck the screwdriver in a power outlet. The electrocution stopped abruptly as the neighborhood transformer exploded. Power will be out for a while, who knows why..."@
        },
    }
}

/// Whether `e` is one of the outcomes of an item's table, with a loss
/// jittered around that outcome's base.
pub open spec fn possible_side_effect(item: Item, e: SideEffect) -> bool {
    exists|k: int, loss: Money|
        0 <= k < outcome_count(item) && within_jitter(loss_base(item, k), loss) && e
            == side_effect_of(item, k, loss)
}

/// Whether `text` and `e` are the narration and the outcome of one entry
/// of an item's table, with a loss jittered around that entry's base.
pub open spec fn possible_outcome(item: Item, text: Seq<char>, e: SideEffect) -> bool {
    exists|k: int, loss: Money|
        0 <= k < outcome_count(item) && within_jitter(loss_base(item, k), loss) && e
            == side_effect_of(item, k, loss) && text == side_effect_text(item, k, loss)
}

impl Item {
    pub open spec fn request_words(self) -> Seq<&'static str> {
        match self {
            Item::Barrel => seq!["a radioactive barrel", "a barrel with radioactive goo"],
            Item::Burger => seq!["a shipment of burgers", "food", "edibles"],
            Item::Gun => seq!["guns", "pieces that go bang bang", "weapons"],
            Item::Pill => seq!["a pill", "pills", "drugs"],
            Item::Screwdriver => seq!["a screwdriver", "screwdrivers"],
        }
    }

    pub open spec fn found_words(self) -> Seq<&'static str> {
        match self {
            Item::Barrel => seq![
                "radioactive barrels",
                "barrels with radioactive goo",
                "barrels with the nuclear trefoil sign",
            ],
            Item::Burger => seq!["burgers", "junk food", "food"],
            Item::Gun => seq!["guns", "pistols", "firearms"],
            Item::Pill => seq!["pills", "drugs", "medicine"],
            Item::Screwdriver => seq!["screwdrivers"],
        }
    }

    /// The headlines that a delivered item can make, some turns later.
    pub open spec fn headlines(self) -> Seq<&'static str> {
        match self {
            Item::Barrel => seq![],
            Item::Burger => seq![
                "A food poisoning epidemic ravages restaurant that feeds the homeless, junk food is to blame.",
                "A person died from a rare strain of streptococcus found in a burger.",
                "Food inspection closes luxurious restaurant after maggots found in burgers.",
            ],
            Item::Gun => seq![
                "Ten killed in the largest mass shooting our small town has ever seen.",
                "Armed burglars take all valuables from jewellery store, see more on page 10.",
                "Illegal hunting skyrockets as hunters with revoked licenses find new source of illegal guns.",
            ],
            Item::Pill => seq![
                "Horde of addicts storm police station, fatalities at five and still counting!",
                "CEO of large company overdosed on unidentified drugs, read page 5 for more!",
                "Mysterious drug completely cures patient from both cancer and AIDS, scientists baffled, drug is impossible to recreate!",
            ],
            Item::Screwdriver => seq![
                "Rapist with screwdriver shot and killed before he could commit more atrocities!",
                "Gun that shoots screwdrivers is the murder weapon, experts say!",
                "A Rube-Goldberg machine created entirely of screwdrivers falls on the head of the police chief, patrols are doubled!",
            ],
        }
    }

    /// The base of what a customer pays for the item.
    pub open spec fn gain_base(self) -> int {
        match self {
            Item::Barrel => 8000000,
            Item::Burger => 10,
            Item::Gun => 300,
            Item::Pill => 400,
            Item::Screwdriver => 10,
        }
    }

    pub fn request_list(self) -> (r: Vec<&'static str>)
        ensures
            r@ == self.request_words(),
    {
        match self {
            Item::Barrel => vec!["a radioactive barrel", "a barrel with radioactive goo"],
            Item::Burger => vec!["a shipment of burgers", "food", "edibles"],
            Item::Gun => vec!["guns", "pieces that go bang bang", "weapons"],
            Item::Pill => vec!["a pill", "pills", "drugs"],
            Item::Screwdriver => vec!["a screwdriver", "screwdrivers"],
        }
    }

    pub fn found_list(self) -> (r: Vec<&'static str>)
        ensures
            r@ == self.found_words(),
    {
        match self {
            Item::Barrel => vec![
                "radioactive barrels",
                "barrels with radioactive goo",
                "barrels with the nuclear trefoil sign",
            ],
            Item::Burger => vec!["burgers", "junk food", "food"],
            Item::Gun => vec!["guns", "pistols", "firearms"],
            Item::Pill => vec!["pills", "drugs", "medicine"],
            Item::Screwdriver => vec!["screwdrivers"],
        }
    }

    pub fn headline_list(self) -> (r: Vec<&'static str>)
        ensures
            r@ == self.headlines(),
    {
        match self {
            Item::Barrel => vec![],
            Item::Burger => vec![
                "A food poisoning epidemic ravages restaurant that feeds the homeless, junk food is to blame.",
                "A person died from a rare strain of streptococcus found in a burger.",
                "Food inspection closes luxurious restaurant after maggots found in burgers.",
            ],
            Item::Gun => vec![
                "Ten killed in the largest mass shooting our small town has ever seen.",
                "Armed burglars take all valuables from jewellery store, see more on page 10.",
                "Illegal hunting skyrockets as hunters with revoked licenses find new source of illegal guns.",
            ],
            Item::Pill => vec![
                "Horde of addicts storm police station, fatalities at five and still counting!",
                "CEO of large company overdosed on unidentified drugs, read page 5 for more!",
                "Mysterious drug completely cures patient from both cancer and AIDS, scientists baffled, drug is impossible to recreate!",
            ],
            Item::Screwdriver => vec![
                "Rapist with screwdriver shot and killed before he could commit more atrocities!",
                "Gun that shoots screwdrivers is the murder weapon, experts say!",
                "A Rube-Goldberg machine created entirely of screwdrivers falls on the head of the police chief, patrols are doubled!",
            ],
        }
    }

    /// How a customer asks for the item, worded at random.
    pub fn request(&self) -> (r: &'static str)
        ensures
            self.request_words().contains(r),
    {
        let words = self.request_list();
        pick(&words)
    }

    /// How the player describes the item when found, worded at random.
    pub fn found(&self) -> (r: &'static str)
        ensures
            self.found_words().contains(r),
    {
        let words = self.found_list();
        pick(&words)
    }

    /// A headline that the item makes once delivered, if it makes any.
    pub fn global_side_effect(&self) -> (r: Option<&'static str>)
        ensures
            r is None <==> self.headlines().len() == 0,
            r is Some ==> self.headlines().contains(r->0),
    {
        let words = self.headline_list();
        if words.len() == 0 {
            None
        } else {
            Some(pick(&words))
        }
    }

    pub fn gain_base_value(self) -> (r: i32)
        ensures
            r as int == self.gain_base(),
    {
        match self {
            Item::Barrel => 8000000,
            Item::Burger => 10,
            Item::Gun => 300,
            Item::Pill => 400,
            Item::Screwdriver => 10,
        }
    }

    /// What the customer pays for the item: its base, jittered.
    pub fn gain(&self) -> (m: Money)
        ensures
            within_jitter(self.gain_base(), m),
    {
        random_money(self.gain_base_value())
    }

    /// The items that may be drawn on `turn` after `prev` was delivered.
    pub fn choices(turn: i32, prev: Option<Item>) -> (r: Vec<Item>)
        ensures
            r@.len() > 0,
            r@.no_duplicates(),
            forall|x: Item| #[trigger] r@.contains(x) <==> drawable(turn as int, prev, x),
    {
        let all: Vec<Item> = if 1 <= turn && turn <= 5 {
            vec![Item::Burger, Item::Screwdriver]
        } else if turn == FINALE_TURN {
            vec![Item::Barrel]
        } else {
            vec![Item::Burger, Item::Screwdriver, Item::Gun, Item::Pill]
        };
        assert(all@ == tier(turn as int));
        if all.len() == 1 {
            return all;
        }
        let mut r: Vec<Item> = Vec::new();
        let mut i: usize = 0;
        while i < all.len()
            invariant
                i <= all@.len(),
                all@ == tier(turn as int),
                all@.len() > 1,
                all@.no_duplicates(),
                r@.no_duplicates(),
                forall|x: Item| #[trigger]
                    r@.contains(x) <==> (all@.subrange(0, i as int).contains(x) && (prev is Some
                        ==> x != prev->0)),
            decreases all@.len() - i,
        {
            let x = all[i];
            let keep = match prev {
                Some(p) => x != p,
                None => true,
            };
            let ghost r0 = r@;
            let ghost before = all@.subrange(0, i as int);
            let ghost after = all@.subrange(0, i + 1);
            assert(after == before.push(x));
            assert(!before.contains(x)) by {
                if before.contains(x) {
                    let j = choose|j: int| 0 <= j < before.len() && before[j] == x;
                    assert(all@[j] == all@[i as int]);
                }
            }
            assert(after[i as int] == x);
            if keep {
                assert(!r0.contains(x));
                r.push(x);
                assert(r@ == r0.push(x));
                assert forall|a: int, b: int| 0 <= a < r@.len() && 0 <= b < r@.len() && a != b
                    implies r@[a] != r@[b] by {
                    if a == r0.len() {
                        assert(r0.contains(r@[b]));
                    } else if b == r0.len() {
                        assert(r0.contains(r@[a]));
                    }
                }
            }
            assert forall|y: Item| #[trigger]
                r@.contains(y) <==> (all@.subrange(0, i + 1).contains(y) && (prev is Some
                    ==> y != prev->0)) by {
                if after.contains(y) && y != x {
                    let j = choose|j: int| 0 <= j < after.len() && after[j] == y;
                    assert(before[j] == y);
                }
                if before.contains(y) {
                    let j = choose|j: int| 0 <= j < before.len() && before[j] == y;
                    assert(after[j] == y);
                }
                if r@.contains(y) && y != x {
                    let j = choose|j: int| 0 <= j < r@.len() && r@[j] == y;
                    assert(r0[j] == y);
                }
                if r0.contains(y) {
                    let j = choose|j: int| 0 <= j < r0.len() && r0[j] == y;
                    assert(r@[j] == y);
                }
                if keep && y == x {
                    assert(r@[r@.len() - 1] == y);
                }
            }
            i += 1;
        }
        assert(all@.subrange(0, all@.len() as int) == all@);
        assert(r@.contains(all@[0]) || r@.contains(all@[1]));
        r
    }

    /// The item that the next customer asks for on `turn`, `prev` being the
    /// item that the last customer was given: never `prev`, unless it is the
    /// only item of the tier.
    pub fn new_random(turn: i32, prev: Option<Item>) -> (r: Item)
        ensures
            drawable(turn as int, prev, r),
    {
        let c = Item::choices(turn, prev);
        pick(&c)
    }
    pub fn outcome_count_value(self) -> (r: i32)
        ensures
            r as int == outcome_count(self),
    {
        if self == Item::Barrel {
            5
        } else {
            4
        }
    }

    pub fn loss_base_value(self, k: i32) -> (r: i32)
        ensures
            r as int == loss_base(self, k as int),
    {
        match self {
            Item::Barrel => if k == 1 {
                200
            } else if k == 3 {
                2000
            } else {
                0
            },
            Item::Burger => if k == 1 {
                500
            } else {
                0
            },
            Item::Gun => if k == 0 {
                1000
            } else if k == 2 {
                250
            } else {
                0
            },
            Item::Pill => if k == 3 {
                1500
            } else {
                0
            },
            Item::Screwdriver => if k == 0 {
                100
            } else if k == 2 {
                1000
            } else {
                0
            },
        }
    }

    /// Outcome `k` of the item's side-effect table, with its narration;
    /// `loss` is what the outcome costs where it costs money.
    pub fn side_effect_with(&self, k: i32, loss: Money) -> (r: (String, SideEffect))
        requires
            0 <= k < outcome_count(*self),
        ensures
            r.1 == side_effect_of(*self, k as int, loss),
            r.0@ == side_effect_text(*self, k as int, loss),
    {
        match self {
            Item::Barrel => if k == 0 {
                (String::new(), SideEffect::ToggleCancer)
            } else if k == 1 {
                (
                    with_amount(
                        "You got scared and had to eat all the iodine tablets, didn't you? Restocking cost you ",
                        loss,
                        "!",
                    ),
                    SideEffect::MoneyLoss(loss),
                )
            } else if k == 2 {
                (
                    String::from_str(
                        "The government raided the junkyard to find any more runaway radioactives! They sure left a mess and moved everything around!",
                    ),
                    SideEffect::Reshuffle,
                )
            } else if k == 3 {
                (
                    with_amount(
                        "You had to go to the ER with severe radiation positioning. You are ok now, but the bill was ",
                        loss,
                        "!",
                    ),
                    SideEffect::MoneyLoss(loss),
                )
            } else {
                (
                    String::from_str(
                        "The radioactive goo spilled and made a mess! Luckily the customer helped you clean up, before promptly dying from radiation poisoning.",
                    ),
                    SideEffect::CustomerKill,
                )
            },
            Item::Burger => if k == 0 {
                (
                    String::from_str(
                        "You asked yourself, \"what could go wrong\" and ate the burger. That was when you felt your stomach slowly turning upside down.",
                    ),
                    SideEffect::StatusEffectEnable(StatusEffect::Diarrhea, 3),
                )
            } else if k == 1 {
                (
                    with_amount(
                        "Clearly, a bite won't hurt? After a severe food poisoning, the hospital thinks otherwise. Your idiocy cost ",
                        loss,
                        ".",
                    ),
                    SideEffect::MoneyLoss(loss),
                )
            } else if k == 2 {
                (
                    String::from_str(
                        "\"Just a small bite,\" you muttered, \"it won't hurt\". Then you ran to the bathroom to puke. The customer got angry waiting and left.",
                    ),
                    SideEffect::CustomerKill,
                )
            } else {
                (String::from_str("Mmm, tasty!"), SideEffect::NoEffect)
            },
            Item::Gun => if k == 0 {
                (
                    with_amount(
                        "You accidentally shot yourself in the foot! An ambulance is on the way! Better have the ",
                        loss,
                        " in hand!",
                    ),
                    SideEffect::MoneyLoss(loss),
                )
            } else if k == 1 {
                (
                    String::from_str(
                        "The bullet flew across the junkyard, ricocheting on walls, chests and the stop sign, finally arriving at the customers head.",
                    ),
                    SideEffect::CustomerKill,
                )
            } else if k == 2 {
                (
                    with_amount(
                        "The illegal firearm discharge was reported to the police, the fine is ",
                        loss,
                        "!",
                    ),
                    SideEffect::MoneyLoss(loss),
                )
            } else {
                (
                    String::from_str(
                        "The bullet flew across the junkyard, ricocheting on walls, chests and the stop sign, finally exiting the building through the window. Let's hope nobody saw that.",
                    ),
                    SideEffect::NoEffect,
                )
            },
            Item::Pill => if k == 0 {
                (
                    String::from_str(
                        "\"Mmm, a random pill!\", you thought before eating it. Suddenly, your vision became funny.",
                    ),
                    SideEffect::StatusEffectEnable(StatusEffect::Trippy, 5),
                )
            } else if k == 1 {
                (
                    String::from_str(
                        "After eating the pill, a sudden burst of energy ran through your body! \"Must reorganize everything!\" you cried, as you changed the position of all boxes!",
                    ),
                    SideEffect::Reshuffle,
                )
            } else if k == 2 {
                (
                    String::from_str("You know the taste of this pill alright. It is Imodium!"),
                    SideEffect::CureDiarrhea,
                )
            } else {
                (
                    with_amount(
                        "An inspector saw you holding this illegal drug. You paid him ",
                        loss,
                        ". Was it a fine or a bribe? Was he a real inspector? Who knows.",
                    ),
                    SideEffect::MoneyLoss(loss),
                )
            },
            Item::Screwdriver => if k == 0 {
                (
                    with_amount(
                        "You got hurt with this rusty screwdriver and must get a tetanus shot! Have ",
                        loss,
                        " at the ready!",
                    ),
                    SideEffect::MoneyLoss(loss),
                )
            } else if k == 1 {
                (
                    String::from_str(
                        "As this wasn't what you were searching for, you threw it behind you. The scream of the customer confirmed that the hit was fatal.",
                    ),
                    SideEffect::CustomerKill,
                )
            } else if k == 2 {
                (
                    with_amount(
                        "As this wasn't what you were searching for, you threw it behind you. The scream of the customer confirmed that the hit was not fatal; You got sued for ",
                        loss,
                        " instead.",
                    ),
                    SideEffect::MoneyLoss(loss),
                )
            } else {
                (
                    String::from_str(
                        "\"I have a great idea!\" you muttered as you stuck the screwdriver in a power outlet. The electrocution stopped abruptly as the neighborhood transformer exploded. Power will be out for a while, who knows why...",
                    ),
                    SideEffect::StatusEffectEnable(StatusEffect::LightsOut, 5),
                )
            },
        }
    }

    /// A random outcome of the item's side-effect table, with its narration.
    pub fn side_effect(&self) -> (r: (String, SideEffect))
        ensures
            possible_side_effect(*self, r.1),
            possible_outcome(*self, r.0@, r.1),
    {
        let k = roll(0, self.outcome_count_value() - 1);
        let base = self.loss_base_value(k);
        let loss = random_money(base);
        let r = self.side_effect_with(k, loss);
        assert(within_jitter(loss_base(*self, k as int), loss));
        r
    }
}

} // verus!
