use junkmart::effects::{SideEffect, StatusEffect, StatusEffects};
use junkmart::grid::Chests;
use junkmart::item::{jittered, random_money, with_amount, Item};
use junkmart::money::Money;
use junkmart::news::{NewsFeed, NewsFeedUpdate, NewsLevel};
use junkmart::queue::Instruction;
use junkmart::turn::{chest_under_pointer, Cue, Sound, TurnState};

fn grid_with_front(front: Item, picked_slot: usize, picked: Item) -> Chests {
    let mut items = vec![Item::Screwdriver; 20];
    items[0] = front;
    items[picked_slot] = picked;
    Chests::from_items(items)
}

fn news_levels(cues: &[Cue]) -> Vec<NewsLevel> {
    cues.iter()
        .filter_map(|c| match c {
            Cue::News(NewsFeedUpdate(level, _)) => Some(*level),
            _ => None,
        })
        .collect()
}

fn news_texts(cues: &[Cue]) -> Vec<String> {
    cues.iter()
        .filter_map(|c| match c {
            Cue::News(NewsFeedUpdate(_, text)) => Some(text.clone()),
            _ => None,
        })
        .collect()
}

fn run_until_idle(state: &mut TurnState, delta_ms: u64) -> (Vec<Instruction>, Vec<Cue>) {
    let mut handled = Vec::new();
    let mut cues = Vec::new();
    let mut guard = 0;
    while state.is_busy() {
        let front = state.instructions[0];
        if !matches!(front, Instruction::Wait(_)) {
            handled.push(front);
        }
        cues.extend(state.step(delta_ms));
        guard += 1;
        assert!(guard < 10_000);
    }
    (handled, cues)
}

fn script(x: i32, y: i32) -> Vec<Instruction> {
    vec![
        Instruction::SwapWithFirst(x, y),
        Instruction::MoveCameraToFirstChest,
        Instruction::PresentItem,
        Instruction::ResolveRequest,
        Instruction::HideItem,
        Instruction::MoveCameraToRest,
        Instruction::ResolveStatusEffects,
        Instruction::EndOfTurn,
    ]
}

#[test]
fn correct_burger_is_paid_and_remembered() {
    // the picked chest at (1, 0) is slot 4 and holds a burger
    let mut state = TurnState::with_chests(grid_with_front(Item::Gun, 4, Item::Burger));
    state.requested_item = Some(("food", Item::Burger));
    state.active_item = Some(Item::Burger);
    state.instructions = vec![Instruction::ResolveRequest].into();
    let cues = state.step(16);
    assert_eq!(state.money.value(), 1010);
    assert_eq!(state.prev_requested_item, Some(Item::Burger));
    assert!(state.requested_item.is_none());
    assert_eq!(news_levels(&cues), vec![NewsLevel::Correct]);
    assert!(matches!(cues[0], Cue::Play(Sound::Correct)));
    assert_eq!(state.instructions, vec![Instruction::Wait(2000)]);
    let text = &news_texts(&cues)[0];
    assert!(text.ends_with("They paid you $10! Your new balance is $1010."));
}

#[test]
fn full_turn_with_correct_item() {
    let mut state = TurnState::with_chests(grid_with_front(Item::Gun, 4, Item::Burger));
    state.requested_item = Some(("food", Item::Burger));
    state.customer_number = 3;
    state.hovered = Some((1, 0));
    assert!(state.click());
    let (handled, cues) = run_until_idle(&mut state, 250);
    assert_eq!(handled, script(1, 0));
    assert!(news_levels(&cues).contains(&NewsLevel::Correct));
    assert_eq!(state.money.value(), 1010);
    // the next customer came and the remembered item was used up
    assert_eq!(state.customer_number, 4);
    assert!(state.prev_requested_item.is_none());
    let (_, wanted) = state.requested_item.unwrap();
    assert_eq!(wanted, Item::Screwdriver);
    assert!(state.active_item.is_none());
    // the burger now stands in front, the gun where the burger was
    assert_eq!(state.chests.front_item(), Item::Burger);
    assert_eq!(state.chests.chest_at(1, 0).1, Item::Gun);
    // a delivered burger makes a headline
    assert_eq!(state.global_news.len(), 1);
}

#[test]
fn misfire_without_customer() {
    let mut state = TurnState::with_chests(grid_with_front(Item::Gun, 4, Item::Pill));
    state.active_item = Some(Item::Gun);
    state.instructions = vec![Instruction::ResolveRequest, Instruction::EndOfTurn].into();
    let cues = state.step(16);
    assert_eq!(news_levels(&cues), vec![NewsLevel::Wrong; 3]);
    assert_eq!(state.money.value(), 1000 - 5000);
    assert_eq!(state.status_effects.get(StatusEffect::Reshuffle), Some(1));
    assert!(matches!(cues[0], Cue::Play(Sound::Gunshot)));
    assert!(matches!(cues[1], Cue::Play(Sound::LargeHit)));
    assert_eq!(news_texts(&cues)[2], "Cleaning up messed the boxes, while the funeral cost $5000. Your new balance is $-4000.");
    assert_eq!(state.instructions, vec![Instruction::Wait(2000), Instruction::EndOfTurn]);
}

#[test]
fn first_turn_presents_a_gun_and_reshuffles() {
    let mut state = TurnState::with_chests(grid_with_front(Item::Pill, 4, Item::Burger));
    state.hovered = Some((1, 0));
    assert!(state.click());
    let (handled, cues) = run_until_idle(&mut state, 100);
    assert_eq!(handled, script(1, 0));
    assert!(cues.iter().any(|c| matches!(c, Cue::PresentItem(Item::Gun))));
    let moves = cues.iter().filter(|c| matches!(c, Cue::MoveChest { .. })).count();
    assert_eq!(moves, 2 + 20);
    assert_eq!(state.money.value(), -4000);
    // the reshuffle stays on the books for one more pass, then ends
    assert_eq!(state.status_effects.get(StatusEffect::Reshuffle), Some(0));
    assert_eq!(state.customer_number, 1);
    assert!(state.requested_item.is_some());
}

#[test]
fn click_while_busy_is_ignored() {
    let mut state = TurnState::with_chests(grid_with_front(Item::Pill, 4, Item::Burger));
    state.instructions = vec![Instruction::Wait(500), Instruction::EndOfTurn].into();
    state.hovered = Some((2, 3));
    assert!(!state.click());
    assert_eq!(state.instructions, vec![Instruction::Wait(500), Instruction::EndOfTurn]);
    assert_eq!(state.hovered, Some((2, 3)));
    let cues = state.pointer_moved(Some((3, 1)));
    assert!(cues.is_empty());
    assert_eq!(state.hovered, Some((2, 3)));
}

#[test]
fn click_on_front_or_nothing_is_ignored() {
    let mut state = TurnState::with_chests(grid_with_front(Item::Pill, 4, Item::Burger));
    assert!(!state.click());
    state.hovered = Some((0, 0));
    assert!(!state.click());
    assert!(state.instructions.is_empty());
    state.hovered = Some((4, 3));
    assert!(state.click());
    assert_eq!(state.instructions, script(4, 3));
    assert_eq!(state.hovered, None);
}

fn diarrhea_state() -> TurnState {
    let mut state = TurnState::with_chests(grid_with_front(Item::Pill, 4, Item::Burger));
    state.status_effects.insert(StatusEffect::Diarrhea, 2);
    state.requested_item = Some(("guns", Item::Gun));
    state.active_item = Some(Item::Burger);
    state.instructions = vec![Instruction::ResolveStatusEffects, Instruction::EndOfTurn].into();
    state
}

#[test]
fn diarrhea_drives_customer_away_on_high_roll() {
    let mut state = diarrhea_state();
    let cues = state.resolve_status_effects_with(8);
    assert!(state.requested_item.is_none());
    assert_eq!(state.instructions, vec![Instruction::Wait(5000), Instruction::EndOfTurn]);
    assert!(matches!(cues[0], Cue::RemoveItem));
    assert!(cues.iter().any(|c| matches!(c, Cue::Play(Sound::Flush))));
    let texts = news_texts(&cues);
    assert_eq!(texts.len(), 1);
    assert!(texts[0].contains("leav"));
    assert_eq!(state.status_effects.get(StatusEffect::Diarrhea), Some(1));
    assert!(state.active_item.is_none());
}

#[test]
fn diarrhea_customer_waits_on_low_roll() {
    let mut state = diarrhea_state();
    let cues = state.resolve_status_effects_with(7);
    assert_eq!(state.requested_item, Some(("guns", Item::Gun)));
    assert_eq!(state.instructions, vec![Instruction::Wait(5000), Instruction::EndOfTurn]);
    let texts = news_texts(&cues);
    assert_eq!(texts.len(), 1);
    assert!(texts[0].contains("toilet"));
}

#[test]
fn diarrhea_without_customer_still_waits() {
    let mut state = diarrhea_state();
    state.requested_item = None;
    let cues = state.resolve_status_effects_with(10);
    assert_eq!(state.instructions, vec![Instruction::Wait(5000), Instruction::EndOfTurn]);
    assert_eq!(
        news_texts(&cues),
        vec!["The customer left just in time for the toilet instruments to start playing!".to_string()]
    );
}

#[test]
fn status_effects_without_waits_pop() {
    let mut state = TurnState::with_chests(grid_with_front(Item::Pill, 4, Item::Burger));
    state.status_effects.insert(StatusEffect::LightsOut, 0);
    state.active_item = Some(Item::Pill);
    state.instructions = vec![Instruction::ResolveStatusEffects, Instruction::EndOfTurn].into();
    let cues = state.resolve_status_effects_with(0);
    assert_eq!(state.instructions, vec![Instruction::EndOfTurn]);
    assert!(!state.status_effects.contains(StatusEffect::LightsOut));
    assert!(cues.iter().any(|c| matches!(c, Cue::Lights(true))));
    assert_eq!(news_texts(&cues), vec!["Finally, the power is back!".to_string()]);
}

#[test]
fn effect_lasts_exactly_its_turns() {
    let mut effects = StatusEffects::new();
    effects.insert(StatusEffect::Trippy, 3);
    for left in [2, 1, 0] {
        let (ended, live) = effects.pass_turn();
        assert!(ended.is_empty());
        assert_eq!(live, vec![StatusEffect::Trippy]);
        assert_eq!(effects.get(StatusEffect::Trippy), Some(left));
    }
    let (ended, live) = effects.pass_turn();
    assert_eq!(ended, vec![StatusEffect::Trippy]);
    assert!(live.is_empty());
    assert!(!effects.contains(StatusEffect::Trippy));
}

#[test]
fn effect_with_zero_turns_ends_on_first_pass() {
    let mut effects = StatusEffects::new();
    effects.insert(StatusEffect::Reshuffle, 0);
    effects.insert(StatusEffect::Cancer, 2147483647);
    let (ended, live) = effects.pass_turn();
    assert_eq!(ended, vec![StatusEffect::Reshuffle]);
    assert_eq!(live, vec![StatusEffect::Cancer]);
    assert_eq!(effects.remove(StatusEffect::Cancer), Some(2147483646));
    assert_eq!(effects.remove(StatusEffect::Cancer), None);
}

#[test]
fn draw_never_repeats_previous_item() {
    for turn in [1, 3, 5, 6, 12, 20, 22, 100, 0, -4] {
        for prev in [Item::Burger, Item::Screwdriver, Item::Gun, Item::Pill] {
            for _ in 0..50 {
                let item = Item::new_random(turn, Some(prev));
                assert_ne!(item, prev);
                if (1..=5).contains(&turn) {
                    assert!(item == Item::Burger || item == Item::Screwdriver);
                } else {
                    assert!(item != Item::Barrel);
                }
            }
        }
    }
}

#[test]
fn finale_always_draws_the_barrel() {
    assert_eq!(Item::new_random(21, None), Item::Barrel);
    assert_eq!(Item::new_random(21, Some(Item::Barrel)), Item::Barrel);
    assert_eq!(Item::choices(21, Some(Item::Burger)), vec![Item::Barrel]);
    assert_eq!(Item::choices(4, Some(Item::Burger)), vec![Item::Screwdriver]);
    assert_eq!(Item::choices(7, Some(Item::Gun)), vec![Item::Burger, Item::Screwdriver, Item::Pill]);
    assert_eq!(Item::choices(7, None), vec![Item::Burger, Item::Screwdriver, Item::Gun, Item::Pill]);
}

#[test]
fn jitter_stays_within_a_twentieth() {
    for base in [0, 10, 19, 20, 200, 1000, 8_000_000] {
        for _ in 0..200 {
            let m = random_money(base).value();
            assert!(base - base / 20 <= m && m <= base + base / 20, "{base}: {m}");
        }
    }
    assert_eq!(jittered(1000, -50).value(), 950);
    assert_eq!(jittered(1000, 50).value(), 1050);
    assert_eq!(jittered(10, 0).value(), 10);
    for _ in 0..50 {
        let g = Item::Gun.gain().value();
        assert!((285..=315).contains(&g));
        assert_eq!(Item::Burger.gain().value(), 10);
    }
}

#[test]
fn side_effect_table_entries() {
    let loss = Money::new(1234);
    let (text, effect) = Item::Burger.side_effect_with(0, loss);
    assert_eq!(effect, SideEffect::StatusEffectEnable(StatusEffect::Diarrhea, 3));
    assert!(text.contains("stomach"));
    let (text, effect) = Item::Gun.side_effect_with(2, loss);
    assert_eq!(effect, SideEffect::MoneyLoss(loss));
    assert_eq!(text, "The illegal firearm discharge was reported to the police, the fine is $1234!");
    assert_eq!(Item::Barrel.side_effect_with(0, loss).1, SideEffect::ToggleCancer);
    assert_eq!(Item::Barrel.side_effect_with(4, loss).1, SideEffect::CustomerKill);
    assert_eq!(Item::Pill.side_effect_with(1, loss).1, SideEffect::Reshuffle);
    assert_eq!(Item::Pill.side_effect_with(2, loss).1, SideEffect::CureDiarrhea);
    assert_eq!(Item::Screwdriver.side_effect_with(3, loss).1, SideEffect::StatusEffectEnable(StatusEffect::LightsOut, 5));
    assert_eq!(Item::Gun.side_effect_with(3, loss).1, SideEffect::NoEffect);
    for _ in 0..100 {
        match Item::Screwdriver.side_effect().1 {
            SideEffect::MoneyLoss(m) => {
                let v = m.value();
                assert!((95..=105).contains(&v) || (950..=1050).contains(&v));
            }
            SideEffect::CustomerKill => {}
            SideEffect::StatusEffectEnable(StatusEffect::LightsOut, 5) => {}
            other => panic!("not in the screwdriver's table: {other:?}"),
        }
    }
}

#[test]
fn mishap_kills_or_charges() {
    let mut state = TurnState::with_chests(grid_with_front(Item::Pill, 4, Item::Burger));
    state.requested_item = Some(("guns", Item::Gun));
    let cues = state.mishap(Item::Pill, "pills", ("It is Imodium!".to_string(), SideEffect::CureDiarrhea));
    assert_eq!(news_texts(&cues), vec!["Customer requested guns, but you found pills instead! It is Imodium!".to_string()]);
    state.status_effects.insert(StatusEffect::Diarrhea, 2);
    let cues = state.mishap(Item::Pill, "pills", (String::new(), SideEffect::CureDiarrhea));
    assert!(matches!(cues[0], Cue::Play(Sound::Correct)));
    assert!(!state.status_effects.contains(StatusEffect::Diarrhea));
    state.mishap(Item::Barrel, "barrels", (String::new(), SideEffect::ToggleCancer));
    assert_eq!(state.status_effects.get(StatusEffect::Cancer), Some(i32::MAX));
    state.mishap(Item::Barrel, "barrels", (String::new(), SideEffect::ToggleCancer));
    assert!(!state.status_effects.contains(StatusEffect::Cancer));
    let cues = state.mishap(Item::Gun, "guns", ("Ouch.".to_string(), SideEffect::MoneyLoss(Money::new(300))));
    assert_eq!(state.money.value(), 700);
    assert_eq!(news_levels(&cues), vec![NewsLevel::Wrong]);
    assert!(news_texts(&cues)[0].ends_with("Ouch. Your new balance is $700."));
    state.mishap(Item::Pill, "pills", (String::new(), SideEffect::Reshuffle));
    assert_eq!(state.status_effects.get(StatusEffect::Reshuffle), Some(1));
    state.mishap(Item::Gun, "guns", (String::new(), SideEffect::CustomerKill));
    assert!(state.requested_item.is_none());
}

#[test]
fn barrel_starts_the_war_and_the_war_ends_in_a_win() {
    let mut state = TurnState::with_chests(grid_with_front(Item::Barrel, 4, Item::Burger));
    state.customer_number = 21;
    state.requested_item = Some(("a radioactive barrel", Item::Barrel));
    state.active_item = Some(Item::Barrel);
    state.instructions = vec![Instruction::ResolveRequest].into();
    state.step(0);
    assert!(state.war);
    assert_eq!(state.war_news.len(), 4);
    assert!(state.money.value() >= 1000 + 8_000_000 - 400_000);
    for left in [3usize, 2, 1, 0] {
        state.instructions = vec![Instruction::EndOfTurn].into();
        let cues = state.step(0);
        assert_eq!(state.war_news.len(), left);
        assert_eq!(state.win, left == 0);
        assert!(news_levels(&cues).contains(&NewsLevel::External));
    }
    assert_eq!(state.customer_number, 22);
}

#[test]
fn finale_customer_stays_until_served() {
    let mut state = TurnState::with_chests(grid_with_front(Item::Pill, 4, Item::Burger));
    state.customer_number = 21;
    state.instructions = vec![Instruction::EndOfTurn].into();
    let cues = state.step(0);
    assert_eq!(state.customer_number, 21);
    assert_eq!(state.requested_item.map(|r| r.1), Some(Item::Barrel));
    let texts = news_texts(&cues);
    assert!(texts.last().unwrap().starts_with("Turn 21/20: A shady figure just arrived! They requested "));
    state.instructions = vec![Instruction::EndOfTurn].into();
    let cues = state.step(0);
    assert_eq!(state.customer_number, 21);
    assert!(news_texts(&cues).last().unwrap().starts_with("The customer is still waiting for "));
}

#[test]
fn sixth_customer_brings_advice() {
    let mut state = TurnState::with_chests(grid_with_front(Item::Pill, 4, Item::Burger));
    state.customer_number = 5;
    state.prev_requested_item = Some(Item::Barrel);
    state.instructions = vec![Instruction::EndOfTurn].into();
    let cues = state.step(0);
    assert_eq!(state.customer_number, 6);
    let texts = news_texts(&cues);
    assert_eq!(texts.len(), 2);
    assert!(texts[1].starts_with("Turn 6/20: A new customer just arrived!"));
    assert_ne!(state.requested_item.unwrap().1, Item::Barrel);
    // a barrel makes no headline
    assert!(state.global_news.is_empty());
}

#[test]
fn wait_counts_down_by_elapsed_time() {
    let mut state = TurnState::with_chests(grid_with_front(Item::Pill, 4, Item::Burger));
    state.instructions = vec![Instruction::Wait(1000), Instruction::EndOfTurn].into();
    state.step(300);
    assert_eq!(state.instructions, vec![Instruction::Wait(700), Instruction::EndOfTurn]);
    state.step(700);
    assert_eq!(state.instructions, vec![Instruction::EndOfTurn]);
    let empty: Vec<Instruction> = Vec::new();
    state.step(5);
    assert_eq!(state.instructions, empty);
    assert!(state.step(5).is_empty());
}

#[test]
fn turn_order_does_not_depend_on_frame_time() {
    for delta in [1u64, 16, 333, 1000, 10_000] {
        let mut state = TurnState::with_chests(grid_with_front(Item::Pill, 7, Item::Gun));
        state.requested_item = Some(("pills", Item::Pill));
        state.hovered = Some((1, 3));
        assert!(state.click());
        let mut previous: Vec<Instruction> = state.instructions.iter().copied().collect();
        let mut handled = Vec::new();
        while state.is_busy() {
            let front = state.instructions[0];
            if !matches!(front, Instruction::Wait(_)) {
                handled.push(front);
                assert!(state.active_item.is_some() == matches!(front, Instruction::ResolveRequest | Instruction::HideItem | Instruction::MoveCameraToRest | Instruction::ResolveStatusEffects));
            }
            state.step(delta);
            // only the front changed
            let now: Vec<Instruction> = state.instructions.iter().copied().collect();
            assert!(now.len() == previous.len() || now.len() + 1 == previous.len());
            assert_eq!(&now[now.len().min(1)..], &previous[previous.len() - now.len() + now.len().min(1)..]);
            previous = now;
        }
        assert_eq!(handled, script(1, 3));
        assert!(state.active_item.is_none());
    }
}

#[test]
fn swap_exchanges_front_and_picked() {
    let mut chests = grid_with_front(Item::Barrel, 9, Item::Pill);
    let (front, _) = chests.chest_at(0, 0);
    let (picked, _) = chests.chest_at(2, 1);
    chests.swap_with_first(2, 1);
    assert_eq!(chests.chest_at(0, 0), (picked, Item::Pill));
    assert_eq!(chests.chest_at(2, 1), (front, Item::Barrel));
}

fn counts(chests: &Chests) -> Vec<usize> {
    let mut c = vec![0usize; 5];
    for x in 0..5 {
        for y in 0..4 {
            let idx = match chests.chest_at(x, y).1 {
                Item::Barrel => 0,
                Item::Burger => 1,
                Item::Gun => 2,
                Item::Pill => 3,
                Item::Screwdriver => 4,
            };
            c[idx] += 1;
        }
    }
    c
}

#[test]
fn reshuffle_is_a_permutation() {
    let mut chests = Chests::new_random();
    assert_eq!(counts(&chests), vec![2, 6, 3, 3, 6]);
    for _ in 0..20 {
        let before: Vec<(usize, Item)> = (0..20).map(|s| chests.chest_at(s / 4, s % 4)).collect();
        let moves = chests.reshuffle();
        assert_eq!(moves.len(), 20);
        let mut seen = vec![false; 20];
        for (s, (chest, from)) in moves.iter().enumerate() {
            let s = s as i32;
            assert_eq!(chests.chest_at(s / 4, s % 4).0, *chest);
            assert_eq!(before[*from].0, *chest);
            assert_eq!(before[*from].1, chests.chest_at(s / 4, s % 4).1);
            assert!(!seen[*chest]);
            seen[*chest] = true;
        }
        assert_eq!(counts(&chests), vec![2, 6, 3, 3, 6]);
    }
}

#[test]
fn pointer_maps_to_chests() {
    assert_eq!(chest_under_pointer(-2900, -2300), Some((0, 0)));
    assert_eq!(chest_under_pointer(-1701, -1101), Some((0, 0)));
    assert_eq!(chest_under_pointer(-1700, -1100), Some((1, 1)));
    assert_eq!(chest_under_pointer(2899, 2299), Some((4, 3)));
    assert_eq!(chest_under_pointer(2900, 0), None);
    assert_eq!(chest_under_pointer(0, -2301), None);
    assert_eq!(chest_under_pointer(0, 0), Some((2, 1)));
}

#[test]
fn hovering_lifts_and_lowers() {
    let mut state = TurnState::with_chests(grid_with_front(Item::Pill, 4, Item::Burger));
    let cues = state.pointer_moved(Some((1, 2)));
    assert!(matches!(cues.as_slice(), [Cue::LiftChest((1, 2))]));
    assert!(state.pointer_moved(Some((1, 2))).is_empty());
    let cues = state.pointer_moved(Some((3, 0)));
    assert!(matches!(cues.as_slice(), [Cue::LowerChest((1, 2)), Cue::LiftChest((3, 0))]));
    let cues = state.pointer_moved(Some((7, 0)));
    assert!(matches!(cues.as_slice(), [Cue::LowerChest((3, 0))]));
    assert_eq!(state.hovered, None);
    assert!(state.pointer_moved(None).is_empty());
}

#[test]
fn feed_keeps_the_last_twenty() {
    let mut feed = NewsFeed::new();
    let first: Vec<NewsFeedUpdate> = (0..15).map(|i| NewsFeedUpdate(NewsLevel::Event, format!("{i}"))).collect();
    feed.update(first);
    assert_eq!(feed.len(), 15);
    let second: Vec<NewsFeedUpdate> = (15..32).map(|i| NewsFeedUpdate(NewsLevel::Wrong, format!("{i}"))).collect();
    feed.update(second);
    assert_eq!(feed.len(), 20);
    assert_eq!(feed.entries[0].1, "12");
    assert_eq!(feed.entries[19].1, "31");
    assert_eq!(feed.entries[19].0, NewsLevel::Wrong);
}

#[test]
fn money_is_written_with_a_dollar_sign() {
    assert_eq!(Money::new(1000).text(), "$1000");
    assert_eq!(Money::new(-4000).text(), "$-4000");
    assert_eq!(Money::new(0).text(), "$0");
    assert_eq!(with_amount("pay ", Money::new(5), "!"), "pay $5!");
    let mut m = Money::new(i32::MAX - 1);
    m.add_assign(Money::new(10));
    assert_eq!(m.value(), i32::MAX);
    m.sub_assign(Money::new(i32::MAX));
    assert_eq!(m.value(), 0);
}

#[test]
fn phrases_come_from_their_lists() {
    for _ in 0..30 {
        assert!(Item::Gun.request_list().contains(&Item::Gun.request()));
        assert!(Item::Pill.found_list().contains(&Item::Pill.found()));
        let h = Item::Burger.global_side_effect().unwrap();
        assert!(Item::Burger.headline_list().contains(&h));
    }
    assert_eq!(Item::Barrel.global_side_effect(), None);
    assert_eq!(Item::Screwdriver.found(), "screwdrivers");
}

#[test]
fn new_game_starts_empty() {
    let state = TurnState::new();
    assert_eq!(state.money.value(), 1000);
    assert!(!state.is_busy());
    assert_eq!(state.customer_number, 0);
    assert_eq!(counts(&state.chests), vec![2, 6, 3, 3, 6]);
    let news = junkmart::turn::opening_news();
    assert_eq!(news.len(), 2);
    assert_eq!(news[0].0, NewsLevel::External);
}

#[test]
fn steps_without_presented_item_are_skipped() {
    let mut state = TurnState::with_chests(grid_with_front(Item::Pill, 4, Item::Burger));
    state.instructions = vec![
        Instruction::ResolveRequest,
        Instruction::HideItem,
        Instruction::ResolveStatusEffects,
        Instruction::SwapWithFirst(9, 9),
    ].into();
    for left in [3usize, 2, 1, 0] {
        let cues = state.step(16);
        assert_eq!(state.instructions.len(), left);
        assert!(matches!(cues.as_slice(), [Cue::Diagnostic(_)]));
    }
    assert_eq!(state.money.value(), 1000);
    assert!(state.requested_item.is_none());
}

#[test]
fn reshuffle_moves_every_chest_once() {
    let mut state = TurnState::with_chests(Chests::new_random());
    state.status_effects.insert(StatusEffect::Reshuffle, 1);
    state.active_item = Some(Item::Pill);
    state.instructions = vec![Instruction::ResolveStatusEffects, Instruction::EndOfTurn].into();
    let cues = state.resolve_status_effects_with(0);
    assert!(matches!(cues[0], Cue::RemoveItem));
    let mut seen = vec![false; 20];
    let mut count = 0;
    for cue in &cues[1..] {
        if let Cue::MoveChest { chest, to, arc, .. } = cue {
            assert_eq!(*arc, junkmart::turn::Arc::Random);
            assert_eq!(state.chests.chest_at(to.0, to.1).0, *chest);
            assert!(!seen[*chest]);
            seen[*chest] = true;
            count += 1;
        }
    }
    assert_eq!(count, 20);
    assert_eq!(cues.len(), 21);
    assert_eq!(state.instructions, vec![Instruction::Wait(1000), Instruction::EndOfTurn]);
}

#[test]
fn war_headlines_come_with_sounds() {
    let mut state = TurnState::with_chests(grid_with_front(Item::Pill, 4, Item::Burger));
    state.requested_item = Some(("guns", Item::Gun));
    state.war = true;
    state.war_news = vec!["one", "two", "three", "four"].into();
    state.global_news = vec!["headline"].into();
    state.instructions = vec![Instruction::EndOfTurn].into();
    let cues = state.step(0);
    assert_eq!(news_texts(&cues)[0], "headline");
    assert!(matches!(cues[1], Cue::Play(Sound::Gunshot)));
    assert!(matches!(cues[2], Cue::Play(Sound::NukeSiren)));
    assert_eq!(news_texts(&cues)[1], "one");
    assert_eq!(news_levels(&cues)[..2], [NewsLevel::External, NewsLevel::External]);
    assert_eq!(news_texts(&cues)[2], "The customer is still waiting for guns.");
    for _ in 0..3 {
        state.instructions = vec![Instruction::EndOfTurn].into();
        let cues = state.step(0);
        if state.war_news.is_empty() {
            assert!(cues.iter().any(|c| matches!(c, Cue::Play(Sound::WinMusic))));
        }
    }
    assert!(state.win);
}

#[test]
fn money_loss_tells_one_line() {
    let mut state = TurnState::with_chests(grid_with_front(Item::Pill, 4, Item::Burger));
    state.requested_item = Some(("food", Item::Burger));
    let (story, effect) = Item::Gun.side_effect_with(0, Money::new(1000));
    assert!(story.contains("$1000"));
    let cues = state.mishap(Item::Gun, "guns", (story, effect));
    assert_eq!(cues.len(), 1);
    assert_eq!(news_levels(&cues), vec![NewsLevel::Wrong]);
    assert_eq!(state.money.value(), 0);
}
