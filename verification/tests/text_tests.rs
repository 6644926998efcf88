use justin_rpg::hud::{
    chat_text, context_hint, craft_row, hp_label, inventory_line, push_log, recipe_state,
    region_banner, region_label, stats_line, RecipeState, MAX_LOG_LINES,
};
use justin_rpg::messages::{
    departed_log, entered_region_log, fallen_log, hero_arrived_line, hero_left_line, hero_name,
    joined_log, welcome_text,
};
use justin_rpg::config::{recipe, region, GEAR_BELT, GEAR_BLADE};
use justin_rpg::player::PlayerStats;
use justin_rpg::text::int_string;

fn stats() -> PlayerStats {
    PlayerStats {
        hp: 80,
        seeds: 3,
        harvests: 4,
        kills: 12,
        wood: 3,
        stone: 2,
        ore: 1,
        turnips: 0,
        potions: 2,
        gear: 0,
    }
}

#[test]
fn integers_as_text() {
    assert_eq!(int_string(0), "0");
    assert_eq!(int_string(7), "7");
    assert_eq!(int_string(-42), "-42");
    assert_eq!(int_string(1234567890), "1234567890");
    assert_eq!(int_string(i32::MIN), i32::MIN.to_string());
    assert_eq!(int_string(i32::MAX), i32::MAX.to_string());
}

#[test]
fn hero_names() {
    assert_eq!(hero_name(7), "Hero-0007");
    assert_eq!(hero_name(123456), "Hero-3456");
    assert_eq!(hero_name(10000), "Hero-0000");
    assert_eq!(hero_name(u64::MAX), format!("Hero-{:04}", u64::MAX % 10000));
    assert_eq!(hero_arrived_line(98765), "Hero-8765 entered the world.");
    assert_eq!(hero_left_line(42), "Hero-0042 left the world.");
    assert_eq!(hero_left_line(98765), "Hero-98765 left the world.");
}

#[test]
fn server_log_lines() {
    assert_eq!(joined_log("Hero-0001"), "Hero-0001 has been reincarnated into this world.");
    assert_eq!(departed_log("Hero-0001"), "Hero-0001 returned to their original world.");
    assert_eq!(entered_region_log("Hero-0001", &region(2)), "Hero-0001 entered the Emberveins.");
    assert_eq!(
        fallen_log("Hero-0001"),
        "Hero-0001 was flattened by a monster... embarrassing for an OP protagonist. Reincarnated at the shrine."
    );
    assert!(welcome_text().starts_with("Welcome, OP protagonist! WASD move,"));
    assert!(welcome_text().ends_with("and your wounds close fast."));
}

#[test]
fn chat_box_keeps_last_eight() {
    let mut log: Vec<String> = Vec::new();
    for i in 0..12 {
        push_log(&mut log, format!("line {i}"));
        assert!(log.len() <= MAX_LOG_LINES);
        assert_eq!(log.last().unwrap(), &format!("line {i}"));
    }
    assert_eq!(log.len(), 8);
    assert_eq!(log[0], "line 4");
    assert_eq!(chat_text(&log), (4..12).map(|i| format!("line {i}")).collect::<Vec<_>>().join("\n"));
    assert_eq!(chat_text(&Vec::new()), "");
}

#[test]
fn hints() {
    let s = stats();
    let ready = vec![true; 18];
    assert_eq!(
        context_hint(&PlayerStats { potions: 0, ..s }, &ready, false, None),
        "WASD move    SPACE one-punch    [1-6] craft    gather wood, stone & ore out in the wilds"
    );
    assert_eq!(
        context_hint(&s, &ready, true, Some(7)),
        "[E] tend farm plot     [G] gather stone (Boulder)     [Q] drink draught (x2)"
    );
    let mut depleted = ready.clone();
    depleted[0] = false;
    assert_eq!(
        context_hint(&PlayerStats { hp: 100, ..s }, &depleted, false, Some(0)),
        "[G] Timber Tree depleted - regrowing"
    );
    assert_eq!(
        context_hint(&PlayerStats { hp: 100, ..s }, &Vec::new(), false, Some(0)),
        "[G] gather wood (Timber Tree)"
    );
}

#[test]
fn hud_lines() {
    let s = stats();
    assert_eq!(hp_label(&s, false), "HP 80/100");
    assert_eq!(hp_label(&PlayerStats { hp: -5, gear: GEAR_BELT, ..s }, true), "HP 0/150   [SANCTUARY]");
    assert_eq!(stats_line(&s), "Kills 12   Harvests 4   Seeds 3\nGear: nothing crafted yet");
    assert_eq!(inventory_line("Wood", 3), format!("{:<10} {:>4}", "Wood", 3));
    assert_eq!(inventory_line("Draughts", -12345), format!("{:<10} {:>4}", "Draughts", -12345));
    assert_eq!(region_banner(&region(1)), "Whisperwood\nAncient trees - gather wood here.");
    assert_eq!(region_label(&region(3)), "Region: Homestead");
}

#[test]
fn workbench_rows() {
    let s = stats();
    let blade = recipe(0).unwrap();
    assert_eq!(recipe_state(&blade, &s), RecipeState::Ready);
    assert_eq!(recipe_state(&recipe(1).unwrap(), &s), RecipeState::Locked);
    let owned = PlayerStats { gear: GEAR_BLADE, ..s };
    assert_eq!(recipe_state(&blade, &owned), RecipeState::Owned);
    for i in 0..6 {
        let r = recipe(i).unwrap();
        let status = match recipe_state(&r, &s) {
            RecipeState::Owned => "  [OWNED]",
            RecipeState::Ready => "  [READY]",
            RecipeState::Locked => "",
        };
        let expected = format!(
            "[{}] {:<15} {:>7}  {}{}",
            i + 1,
            r.name,
            justin_rpg::config::cost_text(&r),
            r.blurb,
            status
        );
        assert_eq!(craft_row(i, &s), expected);
    }
    assert_eq!(craft_row(0, &owned), "[1] Iron Blade      3w 2s 1o  +60 one-punch damage  [OWNED]");
}
