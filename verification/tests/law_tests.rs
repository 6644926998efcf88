//! Concrete instances of the library's laws.

use justin_rpg::combat::resolve_punch;
use justin_rpg::combat::Foe;
use justin_rpg::config::{
    attack_damage, cost_text, enemy_hp, harvest_seeds, max_hp, recipe, wild_regions,
    Recipe, GEAR_BELT, GEAR_BLADE,
};
use justin_rpg::hud::{context_hint, push_log, recipe_state, RecipeState};
use justin_rpg::player::{farm, PlayerStats, Plot};

fn hero() -> PlayerStats {
    PlayerStats {
        hp: 100,
        seeds: 1,
        harvests: 0,
        kills: 0,
        wood: 20,
        stone: 20,
        ore: 20,
        turnips: 20,
        potions: 1,
        gear: 0,
    }
}

#[test]
fn law_one_punch_slime_not_wolf() {
    for gear in 0..=255u8 {
        assert!(attack_damage(gear) >= enemy_hp(0));
        assert!(attack_damage(gear) < enemy_hp(1));
        assert!(attack_damage(gear) < enemy_hp(2));
    }
    let mut foes = vec![
        Foe { id: 0, kind: 0u8, hp: enemy_hp(0), body: () },
        Foe { id: 1, kind: 1u8, hp: enemy_hp(1), body: () },
    ];
    let fallen = resolve_punch(&mut foes, &vec![true, true], attack_damage(GEAR_BLADE));
    assert_eq!(fallen, vec![0]);
    assert_eq!(foes.len(), 1);
}

#[test]
fn law_harvest_yields_seeds_values() {
    for gear in 0..=255u8 {
        assert!(harvest_seeds(gear) >= 2);
    }
}

#[test]
fn law_gear_kept_and_crafted_once() {
    let mut s = hero();
    s.craft(0, "a");
    s.craft(2, "a");
    assert_eq!(s.gear, GEAR_BLADE | 4);
    let before = s;
    assert_eq!(s.craft(0, "a").unwrap(), "a already owns a Iron Blade.");
    assert_eq!(s, before);
}

#[test]
fn law_crafting_pays_exactly_values() {
    for i in 0..6 {
        let r = recipe(i).unwrap();
        let mut s = hero();
        s.craft(i as u8, "b");
        assert_eq!(s.wood, 20 - r.wood);
        assert_eq!(s.stone, 20 - r.stone);
        assert_eq!(s.ore, 20 - r.ore);
        assert_eq!(s.turnips, 20 - r.turnips);
        let mut poor = PlayerStats { wood: 0, stone: 0, ore: 0, turnips: 0, ..hero() };
        let before = poor;
        poor.craft(i as u8, "b");
        assert_eq!(poor, before);
    }
}

#[test]
fn law_hp_stays_within_max_values() {
    let mut s = PlayerStats { hp: 90, ..hero() };
    s.regenerate(30);
    assert!(s.hp <= max_hp(s.gear));
    s.craft(1, "c");
    assert_eq!(s.hp, 150);
    assert!(s.hp <= max_hp(s.gear));
    s.drink("c");
    assert!(s.hp <= max_hp(s.gear));
}

#[test]
fn law_draughts_not_wasted_values() {
    let mut full = hero();
    full.drink("d");
    assert_eq!(full.potions, 1);
    let mut hurt = PlayerStats { hp: 99, ..hero() };
    hurt.drink("d");
    assert_eq!((hurt.potions, hurt.hp), (0, 100));
}

#[test]
fn law_farm_cycle_values() {
    let mut plot: Plot<f32> = Plot::new();
    let mut s = hero();
    let steps = [
        (false, "e tilled a plot of soil."),
        (false, "e planted a Divine Turnip seed. Water it with E!"),
        (false, "e watered a crop. It will grow quickly now."),
        (true, "e harvested a Divine Turnip! (+2 seeds, +1 turnips)"),
        (false, "e planted a Divine Turnip seed. Water it with E!"),
    ];
    for (ripe, expected) in steps {
        assert_eq!(farm(&mut plot, ripe, 0.0, &mut s, "e").unwrap(), expected);
    }
    assert_eq!(s.seeds, 1);
}

#[test]
fn law_no_spawns_in_sanctuary_or_homestead_values() {
    for r in wild_regions() {
        assert!(r.name != "Sanctuary of Rebirth");
        assert!(r.name != "Homestead");
        assert!(!r.spawns.is_empty());
    }
}

#[test]
fn law_chat_box_bounded_values() {
    let mut log = Vec::new();
    for i in 0..20 {
        push_log(&mut log, i.to_string());
        assert!(log.len() <= 8);
        assert_eq!(log.last().unwrap(), &i.to_string());
    }
}

#[test]
fn law_free_means_no_cost_values() {
    let r = Recipe { name: "n", blurb: "b", wood: 0, stone: 0, ore: 0, turnips: 0, gear: 0 };
    assert_eq!(cost_text(&r), "free");
}

#[test]
fn law_kill_drops_values() {
    let mut s = hero();
    s.reward_kill("f", 2, true);
    assert_eq!((s.kills, s.ore, s.seeds), (1, 22, 1));
    s.reward_kill("f", 1, true);
    assert_eq!((s.kills, s.ore, s.seeds), (2, 22, 2));
    s.reward_kill("f", 0, false);
    assert_eq!((s.kills, s.ore, s.seeds), (3, 22, 2));
}

#[test]
fn law_brewing_and_belt_values() {
    let mut s = PlayerStats { hp: 40, ..hero() };
    s.craft(5, "g");
    assert_eq!((s.potions, s.gear, s.hp), (2, 0, 40));
    s.craft(1, "g");
    assert_eq!((s.gear, s.hp), (GEAR_BELT, 90));
    s.craft(4, "g");
    assert_eq!(s.hp, 90);
}

#[test]
fn law_draught_heals_up_to_max_values() {
    let mut a = PlayerStats { hp: 10, ..hero() };
    a.drink("h");
    assert_eq!(a.hp, 60);
    let mut b = PlayerStats { hp: 80, ..hero() };
    b.drink("h");
    assert_eq!(b.hp, 100);
}

#[test]
fn law_workbench_matches_crafting_values() {
    let mixes = [
        PlayerStats { wood: 0, stone: 0, ore: 0, turnips: 0, ..hero() },
        hero(),
        PlayerStats { gear: 31, ..hero() },
    ];
    for s in mixes {
        for i in 0..6 {
            let r = recipe(i).unwrap();
            let mut t = s;
            let log = t.craft(i as u8, "w").unwrap();
            match recipe_state(&r, &s) {
                RecipeState::Owned => assert!(log.contains("already owns")),
                RecipeState::Ready => assert!(log.contains("crafted") || log.contains("brewed")),
                RecipeState::Locked => assert!(log.contains("lacks materials")),
            }
        }
    }
}

#[test]
fn law_drink_hint_matches_drinking_values() {
    let ready = vec![true; 18];
    let hurt = PlayerStats { hp: 50, ..hero() };
    assert!(context_hint(&hurt, &ready, false, None).contains("[Q] drink draught (x1)"));
    let mut h = hurt;
    assert!(h.drink("q").contains("quaffed"));
    let full = hero();
    assert!(!context_hint(&full, &ready, false, None).contains("[Q]"));
    let mut f = full;
    assert!(f.drink("q").contains("already at full HP"));
}

#[test]
fn law_counts_stay_non_negative_values() {
    let mut s = PlayerStats { seeds: 0, wood: 1, stone: 0, ore: 1, turnips: 1, potions: 0, ..hero() };
    for i in 0..6u8 {
        s.craft(i, "n");
    }
    s.drink("n");
    let mut plot: Plot<f32> = Plot { tilled: true, crop: None };
    farm(&mut plot, false, 0.0, &mut s, "n");
    for v in [s.seeds, s.wood, s.stone, s.ore, s.turnips, s.potions] {
        assert!(v >= 0);
    }
    assert_eq!((s.wood, s.ore, s.turnips, s.potions), (0, 0, 0, 1));
}
