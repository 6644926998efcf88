use justin_rpg::config::{GEAR_BELT, GEAR_BLADE, GEAR_CHARM, GEAR_SHIELD};
use justin_rpg::player::{drop_odds, farm, gather, kill_line, Crop, LocalState, PlayerStats, Plot, ResourceNode};

fn rich() -> PlayerStats {
    PlayerStats {
        hp: 80,
        seeds: 3,
        harvests: 0,
        kills: 0,
        wood: 10,
        stone: 10,
        ore: 10,
        turnips: 10,
        potions: 0,
        gear: 0,
    }
}

#[test]
fn new_and_default_stats() {
    let s = PlayerStats::new();
    assert_eq!(s.hp, 100);
    assert_eq!(s.seeds, 5);
    assert_eq!(s.gear, 0);
    let d = LocalState::default();
    assert_eq!(d.hp, 100);
    assert_eq!(d.seeds, 0);
    assert_eq!(d.potions, 0);
}

#[test]
fn craft_equipment_pays_and_sets_gear() {
    let mut s = rich();
    let log = s.craft(0, "Hero-0001").unwrap();
    assert_eq!(log, "Hero-0001 crafted a Iron Blade! (+60 one-punch damage)");
    assert_eq!((s.wood, s.stone, s.ore, s.turnips), (7, 8, 9, 10));
    assert_eq!(s.gear, GEAR_BLADE);
    assert_eq!(s.hp, 80);
}

#[test]
fn craft_belt_raises_health() {
    let mut s = rich();
    let log = s.craft(1, "Hero-0002").unwrap();
    assert_eq!(log, "Hero-0002 crafted a Titan Belt! (+50 max HP)");
    assert_eq!(s.gear, GEAR_BELT);
    assert_eq!(s.hp, 130);
    let mut full = PlayerStats { hp: 100, ..rich() };
    full.craft(1, "h");
    assert_eq!(full.hp, 150);
}

#[test]
fn craft_twice_is_refused() {
    let mut s = rich();
    s.craft(0, "A");
    let before = s;
    let log = s.craft(0, "A").unwrap();
    assert_eq!(log, "A already owns a Iron Blade.");
    assert_eq!(s, before);
}

#[test]
fn craft_without_materials_is_refused() {
    let mut s = PlayerStats { wood: 1, stone: 0, ore: 0, turnips: 0, ..rich() };
    let before = s;
    let log = s.craft(4, "B").unwrap();
    assert_eq!(
        log,
        "B lacks materials for Guardian Shield (2w 5s 3o) - gather more or harvest turnips."
    );
    assert_eq!(s, before);
}

#[test]
fn craft_draught_brews_potion() {
    let mut s = rich();
    let log = s.craft(5, "C").unwrap();
    assert_eq!(log, "C brewed a Healing Draught! (drink with Q to restore 50 HP)");
    assert_eq!(s.potions, 1);
    assert_eq!(s.gear, 0);
    assert_eq!((s.wood, s.ore, s.turnips), (9, 9, 9));
    // Consumables can be brewed again and again.
    s.craft(5, "C");
    assert_eq!(s.potions, 2);
}

#[test]
fn craft_unknown_recipe_is_ignored() {
    let mut s = rich();
    assert!(s.craft(6, "D").is_none());
    assert!(s.craft(255, "D").is_none());
    assert_eq!(s, rich());
}

#[test]
fn drinking() {
    let mut s = PlayerStats { potions: 0, ..rich() };
    assert_eq!(
        s.drink("E"),
        "E has no Healing Draughts - craft one with key 6 (1w 1o 1t)."
    );
    let mut full = PlayerStats { hp: 100, potions: 2, ..rich() };
    assert_eq!(full.drink("E"), "E is already at full HP.");
    assert_eq!(full.potions, 2);
    let mut hurt = PlayerStats { hp: 80, potions: 2, ..rich() };
    assert_eq!(hurt.drink("E"), "E quaffed a Healing Draught! (+20 HP)");
    assert_eq!((hurt.hp, hurt.potions), (100, 1));
    let mut low = PlayerStats { hp: 10, potions: 1, gear: GEAR_BELT, ..rich() };
    assert_eq!(low.drink("E"), "E quaffed a Healing Draught! (+50 HP)");
    assert_eq!((low.hp, low.potions), (60, 0));
}

#[test]
fn gathering() {
    let mut node = ResourceNode { ready: true, timer: 0.0f32 };
    let mut s = rich();
    let log = gather(&mut node, 7.0, 7, &mut s, "F");
    assert_eq!(log, "F gathered 2 stone from a Boulder!");
    assert_eq!(s.stone, 12);
    assert!(!node.ready);
    assert_eq!(node.timer, 7.0);
    let log = gather(&mut node, 7.0, 7, &mut s, "F");
    assert_eq!(log, "F found a depleted Boulder; it will regrow soon.");
    assert_eq!(s.stone, 12);
    let mut tree = ResourceNode { ready: true, timer: 0.0f32 };
    gather(&mut tree, 7.0, 0, &mut s, "F");
    assert_eq!(s.wood, 12);
    let mut vein = ResourceNode { ready: true, timer: 0.0f32 };
    assert_eq!(gather(&mut vein, 7.0, 15, &mut s, "F"), "F gathered 2 ore from a Ore Vein!");
    assert_eq!(s.ore, 12);
    assert_eq!(
        justin_rpg::player::nothing_to_gather_log("F"),
        "F sees nothing to gather here. Look for trees in the Whisperwood, boulders in the Quarry, or ore veins in the Emberveins."
    );
}

#[test]
fn farming_cycle() {
    let mut plot: Plot<f32> = Plot::new();
    let mut s = PlayerStats { seeds: 1, ..rich() };
    assert_eq!(farm(&mut plot, false, 0.0, &mut s, "G").unwrap(), "G tilled a plot of soil.");
    assert!(plot.tilled && plot.crop.is_none());
    assert_eq!(
        farm(&mut plot, false, 0.0, &mut s, "G").unwrap(),
        "G planted a Divine Turnip seed. Water it with E!"
    );
    assert_eq!(s.seeds, 0);
    assert!(matches!(plot.crop, Some(Crop { watered: false, .. })));
    assert_eq!(
        farm(&mut plot, false, 0.0, &mut s, "G").unwrap(),
        "G watered a crop. It will grow quickly now."
    );
    assert!(matches!(plot.crop, Some(Crop { watered: true, .. })));
    assert!(farm(&mut plot, false, 0.0, &mut s, "G").is_none());
    if let Some(c) = plot.crop.as_mut() {
        c.growth = 1.0;
    }
    assert_eq!(
        farm(&mut plot, true, 0.0, &mut s, "G").unwrap(),
        "G harvested a Divine Turnip! (+2 seeds, +1 turnips)"
    );
    assert!(plot.tilled && plot.crop.is_none());
    assert_eq!((s.seeds, s.turnips, s.harvests), (2, 11, 1));
}

#[test]
fn farming_without_seeds_and_with_charm() {
    let mut plot: Plot<f32> = Plot { tilled: true, crop: None };
    let mut s = PlayerStats { seeds: 0, ..rich() };
    assert_eq!(
        farm(&mut plot, false, 0.0, &mut s, "H").unwrap(),
        "H has no seeds. Harvest ripe crops (or slay monsters) for more."
    );
    assert!(plot.crop.is_none());
    let mut ripe: Plot<f32> = Plot { tilled: true, crop: Some(Crop { growth: 1.0, watered: false }) };
    let mut c = PlayerStats { seeds: 0, gear: GEAR_CHARM, ..rich() };
    assert_eq!(
        farm(&mut ripe, true, 0.0, &mut c, "H").unwrap(),
        "H harvested a Divine Turnip! (+3 seeds, +2 turnips)"
    );
    assert_eq!((c.seeds, c.turnips), (3, 12));
}

#[test]
fn kill_rewards() {
    let mut s = rich();
    assert_eq!(
        s.reward_kill("I", 2, true),
        "I obliterated a Ember Golem with [Cheat Skill: One Punch]! It shattered into 2 ore!"
    );
    assert_eq!((s.kills, s.ore), (1, 12));
    assert_eq!(
        s.reward_kill("I", 0, true),
        "I obliterated a Slime with [Cheat Skill: One Punch]! It dropped a seed!"
    );
    assert_eq!((s.kills, s.seeds), (2, 4));
    assert_eq!(
        s.reward_kill("I", 1, false),
        "I obliterated a Shadow Wolf with [Cheat Skill: One Punch]!"
    );
    assert_eq!((s.kills, s.seeds, s.ore), (3, 4, 12));
    assert_eq!(kill_line("J", 1), "J obliterated a Shadow Wolf with [Cheat Skill: One Punch]!");
}

#[test]
fn claimed_kill_is_one_of_two_outcomes() {
    let mut rng = rand::thread_rng();
    for _ in 0..50 {
        let mut s = rich();
        let log = s.claim_kill("K", 2, &mut rng);
        assert_eq!(s.kills, 1);
        assert!(
            (s.ore == 12 && log.ends_with("It shattered into 2 ore!"))
                || (s.ore == 10 && log.ends_with("One Punch]!"))
        );
    }
}

#[test]
fn regeneration_hits_and_revival() {
    let mut s = PlayerStats { hp: 95, ..rich() };
    s.regenerate(0);
    assert_eq!(s.hp, 95);
    s.regenerate(3);
    assert_eq!(s.hp, 98);
    s.regenerate(10);
    assert_eq!(s.hp, 100);
    let mut over = PlayerStats { hp: 120, ..rich() };
    over.regenerate(1);
    assert_eq!(over.hp, 100);

    let mut t = PlayerStats { hp: 30, ..rich() };
    t.suffer_hit(26);
    assert_eq!(t.hp, 4);
    let mut shielded = PlayerStats { hp: 30, gear: GEAR_SHIELD, ..rich() };
    shielded.suffer_hit(18);
    assert_eq!(shielded.hp, 12);
    assert!(!shielded.revive_if_fallen());
    assert!(!shielded.has_fallen());
    t.suffer_hit(16);
    assert_eq!(t.hp, -12);
    assert!(t.has_fallen());
    let mut belted = PlayerStats { gear: GEAR_BELT, ..t };
    assert!(belted.revive_if_fallen());
    assert_eq!(belted.hp, 150);
}

#[test]
fn drop_odds_by_kind() {
    assert_eq!(drop_odds(2), (7, 10));
    assert_eq!(drop_odds(0), (1, 2));
    assert_eq!(drop_odds(1), (1, 2));
    assert_eq!(drop_odds(200), (1, 2));
}

#[test]
fn claimed_drops_follow_their_odds() {
    let mut rng = rand::thread_rng();
    let trials = 4000;
    let mut ore = 0;
    let mut seeds = 0;
    for _ in 0..trials {
        let mut golem = rich();
        golem.claim_kill("L", 2, &mut rng);
        if golem.ore == 12 {
            ore += 1;
        }
        let mut slime = rich();
        slime.claim_kill("L", 0, &mut rng);
        if slime.seeds == 4 {
            seeds += 1;
        }
    }
    // 7 in 10 and 1 in 2, well outside six standard deviations of a mistake.
    assert!(ore > 2650 && ore < 2950, "golem ore drops: {ore}");
    assert!(seeds > 1850 && seeds < 2150, "seed drops: {seeds}");
}
