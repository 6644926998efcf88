use justin_rpg::combat::{choose_spawn, has_room, resolve_punch, spawn_foe, spawn_pick, Foe};
use justin_rpg::config::{attack_damage, enemy_hp, wild_regions, ENEMY_CAP, GEAR_BLADE};
use justin_rpg::protocol::{ActionKind, NodeSnap};

fn foe(id: u32, kind: u8, hp: i32) -> Foe<[f32; 2]> {
    Foe { id, kind, hp, body: [id as f32, 0.0] }
}

#[test]
fn punch_with_nothing_in_reach_changes_nothing() {
    let mut foes = vec![foe(1, 0, 100), foe(2, 1, 250)];
    let fallen = resolve_punch(&mut foes, &vec![false, false], 150);
    assert!(fallen.is_empty());
    assert_eq!(foes.len(), 2);
    assert_eq!(foes[1].hp, 250);
}

#[test]
fn punch_fells_slimes_and_wounds_wolves() {
    let mut foes = vec![foe(1, 0, 100), foe(2, 1, 250), foe(3, 2, 420), foe(4, 0, 100)];
    let fallen = resolve_punch(&mut foes, &vec![true, true, false, true], attack_damage(0));
    assert_eq!(fallen, vec![0, 0]);
    let ids: Vec<u32> = foes.iter().map(|f| f.id).collect();
    assert_eq!(ids, vec![2, 3]);
    assert_eq!(foes[0].hp, 100);
    assert_eq!(foes[1].hp, 420);
    assert_eq!(foes[0].body, [2.0, 0.0]);
    let fallen = resolve_punch(&mut foes, &vec![true, true], attack_damage(GEAR_BLADE));
    assert_eq!(fallen, vec![1]);
    assert_eq!(foes.len(), 1);
    assert_eq!((foes[0].id, foes[0].hp), (3, 210));
    let fallen = resolve_punch(&mut foes, &vec![true], attack_damage(GEAR_BLADE));
    assert_eq!(fallen, vec![2]);
    assert!(foes.is_empty());
}

#[test]
fn spawning_assigns_ids_and_health() {
    let mut foes: Vec<Foe<u8>> = Vec::new();
    let mut next = 41u32;
    spawn_foe(&mut foes, &mut next, 2, 9);
    spawn_foe(&mut foes, &mut next, 0, 8);
    assert_eq!(next, 43);
    assert_eq!((foes[0].id, foes[0].kind, foes[0].hp, foes[0].body), (41, 2, 420, 9));
    assert_eq!((foes[1].id, foes[1].hp), (42, enemy_hp(0)));
    assert_eq!(ENEMY_CAP, 10);
}

#[test]
fn spawn_pick_and_choice() {
    let wilds = wild_regions();
    let (region, kind) = spawn_pick(&wilds, 3, 2);
    assert_eq!(region.name, "Gloamfens");
    assert_eq!(kind, 2);
    let (region, kind) = spawn_pick(&wilds, 0, 1);
    assert_eq!((region.name, kind), ("Whisperwood", 1));
    let mut rng = rand::thread_rng();
    for _ in 0..100 {
        let (region, kind) = choose_spawn(&mut rng).unwrap();
        assert!(region.spawns.contains(&kind));
        assert!(region.name != "Sanctuary of Rebirth" && region.name != "Homestead");
    }
}

#[test]
fn random_draws_vary() {
    let mut rng = rand::thread_rng();
    let mut regions = std::collections::HashSet::new();
    let mut kinds = std::collections::HashSet::new();
    for _ in 0..300 {
        let (region, kind) = choose_spawn(&mut rng).unwrap();
        regions.insert(region.name);
        kinds.insert(kind);
    }
    assert!(regions.len() > 1);
    assert_eq!(kinds.len(), 3);
    let mut dropped = 0;
    for _ in 0..300 {
        let mut s = justin_rpg::player::PlayerStats::new();
        s.claim_kill("x", 2, &mut rng);
        if s.ore == 2 {
            dropped += 1;
        }
    }
    assert!(dropped > 0 && dropped < 300);
}

#[test]
fn protocol_plain_data() {
    let a = ActionKind::Craft(3);
    assert_eq!(a, ActionKind::Craft(3));
    assert_ne!(a, ActionKind::Drink);
    let n = NodeSnap { ready: false };
    assert!(!n.ready);
}

#[test]
fn spawner_cap_and_ids() {
    let mut foes: Vec<Foe<()>> = Vec::new();
    let mut next = 0u32;
    while has_room(&foes) {
        spawn_foe(&mut foes, &mut next, 1, ());
    }
    assert_eq!(foes.len(), ENEMY_CAP);
    assert_eq!(next, 10);
    let ids: Vec<u32> = foes.iter().map(|f| f.id).collect();
    assert_eq!(ids, (0..10).collect::<Vec<u32>>());
    let hits: Vec<bool> = (0..10).map(|i| i % 2 == 0).collect();
    resolve_punch(&mut foes, &hits, 300);
    assert!(has_room(&foes));
    spawn_foe(&mut foes, &mut next, 0, ());
    let ids: Vec<u32> = foes.iter().map(|f| f.id).collect();
    assert_eq!(ids, vec![1, 3, 5, 7, 9, 10]);
}
