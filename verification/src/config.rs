//! Gameplay constants and the pure helpers built on them.

use vstd::prelude::*;
use crate::text::{int_text, join, lemma_join_push, maybe, push_int};

verus! {

/// Wire protocol version shared by client and server.
pub const PROTOCOL_ID: u64 = 8;
/// Max catch-up simulation steps per frame after a stall.
pub const MAX_STEPS: u32 = 5;
/// Maximum health without the Titan Belt.
pub const PLAYER_MAX_HP: i32 = 100;
/// Seeds a hero starts with.
pub const STARTING_SEEDS: i32 = 5;
/// One-punch damage without the Iron Blade ("Cheat Skill: One Punch").
pub const ATTACK_DAMAGE: i32 = 150;
/// The spawner stops adding monsters at this many.
pub const ENEMY_CAP: usize = 10;
/// Seeds yielded by one harvest without the Farmer's Charm.
pub const SEEDS_PER_HARVEST: i32 = 2;
pub const CROP_NAME: &'static str = "Divine Turnip";

/// Enemy kinds: 0 = Slime, 1 = Shadow Wolf, anything else = Ember Golem.
pub open spec fn spec_enemy_hp(kind: u8) -> i32 {
    if kind == 0 {
        100
    } else if kind == 1 {
        250
    } else {
        420
    }
}

pub fn enemy_hp(kind: u8) -> (hp: i32)
    ensures
        hp == spec_enemy_hp(kind),
{
    match kind {
        0 => 100,
        1 => 250,
        _ => 420,
    }
}

/// Display name of an enemy kind.
pub open spec fn spec_enemy_name(kind: u8) -> &'static str {
    if kind == 0 {
        "Slime"
    } else if kind == 1 {
        "Shadow Wolf"
    } else {
        "Ember Golem"
    }
}

pub fn enemy_name(kind: u8) -> (name: &'static str)
    ensures
        name == spec_enemy_name(kind),
{
    match kind {
        0 => "Slime",
        1 => "Shadow Wolf",
        _ => "Ember Golem",
    }
}

} // verus!

verus! {

/// Damage of one enemy hit, by kind.
pub open spec fn spec_enemy_damage(kind: u8) -> i32 {
    if kind == 0 {
        8
    } else if kind == 1 {
        16
    } else {
        26
    }
}

/// Damage one enemy hit deals before any shield mitigation.
pub fn enemy_damage(kind: u8) -> (damage: i32)
    ensures
        damage == spec_enemy_damage(kind),
{
    match kind {
        0 => 8,
        1 => 16,
        _ => 26,
    }
}

// ---------------------------------------------------------------------------
// Farm plots
// ---------------------------------------------------------------------------

/// The farm is a grid of `PLOT_COLS * PLOT_ROWS` plots.
pub const PLOT_COLS: usize = 6;
pub const PLOT_ROWS: usize = 5;

/// Number of farm plots; plot `i` sits in column `i % PLOT_COLS`, row `i / PLOT_COLS`.
pub fn plot_count() -> (n: usize)
    ensures
        n == PLOT_COLS * PLOT_ROWS,
{
    PLOT_COLS * PLOT_ROWS
}

/// World coordinates of farm plot `i` (row-major from the grid origin
/// `(250, -460)`, one plot every 80 units).
pub open spec fn spec_plot_coords(i: int) -> (int, int) {
    (250 + (i % PLOT_COLS as int) * 80, -460 + (i / PLOT_COLS as int) * 80)
}

pub fn plot_coords(i: usize) -> (p: [i64; 2])
    requires
        spec_plot_coords(i as int).1 <= i64::MAX,
    ensures
        p[0] == spec_plot_coords(i as int).0,
        p[1] == spec_plot_coords(i as int).1,
{
    let col = (i % PLOT_COLS) as i64;
    let q = i / PLOT_COLS;
    assert(q <= i64::MAX / 80 + 6);
    let row = q as i64;
    // -460 + row * 80, arranged so that no step leaves i64
    [250 + col * 80, (row - 6) * 80 + 20]
}

// ---------------------------------------------------------------------------
// Gatherable resource nodes
// ---------------------------------------------------------------------------

/// Node kinds.
pub const NODE_WOOD: u8 = 0;
pub const NODE_STONE: u8 = 1;
pub const NODE_ORE: u8 = 2;
/// How much a single successful gather yields.
pub const GATHER_AMOUNT: i32 = 2;
/// Number of gatherable resource nodes.
pub const NODE_DEF_COUNT: usize = 18;

/// Kind of resource node `i`: six timber trees (Whisperwood), then six
/// boulders (Stonefall Quarry), then six ore veins (Emberveins).
pub open spec fn spec_node_kind(i: int) -> u8 {
    if i < 6 {
        NODE_WOOD
    } else if i < 12 {
        NODE_STONE
    } else {
        NODE_ORE
    }
}

/// World position of resource node `i`; the snapshot's node list is
/// index-aligned with this table.
pub open spec fn spec_node_coords(i: int) -> (int, int) {
    if i == 0 { (-700, 520) }
    else if i == 1 { (-560, 300) }
    else if i == 2 { (-420, 480) }
    else if i == 3 { (-260, 260) }
    else if i == 4 { (-640, 400) }
    else if i == 5 { (-160, 530) }
    else if i == 6 { (700, 520) }
    else if i == 7 { (560, 140) }
    else if i == 8 { (300, 480) }
    else if i == 9 { (640, 280) }
    else if i == 10 { (240, 40) }
    else if i == 11 { (430, 300) }
    else if i == 12 { (-700, -520) }
    else if i == 13 { (-540, -260) }
    else if i == 14 { (-380, -500) }
    else if i == 15 { (-240, -300) }
    else if i == 16 { (-640, -380) }
    else { (-160, -540) }
}

pub fn node_count() -> (n: usize)
    ensures
        n == NODE_DEF_COUNT,
{
    NODE_DEF_COUNT
}

pub fn node_kind(i: usize) -> (kind: u8)
    requires
        i < NODE_DEF_COUNT,
    ensures
        kind == spec_node_kind(i as int),
        kind < 3,
{
    if i < 6 {
        NODE_WOOD
    } else if i < 12 {
        NODE_STONE
    } else {
        NODE_ORE
    }
}

pub fn node_coords(i: usize) -> (p: [i32; 2])
    requires
        i < NODE_DEF_COUNT,
    ensures
        p[0] == spec_node_coords(i as int).0,
        p[1] == spec_node_coords(i as int).1,
{
    match i {
        0 => [-700, 520],
        1 => [-560, 300],
        2 => [-420, 480],
        3 => [-260, 260],
        4 => [-640, 400],
        5 => [-160, 530],
        6 => [700, 520],
        7 => [560, 140],
        8 => [300, 480],
        9 => [640, 280],
        10 => [240, 40],
        11 => [430, 300],
        12 => [-700, -520],
        13 => [-540, -260],
        14 => [-380, -500],
        15 => [-240, -300],
        16 => [-640, -380],
        _ => [-160, -540],
    }
}

pub open spec fn spec_node_name(kind: u8) -> &'static str {
    if kind == 0 {
        "Timber Tree"
    } else if kind == 1 {
        "Boulder"
    } else {
        "Ore Vein"
    }
}

pub open spec fn spec_node_resource_name(kind: u8) -> &'static str {
    if kind == 0 {
        "wood"
    } else if kind == 1 {
        "stone"
    } else {
        "ore"
    }
}

/// Display name of a node kind (`NODE_NAMES[kind]`).
pub fn node_name(kind: u8) -> (name: &'static str)
    requires
        kind < 3,
    ensures
        name == spec_node_name(kind),
{
    match kind {
        0 => "Timber Tree",
        1 => "Boulder",
        _ => "Ore Vein",
    }
}

/// Name of the resource a node kind yields (`NODE_RESOURCE_NAMES[kind]`).
pub fn node_resource_name(kind: u8) -> (name: &'static str)
    requires
        kind < 3,
    ensures
        name == spec_node_resource_name(kind),
{
    match kind {
        0 => "wood",
        1 => "stone",
        _ => "ore",
    }
}

// ---------------------------------------------------------------------------
// Gear bits and the derived stats they modify
// ---------------------------------------------------------------------------

/// Equipment bits of the gear mask.
pub const GEAR_BLADE: u8 = 1;
pub const GEAR_BELT: u8 = 2;
pub const GEAR_BOOTS: u8 = 4;
pub const GEAR_CHARM: u8 = 8;
pub const GEAR_SHIELD: u8 = 16;

/// Whether the equipment mask `gear` holds bit `bit`.
pub open spec fn has_gear(gear: u8, bit: u8) -> bool {
    gear & bit != 0
}

pub open spec fn spec_attack_damage(gear: u8) -> int {
    ATTACK_DAMAGE + if has_gear(gear, GEAR_BLADE) { 60int } else { 0int }
}

pub open spec fn spec_max_hp(gear: u8) -> int {
    PLAYER_MAX_HP + if has_gear(gear, GEAR_BELT) { 50int } else { 0int }
}

pub open spec fn spec_harvest_seeds(gear: u8) -> int {
    SEEDS_PER_HARVEST + if has_gear(gear, GEAR_CHARM) { 1int } else { 0int }
}

pub open spec fn spec_harvest_turnips(gear: u8) -> int {
    TURNIPS_PER_HARVEST + if has_gear(gear, GEAR_CHARM) { 1int } else { 0int }
}

/// One-punch damage with gear bonuses applied.
pub fn attack_damage(gear: u8) -> (damage: i32)
    ensures
        damage == spec_attack_damage(gear),
{
    ATTACK_DAMAGE + if gear & GEAR_BLADE != 0 { 60 } else { 0 }
}

pub fn max_hp(gear: u8) -> (hp: i32)
    ensures
        hp == spec_max_hp(gear),
{
    PLAYER_MAX_HP + if gear & GEAR_BELT != 0 { 50 } else { 0 }
}

pub fn harvest_seeds(gear: u8) -> (seeds: i32)
    ensures
        seeds == spec_harvest_seeds(gear),
{
    SEEDS_PER_HARVEST + if gear & GEAR_CHARM != 0 { 1 } else { 0 }
}

pub fn harvest_turnips(gear: u8) -> (turnips: i32)
    ensures
        turnips == spec_harvest_turnips(gear),
{
    TURNIPS_PER_HARVEST + if gear & GEAR_CHARM != 0 { 1 } else { 0 }
}

/// HP restored per Healing Draught.
pub const POTION_HEAL: i32 = 50;
/// Turnips produced by one harvest.
pub const TURNIPS_PER_HARVEST: i32 = 1;

} // verus!

verus! {

// ---------------------------------------------------------------------------
// Crafting recipes
// ---------------------------------------------------------------------------

/// A craftable item. `gear == 0` means it is a consumable (brewed into one
/// Healing Draught per craft) instead of a permanent equipment upgrade.
#[derive(Clone, Copy)]
pub struct Recipe {
    pub name: &'static str,
    pub blurb: &'static str,
    pub wood: i32,
    pub stone: i32,
    pub ore: i32,
    pub turnips: i32,
    pub gear: u8,
}

/// Number of recipes; recipe `i` is crafted with hotkey `i + 1`.
pub const RECIPE_COUNT: usize = 6;

pub open spec fn spec_recipe(i: int) -> Recipe {
    if i == 0 {
        Recipe { name: "Iron Blade", blurb: "+60 one-punch damage", wood: 3, stone: 2, ore: 1, turnips: 0, gear: GEAR_BLADE }
    } else if i == 1 {
        Recipe { name: "Titan Belt", blurb: "+50 max HP", wood: 2, stone: 4, ore: 0, turnips: 0, gear: GEAR_BELT }
    } else if i == 2 {
        Recipe { name: "Wind Boots", blurb: "+70 move speed", wood: 4, stone: 0, ore: 2, turnips: 0, gear: GEAR_BOOTS }
    } else if i == 3 {
        Recipe { name: "Farmer's Charm", blurb: "+1 seed & +1 turnip per harvest", wood: 0, stone: 3, ore: 0, turnips: 2, gear: GEAR_CHARM }
    } else if i == 4 {
        Recipe { name: "Guardian Shield", blurb: "take 30% less damage", wood: 2, stone: 5, ore: 3, turnips: 0, gear: GEAR_SHIELD }
    } else {
        Recipe { name: "Healing Draught", blurb: "drink with Q to restore 50 HP", wood: 1, stone: 0, ore: 1, turnips: 1, gear: 0 }
    }
}

/// All recipes in hotkey order.
pub open spec fn spec_recipes() -> Seq<Recipe> {
    Seq::new(RECIPE_COUNT as nat, |i: int| spec_recipe(i))
}

/// Recipe `i` (the hotkey `i + 1`), or `None` past the end of the table.
pub fn recipe(i: usize) -> (r: Option<Recipe>)
    ensures
        r == (if i < RECIPE_COUNT { Some(spec_recipe(i as int)) } else { None }),
{
    match i {
        0 => Some(Recipe { name: "Iron Blade", blurb: "+60 one-punch damage", wood: 3, stone: 2, ore: 1, turnips: 0, gear: GEAR_BLADE }),
        1 => Some(Recipe { name: "Titan Belt", blurb: "+50 max HP", wood: 2, stone: 4, ore: 0, turnips: 0, gear: GEAR_BELT }),
        2 => Some(Recipe { name: "Wind Boots", blurb: "+70 move speed", wood: 4, stone: 0, ore: 2, turnips: 0, gear: GEAR_BOOTS }),
        3 => Some(Recipe { name: "Farmer's Charm", blurb: "+1 seed & +1 turnip per harvest", wood: 0, stone: 3, ore: 0, turnips: 2, gear: GEAR_CHARM }),
        4 => Some(Recipe { name: "Guardian Shield", blurb: "take 30% less damage", wood: 2, stone: 5, ore: 3, turnips: 0, gear: GEAR_SHIELD }),
        5 => Some(Recipe { name: "Healing Draught", blurb: "drink with Q to restore 50 HP", wood: 1, stone: 0, ore: 1, turnips: 1, gear: 0 }),
        _ => None,
    }
}

pub open spec fn spec_can_afford(r: Recipe, wood: i32, stone: i32, ore: i32, turnips: i32) -> bool {
    wood >= r.wood && stone >= r.stone && ore >= r.ore && turnips >= r.turnips
}

/// Whether the given inventory can pay for `r`.
pub fn can_afford(r: &Recipe, wood: i32, stone: i32, ore: i32, turnips: i32) -> (ok: bool)
    ensures
        ok == spec_can_afford(*r, wood, stone, ore, turnips),
{
    wood >= r.wood && stone >= r.stone && ore >= r.ore && turnips >= r.turnips
}

/// The pieces of a cost string: `3w`, `2s`, `1o`, `1t`, each only when positive.
pub open spec fn cost_parts(r: Recipe) -> Seq<Seq<char>> {
    maybe(r.wood > 0, int_text(r.wood as int) + seq!['w'])
        + maybe(r.stone > 0, int_text(r.stone as int) + seq!['s'])
        + maybe(r.ore > 0, int_text(r.ore as int) + seq!['o'])
        + maybe(r.turnips > 0, int_text(r.turnips as int) + seq!['t'])
}

pub open spec fn spec_cost_text(r: Recipe) -> Seq<char> {
    if cost_parts(r).len() == 0 {
        "free"@
    } else {
        join(cost_parts(r), " "@)
    }
}

/// Appends the piece `{amount}{unit}` to the space-separated list in `out`
/// when `amount` is positive.
fn push_cost_part(
    out: &mut String,
    any: &mut bool,
    parts: Ghost<Seq<Seq<char>>>,
    amount: i32,
    unit: &str,
) -> (new_parts: Ghost<Seq<Seq<char>>>)
    requires
        old(out)@ == join(parts@, " "@),
        *old(any) == (parts@.len() > 0),
        unit@.len() == 1,
    ensures
        new_parts@ == parts@ + maybe(amount > 0, int_text(amount as int) + unit@),
        final(out)@ == join(new_parts@, " "@),
        *final(any) == (new_parts@.len() > 0),
{
    if amount > 0 {
        let ghost piece = int_text(amount as int) + unit@;
        if *any {
            out.append(" ");
        }
        *any = true;
        push_int(out, amount);
        out.append(unit);
        proof {
            lemma_join_push(parts@, " "@, piece);
            assert(parts@ + maybe(true, piece) =~= parts@.push(piece));
            if parts@.len() == 0 {
                assert(join(parts@, " "@) =~= Seq::<char>::empty());
                assert(out@ =~= piece);
            } else {
                assert(out@ =~= join(parts@, " "@) + " "@ + piece);
            }
        }
        Ghost(parts@.push(piece))
    } else {
        proof {
            assert(parts@ + maybe(false, int_text(amount as int) + unit@) =~= parts@);
        }
        parts
    }
}

/// Compact cost string like `3w 2s 1o`, or `free` when nothing is owed.
pub fn cost_text(r: &Recipe) -> (s: String)
    ensures
        s@ == spec_cost_text(*r),
{
    proof {
        reveal_strlit("w");
        reveal_strlit("s");
        reveal_strlit("o");
        reveal_strlit("t");
        assert("w"@ =~= seq!['w']);
        assert("s"@ =~= seq!['s']);
        assert("o"@ =~= seq!['o']);
        assert("t"@ =~= seq!['t']);
    }
    let mut out = String::new();
    let ghost empty: Seq<Seq<char>> = Seq::empty();
    assert(out@ =~= join(empty, " "@));
    let mut any = false;
    let parts = push_cost_part(&mut out, &mut any, Ghost(empty), r.wood, "w");
    let parts = push_cost_part(&mut out, &mut any, parts, r.stone, "s");
    let parts = push_cost_part(&mut out, &mut any, parts, r.ore, "o");
    let parts = push_cost_part(&mut out, &mut any, parts, r.turnips, "t");
    proof {
        assert(parts@ =~= cost_parts(*r));
    }
    if !any {
        String::from_str("free")
    } else {
        out
    }
}

} // verus!

verus! {

/// Whether recipe `r` is an equipment piece whose bit is set in `gear`.
pub open spec fn owns_recipe_gear(gear: u8, r: Recipe) -> bool {
    r.gear != 0 && gear & r.gear != 0
}

/// Names of the owned equipment pieces, in recipe order.
pub open spec fn owned_gear_names(gear: u8) -> Seq<Seq<char>> {
    spec_recipes().filter(|r: Recipe| owns_recipe_gear(gear, r)).map_values(|r: Recipe| r.name@)
}

pub open spec fn spec_gear_names(gear: u8) -> Seq<char> {
    if owned_gear_names(gear).len() == 0 {
        "nothing crafted yet"@
    } else {
        join(owned_gear_names(gear), ", "@)
    }
}

/// Comma-separated names of every equipment bit currently owned.
pub fn gear_names(gear: u8) -> (s: String)
    ensures
        s@ == spec_gear_names(gear),
{
    let ghost pred = |r: Recipe| owns_recipe_gear(gear, r);
    let ghost name_of = |r: Recipe| r.name@;
    let mut out = String::new();
    let mut any = false;
    let mut i: usize = 0;
    proof {
        assert(spec_recipes().take(0).filter(pred) =~= Seq::<Recipe>::empty()) by {
            reveal(Seq::filter);
        }
        assert(out@ =~= join(spec_recipes().take(0).filter(pred).map_values(name_of), ", "@));
    }
    while i < RECIPE_COUNT
        invariant
            i <= RECIPE_COUNT,
            pred == (|r: Recipe| owns_recipe_gear(gear, r)),
            name_of == (|r: Recipe| r.name@),
            out@ == join(spec_recipes().take(i as int).filter(pred).map_values(name_of), ", "@),
            any == (spec_recipes().take(i as int).filter(pred).len() > 0),
        decreases RECIPE_COUNT - i,
    {
        let ghost before = spec_recipes().take(i as int).filter(pred);
        let r = recipe(i).unwrap();
        proof {
            assert(spec_recipes().take(i + 1).drop_last() =~= spec_recipes().take(i as int));
            assert(spec_recipes().take(i + 1).last() == spec_recipe(i as int));
            reveal(Seq::filter);
        }
        if r.gear != 0 && gear & r.gear != 0 {
            if any {
                out.append(", ");
            }
            out.append(r.name);
            any = true;
            proof {
                assert(spec_recipes().take(i + 1).filter(pred) == before.push(r));
                assert(before.push(r).map_values(name_of) =~= before.map_values(name_of).push(r.name@));
                lemma_join_push(before.map_values(name_of), ", "@, r.name@);
                if before.len() == 0 {
                    assert(before.map_values(name_of) =~= Seq::<Seq<char>>::empty());
                }
            }
        } else {
            proof {
                assert(spec_recipes().take(i + 1).filter(pred) == before);
            }
        }
        i = i + 1;
    }
    proof {
        assert(spec_recipes().take(RECIPE_COUNT as int) =~= spec_recipes());
    }
    if !any {
        String::from_str("nothing crafted yet")
    } else {
        out
    }
}

} // verus!

verus! {

// ---------------------------------------------------------------------------
// Regions
// ---------------------------------------------------------------------------

/// A named area of the field. `rect` is `[x0, y0, x1, y1]` in world units;
/// the first region in table order that contains a point wins, which is why
/// the sanctuary comes first. `spawns` lists the enemy kinds that may spawn
/// there (repeats = higher weight); an empty list means monsters never
/// appear there.
#[derive(Clone, Copy)]
pub struct Region {
    pub name: &'static str,
    pub desc: &'static str,
    pub rect: [i32; 4],
    pub spawns: &'static [u8],
}

pub const REGION_COUNT: usize = 7;
/// The sanctuary (safe zone) is region 0.
pub const SANCTUARY: usize = 0;
/// The homestead (farm) is region 3.
pub const HOMESTEAD: usize = 3;

pub open spec fn spec_region_name(i: int) -> &'static str {
    if i == 0 { "Sanctuary of Rebirth" }
    else if i == 1 { "Whisperwood" }
    else if i == 2 { "Emberveins" }
    else if i == 3 { "Homestead" }
    else if i == 4 { "Stonefall Quarry" }
    else if i == 5 { "Gloamfens" }
    else { "Western Meadow" }
}

pub open spec fn spec_region_desc(i: int) -> &'static str {
    if i == 0 { "Safe zone: monsters cannot enter and your wounds close fast." }
    else if i == 1 { "Ancient trees - gather wood here." }
    else if i == 2 { "Gleaming ore veins, guarded by ember golems." }
    else if i == 3 { "Your farm - till, plant, water, harvest." }
    else if i == 4 { "Loose boulders - gather stone here." }
    else if i == 5 { "A blighted marsh where wolves hunt in packs." }
    else { "Open grassland a stone's throw from the shrine." }
}

pub open spec fn spec_region_rect(i: int) -> Seq<i32> {
    if i == 0 { seq![-500i32, -200i32, -100i32, 200i32] }
    else if i == 1 { seq![-790i32, 200i32, -110i32, 590i32] }
    else if i == 2 { seq![-790i32, -590i32, -110i32, -200i32] }
    else if i == 3 { seq![150i32, -590i32, 790i32, -70i32] }
    else if i == 4 { seq![150i32, -70i32, 790i32, 590i32] }
    else if i == 5 { seq![-90i32, -590i32, 140i32, 590i32] }
    else { seq![-790i32, -190i32, -510i32, 190i32] }
}

pub open spec fn spec_region_spawns(i: int) -> Seq<u8> {
    if i == 0 { seq![] }
    else if i == 1 { seq![0u8, 1] }
    else if i == 2 { seq![1u8, 2] }
    else if i == 3 { seq![] }
    else if i == 4 { seq![0u8, 1] }
    else if i == 5 { seq![1u8, 1, 2] }
    else { seq![0u8, 0, 1] }
}

/// `r` is entry `i` of the region table.
pub open spec fn is_region(r: Region, i: int) -> bool {
    &&& r.name == spec_region_name(i)
    &&& r.desc == spec_region_desc(i)
    &&& r.rect@ == spec_region_rect(i)
    &&& r.spawns@ == spec_region_spawns(i)
}

/// Entry `i` of the region table (`REGIONS[i]`).
pub fn region(i: usize) -> (r: Region)
    requires
        i < REGION_COUNT,
    ensures
        is_region(r, i as int),
{
    let r = match i {
        0 => Region {
            name: "Sanctuary of Rebirth",
            desc: "Safe zone: monsters cannot enter and your wounds close fast.",
            rect: [-500, -200, -100, 200],
            spawns: &[],
        },
        1 => Region {
            name: "Whisperwood",
            desc: "Ancient trees - gather wood here.",
            rect: [-790, 200, -110, 590],
            spawns: &[0, 1],
        },
        2 => Region {
            name: "Emberveins",
            desc: "Gleaming ore veins, guarded by ember golems.",
            rect: [-790, -590, -110, -200],
            spawns: &[1, 2],
        },
        3 => Region {
            name: "Homestead",
            desc: "Your farm - till, plant, water, harvest.",
            rect: [150, -590, 790, -70],
            spawns: &[],
        },
        4 => Region {
            name: "Stonefall Quarry",
            desc: "Loose boulders - gather stone here.",
            rect: [150, -70, 790, 590],
            spawns: &[0, 1],
        },
        5 => Region {
            name: "Gloamfens",
            desc: "A blighted marsh where wolves hunt in packs.",
            rect: [-90, -590, 140, 590],
            spawns: &[1, 1, 2],
        },
        // Also acts as the fallback for tiny unassigned gaps between regions.
        _ => Region {
            name: "Western Meadow",
            desc: "Open grassland a stone's throw from the shrine.",
            rect: [-790, -190, -510, 190],
            spawns: &[0, 0, 1],
        },
    };
    assert(r.rect@ =~= spec_region_rect(i as int));
    assert(r.spawns@ =~= spec_region_spawns(i as int));
    r
}

/// Table indices of the regions that can spawn monsters, in table order.
pub open spec fn wild_indices() -> Seq<int> {
    Seq::new(REGION_COUNT as nat, |i: int| i).filter(|i: int| spec_region_spawns(i).len() > 0)
}

/// Regions that can spawn monsters (those with a non-empty spawn list),
/// in table order.
pub fn wild_regions() -> (wilds: Vec<Region>)
    ensures
        wilds.len() == wild_indices().len(),
        forall|k: int| 0 <= k < wilds.len() ==> is_region(#[trigger] wilds[k], wild_indices()[k]),
{
    let ghost pred = |i: int| spec_region_spawns(i).len() > 0;
    let ghost all = Seq::new(REGION_COUNT as nat, |i: int| i);
    let mut wilds: Vec<Region> = Vec::new();
    let mut i: usize = 0;
    proof {
        reveal(Seq::filter);
    }
    while i < REGION_COUNT
        invariant
            i <= REGION_COUNT,
            pred == (|i: int| spec_region_spawns(i).len() > 0),
            all == Seq::new(REGION_COUNT as nat, |i: int| i),
            wilds.len() == all.take(i as int).filter(pred).len(),
            forall|k: int|
                0 <= k < wilds.len() ==> is_region(
                    #[trigger] wilds[k],
                    all.take(i as int).filter(pred)[k],
                ),
        decreases REGION_COUNT - i,
    {
        let ghost before = all.take(i as int).filter(pred);
        let r = region(i);
        proof {
            assert(all.take(i + 1).drop_last() =~= all.take(i as int));
            assert(all.take(i + 1).last() == i as int);
            reveal(Seq::filter);
        }
        if r.spawns.len() > 0 {
            wilds.push(r);
            proof {
                assert(all.take(i + 1).filter(pred) == before.push(i as int));
            }
        } else {
            proof {
                assert(all.take(i + 1).filter(pred) == before);
            }
        }
        i = i + 1;
    }
    proof {
        assert(all.take(REGION_COUNT as int) =~= all);
    }
    wilds
}

} // verus!

verus! {

/// The region table index chosen for a point, given whether the point lies
/// inside each region's rectangle (`inside[i]` for region `i`): the first
/// region containing it wins; a point inside none falls back to the last
/// region (Western Meadow).
pub fn first_matching_region(inside: &Vec<bool>) -> (i: usize)
    requires
        inside.len() == REGION_COUNT,
    ensures
        i < REGION_COUNT,
        (exists|k: int| 0 <= k < inside.len() && inside[k]) ==> inside[i as int] && forall|j: int|
            0 <= j < i ==> !inside[j],
        !(exists|k: int| 0 <= k < inside.len() && inside[k]) ==> i == REGION_COUNT - 1,
{
    let mut i: usize = 0;
    while i < inside.len()
        invariant
            i <= inside.len(),
            inside.len() == REGION_COUNT,
            forall|j: int| 0 <= j < i ==> !inside[j],
        decreases inside.len() - i,
    {
        if inside[i] {
            return i;
        }
        i = i + 1;
    }
    REGION_COUNT - 1
}

} // verus!
