//! Properties the game promises across its rules.

use vstd::prelude::*;
use crate::config::{
    has_gear, spec_attack_damage, spec_cost_text, spec_enemy_hp,
    spec_harvest_seeds, spec_max_hp, spec_recipe, spec_region_spawns, wild_indices, Recipe,
    spec_harvest_turnips, spec_node_coords, spec_node_kind, spec_region_rect, GEAR_BELT,
    HOMESTEAD, ENEMY_CAP, NODE_DEF_COUNT, NODE_ORE, NODE_STONE, NODE_WOOD, REGION_COUNT,
    RECIPE_COUNT, SANCTUARY,
};
use crate::combat::{
    ids_fresh, is_standing, lemma_filter_keeps_roster, punch_survivors, roster_ok, struck_all, Foe,
};
use crate::hud::{hint_parts, pushed_log, spec_recipe_state, RecipeState, MAX_LOG_LINES};
use crate::text::int_text;
use crate::player::{
    after_craft, after_drink, after_farm_player, after_gather, after_kill, craft_result,
    drink_result, farm_step, farmed_plot, lemma_gear_or_keeps, regenerated_hp, CraftResult,
    spec_drop_odds, DrinkResult, FarmStep, Plot, PlayerStats,
};

verus! {

/// One punch fells a Slime whatever the gear, but never a Shadow Wolf or an
/// Ember Golem.
pub proof fn law_slimes_fall_to_one_punch(gear: u8)
    ensures
        spec_attack_damage(gear) >= spec_enemy_hp(0),
        spec_attack_damage(gear) < spec_enemy_hp(1),
        spec_attack_damage(gear) < spec_enemy_hp(2),
{
}

/// Every harvest yields at least two seeds and one turnip.
pub proof fn law_harvest_yields_seeds(gear: u8)
    ensures
        spec_harvest_seeds(gear) >= 2,
        crate::config::spec_harvest_turnips(gear) >= 1,
{
}

/// Crafting keeps every bit of gear already owned.
pub proof fn law_gear_is_never_lost(s: PlayerStats, r: Recipe, bit: u8)
    ensures
        has_gear(s.gear, bit) ==> has_gear(after_craft(s, r).gear, bit),
{
    lemma_gear_or_keeps(s.gear, r.gear, bit);
}

/// Equipment is crafted at most once: right after crafting a piece, asking
/// for it again is answered "already owned".
pub proof fn law_gear_crafted_once(s: PlayerStats, r: Recipe)
    requires
        craft_result(s, r) == CraftResult::Crafted,
    ensures
        craft_result(after_craft(s, r), r) == CraftResult::AlreadyOwned,
{
    let g = s.gear;
    let b = r.gear;
    assert(b != 0 ==> (g | b) & b != 0) by (bit_vector);
}

/// A successful craft takes exactly the recipe's cost out of the
/// inventory; a refused one changes nothing. Either way an inventory that
/// was not in debt stays out of debt.
pub proof fn law_crafting_pays_exactly(s: PlayerStats, i: int)
    requires
        0 <= i < RECIPE_COUNT,
    ensures
        ({
            let r = spec_recipe(i);
            let t = after_craft(s, r);
            &&& (craft_result(s, r) == CraftResult::Crafted || craft_result(s, r)
                == CraftResult::Brewed) ==> {
                &&& t.wood == s.wood - r.wood
                &&& t.stone == s.stone - r.stone
                &&& t.ore == s.ore - r.ore
                &&& t.turnips == s.turnips - r.turnips
            }
            &&& (craft_result(s, r) == CraftResult::AlreadyOwned || craft_result(s, r)
                == CraftResult::CannotAfford) ==> t == s
            &&& (s.wood >= 0 && s.stone >= 0 && s.ore >= 0 && s.turnips >= 0) ==> (t.wood >= 0
                && t.stone >= 0 && t.ore >= 0 && t.turnips >= 0)
        }),
{
}

/// Health never exceeds the maximum the gear allows: crafting, drinking,
/// regenerating, gathering, farming, killing, reviving and taking a hit all
/// keep that bound.
pub proof fn law_hp_stays_within_max(
    s: PlayerStats,
    r: Recipe,
    points: u32,
    kind: u8,
    step: FarmStep,
    dropped: bool,
    taken: i32,
)
    requires
        s.hp_within_max(),
        0 <= taken,
        s.hp - taken >= i32::MIN,
    ensures
        after_craft(s, r).hp_within_max(),
        after_drink(s).hp_within_max(),
        (PlayerStats { hp: regenerated_hp(s.hp, points, spec_max_hp(s.gear)) as i32, ..s })
            .hp_within_max(),
        after_gather(s, kind).hp_within_max(),
        after_farm_player(s, step).hp_within_max(),
        after_kill(s, kind, dropped).hp_within_max(),
        (PlayerStats { hp: spec_max_hp(s.gear) as i32, ..s }).hp_within_max(),
        (PlayerStats {
            hp: (s.hp - taken) as i32,
            ..s
        }).hp_within_max(),
{
    lemma_gear_or_keeps(s.gear, r.gear, GEAR_BELT);
}

/// Drinking only happens when it helps: a draught is used exactly when one
/// is held and health is below the maximum, and then health rises.
pub proof fn law_draughts_are_not_wasted(s: PlayerStats)
    ensures
        (after_drink(s).potions == s.potions - 1) <==> (s.potions > 0 && s.hp < spec_max_hp(
            s.gear,
        )),
        drink_result(s) == DrinkResult::Drank ==> after_drink(s).hp > s.hp,
        drink_result(s) != DrinkResult::Drank ==> after_drink(s) == s,
{
}

/// The farm context action walks a plot through till -> plant -> water ->
/// harvest, and a harvest leaves tilled, empty soil ready for the next seed.
pub proof fn law_farm_cycle<G>(p: Plot<G>, seeds: i32, seedling: G)
    requires
        !p.tilled,
        seeds > 0,
    ensures
        farm_step(p, false, seeds) == FarmStep::Till,
        ({
            let tilled = farmed_plot(p, FarmStep::Till, seedling);
            let planted = farmed_plot(tilled, FarmStep::Plant, seedling);
            let watered = farmed_plot(planted, FarmStep::Water, seedling);
            let harvested = farmed_plot(watered, FarmStep::Harvest, seedling);
            &&& p.crop is None ==> farm_step(tilled, false, seeds) == FarmStep::Plant
            &&& farm_step(planted, false, (seeds - 1) as i32) == FarmStep::Water
            &&& farm_step(watered, false, (seeds - 1) as i32) == FarmStep::Idle
            &&& farm_step(watered, true, (seeds - 1) as i32) == FarmStep::Harvest
            &&& harvested.tilled && harvested.crop is None
        }),
{
}

/// A harvest always gives seeds back, so a hero who harvests can plant again.
pub proof fn law_harvest_refills_seeds(s: PlayerStats)
    requires
        crate::player::farm_fits(s, FarmStep::Harvest),
        s.seeds > 0,
    ensures
        after_farm_player(s, FarmStep::Harvest).seeds >= s.seeds + 2,
        after_farm_player(s, FarmStep::Plant).seeds == s.seeds - 1,
{
}

/// Monsters only ever spawn in wild regions: never in the sanctuary nor on
/// the homestead.
pub proof fn law_no_spawns_in_sanctuary_or_homestead(k: int)
    requires
        0 <= k < wild_indices().len(),
    ensures
        wild_indices()[k] != SANCTUARY as int,
        wild_indices()[k] != HOMESTEAD as int,
        0 <= wild_indices()[k] < REGION_COUNT,
{
    let all = Seq::new(REGION_COUNT as nat, |i: int| i);
    let pred = |i: int| spec_region_spawns(i).len() > 0;
    all.lemma_filter_pred(pred, k);
    all.lemma_filter_contains_rev(pred, wild_indices()[k]);
    assert(spec_region_spawns(0) =~= Seq::<u8>::empty());
    assert(spec_region_spawns(3) =~= Seq::<u8>::empty());
}

/// The chat box never holds more than `MAX_LOG_LINES` lines, and the newest
/// line is always the last one.
pub proof fn law_chat_box_is_bounded(log: Seq<String>, line: String)
    requires
        log.len() <= MAX_LOG_LINES,
    ensures
        pushed_log(log, line).len() <= MAX_LOG_LINES,
        pushed_log(log, line).last() == line,
{
}

/// A recipe costs nothing ("free") exactly when none of its amounts is
/// positive.
pub proof fn law_free_means_no_cost(r: Recipe)
    ensures
        (r.wood <= 0 && r.stone <= 0 && r.ore <= 0 && r.turnips <= 0) ==> spec_cost_text(r)
            == "free"@,
{
}

/// Every kill counts; a successful drop roll gives ore for an Ember Golem
/// and a seed for anything else, and a failed roll gives nothing more.
pub proof fn law_kill_drops(s: PlayerStats, kind: u8)
    requires
        crate::player::kill_fits(s, kind, true),
    ensures
        after_kill(s, kind, true).kills == s.kills + 1,
        after_kill(s, kind, false).kills == s.kills + 1,
        kind == 2 ==> after_kill(s, kind, true).ore == s.ore + 2 && after_kill(s, kind, true).seeds
            == s.seeds,
        kind != 2 ==> after_kill(s, kind, true).seeds == s.seeds + 1 && after_kill(s, kind, true).ore
            == s.ore,
        after_kill(s, kind, false) == (PlayerStats { kills: (s.kills + 1) as u32, ..s }),
{
}

/// Brewing a consumable (a recipe with no gear bit) yields exactly one more
/// Healing Draught and leaves the gear alone.
pub proof fn law_brewing_adds_one_draught(s: PlayerStats, r: Recipe)
    requires
        r.gear == 0,
        crate::config::spec_can_afford(r, s.wood, s.stone, s.ore, s.turnips),
        s.potions < i32::MAX,
    ensures
        after_craft(s, r).potions == s.potions + 1,
        after_craft(s, r).gear == s.gear,
        after_craft(s, r).hp == s.hp,
{
}

/// Crafting the Titan Belt grants the extra maximum health at once (capped
/// at the new maximum); other equipment leaves health untouched.
pub proof fn law_belt_grants_its_health(s: PlayerStats, r: Recipe)
    requires
        craft_result(s, r) == CraftResult::Crafted,
        s.hp_within_max(),
    ensures
        r.gear == GEAR_BELT ==> after_craft(s, r).hp == s.hp + 50,
        !has_gear(r.gear, GEAR_BELT) ==> after_craft(s, r).hp == s.hp,
{
    lemma_gear_or_keeps(s.gear, r.gear, GEAR_BELT);
    let g = s.gear;
    assert((g | 2u8) & 2u8 != 0) by (bit_vector);
}

/// A draught restores `POTION_HEAL` health, or less when that would pass
/// the maximum.
pub proof fn law_draught_heals_up_to_max(s: PlayerStats)
    requires
        drink_result(s) == DrinkResult::Drank,
    ensures
        after_drink(s).hp == if s.hp + crate::config::POTION_HEAL <= spec_max_hp(s.gear) {
            s.hp + crate::config::POTION_HEAL
        } else {
            spec_max_hp(s.gear)
        },
{
}

/// The workbench tells the truth: a recipe shows as owned exactly when the
/// server would answer "already owns", as ready exactly when crafting it
/// would succeed, and as locked exactly when the materials are missing.
pub proof fn law_workbench_matches_crafting(s: PlayerStats, r: Recipe)
    ensures
        (spec_recipe_state(r, s) == RecipeState::Owned) <==> (craft_result(s, r)
            == CraftResult::AlreadyOwned),
        (spec_recipe_state(r, s) == RecipeState::Ready) <==> (craft_result(s, r)
            == CraftResult::Crafted || craft_result(s, r) == CraftResult::Brewed),
        (spec_recipe_state(r, s) == RecipeState::Locked) <==> (craft_result(s, r)
            == CraftResult::CannotAfford),
{
}

/// The "[Q] drink" hint appears exactly when drinking would use a draught.
pub proof fn law_drink_hint_matches_drinking(
    s: PlayerStats,
    ready: Seq<bool>,
    plot_near: bool,
    node_near: Option<usize>,
)
    ensures
        hint_parts(s, ready, plot_near, node_near).len() == (if plot_near { 1int } else { 0int })
            + (if node_near is Some { 1int } else { 0int }) + (if drink_result(s)
            == DrinkResult::Drank { 1int } else { 0int }),
        drink_result(s) == DrinkResult::Drank ==> hint_parts(s, ready, plot_near, node_near).last()
            == "[Q] drink draught (x"@ + int_text(s.potions as int) + ")"@,
{
}

/// The spawner keeps the enemy roster valid: when there is room, the new
/// enemy takes the counter's id (distinct from every id in play) with full
/// health, the counter advances, and the roster never passes `ENEMY_CAP`.
pub proof fn law_spawner_keeps_roster<B>(foes: Seq<Foe<B>>, next_id: u32, kind: u8, body: B)
    requires
        roster_ok(foes, next_id),
        foes.len() < ENEMY_CAP,
        next_id < u32::MAX,
    ensures
        roster_ok(
            foes.push(Foe { id: next_id, kind, hp: spec_enemy_hp(kind), body }),
            (next_id + 1) as u32,
        ),
{
    let out = foes.push(Foe { id: next_id, kind, hp: spec_enemy_hp(kind), body });
    assert forall|i: int| 0 <= i < out.len() implies #[trigger] out[i].id < next_id + 1 by {
        if i < foes.len() {
            assert(out[i] == foes[i]);
        }
    }
    assert forall|i: int, j: int| 0 <= i < j < out.len() implies #[trigger] out[i].id
        != #[trigger] out[j].id by {
        assert(out[i] == foes[i]);
        if j < foes.len() {
            assert(out[j] == foes[j]);
        }
    }
}

/// A punch keeps the enemy roster valid: the survivors are some of the
/// enemies that were there, so ids stay distinct and the cap holds.
pub proof fn law_punch_keeps_roster<B>(
    foes: Seq<Foe<B>>,
    hits: Seq<bool>,
    damage: i32,
    next_id: u32,
)
    requires
        roster_ok(foes, next_id),
    ensures
        roster_ok(punch_survivors(foes, hits, damage), next_id),
{
    let all = struck_all(foes, hits, damage);
    assert forall|i: int| 0 <= i < all.len() implies #[trigger] all[i].id == foes[i].id by {}
    assert(ids_fresh(all, next_id)) by {
        assert forall|i: int, j: int| 0 <= i < j < all.len() implies #[trigger] all[i].id
            != #[trigger] all[j].id by {
            assert(all[i].id == foes[i].id && all[j].id == foes[j].id);
        }
        assert forall|i: int| 0 <= i < all.len() implies #[trigger] all[i].id < next_id by {
            assert(all[i].id == foes[i].id);
        }
    }
    lemma_filter_keeps_roster(all, |f: Foe<B>| is_standing(f), next_id);
}

/// Hero counts never go negative: with non-negative seeds, wood, stone,
/// ore, turnips and draughts, every action (crafting a table recipe,
/// drinking, gathering, farming, a kill) leaves them non-negative.
pub proof fn law_counts_stay_non_negative<G>(
    s: PlayerStats,
    i: int,
    kind: u8,
    plot: Plot<G>,
    ripe: bool,
    dropped: bool,
)
    requires
        counts_non_negative(s),
        0 <= i < RECIPE_COUNT,
        crate::player::craft_fits(s, spec_recipe(i)),
        crate::player::gather_fits(s, kind),
        crate::player::farm_fits(s, farm_step(plot, ripe, s.seeds)),
        crate::player::kill_fits(s, kind, dropped),
    ensures
        counts_non_negative(after_craft(s, spec_recipe(i))),
        counts_non_negative(after_drink(s)),
        counts_non_negative(after_gather(s, kind)),
        counts_non_negative(after_farm_player(s, farm_step(plot, ripe, s.seeds))),
        counts_non_negative(after_kill(s, kind, dropped)),
{
}

/// Seeds, wood, stone, ore, turnips and draughts are all non-negative.
pub open spec fn counts_non_negative(s: PlayerStats) -> bool {
    &&& s.seeds >= 0
    &&& s.wood >= 0
    &&& s.stone >= 0
    &&& s.ore >= 0
    &&& s.turnips >= 0
    &&& s.potions >= 0
}

/// Each gear bonus comes from its own piece alone: the Iron Blade (bit 1)
/// turns 150 punch damage into 210, the Titan Belt (bit 2) raises maximum
/// health from 100 to 150, and only the Farmer's Charm (bit 8) adds a seed
/// and a turnip to a harvest (2 seeds and 1 turnip without it). Adding any
/// other piece leaves each of these numbers unchanged.
pub proof fn law_gear_bonuses_come_from_their_piece(gear: u8, extra: u8)
    ensures
        spec_attack_damage(gear) == if gear & 1u8 != 0 { 210int } else { 150int },
        spec_max_hp(gear) == if gear & 2u8 != 0 { 150int } else { 100int },
        spec_harvest_seeds(gear) == if gear & 8u8 != 0 { 3int } else { 2int },
        spec_harvest_turnips(gear) == if gear & 8u8 != 0 { 2int } else { 1int },
        extra & 1u8 == 0 ==> spec_attack_damage(gear | extra) == spec_attack_damage(gear),
        extra & 2u8 == 0 ==> spec_max_hp(gear | extra) == spec_max_hp(gear),
        extra & 8u8 == 0 ==> spec_harvest_seeds(gear | extra) == spec_harvest_seeds(gear),
        extra & 8u8 == 0 ==> spec_harvest_turnips(gear | extra) == spec_harvest_turnips(gear),
{
    assert(extra & 1u8 == 0 ==> ((gear | extra) & 1u8 == gear & 1u8)) by (bit_vector);
    assert(extra & 2u8 == 0 ==> ((gear | extra) & 2u8 == gear & 2u8)) by (bit_vector);
    assert(extra & 8u8 == 0 ==> ((gear | extra) & 8u8 == gear & 8u8)) by (bit_vector);
}

/// A harvest pays 2 seeds and 1 turnip, or 3 seeds and 2 turnips with the
/// Farmer's Charm, whatever else the hero wears.
pub proof fn law_harvest_yield(s: PlayerStats)
    requires
        crate::player::farm_fits(s, FarmStep::Harvest),
    ensures
        after_farm_player(s, FarmStep::Harvest).seeds - s.seeds == if s.gear & 8u8 != 0 {
            3int
        } else {
            2int
        },
        after_farm_player(s, FarmStep::Harvest).turnips - s.turnips == if s.gear & 8u8 != 0 {
            2int
        } else {
            1int
        },
        after_farm_player(s, FarmStep::Harvest).harvests == s.harvests + 1,
{
}

/// Regeneration adds health one point at a time up to the maximum of the
/// hero's current gear (150 with the Titan Belt, 100 without): it never
/// lowers the health of a hero within that maximum and never passes it, a
/// belted hero can regenerate above 100, and regenerating `a` points then
/// `b` points is the same as regenerating `a + b` at once.
pub proof fn law_regeneration(hp: i32, points: u32, more: u32, gear: u8)
    requires
        hp <= spec_max_hp(gear),
        points as int + more as int <= u32::MAX,
    ensures
        hp <= regenerated_hp(hp, points, spec_max_hp(gear)) <= spec_max_hp(gear),
        points > 0 && gear & 2u8 != 0 ==> regenerated_hp(hp, points, spec_max_hp(gear))
            == if hp + points < 150 { hp + points } else { 150int },
        points > 0 && gear & 2u8 == 0 ==> regenerated_hp(hp, points, spec_max_hp(gear))
            == if hp + points < 100 { hp + points } else { 100int },
        regenerated_hp(
            regenerated_hp(hp, points, spec_max_hp(gear)) as i32,
            more,
            spec_max_hp(gear),
        ) == regenerated_hp(hp, (points + more) as u32, spec_max_hp(gear)),
{
}

/// Whether the point `p` lies inside the rectangle `[x0, y0, x1, y1]`.
pub open spec fn inside_rect(p: (int, int), rect: Seq<i32>) -> bool {
    rect[0] <= p.0 <= rect[2] && rect[1] <= p.1 <= rect[3]
}

/// The region each resource grows in: timber in Whisperwood (region 1),
/// stone in Stonefall Quarry (region 4), ore in Emberveins (region 2).
pub open spec fn home_region(kind: u8) -> int {
    if kind == NODE_WOOD {
        1
    } else if kind == NODE_STONE {
        4
    } else {
        2
    }
}

/// Every resource node lies inside the region its resource belongs to, so
/// the trees really are in Whisperwood, the boulders in the Quarry and the
/// ore veins in the Emberveins; and gathering node `i` yields that
/// resource.
pub proof fn law_nodes_sit_in_their_regions(i: int)
    requires
        0 <= i < NODE_DEF_COUNT,
    ensures
        inside_rect(spec_node_coords(i), spec_region_rect(home_region(spec_node_kind(i)))),
        spec_node_kind(i) == NODE_WOOD <==> 0 <= i < 6,
        spec_node_kind(i) == NODE_STONE <==> 6 <= i < 12,
        spec_node_kind(i) == NODE_ORE <==> 12 <= i < 18,
{
}

/// Every kill's drop roll is a real chance, for every enemy kind: its odds
/// are strictly between never and always (so `chance`'s contract forces
/// neither outcome), golems drop more often than anything else, and when
/// the roll succeeds a non-golem kill (a Slime or a Shadow Wolf) yields a
/// seed while a golem yields ore.
pub proof fn law_drop_rolls_can_go_either_way(kind: u8, s: PlayerStats)
    requires
        crate::player::kill_fits(s, kind, true),
    ensures
        0 < spec_drop_odds(kind).0 < spec_drop_odds(kind).1,
        spec_drop_odds(2).0 * spec_drop_odds(kind).1 >= spec_drop_odds(kind).0 * spec_drop_odds(2).1,
        kind != 2 ==> after_kill(s, kind, true).seeds == s.seeds + 1,
        kind == 2 ==> after_kill(s, kind, true).ore == s.ore + 2,
{
}

} // verus!
