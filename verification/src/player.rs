//! A hero's integer stats (health, inventory, equipment) and the server's
//! rules for the actions that change them.

use vstd::prelude::*;
use crate::config::{
    can_afford, cost_text, harvest_seeds, harvest_turnips, has_gear, max_hp, node_kind, node_name,
    node_resource_name, recipe, spec_can_afford, spec_cost_text, spec_harvest_seeds,
    spec_harvest_turnips, spec_max_hp, spec_node_kind, spec_node_name, spec_node_resource_name,
    spec_recipe, spec_enemy_name, enemy_name, Recipe, CROP_NAME, GATHER_AMOUNT, GEAR_BELT, NODE_DEF_COUNT, NODE_STONE,
    NODE_WOOD, PLAYER_MAX_HP, POTION_HEAL, RECIPE_COUNT, STARTING_SEEDS,
};
use crate::text::{int_text, push_int};
use crate::rng::chance;
use rand::rngs::ThreadRng;

verus! {

/// Everything the server tracks about a hero besides position and timers.
/// The client keeps the same record for its own hero, refreshed from
/// snapshots.
#[derive(Clone, Copy, Debug, PartialEq, Eq, Structural)]
pub struct PlayerStats {
    pub hp: i32,
    pub seeds: i32,
    pub harvests: i32,
    pub kills: u32,
    pub wood: i32,
    pub stone: i32,
    pub ore: i32,
    pub turnips: i32,
    pub potions: i32,
    /// Owned equipment as a bitmask of `GEAR_*` bits.
    pub gear: u8,
}

/// The client's view of its own hero before the first snapshot arrives.
pub type LocalState = PlayerStats;

pub open spec fn min_int(a: int, b: int) -> int {
    if a < b {
        a
    } else {
        b
    }
}

/// Setting more bits never takes one away.
pub proof fn lemma_gear_or_keeps(gear: u8, extra: u8, bit: u8)
    ensures
        has_gear(gear, bit) ==> has_gear(gear | extra, bit),
        has_gear(gear | extra, bit) == (has_gear(gear, bit) || has_gear(extra, bit)),
{
    assert((gear & bit != 0) ==> ((gear | extra) & bit != 0)) by (bit_vector);
    assert(((gear | extra) & bit != 0) == ((gear & bit != 0) || (extra & bit != 0))) by (bit_vector);
}

impl PlayerStats {
    /// Stats of a freshly (re)connected hero: full health and the starting seeds.
    pub open spec fn spec_new() -> PlayerStats {
        PlayerStats {
            hp: PLAYER_MAX_HP,
            seeds: STARTING_SEEDS,
            harvests: 0,
            kills: 0,
            wood: 0,
            stone: 0,
            ore: 0,
            turnips: 0,
            potions: 0,
            gear: 0,
        }
    }

    pub fn new() -> (s: PlayerStats)
        ensures
            s == PlayerStats::spec_new(),
    {
        PlayerStats {
            hp: PLAYER_MAX_HP,
            seeds: STARTING_SEEDS,
            harvests: 0,
            kills: 0,
            wood: 0,
            stone: 0,
            ore: 0,
            turnips: 0,
            potions: 0,
            gear: 0,
        }
    }

    /// Health never exceeds the maximum that the owned gear allows.
    pub open spec fn hp_within_max(self) -> bool {
        self.hp <= spec_max_hp(self.gear)
    }
}

impl Default for PlayerStats {
    /// What the client shows before its first snapshot: full base health and
    /// an empty inventory.
    fn default() -> (s: PlayerStats)
        ensures
            s == (PlayerStats { seeds: 0, ..PlayerStats::spec_new() }),
    {
        PlayerStats {
            hp: PLAYER_MAX_HP,
            seeds: 0,
            harvests: 0,
            kills: 0,
            wood: 0,
            stone: 0,
            ore: 0,
            turnips: 0,
            potions: 0,
            gear: 0,
        }
    }
}

// ---------------------------------------------------------------------------
// Crafting
// ---------------------------------------------------------------------------

/// How a craft request for an existing recipe is answered.
#[derive(Clone, Copy, Debug, PartialEq, Eq, Structural)]
pub enum CraftResult {
    /// The equipment piece is already owned; nothing changes.
    AlreadyOwned,
    /// The inventory cannot pay for the recipe; nothing changes.
    CannotAfford,
    /// An equipment piece was crafted and its bit set.
    Crafted,
    /// A consumable was brewed into one more Healing Draught.
    Brewed,
}

pub open spec fn craft_result(s: PlayerStats, r: Recipe) -> CraftResult {
    if r.gear != 0 && has_gear(s.gear, r.gear) {
        CraftResult::AlreadyOwned
    } else if !spec_can_afford(r, s.wood, s.stone, s.ore, s.turnips) {
        CraftResult::CannotAfford
    } else if r.gear != 0 {
        CraftResult::Crafted
    } else {
        CraftResult::Brewed
    }
}

/// `s` after paying the materials of `r`.
pub open spec fn pay(s: PlayerStats, r: Recipe) -> PlayerStats {
    PlayerStats {
        wood: (s.wood - r.wood) as i32,
        stone: (s.stone - r.stone) as i32,
        ore: (s.ore - r.ore) as i32,
        turnips: (s.turnips - r.turnips) as i32,
        ..s
    }
}

/// Health after gaining the gear `new_gear`: a higher maximum grants the
/// difference at once, capped at the new maximum.
pub open spec fn hp_after_gear(hp: i32, old_gear: u8, new_gear: u8) -> int {
    min_int(hp + (spec_max_hp(new_gear) - spec_max_hp(old_gear)), spec_max_hp(new_gear))
}

pub open spec fn after_craft(s: PlayerStats, r: Recipe) -> PlayerStats {
    match craft_result(s, r) {
        CraftResult::Crafted => PlayerStats {
            gear: s.gear | r.gear,
            hp: hp_after_gear(s.hp, s.gear, s.gear | r.gear) as i32,
            ..pay(s, r)
        },
        CraftResult::Brewed => PlayerStats { potions: (s.potions + 1) as i32, ..pay(s, r) },
        _ => s,
    }
}

/// The crafting arithmetic stays within `i32`.
pub open spec fn craft_fits(s: PlayerStats, r: Recipe) -> bool {
    match craft_result(s, r) {
        CraftResult::Crafted => s.hp + (spec_max_hp(s.gear | r.gear) - spec_max_hp(s.gear))
            <= i32::MAX,
        CraftResult::Brewed => s.potions < i32::MAX,
        _ => true,
    }
}

pub open spec fn craft_log(name: Seq<char>, s: PlayerStats, r: Recipe) -> Seq<char> {
    match craft_result(s, r) {
        CraftResult::AlreadyOwned => name + " already owns a "@ + r.name@ + "."@,
        CraftResult::CannotAfford => name + " lacks materials for "@ + r.name@ + " ("@
            + spec_cost_text(r) + ") - gather more or harvest turnips."@,
        CraftResult::Crafted => name + " crafted a "@ + r.name@ + "! ("@ + r.blurb@ + ")"@,
        CraftResult::Brewed => name + " brewed a "@ + r.name@ + "! ("@ + r.blurb@ + ")"@,
    }
}

impl PlayerStats {
    /// Handles a craft request for recipe `recipe_id` made by the hero
    /// called `name`. Unknown recipes are ignored (no log line); otherwise
    /// the log line broadcast to everyone is returned.
    pub fn craft(&mut self, recipe_id: u8, name: &str) -> (log: Option<String>)
        requires
            (recipe_id as int) < RECIPE_COUNT ==> craft_fits(
                *old(self),
                spec_recipe(recipe_id as int),
            ),
        ensures
            (recipe_id as int) >= RECIPE_COUNT ==> log is None && *final(self) == *old(self),
            (recipe_id as int) < RECIPE_COUNT ==> {
                &&& *final(self) == after_craft(*old(self), spec_recipe(recipe_id as int))
                &&& log matches Some(line) && line@ == craft_log(
                    name@,
                    *old(self),
                    spec_recipe(recipe_id as int),
                )
            },
    {
        let r = match recipe(recipe_id as usize) {
            Some(r) => r,
            None => {
                return None;
            },
        };
        let mut line = String::from_str(name);
        if r.gear != 0 && self.gear & r.gear != 0 {
            line.append(" already owns a ");
            line.append(r.name);
            line.append(".");
            return Some(line);
        }
        if !can_afford(&r, self.wood, self.stone, self.ore, self.turnips) {
            line.append(" lacks materials for ");
            line.append(r.name);
            line.append(" (");
            let cost = cost_text(&r);
            line.append(cost.as_str());
            line.append(") - gather more or harvest turnips.");
            return Some(line);
        }
        self.wood = self.wood - r.wood;
        self.stone = self.stone - r.stone;
        self.ore = self.ore - r.ore;
        self.turnips = self.turnips - r.turnips;
        if r.gear != 0 {
            let old_max = max_hp(self.gear);
            let new_gear = self.gear | r.gear;
            let new_max = max_hp(new_gear);
            proof {
                lemma_gear_or_keeps(self.gear, r.gear, GEAR_BELT);
            }
            self.gear = new_gear;
            let raised = self.hp + (new_max - old_max);
            self.hp = if raised < new_max {
                raised
            } else {
                new_max
            };
            line.append(" crafted a ");
        } else {
            self.potions = self.potions + 1;
            line.append(" brewed a ");
        }
        line.append(r.name);
        line.append("! (");
        line.append(r.blurb);
        line.append(")");
        Some(line)
    }
}

} // verus!

verus! {

// ---------------------------------------------------------------------------
// Healing Draughts
// ---------------------------------------------------------------------------

#[derive(Clone, Copy, Debug, PartialEq, Eq, Structural)]
pub enum DrinkResult {
    /// No draught in the inventory; nothing changes.
    NoDraughts,
    /// Health is already at (or above) the maximum; nothing changes.
    FullHp,
    /// One draught was drunk.
    Drank,
}

pub open spec fn drink_result(s: PlayerStats) -> DrinkResult {
    if s.potions <= 0 {
        DrinkResult::NoDraughts
    } else if s.hp >= spec_max_hp(s.gear) {
        DrinkResult::FullHp
    } else {
        DrinkResult::Drank
    }
}

pub open spec fn after_drink(s: PlayerStats) -> PlayerStats {
    match drink_result(s) {
        DrinkResult::Drank => PlayerStats {
            potions: (s.potions - 1) as i32,
            hp: min_int(s.hp + POTION_HEAL, spec_max_hp(s.gear)) as i32,
            ..s
        },
        _ => s,
    }
}

pub open spec fn drink_log(name: Seq<char>, s: PlayerStats) -> Seq<char> {
    match drink_result(s) {
        DrinkResult::NoDraughts => name
            + " has no Healing Draughts - craft one with key 6 (1w 1o 1t)."@,
        DrinkResult::FullHp => name + " is already at full HP."@,
        DrinkResult::Drank => name + " quaffed a Healing Draught! (+"@ + int_text(
            after_drink(s).hp - s.hp,
        ) + " HP)"@,
    }
}

impl PlayerStats {
    /// Handles a request by the hero called `name` to drink a Healing
    /// Draught; returns the log line.
    pub fn drink(&mut self, name: &str) -> (log: String)
        ensures
            *final(self) == after_drink(*old(self)),
            log@ == drink_log(name@, *old(self)),
    {
        let mut line = String::from_str(name);
        if self.potions <= 0 {
            line.append(" has no Healing Draughts - craft one with key 6 (1w 1o 1t).");
            return line;
        }
        let max = max_hp(self.gear);
        if self.hp >= max {
            line.append(" is already at full HP.");
            return line;
        }
        self.potions = self.potions - 1;
        let before = self.hp;
        let healed = self.hp + POTION_HEAL;
        self.hp = if healed < max {
            healed
        } else {
            max
        };
        line.append(" quaffed a Healing Draught! (+");
        push_int(&mut line, self.hp - before);
        line.append(" HP)");
        line
    }
}

// ---------------------------------------------------------------------------
// Gathering from resource nodes
// ---------------------------------------------------------------------------

/// Server-side state of a gatherable resource node; `timer` counts down the
/// regrowth of a depleted node.
pub struct ResourceNode<T> {
    pub ready: bool,
    pub timer: T,
}

/// `s` after receiving one gather's worth of the resource of node kind `kind`.
pub open spec fn after_gather(s: PlayerStats, kind: u8) -> PlayerStats {
    if kind == NODE_WOOD {
        PlayerStats { wood: (s.wood + GATHER_AMOUNT) as i32, ..s }
    } else if kind == NODE_STONE {
        PlayerStats { stone: (s.stone + GATHER_AMOUNT) as i32, ..s }
    } else {
        PlayerStats { ore: (s.ore + GATHER_AMOUNT) as i32, ..s }
    }
}

pub open spec fn gather_fits(s: PlayerStats, kind: u8) -> bool {
    if kind == NODE_WOOD {
        s.wood + GATHER_AMOUNT <= i32::MAX
    } else if kind == NODE_STONE {
        s.stone + GATHER_AMOUNT <= i32::MAX
    } else {
        s.ore + GATHER_AMOUNT <= i32::MAX
    }
}

pub open spec fn gather_log(name: Seq<char>, ready: bool, kind: u8) -> Seq<char> {
    if ready {
        name + " gathered "@ + int_text(GATHER_AMOUNT as int) + " "@
            + spec_node_resource_name(kind)@ + " from a "@ + spec_node_name(kind)@ + "!"@
    } else {
        name + " found a depleted "@ + spec_node_name(kind)@ + "; it will regrow soon."@
    }
}

pub open spec fn nothing_to_gather_text(name: Seq<char>) -> Seq<char> {
    name
        + " sees nothing to gather here. Look for trees in the Whisperwood, boulders in the Quarry, or ore veins in the Emberveins."@
}

/// The log line when the hero called `name` gathers with no node in range.
pub fn nothing_to_gather_log(name: &str) -> (log: String)
    ensures
        log@ == nothing_to_gather_text(name@),
{
    let mut line = String::from_str(name);
    line.append(
        " sees nothing to gather here. Look for trees in the Whisperwood, boulders in the Quarry, or ore veins in the Emberveins.",
    );
    line
}

/// Handles a gather by the hero called `name` at node `index` (the nearest
/// node in range). A ready node is depleted, its regrowth timer set to
/// `regrow`, and the hero receives `GATHER_AMOUNT` of its resource; a
/// depleted node changes nothing. Returns the log line.
pub fn gather<T>(
    node: &mut ResourceNode<T>,
    regrow: T,
    index: usize,
    player: &mut PlayerStats,
    name: &str,
) -> (log: String)
    requires
        index < NODE_DEF_COUNT,
        old(node).ready ==> gather_fits(*old(player), spec_node_kind(index as int)),
    ensures
        old(node).ready ==> {
            &&& !final(node).ready
            &&& final(node).timer == regrow
            &&& *final(player) == after_gather(*old(player), spec_node_kind(index as int))
        },
        !old(node).ready ==> *final(node) == *old(node) && *final(player) == *old(player),
        log@ == gather_log(name@, old(node).ready, spec_node_kind(index as int)),
{
    let kind = node_kind(index);
    let mut line = String::from_str(name);
    if !node.ready {
        line.append(" found a depleted ");
        line.append(node_name(kind));
        line.append("; it will regrow soon.");
        return line;
    }
    let amount = GATHER_AMOUNT;
    node.ready = false;
    node.timer = regrow;
    if kind == NODE_WOOD {
        player.wood = player.wood + amount;
    } else if kind == NODE_STONE {
        player.stone = player.stone + amount;
    } else {
        player.ore = player.ore + amount;
    }
    line.append(" gathered ");
    push_int(&mut line, amount);
    line.append(" ");
    line.append(node_resource_name(kind));
    line.append(" from a ");
    line.append(node_name(kind));
    line.append("!");
    line
}

// ---------------------------------------------------------------------------
// Farming
// ---------------------------------------------------------------------------

/// A crop growing on a plot; `growth` is tracked by the simulation.
pub struct Crop<G> {
    pub growth: G,
    pub watered: bool,
}

/// A farm plot: tilled soil, possibly with a crop on it.
pub struct Plot<G> {
    pub tilled: bool,
    pub crop: Option<Crop<G>>,
}

impl<G> Plot<G> {
    /// An untilled, empty plot.
    pub fn new() -> (p: Plot<G>)
        ensures
            !p.tilled,
            p.crop is None,
    {
        Plot { tilled: false, crop: None }
    }
}

/// What the context action does to a plot.
#[derive(Clone, Copy, Debug, PartialEq, Eq, Structural)]
pub enum FarmStep {
    Till,
    Plant,
    NoSeeds,
    Harvest,
    Water,
    Idle,
}

/// The step taken on plot `p` whose crop, if any, is fully grown exactly
/// when `ripe`, by a hero holding `seeds` seeds:
/// till -> plant -> water -> harvest.
pub open spec fn farm_step<G>(p: Plot<G>, ripe: bool, seeds: i32) -> FarmStep {
    if !p.tilled {
        FarmStep::Till
    } else if p.crop is None {
        if seeds > 0 {
            FarmStep::Plant
        } else {
            FarmStep::NoSeeds
        }
    } else if ripe {
        FarmStep::Harvest
    } else if !p.crop.unwrap().watered {
        FarmStep::Water
    } else {
        FarmStep::Idle
    }
}

/// The plot after farming step `step`; `seedling` is the growth of a newly
/// planted crop.
pub open spec fn farmed_plot<G>(p: Plot<G>, step: FarmStep, seedling: G) -> Plot<G> {
    match step {
        FarmStep::Till => Plot { tilled: true, ..p },
        FarmStep::Plant => Plot { crop: Some(Crop { growth: seedling, watered: false }), ..p },
        FarmStep::Harvest => Plot { crop: None, ..p },
        FarmStep::Water => Plot {
            crop: Some(Crop { growth: p.crop.unwrap().growth, watered: true }),
            ..p
        },
        _ => p,
    }
}

pub open spec fn after_farm_player(s: PlayerStats, step: FarmStep) -> PlayerStats {
    match step {
        FarmStep::Plant => PlayerStats { seeds: (s.seeds - 1) as i32, ..s },
        FarmStep::Harvest => PlayerStats {
            seeds: (s.seeds + spec_harvest_seeds(s.gear)) as i32,
            turnips: (s.turnips + spec_harvest_turnips(s.gear)) as i32,
            harvests: (s.harvests + 1) as i32,
            ..s
        },
        _ => s,
    }
}

pub open spec fn farm_fits(s: PlayerStats, step: FarmStep) -> bool {
    step == FarmStep::Harvest ==> {
        &&& s.seeds + spec_harvest_seeds(s.gear) <= i32::MAX
        &&& s.turnips + spec_harvest_turnips(s.gear) <= i32::MAX
        &&& s.harvests < i32::MAX
    }
}

pub open spec fn farm_log(name: Seq<char>, s: PlayerStats, step: FarmStep) -> Option<Seq<char>> {
    match step {
        FarmStep::Till => Some(name + " tilled a plot of soil."@),
        FarmStep::Plant => Some(name + " planted a "@ + CROP_NAME@ + " seed. Water it with E!"@),
        FarmStep::NoSeeds => Some(
            name + " has no seeds. Harvest ripe crops (or slay monsters) for more."@,
        ),
        FarmStep::Harvest => Some(
            name + " harvested a "@ + CROP_NAME@ + "! (+"@ + int_text(spec_harvest_seeds(s.gear))
                + " seeds, +"@ + int_text(spec_harvest_turnips(s.gear)) + " turnips)"@,
        ),
        FarmStep::Water => Some(name + " watered a crop. It will grow quickly now."@),
        FarmStep::Idle => None,
    }
}

/// Handles the farm context action of the hero called `name` on plot `plot`
/// (the nearest plot in range). `ripe` tells whether the plot's crop is fully
/// grown and `seedling` is the growth of a freshly planted crop. Returns the
/// log line, if the action produced one.
pub fn farm<G>(
    plot: &mut Plot<G>,
    ripe: bool,
    seedling: G,
    player: &mut PlayerStats,
    name: &str,
) -> (log: Option<String>)
    requires
        farm_fits(*old(player), farm_step(*old(plot), ripe, old(player).seeds)),
    ensures
        ({
            let step = farm_step(*old(plot), ripe, old(player).seeds);
            &&& *final(player) == after_farm_player(*old(player), step)
            &&& *final(plot) == farmed_plot(*old(plot), step, seedling)
            &&& match farm_log(name@, *old(player), step) {
                Some(text) => log matches Some(line) && line@ == text,
                None => log is None,
            }
        }),
{
    let mut line = String::from_str(name);
    if !plot.tilled {
        plot.tilled = true;
        line.append(" tilled a plot of soil.");
        return Some(line);
    }
    if plot.crop.is_none() {
        if player.seeds > 0 {
            player.seeds = player.seeds - 1;
            plot.crop = Some(Crop { growth: seedling, watered: false });
            line.append(" planted a ");
            line.append(CROP_NAME);
            line.append(" seed. Water it with E!");
        } else {
            line.append(" has no seeds. Harvest ripe crops (or slay monsters) for more.");
        }
        return Some(line);
    }
    let crop = plot.crop.take().unwrap();
    if ripe {
        let seeds = harvest_seeds(player.gear);
        let turnips = harvest_turnips(player.gear);
        player.seeds = player.seeds + seeds;
        player.turnips = player.turnips + turnips;
        player.harvests = player.harvests + 1;
        line.append(" harvested a ");
        line.append(CROP_NAME);
        line.append("! (+");
        push_int(&mut line, seeds);
        line.append(" seeds, +");
        push_int(&mut line, turnips);
        line.append(" turnips)");
        Some(line)
    } else if !crop.watered {
        plot.crop = Some(Crop { growth: crop.growth, watered: true });
        line.append(" watered a crop. It will grow quickly now.");
        Some(line)
    } else {
        plot.crop = Some(crop);
        None
    }
}

} // verus!

verus! {

// ---------------------------------------------------------------------------
// Kills and their drops
// ---------------------------------------------------------------------------

/// Ore from a shattered golem.
pub const GOLEM_ORE_DROP: i32 = 2;

/// The odds of a kill's drop roll as `(numerator, denominator)`: Ember
/// Golems (kind 2) shatter into ore 7 times in 10; anything else drops a
/// seed 1 time in 2.
pub open spec fn spec_drop_odds(kind: u8) -> (u32, u32) {
    if kind == 2 {
        (7, 10)
    } else {
        (1, 2)
    }
}

pub fn drop_odds(kind: u8) -> (odds: (u32, u32))
    ensures
        odds == spec_drop_odds(kind),
{
    if kind == 2 {
        (7, 10)
    } else {
        (1, 2)
    }
}

/// `s` after killing an enemy of kind `kind`; `dropped` tells whether the
/// kill's drop roll succeeded (golems drop ore, everything else a seed).
pub open spec fn after_kill(s: PlayerStats, kind: u8, dropped: bool) -> PlayerStats {
    let counted = PlayerStats { kills: (s.kills + 1) as u32, ..s };
    if !dropped {
        counted
    } else if kind == 2 {
        PlayerStats { ore: (s.ore + GOLEM_ORE_DROP) as i32, ..counted }
    } else {
        PlayerStats { seeds: (s.seeds + 1) as i32, ..counted }
    }
}

pub open spec fn kill_fits(s: PlayerStats, kind: u8, dropped: bool) -> bool {
    &&& s.kills < u32::MAX
    &&& dropped ==> if kind == 2 {
        s.ore + GOLEM_ORE_DROP <= i32::MAX
    } else {
        s.seeds < i32::MAX
    }
}

pub open spec fn kill_text(attacker: Seq<char>, kind: u8) -> Seq<char> {
    attacker + " obliterated a "@ + spec_enemy_name(kind)@ + " with [Cheat Skill: One Punch]!"@
}

pub open spec fn kill_log(attacker: Seq<char>, kind: u8, dropped: bool) -> Seq<char> {
    if !dropped {
        kill_text(attacker, kind)
    } else if kind == 2 {
        kill_text(attacker, kind) + " It shattered into 2 ore!"@
    } else {
        kill_text(attacker, kind) + " It dropped a seed!"@
    }
}

/// The kill announcement alone (used when the attacker is gone).
pub fn kill_line(attacker: &str, kind: u8) -> (line: String)
    ensures
        line@ == kill_text(attacker@, kind),
{
    let mut line = String::from_str(attacker);
    line.append(" obliterated a ");
    line.append(enemy_name(kind));
    line.append(" with [Cheat Skill: One Punch]!");
    line
}

impl PlayerStats {
    /// Credits the hero called `attacker` with a kill of kind `kind` whose
    /// drop roll came out as `dropped`; returns the log line.
    pub fn reward_kill(&mut self, attacker: &str, kind: u8, dropped: bool) -> (log: String)
        requires
            kill_fits(*old(self), kind, dropped),
        ensures
            *final(self) == after_kill(*old(self), kind, dropped),
            log@ == kill_log(attacker@, kind, dropped),
    {
        let mut line = kill_line(attacker, kind);
        self.kills = self.kills + 1;
        if dropped {
            if kind == 2 {
                self.ore = self.ore + GOLEM_ORE_DROP;
                line.append(" It shattered into 2 ore!");
            } else {
                self.seeds = self.seeds + 1;
                line.append(" It dropped a seed!");
            }
        }
        line
    }

    /// Credits a kill, drawing the drop roll from `rng` at the odds
    /// `drop_odds(kind)`: 7 in 10 for a golem's ore, 1 in 2 for anyone
    /// else's seed.
    pub fn claim_kill(&mut self, attacker: &str, kind: u8, rng: &mut ThreadRng) -> (log: String)
        requires
            kill_fits(*old(self), kind, true),
        ensures
            ({
                ||| *final(self) == after_kill(*old(self), kind, true) && log@ == kill_log(
                    attacker@,
                    kind,
                    true,
                )
                ||| *final(self) == after_kill(*old(self), kind, false) && log@ == kill_log(
                    attacker@,
                    kind,
                    false,
                )
            }),
    {
        let (numerator, denominator) = drop_odds(kind);
        let dropped = chance(rng, numerator, denominator);
        self.reward_kill(attacker, kind, dropped)
    }
}

// ---------------------------------------------------------------------------
// Health over time: regeneration, enemy hits, respawn
// ---------------------------------------------------------------------------

/// Health after `points` single-point heals, each capped at `max`.
pub open spec fn regenerated_hp(hp: i32, points: u32, max: int) -> int {
    if points == 0 {
        hp as int
    } else {
        min_int(hp + points, max)
    }
}

impl PlayerStats {
    /// Applies `points` whole regeneration points, one at a time, each
    /// capped at the gear's maximum health.
    pub fn regenerate(&mut self, points: u32)
        requires
            points > 0 ==> old(self).hp < i32::MAX,
        ensures
            *final(self) == (PlayerStats {
                hp: regenerated_hp(old(self).hp, points, spec_max_hp(old(self).gear)) as i32,
                ..*old(self)
            }),
    {
        let max = max_hp(self.gear);
        let mut left = points;
        while left > 0
            invariant
                max == spec_max_hp(self.gear),
                left <= points,
                left > 0 ==> self.hp < i32::MAX,
                left < points ==> self.hp <= max,
                self.hp == regenerated_hp(old(self).hp, (points - left) as u32, max as int),
                *self == (PlayerStats { hp: self.hp, ..*old(self) }),
            decreases left,
        {
            let raised = self.hp + 1;
            self.hp = if raised < max {
                raised
            } else {
                max
            };
            left = left - 1;
        }
    }

    /// Takes one enemy hit that deals `taken` damage (after any shield
    /// mitigation, which the simulation computes in floating point).
    pub fn suffer_hit(&mut self, taken: i32)
        requires
            i32::MIN <= old(self).hp - taken <= i32::MAX,
        ensures
            *final(self) == (PlayerStats { hp: (old(self).hp - taken) as i32, ..*old(self) }),
    {
        self.hp = self.hp - taken;
    }

    /// Whether the hero has fallen (health at or below zero).
    pub fn has_fallen(&self) -> (fallen: bool)
        ensures
            fallen == (self.hp <= 0),
    {
        self.hp <= 0
    }

    /// A hero at or below zero health is restored to full health (the
    /// caller moves them back to the shrine); returns whether that happened.
    pub fn revive_if_fallen(&mut self) -> (fallen: bool)
        ensures
            fallen == (old(self).hp <= 0),
            *final(self) == if fallen {
                PlayerStats { hp: spec_max_hp(old(self).gear) as i32, ..*old(self) }
            } else {
                *old(self)
            },
    {
        if self.hp <= 0 {
            self.hp = max_hp(self.gear);
            true
        } else {
            false
        }
    }
}

} // verus!
