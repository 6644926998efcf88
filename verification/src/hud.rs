//! Text the client shows: the chat box, the context hint and the HUD lines.

use vstd::prelude::*;
use crate::config::{
    cost_text, gear_names, has_gear, max_hp, node_kind, node_name, node_resource_name, recipe,
    spec_can_afford, spec_cost_text, spec_gear_names, spec_max_hp, spec_node_kind, spec_node_name,
    spec_node_resource_name, spec_recipe, Recipe, Region, NODE_DEF_COUNT, RECIPE_COUNT,
};
use crate::player::PlayerStats;
use crate::text::{
    digits, int_text, join, lemma_join_push, maybe, pad_left, pad_right, push_digits, push_int,
    push_left_aligned, push_right_aligned,
};

verus! {

/// The chat box keeps this many of the latest log lines.
pub const MAX_LOG_LINES: usize = 8;

/// The log after appending `line` and dropping the oldest line when there
/// are more than `MAX_LOG_LINES`.
pub open spec fn pushed_log(log: Seq<String>, line: String) -> Seq<String> {
    if log.len() + 1 > MAX_LOG_LINES {
        log.push(line).drop_first()
    } else {
        log.push(line)
    }
}

/// Appends a line to the chat box, dropping the oldest one when it
/// overflows.
pub fn push_log(log: &mut Vec<String>, line: String)
    ensures
        final(log)@ == pushed_log(old(log)@, line),
{
    log.push(line);
    if log.len() > MAX_LOG_LINES {
        log.remove(0);
        proof {
            assert(log@ =~= old(log)@.push(line).drop_first());
        }
    }
}

/// The chat box text: the lines joined by newlines.
pub open spec fn log_text(lines: Seq<String>) -> Seq<char> {
    join(lines.map_values(|l: String| l@), "\n"@)
}

pub fn chat_text(lines: &Vec<String>) -> (text: String)
    ensures
        text@ == log_text(lines@),
{
    let ghost view_of = |l: String| l@;
    let mut text = String::new();
    let mut i: usize = 0;
    proof {
        assert(lines@.take(0).map_values(view_of) =~= Seq::<Seq<char>>::empty());
    }
    while i < lines.len()
        invariant
            i <= lines.len(),
            view_of == (|l: String| l@),
            text@ == join(lines@.take(i as int).map_values(view_of), "\n"@),
        decreases lines.len() - i,
    {
        let ghost before = lines@.take(i as int).map_values(view_of);
        if i > 0 {
            text.append("\n");
        }
        text.append(lines[i].as_str());
        proof {
            assert(lines@.take(i + 1).map_values(view_of) =~= before.push(lines@[i as int]@));
            lemma_join_push(before, "\n"@, lines@[i as int]@);
            if i == 0 {
                assert(before =~= Seq::<Seq<char>>::empty());
            }
        }
        i = i + 1;
    }
    proof {
        assert(lines@.take(lines.len() as int) =~= lines@);
    }
    text
}

// ---------------------------------------------------------------------------
// Context hint: what would E/G/Q do right now?
// ---------------------------------------------------------------------------

/// The gather hint for the nearest node `ni`, given the last-known node
/// readiness list (`ready[ni] == false` means depleted; unknown counts as
/// ready).
pub open spec fn gather_hint(ni: usize, ready: Seq<bool>) -> Seq<char> {
    let kind = spec_node_kind(ni as int);
    if (ni as int) < ready.len() && !ready[ni as int] {
        "[G] "@ + spec_node_name(kind)@ + " depleted - regrowing"@
    } else {
        "[G] gather "@ + spec_node_resource_name(kind)@ + " ("@ + spec_node_name(kind)@ + ")"@
    }
}

pub open spec fn hint_parts(
    s: PlayerStats,
    ready: Seq<bool>,
    plot_near: bool,
    node_near: Option<usize>,
) -> Seq<Seq<char>> {
    maybe(plot_near, "[E] tend farm plot"@) + match node_near {
        Some(ni) => seq![gather_hint(ni, ready)],
        None => Seq::empty(),
    } + maybe(
        s.potions > 0 && s.hp < spec_max_hp(s.gear),
        "[Q] drink draught (x"@ + int_text(s.potions as int) + ")"@,
    )
}

pub open spec fn spec_context_hint(
    s: PlayerStats,
    ready: Seq<bool>,
    plot_near: bool,
    node_near: Option<usize>,
) -> Seq<char> {
    let parts = hint_parts(s, ready, plot_near, node_near);
    if parts.len() == 0 {
        "WASD move    SPACE one-punch    [1-6] craft    gather wood, stone & ore out in the wilds"@
    } else {
        join(parts, "     "@)
    }
}

fn push_hint(
    out: &mut String,
    parts: Ghost<Seq<Seq<char>>>,
    any: &mut bool,
    piece: &str,
) -> (new_parts: Ghost<Seq<Seq<char>>>)
    requires
        old(out)@ == join(parts@, "     "@),
        *old(any) == (parts@.len() > 0),
    ensures
        new_parts@ == parts@.push(piece@),
        final(out)@ == join(new_parts@, "     "@),
        *final(any),
{
    if *any {
        out.append("     ");
    }
    out.append(piece);
    *any = true;
    proof {
        lemma_join_push(parts@, "     "@, piece@);
        if parts@.len() == 0 {
            assert(join(parts@, "     "@) =~= Seq::<char>::empty());
            assert(out@ =~= piece@);
        }
    }
    Ghost(parts@.push(piece@))
}

/// The action hint above the chat box. `plot_near` tells whether a farm plot
/// is in range; `node_near` is the nearest resource node in range, if any;
/// `ready` is the last-known readiness of every node.
pub fn context_hint(
    local: &PlayerStats,
    ready: &Vec<bool>,
    plot_near: bool,
    node_near: Option<usize>,
) -> (hint: String)
    requires
        node_near matches Some(ni) ==> ni < NODE_DEF_COUNT,
    ensures
        hint@ == spec_context_hint(*local, ready@, plot_near, node_near),
{
    let mut out = String::new();
    let mut any = false;
    let ghost parts: Seq<Seq<char>> = Seq::empty();
    assert(out@ =~= join(parts, "     "@));
    let ghost p1 = maybe(plot_near, "[E] tend farm plot"@);
    let parts = if plot_near {
        push_hint(&mut out, Ghost(parts), &mut any, "[E] tend farm plot")
    } else {
        Ghost(parts)
    };
    proof {
        assert(parts@ =~= p1);
    }
    let ghost p2 = match node_near {
        Some(ni) => seq![gather_hint(ni, ready@)],
        None => Seq::<Seq<char>>::empty(),
    };
    let parts = match node_near {
        Some(ni) => {
            let kind = node_kind(ni);
            let depleted = ni < ready.len() && !ready[ni];
            let mut piece;
            if depleted {
                piece = String::from_str("[G] ");
                piece.append(node_name(kind));
                piece.append(" depleted - regrowing");
            } else {
                piece = String::from_str("[G] gather ");
                piece.append(node_resource_name(kind));
                piece.append(" (");
                piece.append(node_name(kind));
                piece.append(")");
            }
            proof {
                assert(piece@ =~= gather_hint(ni, ready@));
            }
            push_hint(&mut out, parts, &mut any, piece.as_str())
        },
        None => parts,
    };
    proof {
        assert(parts@ =~= p1 + p2);
    }
    let max = max_hp(local.gear);
    let parts = if local.potions > 0 && local.hp < max {
        let mut piece = String::from_str("[Q] drink draught (x");
        push_int(&mut piece, local.potions);
        piece.append(")");
        push_hint(&mut out, parts, &mut any, piece.as_str())
    } else {
        parts
    };
    proof {
        assert(parts@ =~= hint_parts(*local, ready@, plot_near, node_near));
    }
    if !any {
        String::from_str(
            "WASD move    SPACE one-punch    [1-6] craft    gather wood, stone & ore out in the wilds",
        )
    } else {
        out
    }
}

// ---------------------------------------------------------------------------
// HUD lines
// ---------------------------------------------------------------------------

/// The health label: `HP hp/max`, with health shown as at least zero and a
/// sanctuary marker when standing in the safe zone.
pub open spec fn hp_label_text(s: PlayerStats, safe: bool) -> Seq<char> {
    let hp = if s.hp < 0 { 0 } else { s.hp as int };
    let base = "HP "@ + int_text(hp) + "/"@ + int_text(spec_max_hp(s.gear));
    if safe {
        base + "   [SANCTUARY]"@
    } else {
        base
    }
}

pub fn hp_label(local: &PlayerStats, safe: bool) -> (label: String)
    ensures
        label@ == hp_label_text(*local, safe),
{
    let max = max_hp(local.gear);
    let hp = if local.hp < 0 {
        0
    } else {
        local.hp
    };
    let mut label = String::from_str("HP ");
    push_int(&mut label, hp);
    label.append("/");
    push_int(&mut label, max);
    if safe {
        label.append("   [SANCTUARY]");
    }
    label
}

/// Kills, harvests, seeds and the owned gear, on two lines.
pub open spec fn stats_text(s: PlayerStats) -> Seq<char> {
    "Kills "@ + digits(s.kills as nat) + "   Harvests "@ + int_text(s.harvests as int)
        + "   Seeds "@ + int_text(s.seeds as int) + "\nGear: "@ + spec_gear_names(s.gear)
}

pub fn stats_line(local: &PlayerStats) -> (text: String)
    ensures
        text@ == stats_text(*local),
{
    let mut text = String::from_str("Kills ");
    push_digits(&mut text, local.kills as u64);
    text.append("   Harvests ");
    push_int(&mut text, local.harvests);
    text.append("   Seeds ");
    push_int(&mut text, local.seeds);
    text.append("\nGear: ");
    let gear = gear_names(local.gear);
    text.append(gear.as_str());
    text
}

/// An inventory row: the label left-aligned in 10 columns, a space, the
/// count right-aligned in 4 (`format!("{:<10} {:>4}", label, value)`).
pub open spec fn inventory_text(label: Seq<char>, value: i32) -> Seq<char> {
    pad_right(label, 10) + " "@ + pad_left(int_text(value as int), 4, ' ')
}

pub fn inventory_line(label: &str, value: i32) -> (line: String)
    ensures
        line@ == inventory_text(label@, value),
{
    let mut line = String::new();
    push_left_aligned(&mut line, label, 10);
    line.append(" ");
    let count = crate::text::int_string(value);
    push_right_aligned(&mut line, count.as_str(), 4);
    proof {
        assert(line@ =~= inventory_text(label@, value));
    }
    line
}

/// How a recipe shows on the workbench.
#[derive(Clone, Copy, Debug, PartialEq, Eq, Structural)]
pub enum RecipeState {
    /// The equipment piece is already owned.
    Owned,
    /// The inventory can pay for it.
    Ready,
    /// Neither.
    Locked,
}

pub open spec fn spec_recipe_state(r: Recipe, s: PlayerStats) -> RecipeState {
    if r.gear != 0 && has_gear(s.gear, r.gear) {
        RecipeState::Owned
    } else if spec_can_afford(r, s.wood, s.stone, s.ore, s.turnips) {
        RecipeState::Ready
    } else {
        RecipeState::Locked
    }
}

pub fn recipe_state(r: &Recipe, local: &PlayerStats) -> (state: RecipeState)
    ensures
        state == spec_recipe_state(*r, *local),
{
    if r.gear != 0 && (local.gear & r.gear != 0) {
        RecipeState::Owned
    } else if crate::config::can_afford(r, local.wood, local.stone, local.ore, local.turnips) {
        RecipeState::Ready
    } else {
        RecipeState::Locked
    }
}

/// A workbench row: `[hotkey] name cost  blurb status`, name left-aligned in
/// 15 columns and cost right-aligned in 7.
pub open spec fn craft_row_text(i: int, s: PlayerStats) -> Seq<char> {
    let r = spec_recipe(i);
    let status = match spec_recipe_state(r, s) {
        RecipeState::Owned => "  [OWNED]"@,
        RecipeState::Ready => "  [READY]"@,
        RecipeState::Locked => ""@,
    };
    "["@ + digits((i + 1) as nat) + "] "@ + pad_right(r.name@, 15) + " "@ + pad_left(
        spec_cost_text(r),
        7,
        ' ',
    ) + "  "@ + r.blurb@ + status
}

pub fn craft_row(i: usize, local: &PlayerStats) -> (row: String)
    requires
        i < RECIPE_COUNT,
    ensures
        row@ == craft_row_text(i as int, *local),
{
    let r = recipe(i).unwrap();
    let mut row = String::from_str("[");
    push_digits(&mut row, (i + 1) as u64);
    row.append("] ");
    push_left_aligned(&mut row, r.name, 15);
    row.append(" ");
    let cost = cost_text(&r);
    push_right_aligned(&mut row, cost.as_str(), 7);
    row.append("  ");
    row.append(r.blurb);
    match recipe_state(&r, local) {
        RecipeState::Owned => row.append("  [OWNED]"),
        RecipeState::Ready => row.append("  [READY]"),
        RecipeState::Locked => row.append(""),
    }
    proof {
        assert(row@ =~= craft_row_text(i as int, *local));
    }
    row
}

/// The banner shown on entering a region: its name over its description.
pub fn region_banner(region: &Region) -> (text: String)
    ensures
        text@ == region.name@ + "\n"@ + region.desc@,
{
    let mut text = String::from_str(region.name);
    text.append("\n");
    text.append(region.desc);
    text
}

/// The current-region label.
pub fn region_label(region: &Region) -> (text: String)
    ensures
        text@ == "Region: "@ + region.name@,
{
    let mut text = String::from_str("Region: ");
    text.append(region.name);
    text
}

} // verus!
