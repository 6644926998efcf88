//! Log lines the server broadcasts about heroes joining, leaving, moving
//! between regions and falling, and the client's own roster notices.

use vstd::prelude::*;
use crate::config::Region;
use crate::text::{digits, pad_left, push_zero_padded};

verus! {

/// A hero's display name: `Hero-` and the last four decimal digits of the
/// client id, zero-padded.
pub open spec fn hero_text(client_id: u64) -> Seq<char> {
    "Hero-"@ + pad_left(digits((client_id % 10000) as nat), 4, '0')
}

pub fn hero_name(client_id: u64) -> (name: String)
    ensures
        name@ == hero_text(client_id),
{
    let mut name = String::from_str("Hero-");
    push_zero_padded(&mut name, client_id % 10000, 4);
    name
}

pub fn joined_log(hero: &str) -> (line: String)
    ensures
        line@ == hero@ + " has been reincarnated into this world."@,
{
    let mut line = String::from_str(hero);
    line.append(" has been reincarnated into this world.");
    line
}

pub fn departed_log(hero: &str) -> (line: String)
    ensures
        line@ == hero@ + " returned to their original world."@,
{
    let mut line = String::from_str(hero);
    line.append(" returned to their original world.");
    line
}

/// Onboarding line sent only to a joining client.
pub fn welcome_text() -> (text: String)
    ensures
        text@ == "Welcome, OP protagonist! WASD move, SPACE one-punches, E tends the nearest farm plot, G gathers wood/stone/ore, Q drinks a Healing Draught, and 1-6 craft at the workbench. The Sanctuary at spawn is a safe zone: monsters cannot enter and your wounds close fast."@,
{
    String::from_str(
        "Welcome, OP protagonist! WASD move, SPACE one-punches, E tends the nearest farm plot, G gathers wood/stone/ore, Q drinks a Healing Draught, and 1-6 craft at the workbench. The Sanctuary at spawn is a safe zone: monsters cannot enter and your wounds close fast.",
    )
}

pub fn entered_region_log(hero: &str, region: &Region) -> (line: String)
    ensures
        line@ == hero@ + " entered the "@ + region.name@ + "."@,
{
    let mut line = String::from_str(hero);
    line.append(" entered the ");
    line.append(region.name);
    line.append(".");
    line
}

pub fn fallen_log(hero: &str) -> (line: String)
    ensures
        line@ == hero@
            + " was flattened by a monster... embarrassing for an OP protagonist. Reincarnated at the shrine."@,
{
    let mut line = String::from_str(hero);
    line.append(
        " was flattened by a monster... embarrassing for an OP protagonist. Reincarnated at the shrine.",
    );
    line
}

/// The client's notice when another hero first shows up in a snapshot.
pub fn hero_arrived_line(id: u64) -> (line: String)
    ensures
        line@ == hero_text(id) + " entered the world."@,
{
    let mut line = hero_name(id);
    line.append(" entered the world.");
    line
}

/// The client's notice when another hero vanishes from the snapshots; this
/// one shows the whole id, zero-padded to four digits.
pub fn hero_left_line(id: u64) -> (line: String)
    ensures
        line@ == "Hero-"@ + pad_left(digits(id as nat), 4, '0') + " left the world."@,
{
    let mut line = String::from_str("Hero-");
    push_zero_padded(&mut line, id, 4);
    line.append(" left the world.");
    line
}

} // verus!
