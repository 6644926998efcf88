//! Enemies: the punch that fells them and the spawner that brings them.

use vstd::prelude::*;
use crate::config::{
    enemy_hp, is_region, spec_enemy_hp, wild_indices, wild_regions, Region, ENEMY_CAP,
    REGION_COUNT,
};
use crate::rng::index_below;
use rand::rngs::ThreadRng;

verus! {

/// An enemy's identity and health; `body` is what the simulation tracks
/// besides (position, attack cooldown).
pub struct Foe<B> {
    pub id: u32,
    pub kind: u8,
    pub hp: i32,
    pub body: B,
}

/// `f` after a punch of `damage`, when `hit`.
pub open spec fn struck<B>(f: Foe<B>, hit: bool, damage: i32) -> Foe<B> {
    if hit {
        Foe { hp: (f.hp - damage) as i32, ..f }
    } else {
        f
    }
}

pub open spec fn struck_all<B>(foes: Seq<Foe<B>>, hits: Seq<bool>, damage: i32) -> Seq<Foe<B>> {
    Seq::new(foes.len(), |i: int| struck(foes[i], hits[i], damage))
}

pub open spec fn is_standing<B>(f: Foe<B>) -> bool {
    f.hp > 0
}

pub open spec fn punch_survivors<B>(foes: Seq<Foe<B>>, hits: Seq<bool>, damage: i32) -> Seq<Foe<B>> {
    struck_all(foes, hits, damage).filter(|f: Foe<B>| is_standing(f))
}

pub open spec fn punch_fallen<B>(foes: Seq<Foe<B>>, hits: Seq<bool>, damage: i32) -> Seq<u8> {
    struck_all(foes, hits, damage).filter(|f: Foe<B>| !is_standing(f)).map_values(
        |f: Foe<B>| f.kind,
    )
}

/// Resolves a one-punch of `damage` against `foes`, where `in_reach[i]`
/// tells whether foe `i` is inside the punch's area. When nothing is in
/// reach nothing happens. Otherwise every foe in reach loses `damage`
/// health, the foes left standing stay in order, and the kinds of the
/// fallen are returned in order.
pub fn resolve_punch<B>(foes: &mut Vec<Foe<B>>, in_reach: &Vec<bool>, damage: i32) -> (fallen: Vec<
    u8,
>)
    requires
        in_reach.len() == old(foes).len(),
        forall|i: int|
            0 <= i < in_reach.len() && #[trigger] in_reach[i] ==> i32::MIN <= old(foes)[i].hp
                - damage <= i32::MAX,
    ensures
        !in_reach@.contains(true) ==> *final(foes) == *old(foes) && fallen@.len() == 0,
        in_reach@.contains(true) ==> {
            &&& final(foes)@ == punch_survivors(old(foes)@, in_reach@, damage)
            &&& fallen@ == punch_fallen(old(foes)@, in_reach@, damage)
        },
{
    let n = in_reach.len();
    let mut any = false;
    let mut j: usize = 0;
    while j < n
        invariant
            n == in_reach.len(),
            j <= n,
            any == exists|k: int| 0 <= k < j && #[trigger] in_reach[k],
        decreases n - j,
    {
        if in_reach[j] {
            any = true;
        }
        j = j + 1;
    }
    if !any {
        proof {
            assert(!in_reach@.contains(true));
        }
        return Vec::new();
    }
    let ghost orig = foes@;
    let ghost all = struck_all(orig, in_reach@, damage);
    let ghost keep = |f: Foe<B>| is_standing(f);
    let ghost lost = |f: Foe<B>| !is_standing(f);
    let ghost kind_of = |f: Foe<B>| f.kind;
    let mut rest: Vec<Foe<B>> = Vec::new();
    std::mem::swap(&mut rest, foes);
    let mut fallen: Vec<u8> = Vec::new();
    let mut i: usize = 0;
    proof {
        reveal(Seq::filter);
        assert(all.take(0).filter(keep) =~= Seq::<Foe<B>>::empty());
        assert(all.take(0).filter(lost) =~= Seq::<Foe<B>>::empty());
    }
    while i < n
        invariant
            n == in_reach.len(),
            n == orig.len(),
            i <= n,
            all == struck_all(orig, in_reach@, damage),
            keep == (|f: Foe<B>| is_standing(f)),
            lost == (|f: Foe<B>| !is_standing(f)),
            kind_of == (|f: Foe<B>| f.kind),
            rest@ == orig.skip(i as int),
            foes@ == all.take(i as int).filter(keep),
            fallen@ == all.take(i as int).filter(lost).map_values(kind_of),
            forall|k: int|
                0 <= k < in_reach.len() && #[trigger] in_reach[k] ==> i32::MIN <= orig[k].hp
                    - damage <= i32::MAX,
        decreases n - i,
    {
        let ghost before_keep = all.take(i as int).filter(keep);
        let ghost before_lost = all.take(i as int).filter(lost);
        proof {
            assert(rest@[0] == orig[i as int]);
        }
        let f = rest.remove(0);
        let hit = in_reach[i];
        proof {
            assert(f.hp == orig[i as int].hp);
            if hit {
                assert(in_reach[i as int]);
                assert(i32::MIN <= f.hp - damage <= i32::MAX);
            }
        }
        let hp = if hit {
            f.hp - damage
        } else {
            f.hp
        };
        let g = Foe { id: f.id, kind: f.kind, hp, body: f.body };
        proof {
            assert(g == all[i as int]);
            assert(all.take(i + 1).drop_last() =~= all.take(i as int));
            assert(all.take(i + 1).last() == g);
            reveal(Seq::filter);
            assert(rest@ =~= orig.skip(i + 1));
        }
        if hp > 0 {
            foes.push(g);
            proof {
                assert(all.take(i + 1).filter(keep) == before_keep.push(g));
                assert(all.take(i + 1).filter(lost) == before_lost);
            }
        } else {
            fallen.push(g.kind);
            proof {
                assert(all.take(i + 1).filter(keep) == before_keep);
                assert(all.take(i + 1).filter(lost) == before_lost.push(g));
                assert(before_lost.push(g).map_values(kind_of) =~= before_lost.map_values(
                    kind_of,
                ).push(g.kind));
            }
        }
        i = i + 1;
    }
    proof {
        assert(all.take(n as int) =~= all);
    }
    fallen
}

/// Every enemy id lies below the id counter and no two enemies share an id.
pub open spec fn ids_fresh<B>(foes: Seq<Foe<B>>, next_id: u32) -> bool {
    &&& forall|i: int| 0 <= i < foes.len() ==> #[trigger] foes[i].id < next_id
    &&& forall|i: int, j: int|
        0 <= i < j < foes.len() ==> #[trigger] foes[i].id != #[trigger] foes[j].id
}

/// The enemy roster the server keeps: at most `ENEMY_CAP` enemies, with
/// distinct ids below the id counter.
pub open spec fn roster_ok<B>(foes: Seq<Foe<B>>, next_id: u32) -> bool {
    foes.len() <= ENEMY_CAP && ids_fresh(foes, next_id)
}

/// Whether the spawner may bring another monster (fewer than `ENEMY_CAP`).
pub fn has_room<B>(foes: &Vec<Foe<B>>) -> (room: bool)
    ensures
        room == (foes@.len() < ENEMY_CAP),
{
    foes.len() < ENEMY_CAP
}

/// Adds a fresh enemy of kind `kind` with id `*next_id` and full health for
/// its kind, then advances the id counter.
pub fn spawn_foe<B>(foes: &mut Vec<Foe<B>>, next_id: &mut u32, kind: u8, body: B)
    requires
        *old(next_id) < u32::MAX,
    ensures
        final(foes)@ == old(foes)@.push(
            Foe { id: *old(next_id), kind, hp: spec_enemy_hp(kind), body },
        ),
        *final(next_id) == *old(next_id) + 1,
{
    foes.push(Foe { id: *next_id, kind, hp: enemy_hp(kind), body });
    *next_id = *next_id + 1;
}

/// The spawn pick for the draws `region_roll` (which wild region) and
/// `kind_roll` (which entry of its spawn list): the region and the kind.
pub fn spawn_pick(wilds: &Vec<Region>, region_roll: usize, kind_roll: usize) -> (pick: (Region, u8))
    requires
        region_roll < wilds.len(),
        kind_roll < wilds[region_roll as int].spawns@.len(),
    ensures
        pick.0 == wilds[region_roll as int],
        pick.1 == wilds[region_roll as int].spawns@[kind_roll as int],
{
    let region = wilds[region_roll];
    let kind = region.spawns[kind_roll];
    (region, kind)
}

/// Picks where the spawner brings its next monster: a uniformly drawn wild
/// region, then a uniformly drawn entry of that region's spawn list
/// (repeats weigh more). `None` only if no region is wild.
pub fn choose_spawn(rng: &mut ThreadRng) -> (pick: Option<(Region, u8)>)
    ensures
        pick is None <==> wild_indices().len() == 0,
        pick matches Some((region, kind)) ==> exists|k: int|
            0 <= k < wild_indices().len() && is_region(region, #[trigger] wild_indices()[k])
                && region.spawns@.contains(kind),
{
    let wilds = wild_regions();
    if wilds.len() == 0 {
        return None;
    }
    let r = index_below(rng, wilds.len());
    proof {
        assert(is_region(wilds[r as int], wild_indices()[r as int]));
        lemma_wild_spawns_nonempty(r as int);
    }
    let k = index_below(rng, wilds[r].spawns.len());
    let pick = spawn_pick(&wilds, r, k);
    proof {
        assert(pick.0.spawns@[k as int] == pick.1);
    }
    Some(pick)
}

/// Every wild region has a non-empty spawn list.
pub proof fn lemma_wild_spawns_nonempty(k: int)
    requires
        0 <= k < wild_indices().len(),
    ensures
        crate::config::spec_region_spawns(wild_indices()[k]).len() > 0,
{
    let pred = |i: int| crate::config::spec_region_spawns(i).len() > 0;
    Seq::new(REGION_COUNT as nat, |i: int| i).lemma_filter_pred(pred, k);
}

/// Keeping some of the enemies keeps the roster valid: ids stay distinct
/// and below the counter, and the count does not grow; every kept enemy is
/// one of the originals.
pub proof fn lemma_filter_keeps_roster<B>(foes: Seq<Foe<B>>, keep: spec_fn(Foe<B>) -> bool, next_id: u32)
    requires
        ids_fresh(foes, next_id),
    ensures
        ids_fresh(foes.filter(keep), next_id),
        foes.filter(keep).len() <= foes.len(),
        forall|k: int|
            0 <= k < foes.filter(keep).len() ==> exists|j: int|
                0 <= j < foes.len() && foes[j] == #[trigger] foes.filter(keep)[k],
    decreases foes.len(),
{
    reveal(Seq::filter);
    if foes.len() > 0 {
        let rest = foes.drop_last();
        assert(ids_fresh(rest, next_id)) by {
            assert forall|i: int, j: int| 0 <= i < j < rest.len() implies #[trigger] rest[i].id
                != #[trigger] rest[j].id by {
                assert(rest[i] == foes[i] && rest[j] == foes[j]);
            }
        }
        lemma_filter_keeps_roster(rest, keep, next_id);
        let kept = rest.filter(keep);
        let last = foes.last();
        if keep(last) {
            let out = kept.push(last);
            assert(foes.filter(keep) == out);
            assert forall|k: int| 0 <= k < kept.len() implies #[trigger] kept[k].id != last.id by {
                let j = choose|j: int| 0 <= j < rest.len() && rest[j] == kept[k];
                assert(rest[j] == foes[j]);
                assert(foes[j].id != foes[foes.len() - 1].id);
            }
            assert forall|k: int|
                0 <= k < out.len() implies exists|j: int|
                    0 <= j < foes.len() && foes[j] == #[trigger] out[k] by {
                if k < kept.len() {
                    let j = choose|j: int| 0 <= j < rest.len() && rest[j] == kept[k];
                    assert(foes[j] == out[k]);
                } else {
                    assert(foes[foes.len() - 1] == out[k]);
                }
            }
            assert forall|i: int, j: int| 0 <= i < j < out.len() implies #[trigger] out[i].id
                != #[trigger] out[j].id by {
                if j == out.len() - 1 {
                    assert(out[i] == kept[i]);
                } else {
                    assert(out[i] == kept[i] && out[j] == kept[j]);
                }
            }
            assert forall|i: int| 0 <= i < out.len() implies #[trigger] out[i].id < next_id by {
                if i < kept.len() {
                    assert(out[i] == kept[i]);
                }
            }
        } else {
            assert(foes.filter(keep) == kept);
            assert forall|k: int|
                0 <= k < kept.len() implies exists|j: int|
                    0 <= j < foes.len() && foes[j] == #[trigger] kept[k] by {
                let j = choose|j: int| 0 <= j < rest.len() && rest[j] == kept[k];
                assert(foes[j] == kept[k]);
            }
        }
    }
}

} // verus!
