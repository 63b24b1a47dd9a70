//! Candidate filtering of the two selection workflows.
//!
//! A skin may be picked only when its id is in the eligibility set of
//! the active champion-select phase; a chroma only when it is owned.
//! The functions here compute those candidate lists exactly as the
//! workflows need them, and the lemmas state the filter invariants:
//! nothing ineligible and nothing unowned ever becomes a candidate.

use vstd::prelude::*;

verus! {

use crate::models::{ChampionsCollectionsChampionSkin, Chroma, Player};

/// A skin the eligibility filter admits: its id and display name.
#[derive(Clone, Debug)]
pub struct SkinChoice {
    pub id: i64,
    pub name: String,
}

/// A chroma the ownership filter admits: its id and, for the color
/// report after the commit, its first listed color.
#[derive(Clone, Debug)]
pub struct ChromaChoice {
    pub id: i64,
    pub first_color: Option<String>,
}

/// The skin candidates: inventory entries whose id the eligibility set
/// contains, in inventory order.
pub open spec fn spec_skin_candidates(
    inv: Seq<ChampionsCollectionsChampionSkin>,
    eligible: Seq<i64>,
) -> Seq<SkinChoice>
    decreases inv.len(),
{
    if inv.len() == 0 {
        Seq::empty()
    } else {
        let rest = spec_skin_candidates(inv.drop_last(), eligible);
        if eligible.contains(inv.last().id) {
            rest.push(SkinChoice { id: inv.last().id, name: inv.last().name })
        } else {
            rest
        }
    }
}

/// The first color of a chroma, when it lists any.
pub open spec fn spec_first_color(c: Chroma) -> Option<String> {
    if c.colors@.len() > 0 {
        Some(c.colors@[0])
    } else {
        None
    }
}

/// The owned entries of one chroma list, in order.
pub open spec fn spec_owned_chromas(chromas: Seq<Chroma>) -> Seq<ChromaChoice>
    decreases chromas.len(),
{
    if chromas.len() == 0 {
        Seq::empty()
    } else {
        let rest = spec_owned_chromas(chromas.drop_last());
        if chromas.last().ownership.owned {
            rest.push(
                ChromaChoice { id: chromas.last().id, first_color: spec_first_color(chromas.last()) },
            )
        } else {
            rest
        }
    }
}

/// Some entry of `chromas` has id `sel`.
pub open spec fn chromas_contain(chromas: Seq<Chroma>, sel: i64) -> bool {
    exists|j: int| 0 <= j < chromas.len() && (#[trigger] chromas[j]).id == sel
}

/// Owned chromas of the first skin whose chroma list contains `sel`
/// (the case where a chroma is currently selected).
pub open spec fn spec_primary_candidates(
    inv: Seq<ChampionsCollectionsChampionSkin>,
    sel: i64,
) -> Seq<ChromaChoice>
    decreases inv.len(),
{
    if inv.len() == 0 {
        Seq::empty()
    } else if chromas_contain(inv[0].chromas@, sel) {
        spec_owned_chromas(inv[0].chromas@)
    } else {
        spec_primary_candidates(inv.drop_first(), sel)
    }
}

/// Owned chromas of the first skin whose own id equals `sel`
/// (the fallback when no chroma is currently selected).
pub open spec fn spec_direct_candidates(
    inv: Seq<ChampionsCollectionsChampionSkin>,
    sel: i64,
) -> Seq<ChromaChoice>
    decreases inv.len(),
{
    if inv.len() == 0 {
        Seq::empty()
    } else if inv[0].id == sel {
        spec_owned_chromas(inv[0].chromas@)
    } else {
        spec_direct_candidates(inv.drop_first(), sel)
    }
}

/// The chroma candidates for selected id `sel`: the primary list when it
/// is nonempty, else the fallback list.
pub open spec fn spec_chroma_candidates(
    inv: Seq<ChampionsCollectionsChampionSkin>,
    sel: i64,
) -> Seq<ChromaChoice> {
    if spec_primary_candidates(inv, sel).len() > 0 {
        spec_primary_candidates(inv, sel)
    } else {
        spec_direct_candidates(inv, sel)
    }
}

/// The selection of the first roster seat held by summoner `sid`:
/// its `(selected_skin_id, champion_id)`, or `(0, 0)` when no seat matches.
pub open spec fn spec_roster_selection(team: Seq<Player>, sid: i64) -> (i64, i64)
    decreases team.len(),
{
    if team.len() == 0 {
        (0i64, 0i64)
    } else if team[0].summoner_id == sid {
        (team[0].selected_skin_id, team[0].champion_id)
    } else {
        spec_roster_selection(team.drop_first(), sid)
    }
}

/// Membership test on an id list.
pub fn contains_id(ids: &Vec<i64>, x: i64) -> (r: bool)
    ensures
        r == ids@.contains(x),
{
    let n = ids.len();
    let mut j: usize = 0;
    while j < n
        invariant
            n == ids@.len(),
            0 <= j <= n,
            forall|k: int| 0 <= k < j ==> ids@[k] != x,
        decreases n - j,
    {
        if ids[j] == x {
            return true;
        }
        j += 1;
    }
    false
}

/// Computes the skin candidate list for `inv` under `eligible`.
pub fn skin_candidates(inv: &Vec<ChampionsCollectionsChampionSkin>, eligible: &Vec<i64>) -> (c: Vec<
    SkinChoice,
>)
    ensures
        c@ == spec_skin_candidates(inv@, eligible@),
{
    let n = inv.len();
    let mut c: Vec<SkinChoice> = Vec::new();
    let mut i: usize = 0;
    proof {
        assert(inv@.subrange(0, 0) =~= Seq::<ChampionsCollectionsChampionSkin>::empty());
    }
    while i < n
        invariant
            n == inv@.len(),
            0 <= i <= n,
            c@ == spec_skin_candidates(inv@.subrange(0, i as int), eligible@),
        decreases n - i,
    {
        proof {
            let pre = inv@.subrange(0, i + 1);
            assert(pre.drop_last() =~= inv@.subrange(0, i as int));
            assert(pre.last() == inv@[i as int]);
        }
        if contains_id(eligible, inv[i].id) {
            let name = inv[i].name.clone();
            c.push(SkinChoice { id: inv[i].id, name });
        }
        i += 1;
    }
    proof {
        assert(inv@.subrange(0, n as int) =~= inv@);
    }
    c
}

/// Computes the owned entries of one chroma list.
fn owned_chromas(chromas: &Vec<Chroma>) -> (c: Vec<ChromaChoice>)
    ensures
        c@ == spec_owned_chromas(chromas@),
{
    let n = chromas.len();
    let mut c: Vec<ChromaChoice> = Vec::new();
    let mut i: usize = 0;
    proof {
        assert(chromas@.subrange(0, 0) =~= Seq::<Chroma>::empty());
    }
    while i < n
        invariant
            n == chromas@.len(),
            0 <= i <= n,
            c@ == spec_owned_chromas(chromas@.subrange(0, i as int)),
        decreases n - i,
    {
        proof {
            let pre = chromas@.subrange(0, i + 1);
            assert(pre.drop_last() =~= chromas@.subrange(0, i as int));
            assert(pre.last() == chromas@[i as int]);
        }
        if chromas[i].ownership.owned {
            let first_color = if chromas[i].colors.len() > 0 {
                Some(chromas[i].colors[0].clone())
            } else {
                None
            };
            c.push(ChromaChoice { id: chromas[i].id, first_color });
        }
        i += 1;
    }
    proof {
        assert(chromas@.subrange(0, n as int) =~= chromas@);
    }
    c
}

/// Whether some entry of `chromas` has id `sel`.
fn chromas_have_id(chromas: &Vec<Chroma>, sel: i64) -> (r: bool)
    ensures
        r == chromas_contain(chromas@, sel),
{
    let n = chromas.len();
    let mut j: usize = 0;
    while j < n
        invariant
            n == chromas@.len(),
            0 <= j <= n,
            forall|k: int| 0 <= k < j ==> (#[trigger] chromas@[k]).id != sel,
        decreases n - j,
    {
        if chromas[j].id == sel {
            return true;
        }
        j += 1;
    }
    false
}

/// Computes the chroma candidate list for `inv` under selected id `sel`.
pub fn chroma_candidates(inv: &Vec<ChampionsCollectionsChampionSkin>, sel: i64) -> (c: Vec<
    ChromaChoice,
>)
    ensures
        c@ == spec_chroma_candidates(inv@, sel),
{
    let n = inv.len();
    let mut primary: Vec<ChromaChoice> = Vec::new();
    let mut i: usize = 0;
    let mut found = false;
    proof {
        assert(inv@.subrange(0, n as int) =~= inv@);
    }
    while i < n && !found
        invariant
            n == inv@.len(),
            0 <= i <= n,
            !found ==> primary@.len() == 0 && spec_primary_candidates(inv@, sel)
                == spec_primary_candidates(inv@.subrange(i as int, n as int), sel),
            found ==> i <= n && primary@ == spec_primary_candidates(inv@, sel),
        decreases n - i + (if found { 0int } else { 1int }),
    {
        proof {
            let cur = inv@.subrange(i as int, n as int);
            assert(cur[0] == inv@[i as int]);
            assert(cur.drop_first() =~= inv@.subrange(i + 1, n as int));
        }
        if chromas_have_id(&inv[i].chromas, sel) {
            primary = owned_chromas(&inv[i].chromas);
            found = true;
        } else {
            i += 1;
        }
    }
    proof {
        if !found {
            assert(inv@.subrange(i as int, n as int).len() == 0);
        }
    }
    if primary.len() > 0 {
        return primary;
    }
    let mut j: usize = 0;
    proof {
        assert(inv@.subrange(0, n as int) =~= inv@);
    }
    while j < n
        invariant
            n == inv@.len(),
            0 <= j <= n,
            spec_primary_candidates(inv@, sel).len() == 0,
            spec_direct_candidates(inv@, sel) == spec_direct_candidates(
                inv@.subrange(j as int, n as int),
                sel,
            ),
        decreases n - j,
    {
        proof {
            let cur = inv@.subrange(j as int, n as int);
            assert(cur[0] == inv@[j as int]);
            assert(cur.drop_first() =~= inv@.subrange(j + 1, n as int));
        }
        if inv[j].id == sel {
            let direct = owned_chromas(&inv[j].chromas);
            return direct;
        }
        j += 1;
    }
    proof {
        assert(inv@.subrange(j as int, n as int).len() == 0);
    }
    Vec::new()
}

/// Finds the caller's roster seat and reads its selection.
pub fn roster_selection(team: &Vec<Player>, sid: i64) -> (r: (i64, i64))
    ensures
        r == spec_roster_selection(team@, sid),
{
    let n = team.len();
    let mut i: usize = 0;
    proof {
        assert(team@.subrange(0, n as int) =~= team@);
    }
    while i < n
        invariant
            n == team@.len(),
            0 <= i <= n,
            spec_roster_selection(team@, sid) == spec_roster_selection(
                team@.subrange(i as int, n as int),
                sid,
            ),
        decreases n - i,
    {
        proof {
            let cur = team@.subrange(i as int, n as int);
            assert(cur[0] == team@[i as int]);
            assert(cur.drop_first() =~= team@.subrange(i + 1, n as int));
        }
        if team[i].summoner_id == sid {
            return (team[i].selected_skin_id, team[i].champion_id);
        }
        i += 1;
    }
    (0, 0)
}

/// Law: the eligibility filter is sound — every skin candidate's id is
/// in the eligibility set, and the candidate repeats the id and name of
/// some inventory entry.
pub proof fn lemma_skin_candidates_sound(
    inv: Seq<ChampionsCollectionsChampionSkin>,
    eligible: Seq<i64>,
    k: int,
)
    requires
        0 <= k < spec_skin_candidates(inv, eligible).len(),
    ensures
        eligible.contains(spec_skin_candidates(inv, eligible)[k].id),
        exists|j: int|
            0 <= j < inv.len() && (#[trigger] inv[j]).id == spec_skin_candidates(inv, eligible)[k].id
                && inv[j].name == spec_skin_candidates(inv, eligible)[k].name,
    decreases inv.len(),
{
    let cands = spec_skin_candidates(inv, eligible);
    let rest = spec_skin_candidates(inv.drop_last(), eligible);
    if k < rest.len() {
        lemma_skin_candidates_sound(inv.drop_last(), eligible, k);
        let j = choose|j: int|
            0 <= j < inv.drop_last().len() && (#[trigger] inv.drop_last()[j]).id == rest[k].id
                && inv.drop_last()[j].name == rest[k].name;
        assert(inv[j].id == cands[k].id && inv[j].name == cands[k].name);
    } else {
        assert(inv[inv.len() - 1].id == cands[k].id && inv[inv.len() - 1].name == cands[k].name);
    }
}

/// Law: the eligibility filter is complete — every inventory entry whose
/// id the eligibility set contains appears among the skin candidates.
pub proof fn lemma_skin_candidates_complete(
    inv: Seq<ChampionsCollectionsChampionSkin>,
    eligible: Seq<i64>,
    j: int,
)
    requires
        0 <= j < inv.len(),
        eligible.contains(inv[j].id),
    ensures
        exists|k: int|
            0 <= k < spec_skin_candidates(inv, eligible).len() && (#[trigger] spec_skin_candidates(
                inv,
                eligible,
            )[k]).id == inv[j].id && spec_skin_candidates(inv, eligible)[k].name == inv[j].name,
    decreases inv.len(),
{
    let cands = spec_skin_candidates(inv, eligible);
    let rest = spec_skin_candidates(inv.drop_last(), eligible);
    if j < inv.len() - 1 {
        lemma_skin_candidates_complete(inv.drop_last(), eligible, j);
        let k = choose|k: int|
            0 <= k < rest.len() && (#[trigger] rest[k]).id == inv.drop_last()[j].id
                && rest[k].name == inv.drop_last()[j].name;
        assert(cands[k].id == inv[j].id && cands[k].name == inv[j].name);
    } else {
        assert(cands[cands.len() - 1].id == inv[j].id && cands[cands.len() - 1].name
            == inv[j].name);
    }
}

/// Law: the ownership filter is sound — every entry of an owned-chroma
/// list is an owned chroma of that list.
pub proof fn lemma_owned_chromas_sound(chromas: Seq<Chroma>, k: int)
    requires
        0 <= k < spec_owned_chromas(chromas).len(),
    ensures
        exists|j: int|
            0 <= j < chromas.len() && (#[trigger] chromas[j]).id == spec_owned_chromas(chromas)[k].id
                && chromas[j].ownership.owned,
    decreases chromas.len(),
{
    let cands = spec_owned_chromas(chromas);
    let rest = spec_owned_chromas(chromas.drop_last());
    if k < rest.len() {
        lemma_owned_chromas_sound(chromas.drop_last(), k);
        let j = choose|j: int|
            0 <= j < chromas.drop_last().len() && (#[trigger] chromas.drop_last()[j]).id
                == rest[k].id && chromas.drop_last()[j].ownership.owned;
        assert(chromas[j].id == cands[k].id && chromas[j].ownership.owned);
    } else {
        assert(chromas[chromas.len() - 1].id == cands[k].id && chromas[chromas.len()
            - 1].ownership.owned);
    }
}

/// Law: the ownership filter is sound for the assembled chroma candidate
/// list — every candidate is an owned chroma of some inventory skin.
pub proof fn lemma_chroma_candidates_owned(
    inv: Seq<ChampionsCollectionsChampionSkin>,
    sel: i64,
    k: int,
)
    requires
        0 <= k < spec_chroma_candidates(inv, sel).len(),
    ensures
        exists|i: int, j: int|
            0 <= i < inv.len() && 0 <= j < (#[trigger] inv[i]).chromas@.len()
                && (#[trigger] inv[i].chromas@[j]).id == spec_chroma_candidates(inv, sel)[k].id
                && inv[i].chromas@[j].ownership.owned,
{
    if spec_primary_candidates(inv, sel).len() > 0 {
        lemma_from_primary(inv, sel, k);
    } else {
        lemma_from_direct(inv, sel, k);
    }
}

proof fn lemma_from_primary(inv: Seq<ChampionsCollectionsChampionSkin>, sel: i64, k: int)
    requires
        spec_primary_candidates(inv, sel).len() > 0,
        0 <= k < spec_primary_candidates(inv, sel).len(),
    ensures
        exists|i: int, j: int|
            0 <= i < inv.len() && 0 <= j < (#[trigger] inv[i]).chromas@.len()
                && (#[trigger] inv[i].chromas@[j]).id == spec_primary_candidates(inv, sel)[k].id
                && inv[i].chromas@[j].ownership.owned,
    decreases inv.len(),
{
    if chromas_contain(inv[0].chromas@, sel) {
        lemma_owned_chromas_sound(inv[0].chromas@, k);
        let j = choose|j: int|
            0 <= j < inv[0].chromas@.len() && (#[trigger] inv[0].chromas@[j]).id
                == spec_owned_chromas(inv[0].chromas@)[k].id && inv[0].chromas@[j].ownership.owned;
        assert(0 <= 0 < inv.len() && 0 <= j < inv[0].chromas@.len() && inv[0].chromas@[j].id
            == spec_primary_candidates(inv, sel)[k].id && inv[0].chromas@[j].ownership.owned);
    } else {
        lemma_from_primary(inv.drop_first(), sel, k);
        let (i, j) = choose|i: int, j: int|
            0 <= i < inv.drop_first().len() && 0 <= j < (#[trigger] inv.drop_first()[i]).chromas@.len()
                && (#[trigger] inv.drop_first()[i].chromas@[j]).id == spec_primary_candidates(
                inv.drop_first(),
                sel,
            )[k].id && inv.drop_first()[i].chromas@[j].ownership.owned;
        assert(inv[i + 1].chromas@[j].id == spec_primary_candidates(inv, sel)[k].id && inv[i
            + 1].chromas@[j].ownership.owned);
    }
}

proof fn lemma_from_direct(inv: Seq<ChampionsCollectionsChampionSkin>, sel: i64, k: int)
    requires
        0 <= k < spec_direct_candidates(inv, sel).len(),
    ensures
        exists|i: int, j: int|
            0 <= i < inv.len() && 0 <= j < (#[trigger] inv[i]).chromas@.len()
                && (#[trigger] inv[i].chromas@[j]).id == spec_direct_candidates(inv, sel)[k].id
                && inv[i].chromas@[j].ownership.owned,
    decreases inv.len(),
{
    if inv.len() == 0 {
    } else if inv[0].id == sel {
        lemma_owned_chromas_sound(inv[0].chromas@, k);
        let j = choose|j: int|
            0 <= j < inv[0].chromas@.len() && (#[trigger] inv[0].chromas@[j]).id
                == spec_owned_chromas(inv[0].chromas@)[k].id && inv[0].chromas@[j].ownership.owned;
        assert(0 <= 0 < inv.len() && 0 <= j < inv[0].chromas@.len() && inv[0].chromas@[j].id
            == spec_direct_candidates(inv, sel)[k].id && inv[0].chromas@[j].ownership.owned);
    } else {
        lemma_from_direct(inv.drop_first(), sel, k);
        let (i, j) = choose|i: int, j: int|
            0 <= i < inv.drop_first().len() && 0 <= j < (#[trigger] inv.drop_first()[i]).chromas@.len()
                && (#[trigger] inv.drop_first()[i].chromas@[j]).id == spec_direct_candidates(
                inv.drop_first(),
                sel,
            )[k].id && inv.drop_first()[i].chromas@[j].ownership.owned;
        assert(inv[i + 1].chromas@[j].id == spec_direct_candidates(inv, sel)[k].id && inv[i
            + 1].chromas@[j].ownership.owned);
    }
}

} // verus!
