//! The rules that pick the motives and agendas worth a slot search.

use vstd::prelude::*;
use crate::model::{Agenda, Place, VisitMotive};
use crate::text::{contains, contains_seq};

verus! {

/// The wording by which the platform names a first injection.
pub const FIRST_DOSE_MARKER: &'static str = "1re injection";

/// The brand whose motives are left out.
pub const EXCLUDED_BRAND: &'static str = "AstraZeneca";

/// A motive is eligible when its name holds `marker` and does not hold
/// `excluded`; where both occur the exclusion wins.
pub open spec fn motive_is_eligible(m: VisitMotive, marker: Seq<char>, excluded: Seq<char>) -> bool {
    contains_seq(m.name@, marker) && !contains_seq(m.name@, excluded)
}

/// The eligibility rule as a predicate on motives.
pub open spec fn motive_rule(marker: Seq<char>, excluded: Seq<char>) -> spec_fn(VisitMotive) -> bool {
    |m: VisitMotive| motive_is_eligible(m, marker, excluded)
}

/// The eligible motives of `motives`, in their order.
pub open spec fn eligible_motives(
    motives: Seq<VisitMotive>,
    marker: Seq<char>,
    excluded: Seq<char>,
) -> Seq<VisitMotive> {
    motives.filter(motive_rule(marker, excluded))
}

/// Whatever the motives are, each one that the selection keeps is one of
/// them, holds `marker` in its name and does not hold `excluded`: a name
/// with both is never kept. The selection of no motives is empty.
pub proof fn lemma_eligible_motives_only(
    motives: Seq<VisitMotive>,
    marker: Seq<char>,
    excluded: Seq<char>,
)
    ensures
        eligible_motives(motives, marker, excluded).len() <= motives.len(),
        forall|i: int|
            0 <= i < eligible_motives(motives, marker, excluded).len() ==> {
                let m = #[trigger] eligible_motives(motives, marker, excluded)[i];
                &&& motives.contains(m)
                &&& contains_seq(m.name@, marker)
                &&& !contains_seq(m.name@, excluded)
            },
{
    let rule = motive_rule(marker, excluded);
    let kept = motives.filter(rule);
    motives.lemma_filter_len(rule);
    assert forall|i: int| 0 <= i < kept.len() implies {
        let m = #[trigger] kept[i];
        &&& motives.contains(m)
        &&& contains_seq(m.name@, marker)
        &&& !contains_seq(m.name@, excluded)
    } by {
        motives.lemma_filter_pred(rule, i);
        assert(kept.contains(kept[i]));
        motives.lemma_filter_contains_rev(rule, kept[i]);
    }
}

/// The motives that a sequence of borrowed motives refers to.
pub open spec fn motives_of(refs: Seq<&VisitMotive>) -> Seq<VisitMotive> {
    refs.map_values(|m: &VisitMotive| *m)
}

/// Keeps the motives whose name holds `marker` and not `excluded`.
pub fn select_motives<'a>(motives: &'a Vec<VisitMotive>, marker: &str, excluded: &str) -> (out: Vec<
    &'a VisitMotive,
>)
    ensures
        motives_of(out@) == eligible_motives(motives@, marker@, excluded@),
        forall|i: int|
            0 <= i < out@.len() ==> motive_is_eligible(*#[trigger] out@[i], marker@, excluded@),
{
    let mut out: Vec<&'a VisitMotive> = Vec::new();
    let n: usize = motives.len();
    let mut i: usize = 0;
    proof {
        reveal(Seq::filter);
        assert(motives@.subrange(0, 0) =~= Seq::<VisitMotive>::empty());
        assert(motives_of(out@) =~= Seq::<VisitMotive>::empty());
    }
    while i < n
        invariant
            n == motives@.len(),
            i <= n,
            motives_of(out@) == motives@.subrange(0, i as int).filter(
                motive_rule(marker@, excluded@),
            ),
        decreases n - i,
    {
        let m = &motives[i];
        let keep = contains(m.name.as_str(), marker) && !contains(m.name.as_str(), excluded);
        proof {
            let seen = motives@.subrange(0, i as int);
            assert(motives@.subrange(0, i + 1) =~= seen.push(motives@[i as int]));
            seen.lemma_filter_push(motives@[i as int], motive_rule(marker@, excluded@));
            assert(motives_of(out@.push(m)) =~= motives_of(out@).push(*m));
        }
        if keep {
            out.push(m);
        }
        i += 1;
    }
    proof {
        assert(motives@.subrange(0, n as int) =~= motives@);
        lemma_eligible_motives_only(motives@, marker@, excluded@);
        assert forall|i: int| 0 <= i < out@.len() implies motive_is_eligible(
            *#[trigger] out@[i],
            marker@,
            excluded@,
        ) by {
            assert(motives_of(out@)[i] == *out@[i]);
        }
    }
    out
}

/// Keeps the motives of a first injection that are not of the excluded brand.
pub fn select_eligible_motives<'a>(motives: &'a Vec<VisitMotive>) -> (out: Vec<&'a VisitMotive>)
    ensures
        motives_of(out@) == eligible_motives(motives@, FIRST_DOSE_MARKER@, EXCLUDED_BRAND@),
        forall|i: int|
            0 <= i < out@.len() ==> motive_is_eligible(
                *#[trigger] out@[i],
                FIRST_DOSE_MARKER@,
                EXCLUDED_BRAND@,
            ),
{
    select_motives(motives, FIRST_DOSE_MARKER, EXCLUDED_BRAND)
}

/// The ids of `motives`, in their order.
pub open spec fn motive_id_seq(motives: Seq<VisitMotive>) -> Seq<u32> {
    motives.map_values(|m: VisitMotive| m.id)
}

/// Collects the ids of the given motives, in their order.
pub fn motive_ids(motives: &Vec<&VisitMotive>) -> (out: Vec<u32>)
    ensures
        out@ == motive_id_seq(motives_of(motives@)),
{
    let mut out: Vec<u32> = Vec::new();
    let n: usize = motives.len();
    let mut i: usize = 0;
    while i < n
        invariant
            n == motives@.len(),
            i <= n,
            out@.len() == i,
            forall|k: int| 0 <= k < i ==> out@[k] == motives@[k].id,
        decreases n - i,
    {
        out.push(motives[i].id);
        i += 1;
    }
    proof {
        assert(out@ =~= motive_id_seq(motives_of(motives@)));
    }
    out
}

/// Tests whether `id` is among `ids`.
pub fn contains_id(ids: &Vec<u32>, id: u32) -> (found: bool)
    ensures
        found == ids@.contains(id),
{
    let n: usize = ids.len();
    let mut i: usize = 0;
    while i < n
        invariant
            n == ids@.len(),
            i <= n,
            forall|k: int| 0 <= k < i ==> ids@[k] != id,
        decreases n - i,
    {
        if ids[i] == id {
            return true;
        }
        i += 1;
    }
    false
}

/// Two lists of ids share an id.
pub open spec fn shares_id(a: Seq<u32>, b: Seq<u32>) -> bool {
    exists|id: u32| a.contains(id) && b.contains(id)
}

/// Tests whether some id occurs in both lists.
pub fn have_common_id(a: &Vec<u32>, b: &Vec<u32>) -> (found: bool)
    ensures
        found == shares_id(a@, b@),
{
    let n: usize = a.len();
    let mut i: usize = 0;
    while i < n
        invariant
            n == a@.len(),
            i <= n,
            forall|k: int| 0 <= k < i ==> !b@.contains(a@[k]),
        decreases n - i,
    {
        if contains_id(b, a[i]) {
            proof {
                assert(a@.contains(a@[i as int]));
            }
            return true;
        }
        i += 1;
    }
    false
}

/// An agenda is eligible for a practice when it belongs to that practice, its
/// booking is not disabled and it accepts at least one of the given motives.
pub open spec fn agenda_is_eligible(a: Agenda, practice_id: u32, motive_ids: Seq<u32>) -> bool {
    &&& a.practice_id == practice_id
    &&& !a.booking_disabled
    &&& shares_id(a.visit_motive_ids@, motive_ids)
}

/// The eligibility rule as a predicate on agendas.
pub open spec fn agenda_rule(practice_id: u32, motive_ids: Seq<u32>) -> spec_fn(Agenda) -> bool {
    |a: Agenda| agenda_is_eligible(a, practice_id, motive_ids)
}

/// The eligible agendas of `agendas`, in their order.
pub open spec fn eligible_agendas(agendas: Seq<Agenda>, practice_id: u32, motive_ids: Seq<u32>) -> Seq<
    Agenda,
> {
    agendas.filter(agenda_rule(practice_id, motive_ids))
}

/// Whatever the agendas are, each one that the selection keeps is one of
/// them, belongs to `practice_id`, can be booked and accepts one of
/// `motive_ids`. With no motive ids the selection is empty.
pub proof fn lemma_eligible_agendas_only(agendas: Seq<Agenda>, practice_id: u32, motive_ids: Seq<u32>)
    ensures
        eligible_agendas(agendas, practice_id, motive_ids).len() <= agendas.len(),
        forall|i: int|
            0 <= i < eligible_agendas(agendas, practice_id, motive_ids).len() ==> {
                let a = #[trigger] eligible_agendas(agendas, practice_id, motive_ids)[i];
                &&& agendas.contains(a)
                &&& a.practice_id == practice_id
                &&& !a.booking_disabled
                &&& shares_id(a.visit_motive_ids@, motive_ids)
            },
        motive_ids.len() == 0 ==> eligible_agendas(agendas, practice_id, motive_ids).len() == 0,
{
    let rule = agenda_rule(practice_id, motive_ids);
    let kept = agendas.filter(rule);
    agendas.lemma_filter_len(rule);
    assert forall|i: int| 0 <= i < kept.len() implies {
        let a = #[trigger] kept[i];
        &&& agendas.contains(a)
        &&& a.practice_id == practice_id
        &&& !a.booking_disabled
        &&& shares_id(a.visit_motive_ids@, motive_ids)
    } by {
        agendas.lemma_filter_pred(rule, i);
        assert(kept.contains(kept[i]));
        agendas.lemma_filter_contains_rev(rule, kept[i]);
    }
    if motive_ids.len() == 0 && kept.len() > 0 {
        agendas.lemma_filter_pred(rule, 0);
        let id = choose|id: u32| kept[0].visit_motive_ids@.contains(id) && motive_ids.contains(id);
        assert(motive_ids.contains(id));
    }
}

/// The agendas that a sequence of borrowed agendas refers to.
pub open spec fn agendas_of(refs: Seq<&Agenda>) -> Seq<Agenda> {
    refs.map_values(|a: &Agenda| *a)
}

/// Keeps the agendas of `practice_id` that can be booked and that accept one
/// of `eligible_motive_ids`.
pub fn select_eligible_agendas<'a>(
    agendas: &'a Vec<Agenda>,
    practice_id: u32,
    eligible_motive_ids: &Vec<u32>,
) -> (out: Vec<&'a Agenda>)
    ensures
        agendas_of(out@) == eligible_agendas(agendas@, practice_id, eligible_motive_ids@),
        forall|i: int|
            0 <= i < out@.len() ==> agenda_is_eligible(
                *#[trigger] out@[i],
                practice_id,
                eligible_motive_ids@,
            ),
        eligible_motive_ids@.len() == 0 ==> out@.len() == 0,
{
    let mut out: Vec<&'a Agenda> = Vec::new();
    let n: usize = agendas.len();
    let mut i: usize = 0;
    proof {
        reveal(Seq::filter);
        assert(agendas@.subrange(0, 0) =~= Seq::<Agenda>::empty());
        assert(agendas_of(out@) =~= Seq::<Agenda>::empty());
    }
    while i < n
        invariant
            n == agendas@.len(),
            i <= n,
            agendas_of(out@) == agendas@.subrange(0, i as int).filter(
                agenda_rule(practice_id, eligible_motive_ids@),
            ),
        decreases n - i,
    {
        let a = &agendas[i];
        let keep = a.practice_id == practice_id && !a.booking_disabled && have_common_id(
            &a.visit_motive_ids,
            eligible_motive_ids,
        );
        proof {
            let seen = agendas@.subrange(0, i as int);
            assert(agendas@.subrange(0, i + 1) =~= seen.push(agendas@[i as int]));
            seen.lemma_filter_push(agendas@[i as int], agenda_rule(practice_id, eligible_motive_ids@));
            assert(agendas_of(out@.push(a)) =~= agendas_of(out@).push(*a));
        }
        if keep {
            out.push(a);
        }
        i += 1;
    }
    proof {
        assert(agendas@.subrange(0, n as int) =~= agendas@);
        lemma_eligible_agendas_only(agendas@, practice_id, eligible_motive_ids@);
        assert forall|i: int| 0 <= i < out@.len() implies agenda_is_eligible(
            *#[trigger] out@[i],
            practice_id,
            eligible_motive_ids@,
        ) by {
            assert(agendas_of(out@)[i] == *out@[i]);
        }
    }
    out
}

/// The ids of `agendas`, in their order.
pub open spec fn agenda_id_seq(agendas: Seq<Agenda>) -> Seq<u32> {
    agendas.map_values(|a: Agenda| a.id)
}

/// Collects the ids of the given agendas, in their order.
pub fn agenda_ids(agendas: &Vec<&Agenda>) -> (out: Vec<u32>)
    ensures
        out@ == agenda_id_seq(agendas_of(agendas@)),
{
    let mut out: Vec<u32> = Vec::new();
    let n: usize = agendas.len();
    let mut i: usize = 0;
    while i < n
        invariant
            n == agendas@.len(),
            i <= n,
            out@.len() == i,
            forall|k: int| 0 <= k < i ==> out@[k] == agendas@[k].id,
        decreases n - i,
    {
        out.push(agendas[i].id);
        i += 1;
    }
    proof {
        assert(out@ =~= agenda_id_seq(agendas_of(agendas@)));
    }
    out
}

/// The practice that stands for a place: the first of its practices, or 0
/// for a place that lists none.
pub open spec fn primary_practice(practice_ids: Seq<u32>) -> u32 {
    if practice_ids.len() > 0 {
        practice_ids[0]
    } else {
        0
    }
}

/// The practice by which the agendas of `place` are looked up.
pub fn primary_practice_id(place: &Place) -> (id: u32)
    ensures
        id == primary_practice(place.practice_ids@),
{
    if place.practice_ids.len() > 0 {
        place.practice_ids[0]
    } else {
        0
    }
}

} // verus!
