//! Cycling through the points of interest, one step per event and one per
//! tick of the cycle timer.

use vstd::prelude::*;

use crate::components::PointOfInterest;
use crate::events::CyclePOIEvent;

verus! {

/// The first active point of interest at index `from` or later.
pub open spec fn first_active_from(pois: Seq<PointOfInterest>, from: int) -> Option<int>
    decreases pois.len() - from,
{
    if from < 0 || from >= pois.len() {
        None
    } else if pois[from].active {
        Some(from)
    } else {
        first_active_from(pois, from + 1)
    }
}

/// One step: the first active point of interest becomes inactive and the one
/// after it, wrapping around, becomes active. With none active nothing
/// changes.
pub open spec fn cycle_step(pois: Seq<PointOfInterest>) -> Seq<PointOfInterest> {
    match first_active_from(pois, 0) {
        Some(i) => pois.update(i, PointOfInterest { active: false }).update(
            (i + 1) % (pois.len() as int),
            PointOfInterest { active: true },
        ),
        None => pois,
    }
}

pub open spec fn cycle_steps(pois: Seq<PointOfInterest>, n: nat) -> Seq<PointOfInterest>
    decreases n,
{
    if n == 0 {
        pois
    } else {
        cycle_step(cycle_steps(pois, (n - 1) as nat))
    }
}

/// Exactly the point of interest at index `i` is active.
pub open spec fn only_active(pois: Seq<PointOfInterest>, i: int) -> bool {
    &&& 0 <= i < pois.len()
    &&& forall|j: int| 0 <= j < pois.len() ==> (#[trigger] pois[j]).active == (j == i)
}

proof fn lemma_first_active_from(pois: Seq<PointOfInterest>, from: int)
    requires
        0 <= from,
    ensures
        match first_active_from(pois, from) {
            Some(i) => from <= i < pois.len() && pois[i].active && forall|j: int|
                from <= j < i ==> !(#[trigger] pois[j]).active,
            None => forall|j: int| from <= j < pois.len() ==> !(#[trigger] pois[j]).active,
        },
    decreases pois.len() - from,
{
    if from < pois.len() && !pois[from].active {
        lemma_first_active_from(pois, from + 1);
    }
}

/// One step of the cycle.
fn advance_point_of_interest(poi_query: &mut Vec<PointOfInterest>)
    ensures
        final(poi_query)@ == cycle_step(old(poi_query)@),
{
    let n = poi_query.len();
    let mut i: usize = 0;
    let mut active_idx: Option<usize> = None;
    while i < n
        invariant_except_break
            n == poi_query.len(),
            0 <= i <= n,
            active_idx is None,
            first_active_from(poi_query@, 0) == first_active_from(poi_query@, i as int),
        ensures
            n == poi_query.len(),
            match active_idx {
                Some(a) => first_active_from(poi_query@, 0) == Some(a as int) && a < n,
                None => first_active_from(poi_query@, 0) is None,
            },
        decreases n - i,
    {
        if poi_query[i].active {
            active_idx = Some(i);
            break;
        }
        i = i + 1;
    }
    if let Some(active_idx) = active_idx {
        poi_query.set(active_idx, PointOfInterest { active: false });
        let next_idx = (active_idx + 1) % n;
        poi_query.set(next_idx, PointOfInterest { active: true });
    }
}

/// Moves on as many steps as there are events, and one more when the cycle
/// timer has just finished.
pub fn cycle_point_of_interest(
    my_events: &Vec<CyclePOIEvent>,
    cycle_timer_finished: bool,
    poi_query: &mut Vec<PointOfInterest>,
)
    ensures
        final(poi_query)@ == cycle_steps(
            old(poi_query)@,
            (my_events.len() + if cycle_timer_finished {
                1int
            } else {
                0int
            }) as nat,
        ),
{
    let ghost start = poi_query@;
    let n = my_events.len();
    let mut k: usize = 0;
    while k < n
        invariant
            n == my_events.len(),
            0 <= k <= n,
            poi_query@ == cycle_steps(start, k as nat),
        decreases n - k,
    {
        advance_point_of_interest(poi_query);
        k = k + 1;
    }
    if cycle_timer_finished {
        advance_point_of_interest(poi_query);
    }
}

/// With exactly one point of interest active, a step makes exactly the next
/// one, wrapping around, active.
pub proof fn lemma_cycle_moves_the_active_one(pois: Seq<PointOfInterest>, i: int)
    requires
        only_active(pois, i),
    ensures
        cycle_step(pois).len() == pois.len(),
        only_active(cycle_step(pois), (i + 1) % (pois.len() as int)),
{
    lemma_first_active_from(pois, 0);
    assert(pois[i].active);
    let f = first_active_from(pois, 0);
    assert(f == Some(i)) by {
        if f != Some(i) {
            match f {
                Some(g) => {
                    assert(pois[g].active);
                },
                None => {},
            }
        }
    }
}

/// With exactly one point of interest active, `n` steps make the one `n`
/// places further, wrapping around, the only active one.
pub proof fn lemma_cycle_steps_move_the_active_one(pois: Seq<PointOfInterest>, i: int, n: nat)
    requires
        only_active(pois, i),
    ensures
        cycle_steps(pois, n).len() == pois.len(),
        only_active(cycle_steps(pois, n), (i + n) % (pois.len() as int)),
    decreases n,
{
    let m = pois.len() as int;
    if n == 0 {
        vstd::arithmetic::div_mod::lemma_small_mod(i as nat, m as nat);
    } else {
        lemma_cycle_steps_move_the_active_one(pois, i, (n - 1) as nat);
        let prev = cycle_steps(pois, (n - 1) as nat);
        lemma_cycle_moves_the_active_one(prev, (i + n - 1) % m);
        vstd::arithmetic::div_mod::lemma_add_mod_noop(i + n - 1, 1, m);
        vstd::arithmetic::div_mod::lemma_mod_twice(i + n - 1, m);
        if m > 1 {
            vstd::arithmetic::div_mod::lemma_small_mod(1, m as nat);
        }
    }
}

/// With exactly one point of interest active, a full round of steps gives the
/// points of interest back unchanged.
pub proof fn lemma_cycle_full_round(pois: Seq<PointOfInterest>, i: int)
    requires
        only_active(pois, i),
    ensures
        cycle_steps(pois, pois.len()) == pois,
{
    let m = pois.len() as int;
    lemma_cycle_steps_move_the_active_one(pois, i, pois.len());
    vstd::arithmetic::div_mod::lemma_add_mod_noop(i, m, m);
    vstd::arithmetic::div_mod::lemma_mod_self_0(m);
    vstd::arithmetic::div_mod::lemma_small_mod(i as nat, m as nat);
    let r = cycle_steps(pois, pois.len());
    assert forall|j: int| 0 <= j < m implies r[j] == pois[j] by {
        assert(r[j].active == pois[j].active);
    }
    assert(r =~= pois);
}

} // verus!
