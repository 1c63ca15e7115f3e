//! The markers drawn where a shape touches a wall.

use vstd::prelude::*;

verus! {

/// A marker at one point of contact between a wall and another body. Two
/// markers are the same where wall, body and number agree.
#[derive(PartialEq, Eq, Structural, Clone, Copy, Debug, Hash)]
pub struct CollisionMarker {
    /// The wall.
    pub wall_entity: u64,
    /// The body that touches it.
    pub other_entity: u64,
    /// The number of the point among the points of contact of the two.
    pub index: usize,
}

/// What to do for one point of contact.
#[derive(PartialEq, Eq, Structural, Clone, Copy, Debug)]
pub enum MarkerStep {
    /// Move the marker at this place among the drawn ones to the point.
    Update { place: usize },
    /// Draw a new marker at the point.
    Spawn,
}

/// What to do with the markers in a frame.
pub struct MarkerPlan {
    /// For each point of contact, in order, what to do for it.
    pub steps: Vec<MarkerStep>,
    /// The places of the drawn markers to take away, ascending.
    pub despawn: Vec<usize>,
}

/// Whether the marker at place `i` is the last of its kind among `drawn`:
/// where the same marker is drawn twice, only the last one counts.
pub open spec fn counts(drawn: Seq<CollisionMarker>, i: int) -> bool {
    &&& 0 <= i < drawn.len()
    &&& forall|j: int| i < j < drawn.len() ==> #[trigger] drawn[j] != drawn[i]
}

/// What to do for the point of contact at place `k`: a point whose marker
/// is drawn, and was not claimed by an earlier point, moves that marker;
/// any other gets a new one.
pub open spec fn step_for(drawn: Seq<CollisionMarker>, contacts: Seq<CollisionMarker>, k: int, step: MarkerStep) -> bool {
    if drawn.contains(contacts[k]) && !contacts.take(k).contains(contacts[k]) {
        step matches MarkerStep::Update { place } && counts(drawn, place as int) && drawn[place as int]
            == contacts[k]
    } else {
        step == MarkerStep::Spawn
    }
}

/// Whether the drawn marker at place `i` has to go: it counts, and no point
/// of contact claims it.
pub open spec fn stale(drawn: Seq<CollisionMarker>, contacts: Seq<CollisionMarker>) -> spec_fn(int) -> bool {
    |i: int| counts(drawn, i) && !contacts.contains(drawn[i])
}

/// The places from 0 up to `n`, `n` left out.
pub open spec fn places(n: nat) -> Seq<int> {
    Seq::new(n, |i: int| i)
}

fn find_last(drawn: &Vec<CollisionMarker>, marker: CollisionMarker) -> (found: Option<usize>)
    ensures
        found matches Some(i) ==> counts(drawn@, i as int) && drawn@[i as int] == marker,
        found is None <==> !drawn@.contains(marker),
{
    let mut i: usize = drawn.len();
    while i > 0
        invariant
            i <= drawn.len(),
            forall|j: int| i <= j < drawn.len() ==> #[trigger] drawn@[j] != marker,
        decreases i,
    {
        i -= 1;
        if drawn[i] == marker {
            assert(drawn@.contains(marker));
            return Some(i);
        }
    }
    None
}

fn found_before(contacts: &Vec<CollisionMarker>, k: usize) -> (found: bool)
    requires
        k < contacts.len(),
    ensures
        found == contacts@.take(k as int).contains(contacts@[k as int]),
{
    let mut j: usize = 0;
    while j < k
        invariant
            j <= k,
            k < contacts.len(),
            forall|i: int| 0 <= i < j ==> #[trigger] contacts@[i] != contacts@[k as int],
        decreases k - j,
    {
        if contacts[j] == contacts[k] {
            assert(contacts@.take(k as int)[j as int] == contacts@[k as int]);
            return true;
        }
        j += 1;
    }
    assert forall|i: int| 0 <= i < k implies #[trigger] contacts@.take(k as int)[i] != contacts@[k as int] by {
        assert(contacts@.take(k as int)[i] == contacts@[i]);
    }
    false
}

fn is_counted(drawn: &Vec<CollisionMarker>, i: usize) -> (r: bool)
    requires
        i < drawn.len(),
    ensures
        r == counts(drawn@, i as int),
{
    let mut j: usize = i + 1;
    while j < drawn.len()
        invariant
            i < j <= drawn.len(),
            forall|a: int| i < a < j ==> #[trigger] drawn@[a] != drawn@[i as int],
        decreases drawn.len() - j,
    {
        if drawn[j] == drawn[i] {
            return false;
        }
        j += 1;
    }
    true
}

fn contains_marker(contacts: &Vec<CollisionMarker>, marker: CollisionMarker) -> (r: bool)
    ensures
        r == contacts@.contains(marker),
{
    let mut j: usize = 0;
    while j < contacts.len()
        invariant
            j <= contacts.len(),
            forall|i: int| 0 <= i < j ==> #[trigger] contacts@[i] != marker,
        decreases contacts.len() - j,
    {
        if contacts[j] == marker {
            return true;
        }
        j += 1;
    }
    false
}

/// Plans the markers of a frame from the markers that are drawn and the
/// points of contact that the physics engine reports, each point named by
/// the marker that belongs to it.
pub fn display_collision_markers(drawn: &Vec<CollisionMarker>, contacts: &Vec<CollisionMarker>) -> (plan:
    MarkerPlan)
    ensures
        plan.steps@.len() == contacts@.len(),
        forall|k: int| 0 <= k < contacts@.len() ==> step_for(drawn@, contacts@, k, #[trigger] plan.steps@[k]),
        plan.despawn@.map_values(|i: usize| i as int) == places(drawn@.len()).filter(stale(drawn@, contacts@)),
{
    let mut steps: Vec<MarkerStep> = Vec::new();
    let mut k: usize = 0;
    while k < contacts.len()
        invariant
            k <= contacts.len(),
            steps@.len() == k,
            forall|j: int| 0 <= j < k ==> step_for(drawn@, contacts@, j, #[trigger] steps@[j]),
        decreases contacts.len() - k,
    {
        let claimed = found_before(contacts, k);
        let step = if claimed {
            MarkerStep::Spawn
        } else {
            match find_last(drawn, contacts[k]) {
                Some(place) => MarkerStep::Update { place },
                None => MarkerStep::Spawn,
            }
        };
        steps.push(step);
        k += 1;
    }
    let mut despawn: Vec<usize> = Vec::new();
    let mut i: usize = 0;
    let ghost all = places(drawn@.len());
    let ghost gone = stale(drawn@, contacts@);
    proof {
        reveal(Seq::filter);
        assert(all.take(0).len() == 0);
    }
    while i < drawn.len()
        invariant
            i <= drawn.len(),
            all == places(drawn@.len()),
            gone == stale(drawn@, contacts@),
            despawn@.map_values(|i: usize| i as int) == all.take(i as int).filter(gone),
        decreases drawn.len() - i,
    {
        let counted = is_counted(drawn, i);
        let claimed = contains_marker(contacts, drawn[i]);
        proof {
            reveal(Seq::filter);
            assert(all.take(i as int + 1).drop_last() == all.take(i as int));
            assert(all.take(i as int + 1).last() == i as int);
        }
        if counted && !claimed {
            let ghost before = despawn@;
            despawn.push(i);
            proof {
                assert(despawn@.map_values(|i: usize| i as int) =~= before.map_values(
                    |i: usize| i as int,
                ).push(i as int));
            }
        }
        i += 1;
    }
    proof {
        assert(all.take(i as int) == all);
    }
    MarkerPlan { steps, despawn }
}

} // verus!
