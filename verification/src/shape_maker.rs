//! Laying out the shapes of a level.

use vstd::prelude::*;
use rand::rngs::StdRng;
use rand::seq::SliceRandom;
use rand::SeedableRng;
use crate::geometry::{saturate, Point};
use crate::level::{GameLevel, LevelType};

verus! {

/// The size of a shape, in world units.
pub const SHAPE_SIZE: i32 = 50;

/// The number of places that shapes can be laid out at.
pub const MAX_SHAPES: usize = 36;

/// The number of places in a row.
pub const COLS: usize = 6;

/// A day of the calendar.
#[derive(PartialEq, Eq, Structural, Clone, Copy, Debug)]
pub struct Date {
    pub year: i32,
    pub month: u32,
    pub day: u32,
}

/// A shape to put on the playfield: its kind, by its place in the list of
/// all kinds, and where it goes.
#[derive(PartialEq, Eq, Structural, Clone, Copy, Debug)]
pub struct Spawn {
    pub shape: usize,
    pub position: Point,
}

/// rand's `StdRng`: a seedable random number generator.
#[verifier::external_type_specification]
#[verifier::external_body]
pub struct ExStdRng(StdRng);

/// `SeedableRng::seed_from_u64` of `StdRng`: a generator begun from the
/// seed. Nothing is claimed of the generator.
#[verifier::external_body]
pub(crate) fn seed_from_u64(seed: u64) -> StdRng {
    StdRng::seed_from_u64(seed)
}

/// `SliceRandom::shuffle`: puts the items in a random order. Whatever the
/// order, the items are the same, each as often as before.
#[verifier::external_body]
pub(crate) fn shuffle(items: &mut Vec<usize>, rng: &mut StdRng)
    ensures
        final(items)@.to_multiset() == old(items)@.to_multiset(),
{
    items.shuffle(rng);
}

/// `SliceRandom::choose`: one of the items, picked at random, or `None`
/// where there are no items.
#[verifier::external_body]
pub(crate) fn choose_one(items: &Vec<usize>, rng: &mut StdRng) -> (chosen: Option<usize>)
    ensures
        chosen is None <==> items@.len() == 0,
        chosen matches Some(item) ==> items@.contains(item),
{
    items.choose(rng).copied()
}

/// The absolute value of a year.
pub open spec fn magnitude(year: int) -> int {
    if year < 0 {
        -year
    } else {
        year
    }
}

/// The seed of the day's challenge: the same for everyone on the same day.
pub open spec fn seed_of(today: Date) -> int {
    magnitude(today.year as int) * 2000 + today.month * 100 + today.day
}

/// Where the shape at place `i` is laid out: the places fill rows of six
/// from the left, row upon row, one shape size apart, the first place three
/// shape sizes to the left of and below the middle.
pub open spec fn place_of(i: int) -> Point {
    Point {
        x: ((i % 6) * 50 - 150) as i32,
        y: saturate((i / 6) * 50 - 150) as i32,
    }
}

/// The kinds of shape that a level of the tutorial shows, each by its place
/// in the list of all kinds.
pub open spec fn tutorial_kinds(shapes: usize) -> Seq<usize> {
    if shapes == 1 {
        seq![11usize]
    } else if shapes == 2 {
        seq![6usize, 4usize]
    } else if shapes == 3 {
        seq![7usize, 2usize, 9usize]
    } else if shapes == 4 {
        seq![8usize, 13usize, 5usize, 17usize]
    } else {
        seq![0usize]
    }
}

/// Whether a shape can be laid out at the position: whether it is the
/// position of one of the thirty-six places.
pub open spec fn is_place(position: Point) -> bool {
    exists|place: int| 0 <= place < 36 && position == #[trigger] place_of(place)
}

/// The numbers from 0 up to `n`, `n` left out.
pub open spec fn count_up(n: nat) -> Seq<usize> {
    Seq::new(n, |i: int| i as usize)
}

/// The seed of the day's challenge.
pub fn challenge_seed(today: Date) -> (seed: u64)
    ensures
        seed == seed_of(today),
{
    let year: i64 = today.year as i64;
    let years: u64 = if year < 0 {
        (-year) as u64
    } else {
        year as u64
    };
    years * 2000 + today.month as u64 * 100 + today.day as u64
}

/// Where the shape at place `i` is laid out.
pub fn get_shape_spawn_position(i: usize) -> (position: Point)
    ensures
        position == place_of(i as int),
{
    let column: i32 = (i % COLS) as i32;
    let x: i32 = column * SHAPE_SIZE - 150;
    let up: i128 = (i / COLS) as i128 * 50 - 150;
    let y: i32 = if up > i32::MAX as i128 {
        i32::MAX
    } else {
        up as i32
    };
    Point { x, y }
}

/// The kinds of shape that a level of the tutorial shows.
pub fn tutorial_shapes(shapes: usize) -> (kinds: Vec<usize>)
    ensures
        kinds@ == tutorial_kinds(shapes),
{
    let mut kinds: Vec<usize> = Vec::new();
    if shapes == 1 {
        kinds.push(11);
    } else if shapes == 2 {
        kinds.push(6);
        kinds.push(4);
    } else if shapes == 3 {
        kinds.push(7);
        kinds.push(2);
        kinds.push(9);
    } else if shapes == 4 {
        kinds.push(8);
        kinds.push(13);
        kinds.push(5);
        kinds.push(17);
    } else {
        kinds.push(0);
    }
    assert(kinds@ =~= tutorial_kinds(shapes));
    kinds
}

/// The numbers from 0 up to `n`.
pub fn numbers_up_to(n: usize) -> (numbers: Vec<usize>)
    ensures
        numbers@ == count_up(n as nat),
{
    let mut numbers: Vec<usize> = Vec::new();
    let mut i: usize = 0;
    while i < n
        invariant
            i <= n,
            numbers@ =~= count_up(i as nat),
        decreases n - i,
    {
        numbers.push(i);
        i += 1;
    }
    numbers
}

/// Picks `wanted` kinds of shape at random among `kinds` kinds: none where
/// there are no kinds to pick from.
pub fn random_shapes(wanted: usize, kinds: usize, rng: &mut StdRng) -> (picked: Vec<usize>)
    ensures
        picked@.len() == if kinds == 0 {
            0
        } else {
            wanted as int
        },
        forall|k: int| 0 <= k < picked@.len() ==> #[trigger] picked@[k] < kinds,
{
    let all = numbers_up_to(kinds);
    let mut picked: Vec<usize> = Vec::new();
    let mut k: usize = 0;
    while k < wanted
        invariant
            k <= wanted,
            all@ == count_up(kinds as nat),
            picked@.len() == if kinds == 0 {
                0
            } else {
                k as int
            },
            forall|j: int| 0 <= j < picked@.len() ==> #[trigger] picked@[j] < kinds,
        decreases wanted - k,
    {
        match choose_one(&all, rng) {
            Some(kind) => {
                proof {
                    let at = choose|at: int| 0 <= at < all@.len() && all@[at] == kind;
                    assert(all@[at] == at as usize);
                }
                picked.push(kind);
            },
            None => {},
        }
        k += 1;
    }
    picked
}

/// Lays out the given kinds of shape, one to a place, the places taken in
/// the order given; kinds beyond the number of places are left out.
pub fn lay_out(kinds: &Vec<usize>, places: &Vec<usize>) -> (spawns: Vec<Spawn>)
    ensures
        spawns@.len() == if kinds@.len() <= places@.len() {
            kinds@.len()
        } else {
            places@.len()
        },
        forall|k: int|
            0 <= k < spawns@.len() ==> #[trigger] spawns@[k] == (Spawn {
                shape: kinds@[k],
                position: place_of(places@[k] as int),
            }),
{
    let mut spawns: Vec<Spawn> = Vec::new();
    let mut k: usize = 0;
    while k < kinds.len() && k < places.len()
        invariant
            k <= kinds.len(),
            k <= places.len(),
            spawns@.len() == k,
            forall|j: int|
                0 <= j < k ==> #[trigger] spawns@[j] == (Spawn {
                    shape: kinds@[j],
                    position: place_of(places@[j] as int),
                }),
        decreases kinds.len() - k,
    {
        spawns.push(Spawn { shape: kinds[k], position: get_shape_spawn_position(places[k]) });
        k += 1;
    }
    spawns
}

/// Different places among the first thirty-six are laid out at different
/// positions.
pub proof fn lemma_places_apart(i: int, j: int)
    requires
        0 <= i < 36,
        0 <= j < 36,
        i != j,
    ensures
        place_of(i) != place_of(j),
{
    if i % 6 == j % 6 {
        assert(i / 6 != j / 6);
    }
}

/// A shuffle of the numbers below `n` holds each of them, none twice.
pub proof fn lemma_shuffled_numbers(shuffled: Seq<usize>, n: nat)
    requires
        n <= usize::MAX,
        shuffled.to_multiset() == count_up(n).to_multiset(),
    ensures
        shuffled.len() == n,
        shuffled.no_duplicates(),
        forall|k: int| 0 <= k < shuffled.len() ==> #[trigger] shuffled[k] < n,
{
    let numbers = count_up(n);
    shuffled.to_multiset_ensures();
    numbers.to_multiset_ensures();
    assert(numbers.no_duplicates()) by {
        assert forall|i: int, j: int|
            0 <= i < numbers.len() && 0 <= j < numbers.len() && i != j implies numbers[i]
            != numbers[j] by {
            assert(numbers[i] == i as usize && numbers[j] == j as usize);
        }
    }
    numbers.lemma_multiset_has_no_duplicates();
    shuffled.lemma_multiset_has_no_duplicates_conv();
    assert forall|k: int| 0 <= k < shuffled.len() implies #[trigger] shuffled[k] < n by {
        let item = shuffled[k];
        assert(shuffled.contains(item));
        assert(shuffled.to_multiset().count(item) > 0);
        assert(numbers.to_multiset().count(item) > 0);
        assert(numbers.contains(item));
        let at = choose|at: int| 0 <= at < numbers.len() && numbers[at] == item;
        assert(numbers[at] == at as usize);
    }
}

/// The shapes of a level and where each goes.
///
/// A level of the tutorial shows the kinds that `tutorial_kinds` names. The
/// day's challenge picks its kinds with a generator begun from the day's
/// seed; any other level picks them with `rng`. Each shape goes to a place
/// of its own among the thirty-six, the places drawn by `rng`; shapes beyond
/// thirty-six are left out, and so are all where a level picks among no
/// kinds.
pub fn create_level_shapes(level: &GameLevel, kinds: usize, today: Date, rng: &mut StdRng) -> (spawns: Vec<
    Spawn,
>)
    ensures
        spawns@.len() <= MAX_SHAPES,
        level.level_type == LevelType::Tutorial ==> spawns@.len() == tutorial_kinds(level.shapes).len() && forall|
            k: int,
        |
            0 <= k < spawns@.len() ==> (#[trigger] spawns@[k]).shape == tutorial_kinds(level.shapes)[k],
        level.level_type != LevelType::Tutorial ==> spawns@.len() == (if kinds == 0 {
            0
        } else if level.shapes <= MAX_SHAPES {
            level.shapes as int
        } else {
            MAX_SHAPES as int
        }) && forall|k: int| 0 <= k < spawns@.len() ==> (#[trigger] spawns@[k]).shape < kinds,
        forall|k: int| 0 <= k < spawns@.len() ==> is_place((#[trigger] spawns@[k]).position),
        forall|j: int, k: int|
            0 <= j < k < spawns@.len() ==> (#[trigger] spawns@[j]).position != (
            #[trigger] spawns@[k]).position,
{
    let mut places = numbers_up_to(MAX_SHAPES);
    shuffle(&mut places, rng);
    proof {
        lemma_shuffled_numbers(places@, MAX_SHAPES as nat);
    }
    let shapes: Vec<usize> = match level.level_type {
        LevelType::Tutorial => tutorial_shapes(level.shapes),
        LevelType::Challenge => {
            let mut daily = seed_from_u64(challenge_seed(today));
            random_shapes(level.shapes, kinds, &mut daily)
        },
        _ => random_shapes(level.shapes, kinds, rng),
    };
    let spawns = lay_out(&shapes, &places);
    proof {
        assert forall|k: int| 0 <= k < spawns@.len() implies is_place(
            (#[trigger] spawns@[k]).position,
        ) by {
            assert(places@[k] < MAX_SHAPES);
            assert(spawns@[k].position == place_of(places@[k] as int));
        }
        assert forall|j: int, k: int| 0 <= j < k < spawns@.len() implies (
        #[trigger] spawns@[j]).position != (#[trigger] spawns@[k]).position by {
            assert(places@[j] != places@[k]);
            assert(places@[j] < MAX_SHAPES && places@[k] < MAX_SHAPES);
            lemma_places_apart(places@[j] as int, places@[k] as int);
        }
    }
    spawns
}

} // verus!
