//! Level descriptors and the level table lookup.

use vstd::prelude::*;

verus! {

/// Distances are integers in thousandths of a world unit.
pub const DISTANCE_SCALE: u64 = 1000;

/// Nanoseconds in one second.
pub const NANOS_PER_SECOND: u64 = 1_000_000_000;

/// One row of a level table: the half-open distance range
/// `[min_distance, max_distance)` in which `level` applies, and how often
/// per second an entity at that level is refreshed.
#[derive(Clone, Copy, Debug, PartialEq, Eq, Structural)]
pub struct LODLevel {
    pub level: u8,
    pub min_distance: u64,
    pub max_distance: u64,
    pub update_frequency: u32,
}

/// Whether `d` lies in the half-open range of `l`.
pub open spec fn in_range(l: LODLevel, d: u64) -> bool {
    l.min_distance <= d && d < l.max_distance
}

/// The first descriptor of `levels`, in table order, whose range holds `d`.
pub open spec fn first_match(levels: Seq<LODLevel>, d: u64) -> Option<LODLevel>
    decreases levels.len(),
{
    if levels.len() == 0 {
        None
    } else if in_range(levels[0], d) {
        Some(levels[0])
    } else {
        first_match(levels.drop_first(), d)
    }
}

/// The refresh period, in nanoseconds, of a frequency in hertz; a frequency
/// of zero never refreshes.
pub open spec fn period_of(hz: u32) -> u64 {
    if hz == 0 {
        u64::MAX
    } else {
        (NANOS_PER_SECOND / (hz as u64)) as u64
    }
}

impl LODLevel {
    pub fn new(level: u8, min_distance: u64, max_distance: u64, update_frequency: u32) -> (r: LODLevel)
        ensures
            r == (LODLevel { level, min_distance, max_distance, update_frequency }),
    {
        LODLevel { level, min_distance, max_distance, update_frequency }
    }

    /// The first level of `levels` whose range holds `distance`, if any.
    pub fn from_distance(distance: u64, levels: &Vec<LODLevel>) -> (r: Option<LODLevel>)
        ensures
            r == first_match(levels@, distance),
    {
        let mut i: usize = 0;
        proof {
            assert(levels@.subrange(0, levels@.len() as int) =~= levels@);
        }
        while i < levels.len()
            invariant
                i <= levels@.len(),
                first_match(levels@, distance) == first_match(levels@.subrange(i as int, levels@.len() as int), distance),
            decreases levels.len() - i,
        {
            let l = levels[i];
            proof {
                let rest = levels@.subrange(i as int, levels@.len() as int);
                assert(rest.drop_first() =~= levels@.subrange(i + 1, levels@.len() as int));
            }
            if l.min_distance <= distance && distance < l.max_distance {
                return Some(l);
            }
            i = i + 1;
        }
        proof {
            assert(levels@.subrange(i as int, levels@.len() as int).len() == 0);
        }
        None
    }

    /// The refresh period of this level in nanoseconds.
    pub fn update_period(&self) -> (r: u64)
        ensures
            r == period_of(self.update_frequency),
    {
        if self.update_frequency == 0 {
            u64::MAX
        } else {
            NANOS_PER_SECOND / (self.update_frequency as u64)
        }
    }
}

/// The level table of one class of entities, in lookup order.
pub struct LODLevels {
    pub levels: Vec<LODLevel>,
}

impl LODLevels {
    pub fn new(levels: Vec<LODLevel>) -> (r: LODLevels)
        ensures
            r.levels@ == levels@,
    {
        LODLevels { levels }
    }
}

/// A table whose rows come in increasing level order over ranges that do not
/// overlap and increase with the level.
pub open spec fn is_ordered_table(levels: Seq<LODLevel>) -> bool {
    &&& forall|i: int| 0 <= i < levels.len() ==> levels[i].min_distance < levels[i].max_distance
    &&& forall|i: int, j: int|
        0 <= i < j < levels.len() ==> levels[i].max_distance <= levels[j].min_distance
            && levels[i].level < levels[j].level
}

/// The lookup picks the first row, in table order, whose half-open range
/// holds the distance, and nothing when no row does; the result is a
/// function of the distance and the table alone.
pub proof fn lemma_lookup_first_match(levels: Seq<LODLevel>, d: u64)
    ensures
        first_match(levels, d) is None <==> forall|i: int| 0 <= i < levels.len() ==> !in_range(levels[i], d),
        first_match(levels, d) is Some ==> exists|i: int|
            0 <= i < levels.len() && levels[i] == first_match(levels, d)->Some_0 && in_range(levels[i], d)
                && forall|j: int| 0 <= j < i ==> !in_range(#[trigger] levels[j], d),
    decreases levels.len(),
{
    if levels.len() > 0 {
        let rest = levels.drop_first();
        lemma_lookup_first_match(rest, d);
        if in_range(levels[0], d) {
            assert(levels[0] == first_match(levels, d)->Some_0);
        } else {
            assert forall|i: int| 0 < i < levels.len() implies levels[i] == rest[i - 1] by {}
            if first_match(rest, d) is Some {
                let k = choose|k: int|
                    0 <= k < rest.len() && rest[k] == first_match(rest, d)->Some_0 && in_range(rest[k], d)
                        && forall|j: int| 0 <= j < k ==> !in_range(#[trigger] rest[j], d);
                assert forall|j: int| 0 <= j < k + 1 implies !in_range(#[trigger] levels[j], d) by {
                    if j > 0 {
                        assert(levels[j] == rest[j - 1]);
                    }
                }
                assert(levels[k + 1] == rest[k]);
            } else {
                assert forall|i: int| 0 <= i < levels.len() implies !in_range(levels[i], d) by {
                    if i > 0 {
                        assert(levels[i] == rest[i - 1]);
                    }
                }
            }
        }
    }
}

/// On an ordered table the looked-up level never decreases as the distance
/// grows.
pub proof fn lemma_lookup_monotonic(levels: Seq<LODLevel>, d1: u64, d2: u64)
    requires
        is_ordered_table(levels),
        d1 <= d2,
        first_match(levels, d1) is Some,
        first_match(levels, d2) is Some,
    ensures
        first_match(levels, d1)->Some_0.level <= first_match(levels, d2)->Some_0.level,
{
    lemma_lookup_first_match(levels, d1);
    lemma_lookup_first_match(levels, d2);
    let i1 = choose|i: int|
        0 <= i < levels.len() && levels[i] == first_match(levels, d1)->Some_0 && in_range(levels[i], d1)
            && forall|j: int| 0 <= j < i ==> !in_range(#[trigger] levels[j], d1);
    let i2 = choose|i: int|
        0 <= i < levels.len() && levels[i] == first_match(levels, d2)->Some_0 && in_range(levels[i], d2)
            && forall|j: int| 0 <= j < i ==> !in_range(#[trigger] levels[j], d2);
    if i2 < i1 {
        assert(levels[i2].max_distance <= levels[i1].min_distance);
    } else if i1 < i2 {
        assert(levels[i1].level < levels[i2].level);
    }
}

/// The default table: full detail up to 10 units, then 25, then 50, then
/// everything beyond.
pub fn create_standard_lod_levels() -> (r: Vec<LODLevel>)
    ensures
        r@ == seq![
            LODLevel { level: 0, min_distance: 0, max_distance: 10_000, update_frequency: 60 },
            LODLevel { level: 1, min_distance: 10_000, max_distance: 25_000, update_frequency: 30 },
            LODLevel { level: 2, min_distance: 25_000, max_distance: 50_000, update_frequency: 10 },
            LODLevel { level: 3, min_distance: 50_000, max_distance: u64::MAX, update_frequency: 1 },
        ],
        is_ordered_table(r@),
{
    let r = vec![
        LODLevel::new(0, 0, 10_000, 60),
        LODLevel::new(1, 10_000, 25_000, 30),
        LODLevel::new(2, 25_000, 50_000, 10),
        LODLevel::new(3, 50_000, u64::MAX, 1),
    ];
    assert(r@ =~= seq![r@[0], r@[1], r@[2], r@[3]]);
    r
}

/// A table that lowers detail sooner: at 5, 15 and 30 units.
pub fn create_aggressive_lod_levels() -> (r: Vec<LODLevel>)
    ensures
        r@ == seq![
            LODLevel { level: 0, min_distance: 0, max_distance: 5_000, update_frequency: 60 },
            LODLevel { level: 1, min_distance: 5_000, max_distance: 15_000, update_frequency: 20 },
            LODLevel { level: 2, min_distance: 15_000, max_distance: 30_000, update_frequency: 5 },
            LODLevel { level: 3, min_distance: 30_000, max_distance: u64::MAX, update_frequency: 1 },
        ],
        is_ordered_table(r@),
{
    let r = vec![
        LODLevel::new(0, 0, 5_000, 60),
        LODLevel::new(1, 5_000, 15_000, 20),
        LODLevel::new(2, 15_000, 30_000, 5),
        LODLevel::new(3, 30_000, u64::MAX, 1),
    ];
    assert(r@ =~= seq![r@[0], r@[1], r@[2], r@[3]]);
    r
}

} // verus!
