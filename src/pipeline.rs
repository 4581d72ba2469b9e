//! The per-frame stages over the tracked entities of one class, in their
//! fixed order: reset the budget, take in distances, advance the debounce
//! state, commit due transitions within the budget, then run continuous
//! updates.

use vstd::prelude::*;
use crate::budget::LODProcessingBudget;
use crate::level::{LODLevel, LODLevels, first_match};
use crate::state::{LODState, committed, observed};
use crate::strategy::{LODCommand, LODStrategy, tagged};

verus! {

/// An entity's distance from the viewpoint along the view axis, in
/// thousandths of a world unit.
#[derive(Clone, Copy, Debug, PartialEq, Eq, Structural)]
pub struct LODDistance(pub u64);

impl Default for LODDistance {
    fn default() -> (r: LODDistance)
        ensures
            r == LODDistance(0),
    {
        LODDistance(0)
    }
}

/// One tracked entity: its id bits, its distance, its debounce state and its
/// strategy data.
pub struct TrackedEntity<D> {
    pub entity: u64,
    pub distance: LODDistance,
    pub state: LODState,
    pub data: D,
}

/// Starts a frame's budget.
pub fn reset_lod_budget(budget: &mut LODProcessingBudget)
    ensures
        *final(budget) == (LODProcessingBudget {
            max_operations_per_frame: old(budget).max_operations_per_frame,
            current_operations: 0,
        }),
{
    budget.reset();
}

/// The distances handed in for a frame, if any.
pub open spec fn distances_view(view_distances: Option<&Vec<u64>>) -> Option<Seq<u64>> {
    match view_distances {
        Some(v) => Some(v@),
        None => None,
    }
}

/// Entity `i` after taking in the distances `vd`.
pub open spec fn sensed<D>(e: TrackedEntity<D>, i: int, vd: Option<Seq<u64>>) -> TrackedEntity<D> {
    match vd {
        Some(v) => if 0 <= i < v.len() {
            TrackedEntity { distance: LODDistance(v[i]), ..e }
        } else {
            e
        },
        None => e,
    }
}

/// Takes in this frame's view distances, one per entity in order. Without a
/// viewpoint there are none and every distance stays as it was.
pub fn update_distance_from_camera<D>(entities: &mut Vec<TrackedEntity<D>>, view_distances: Option<&Vec<u64>>)
    ensures
        final(entities)@.len() == old(entities)@.len(),
        forall|i: int|
            0 <= i < old(entities)@.len() ==> #[trigger] final(entities)@[i] == sensed(
                old(entities)@[i],
                i,
                distances_view(view_distances),
            ),
{
    match view_distances {
        None => {},
        Some(v) => {
            let n = entities.len();
            let mut i: usize = 0;
            while i < n && i < v.len()
                invariant
                    n == old(entities)@.len(),
                    entities@.len() == n,
                    i <= n,
                    i <= v@.len(),
                    forall|j: int|
                        0 <= j < n ==> #[trigger] entities@[j] == if j < i {
                            TrackedEntity { distance: LODDistance(v@[j]), ..old(entities)@[j] }
                        } else {
                            old(entities)@[j]
                        },
                decreases n - i,
            {
                entities[i].distance = LODDistance(v[i]);
                i = i + 1;
            }
            assert forall|j: int| 0 <= j < n implies #[trigger] entities@[j] == if j < v@.len() {
                TrackedEntity { distance: LODDistance(v@[j]), ..old(entities)@[j] }
            } else {
                old(entities)@[j]
            } by {
                assert(entities@[j] == if j < i {
                    TrackedEntity { distance: LODDistance(v@[j]), ..old(entities)@[j] }
                } else {
                    old(entities)@[j]
                });
            }
        },
    }
}

/// The entity after a frame's lookup against `levels`.
pub open spec fn targeted<D>(e: TrackedEntity<D>, levels: Seq<LODLevel>, delta: u64) -> TrackedEntity<D> {
    TrackedEntity { state: observed(e.state, first_match(levels, e.distance.0), delta), ..e }
}

/// Looks every entity up in the level table and advances its debounce state
/// by a frame of `delta` nanoseconds.
pub fn calculate_target_lod<D>(levels: &LODLevels, entities: &mut Vec<TrackedEntity<D>>, delta: u64)
    ensures
        final(entities)@.len() == old(entities)@.len(),
        forall|i: int|
            0 <= i < old(entities)@.len() ==> #[trigger] final(entities)@[i] == targeted(
                old(entities)@[i],
                levels.levels@,
                delta,
            ),
{
    let n = entities.len();
    let mut i: usize = 0;
    while i < n
        invariant
            n == old(entities)@.len(),
            entities@.len() == n,
            i <= n,
            forall|j: int|
                0 <= j < n ==> #[trigger] entities@[j] == if j < i {
                    targeted(old(entities)@[j], levels.levels@, delta)
                } else {
                    old(entities)@[j]
                },
        decreases n - i,
    {
        let lookup = LODLevel::from_distance(entities[i].distance.0, &levels.levels);
        entities[i].state.observe(lookup, delta);
        i = i + 1;
    }
}

/// How many of the first `n` entities are due.
pub open spec fn count_due<D>(es: Seq<TrackedEntity<D>>, n: int) -> nat
    decreases n,
{
    if n <= 0 {
        0
    } else {
        count_due(es, n - 1) + if es[n - 1].state.due() {
            1nat
        } else {
            0nat
        }
    }
}

/// Whether entity `i` commits in a stage that starts with budget `b`: it is
/// due, and the due entities before it have not used up the budget.
pub open spec fn commits<D>(es: Seq<TrackedEntity<D>>, i: int, b: LODProcessingBudget) -> bool {
    es[i].state.due() && b.current_operations + count_due(es, i) < b.max_operations_per_frame
}

/// How many of the first `n` entities commit.
pub open spec fn count_commits<D>(es: Seq<TrackedEntity<D>>, n: int, b: LODProcessingBudget) -> nat
    decreases n,
{
    if n <= 0 {
        0
    } else {
        count_commits(es, n - 1, b) + if commits(es, n - 1, b) {
            1nat
        } else {
            0nat
        }
    }
}

/// The budget's count after the first `n` entities.
pub open spec fn consumed_after<D>(es: Seq<TrackedEntity<D>>, n: int, b: LODProcessingBudget) -> int {
    if b.current_operations >= b.max_operations_per_frame {
        b.current_operations as int
    } else if b.current_operations + count_due(es, n) < b.max_operations_per_frame {
        b.current_operations + count_due(es, n)
    } else {
        b.max_operations_per_frame as int
    }
}

/// The entity after its due target was committed by strategy `S`.
pub open spec fn transitioned<S: LODStrategy>(e: TrackedEntity<S::ComponentData>, config: S::Config) -> TrackedEntity<
    S::ComponentData,
> {
    TrackedEntity {
        state: committed(e.state),
        data: S::transition_data(
            e.state.current_level.level,
            e.state.target_level->Some_0.level,
            config,
            e.data,
        ),
        ..e
    }
}

/// The commands of the entity's transition under strategy `S`.
pub open spec fn transition_commands_of<S: LODStrategy>(e: TrackedEntity<S::ComponentData>, config: S::Config) -> Seq<
    LODCommand,
> {
    tagged(
        e.entity,
        S::transition_ops(e.state.current_level.level, e.state.target_level->Some_0.level, config, e.data),
    )
}

/// The commands of the commits among the first `n` entities, in order.
pub open spec fn stage_commands<S: LODStrategy>(
    es: Seq<TrackedEntity<S::ComponentData>>,
    n: int,
    config: S::Config,
    b: LODProcessingBudget,
) -> Seq<LODCommand>
    decreases n,
{
    if n <= 0 {
        Seq::empty()
    } else {
        stage_commands::<S>(es, n - 1, config, b) + if commits(es, n - 1, b) {
            transition_commands_of::<S>(es[n - 1], config)
        } else {
            Seq::empty()
        }
    }
}

/// Commits, in entity order, every due target while the budget has room:
/// the strategy's transition runs, the target becomes the current level and
/// one unit of budget is spent. Entities that are not due, or come after the
/// budget ran out, are left exactly as they were.
pub fn apply_lod_transitions<S: LODStrategy>(
    commands: &mut Vec<LODCommand>,
    config: &S::Config,
    budget: &mut LODProcessingBudget,
    entities: &mut Vec<TrackedEntity<S::ComponentData>>,
)
    ensures
        final(entities)@.len() == old(entities)@.len(),
        forall|i: int|
            0 <= i < old(entities)@.len() ==> #[trigger] final(entities)@[i] == if commits(
                old(entities)@,
                i,
                *old(budget),
            ) {
                transitioned::<S>(old(entities)@[i], *config)
            } else {
                old(entities)@[i]
            },
        final(budget).max_operations_per_frame == old(budget).max_operations_per_frame,
        final(budget).current_operations == consumed_after(old(entities)@, old(entities)@.len() as int, *old(budget)),
        final(commands)@ == old(commands)@ + stage_commands::<S>(
            old(entities)@,
            old(entities)@.len() as int,
            *config,
            *old(budget),
        ),
{
    let ghost es = entities@;
    let ghost b0 = *budget;
    let ghost start = commands@;
    let n = entities.len();
    let mut i: usize = 0;
    while i < n
        invariant
            n == es.len(),
            entities@.len() == n,
            i <= n,
            forall|j: int|
                0 <= j < n ==> #[trigger] entities@[j] == if j < i {
                    if commits(es, j, b0) {
                        transitioned::<S>(es[j], *config)
                    } else {
                        es[j]
                    }
                } else {
                    es[j]
                },
            budget.max_operations_per_frame == b0.max_operations_per_frame,
            budget.current_operations == consumed_after(es, i as int, b0),
            commands@ == start + stage_commands::<S>(es, i as int, *config, b0),
        decreases n - i,
    {
        if entities[i].state.is_due() && budget.try_consume() {
            let from = entities[i].state.current_level.level;
            let to = entities[i].state.target_level.unwrap().level;
            let entity = entities[i].entity;
            S::transition(commands, entity, from, to, config, &mut entities[i].data);
            entities[i].state.commit();
            proof {
                assert(commits(es, i as int, b0));
                assert(commands@ =~= start + stage_commands::<S>(es, i + 1, *config, b0));
            }
        } else {
            proof {
                assert(!commits(es, i as int, b0));
                assert(commands@ =~= start + stage_commands::<S>(es, i + 1, *config, b0));
            }
        }
        i = i + 1;
    }
}

/// The entity after a frame's update by strategy `S`.
pub open spec fn updated_entity<S: LODStrategy>(e: TrackedEntity<S::ComponentData>, delta: u64) -> TrackedEntity<
    S::ComponentData,
> {
    TrackedEntity { data: S::updated(delta, e.state.current_level.level, e.data), ..e }
}

/// Runs the strategy's per-frame update on every entity, when the strategy
/// has one; this spends no budget.
pub fn update_lod_representations<S: LODStrategy>(delta: u64, entities: &mut Vec<TrackedEntity<S::ComponentData>>)
    ensures
        final(entities)@.len() == old(entities)@.len(),
        forall|i: int|
            0 <= i < old(entities)@.len() ==> #[trigger] final(entities)@[i] == if S::continuous() {
                updated_entity::<S>(old(entities)@[i], delta)
            } else {
                old(entities)@[i]
            },
{
    if !S::requires_update() {
        return;
    }
    let n = entities.len();
    let mut i: usize = 0;
    while i < n
        invariant
            S::continuous(),
            n == old(entities)@.len(),
            entities@.len() == n,
            i <= n,
            forall|j: int|
                0 <= j < n ==> #[trigger] entities@[j] == if j < i {
                    updated_entity::<S>(old(entities)@[j], delta)
                } else {
                    old(entities)@[j]
                },
        decreases n - i,
    {
        let entity = entities[i].entity;
        let level = entities[i].state.current_level.level;
        S::update(delta, entity, level, &mut entities[i].data);
        i = i + 1;
    }
}

proof fn lemma_count_due_monotonic<D>(es: Seq<TrackedEntity<D>>, i: int, n: int)
    requires
        i <= n,
    ensures
        count_due(es, i) <= count_due(es, n),
    decreases n - i,
{
    if i < n {
        lemma_count_due_monotonic(es, i, n - 1);
    }
}

proof fn lemma_commits_match_budget<D>(es: Seq<TrackedEntity<D>>, n: int, b: LODProcessingBudget)
    requires
        b.current_operations <= b.max_operations_per_frame,
        0 <= n <= es.len(),
    ensures
        count_commits(es, n, b) == consumed_after(es, n, b) - b.current_operations,
    decreases n,
{
    if n > 0 {
        lemma_commits_match_budget(es, n - 1, b);
    }
}

/// A stage never commits more transitions than its budget has room for, and
/// the budget's count grows by exactly the number committed. A due entity
/// is passed over only once the budget is spent, and then stays as it was,
/// timer included.
pub proof fn lemma_budget_bound<D>(es: Seq<TrackedEntity<D>>, b: LODProcessingBudget)
    requires
        b.current_operations <= b.max_operations_per_frame,
    ensures
        count_commits(es, es.len() as int, b) <= b.max_operations_per_frame - b.current_operations,
        count_commits(es, es.len() as int, b) == consumed_after(es, es.len() as int, b) - b.current_operations,
        forall|i: int|
            0 <= i < es.len() && es[i].state.due() && !commits(es, i, b) ==> consumed_after(
                es,
                es.len() as int,
                b,
            ) == b.max_operations_per_frame,
{
    lemma_commits_match_budget(es, es.len() as int, b);
    assert forall|i: int|
        0 <= i < es.len() && es[i].state.due() && !commits(es, i, b) implies consumed_after(
        es,
        es.len() as int,
        b,
    ) == b.max_operations_per_frame by {
        lemma_count_due_monotonic(es, i, es.len() as int);
    }
}

/// A due entity that was passed over is due again on the next frame whose
/// lookup still names its target, however long that frame is.
pub proof fn lemma_deferred_stays_due(s: LODState, delta: u64)
    requires
        s.wf(),
        s.due(),
    ensures
        observed(s, s.target_level, delta).due(),
        observed(s, s.target_level, delta).target_level == s.target_level,
        observed(s, s.target_level, delta).current_level == s.current_level,
{
}

/// The entities after a frame has taken in distances and advanced the
/// debounce state.
pub open spec fn frame_targets<D>(
    es: Seq<TrackedEntity<D>>,
    vd: Option<Seq<u64>>,
    levels: Seq<LODLevel>,
    delta: u64,
) -> Seq<TrackedEntity<D>> {
    Seq::new(es.len(), |i: int| targeted(sensed(es[i], i, vd), levels, delta))
}

/// Entity `i` at the end of a frame whose debounce stage produced `t`.
pub open spec fn frame_result<S: LODStrategy>(
    t: Seq<TrackedEntity<S::ComponentData>>,
    i: int,
    b0: LODProcessingBudget,
    config: S::Config,
    delta: u64,
) -> TrackedEntity<S::ComponentData> {
    let c = if commits(t, i, b0) {
        transitioned::<S>(t[i], config)
    } else {
        t[i]
    };
    if S::continuous() {
        updated_entity::<S>(c, delta)
    } else {
        c
    }
}

/// One frame for the entities of one class, in the fixed stage order: the
/// budget starts from zero, the distances are taken in, the debounce state
/// advances, due transitions commit within the budget, and continuous
/// updates run last so that they see this frame's commits.
pub fn run_lod_frame<S: LODStrategy>(
    commands: &mut Vec<LODCommand>,
    levels: &LODLevels,
    config: &S::Config,
    budget: &mut LODProcessingBudget,
    entities: &mut Vec<TrackedEntity<S::ComponentData>>,
    view_distances: Option<&Vec<u64>>,
    delta: u64,
)
    ensures
        final(entities)@.len() == old(entities)@.len(),
        final(budget).max_operations_per_frame == old(budget).max_operations_per_frame,
        final(budget).current_operations <= final(budget).max_operations_per_frame,
        ({
            let b0 = LODProcessingBudget {
                max_operations_per_frame: old(budget).max_operations_per_frame,
                current_operations: 0,
            };
            let t = frame_targets(old(entities)@, distances_view(view_distances), levels.levels@, delta);
            &&& final(budget).current_operations == consumed_after(t, t.len() as int, b0)
            &&& final(commands)@ == old(commands)@ + stage_commands::<S>(t, t.len() as int, *config, b0)
            &&& forall|i: int|
                0 <= i < t.len() ==> #[trigger] final(entities)@[i] == frame_result::<S>(t, i, b0, *config, delta)
        }),
{
    reset_lod_budget(budget);
    let ghost b0 = *budget;
    update_distance_from_camera(entities, view_distances);
    calculate_target_lod(levels, entities, delta);
    let ghost targeted_es = entities@;
    apply_lod_transitions::<S>(commands, config, budget, entities);
    let ghost committed_es = entities@;
    update_lod_representations::<S>(delta, entities);
    proof {
        let t = frame_targets(old(entities)@, distances_view(view_distances), levels.levels@, delta);
        assert(targeted_es =~= t);
        assert forall|i: int| 0 <= i < t.len() implies #[trigger] entities@[i] == frame_result::<S>(
            t,
            i,
            b0,
            *config,
            delta,
        ) by {
            assert(committed_es[i] == if commits(t, i, b0) {
                transitioned::<S>(t[i], *config)
            } else {
                t[i]
            });
        }
    }
}

} // verus!
