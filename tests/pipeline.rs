use lod_system::budget::LODProcessingBudget;
use lod_system::level::{create_standard_lod_levels, LODLevel, LODLevels};
use lod_system::pipeline::{
    apply_lod_transitions, calculate_target_lod, reset_lod_budget, run_lod_frame,
    update_distance_from_camera, update_lod_representations, LODDistance, TrackedEntity,
};
use lod_system::state::LODState;
use lod_system::strategies::{AnimationLODData, AnimationLODStrategy, AnimationLODConfig, VATLODData, VATLODStrategy};
use lod_system::strategy::{AttachmentOp, LODCommand};

const FRAME: u64 = 16_666_667;

fn entity_at(entity: u64, distance: u64, level: LODLevel) -> TrackedEntity<AnimationLODData> {
    TrackedEntity {
        entity,
        distance: LODDistance(distance),
        state: LODState::new(level),
        data: AnimationLODData::default(),
    }
}

#[test]
fn standard_table_commits_after_delay_and_holds() {
    let table = create_standard_lod_levels();
    let levels = LODLevels::new(table.clone());
    assert_eq!(LODLevel::from_distance(5_000, &levels.levels), Some(table[0]));

    let config = AnimationLODConfig::default();
    let mut budget = LODProcessingBudget::default();
    let mut entities = vec![entity_at(7, 5_000, table[0])];
    let mut commands: Vec<LODCommand> = Vec::new();

    // At distance 5 nothing changes.
    run_lod_frame::<AnimationLODStrategy>(&mut commands, &levels, &config, &mut budget, &mut entities, Some(&vec![5_000]), FRAME);
    assert!(commands.is_empty());
    assert_eq!(entities[0].state.current_level, table[0]);
    assert_eq!(entities[0].state.target_level, None);

    // Moved to 30: pending until the 100 ms delay has passed.
    let far = vec![30_000];
    for _ in 0..5 {
        run_lod_frame::<AnimationLODStrategy>(&mut commands, &levels, &config, &mut budget, &mut entities, Some(&far), FRAME);
        assert_eq!(entities[0].state.current_level, table[0]);
        assert_eq!(entities[0].state.target_level, Some(table[2]));
    }
    assert!(commands.is_empty());
    run_lod_frame::<AnimationLODStrategy>(&mut commands, &levels, &config, &mut budget, &mut entities, Some(&far), FRAME);
    assert_eq!(entities[0].state.current_level, table[2]);
    assert_eq!(entities[0].state.target_level, None);
    assert_eq!(entities[0].state.update_timer.duration, 100_000_000);
    assert_eq!(budget.current_operations, 1);
    assert_eq!(commands, vec![LODCommand { entity: 7, op: AttachmentOp::SetVisibility(true) }]);
    assert_eq!(entities[0].data, AnimationLODData { animation_enabled: false, update_rate: 2 });

    // Back to 28, still level 2: no further commit.
    commands.clear();
    for _ in 0..20 {
        run_lod_frame::<AnimationLODStrategy>(&mut commands, &levels, &config, &mut budget, &mut entities, Some(&vec![28_000]), FRAME);
        assert_eq!(entities[0].state.current_level, table[2]);
        assert_eq!(entities[0].state.target_level, None);
    }
    assert!(commands.is_empty());
    assert_eq!(budget.current_operations, 0);
}

#[test]
fn budget_of_one_commits_one_entity_per_frame() {
    let table = create_standard_lod_levels();
    let levels = LODLevels::new(table.clone());
    let config = AnimationLODConfig::default();
    let mut budget = LODProcessingBudget::new(1);
    let mut entities = vec![entity_at(1, 40_000, table[0]), entity_at(2, 40_000, table[0])];
    let mut commands: Vec<LODCommand> = Vec::new();

    // Both become due in the same frame.
    run_lod_frame::<AnimationLODStrategy>(&mut commands, &levels, &config, &mut budget, &mut entities, None, 200_000_000);
    assert_eq!(budget.current_operations, 1);
    assert_eq!(entities[0].state.current_level, table[2]);
    assert_eq!(entities[1].state.current_level, table[0]);
    assert_eq!(entities[1].state.target_level, Some(table[2]));
    assert!(entities[1].state.transition_timer.finished());
    assert_eq!(commands.len(), 1);
    assert_eq!(commands[0].entity, 1);

    // The next frame starts from zero and commits the other one.
    run_lod_frame::<AnimationLODStrategy>(&mut commands, &levels, &config, &mut budget, &mut entities, None, 1);
    assert_eq!(budget.current_operations, 1);
    assert_eq!(entities[1].state.current_level, table[2]);
    assert_eq!(commands.len(), 2);
    assert_eq!(commands[1].entity, 2);

    // Nothing is left to commit.
    run_lod_frame::<AnimationLODStrategy>(&mut commands, &levels, &config, &mut budget, &mut entities, None, 1);
    assert_eq!(budget.current_operations, 0);
    assert_eq!(commands.len(), 2);
}

#[test]
fn deferred_entity_keeps_its_timer() {
    let table = create_standard_lod_levels();
    let config = AnimationLODConfig::default();
    let mut budget = LODProcessingBudget::new(0);
    let mut entities = vec![entity_at(3, 60_000, table[0])];
    let levels = LODLevels::new(table.clone());
    calculate_target_lod(&levels, &mut entities, 150_000_000);
    let before = entities[0].state.transition_timer;
    let mut commands: Vec<LODCommand> = Vec::new();
    apply_lod_transitions::<AnimationLODStrategy>(&mut commands, &config, &mut budget, &mut entities);
    assert!(commands.is_empty());
    assert_eq!(entities[0].state.transition_timer, before);
    assert_eq!(entities[0].state.target_level, Some(table[3]));
    assert_eq!(entities[0].state.current_level, table[0]);
}

#[test]
fn oscillation_faster_than_delay_never_commits() {
    let table = create_standard_lod_levels();
    let levels = LODLevels::new(table.clone());
    let config = AnimationLODConfig::default();
    let mut budget = LODProcessingBudget::default();
    let mut entities = vec![entity_at(9, 9_000, table[0])];
    let mut commands: Vec<LODCommand> = Vec::new();
    for k in 0..200u64 {
        let d = if (k / 3) % 2 == 0 { 9_900 } else { 10_100 };
        run_lod_frame::<AnimationLODStrategy>(&mut commands, &levels, &config, &mut budget, &mut entities, Some(&vec![d]), FRAME);
        assert_eq!(entities[0].state.current_level, table[0]);
    }
    assert!(commands.is_empty());
}

#[test]
fn return_to_current_level_abandons_target() {
    let table = create_standard_lod_levels();
    let mut s = LODState::new(table[0]);
    s.observe(Some(table[1]), 60_000_000);
    assert_eq!(s.target_level, Some(table[1]));
    assert_eq!(s.transition_timer.elapsed, 60_000_000);
    s.observe(Some(table[0]), 1);
    assert_eq!(s.target_level, None);
    assert_eq!(s.transition_timer.elapsed, 0);
}

#[test]
fn changed_target_restarts_timer() {
    let table = create_standard_lod_levels();
    let mut s = LODState::new(table[0]);
    s.observe(Some(table[1]), 60_000_000);
    s.observe(Some(table[2]), 30_000_000);
    assert_eq!(s.target_level, Some(table[2]));
    assert_eq!(s.transition_timer.elapsed, 30_000_000);
    assert!(!s.is_due());
    s.observe(Some(table[2]), 70_000_000);
    assert!(s.is_due());
}

#[test]
fn no_match_changes_nothing() {
    let levels = LODLevels::new(vec![LODLevel::new(0, 0, 10, 60), LODLevel::new(1, 10, 20, 30)]);
    let mut entities = vec![entity_at(4, 500, levels.levels[0])];
    calculate_target_lod(&levels, &mut entities, FRAME);
    assert_eq!(entities[0].state.target_level, None);
    assert_eq!(entities[0].state.current_level, levels.levels[0]);
    assert_eq!(entities[0].state.transition_timer.elapsed, 0);
}

#[test]
fn distances_stay_without_viewpoint() {
    let table = create_standard_lod_levels();
    let mut entities = vec![entity_at(1, 1_000, table[0]), entity_at(2, 2_000, table[0])];
    update_distance_from_camera(&mut entities, None);
    assert_eq!(entities[0].distance, LODDistance(1_000));
    assert_eq!(entities[1].distance, LODDistance(2_000));
    update_distance_from_camera(&mut entities, Some(&vec![5]));
    assert_eq!(entities[0].distance, LODDistance(5));
    assert_eq!(entities[1].distance, LODDistance(2_000));
}

#[test]
fn reset_budget_keeps_cap() {
    let mut b = LODProcessingBudget::new(3);
    assert!(b.try_consume());
    assert!(b.try_consume());
    reset_lod_budget(&mut b);
    assert_eq!(b, LODProcessingBudget { max_operations_per_frame: 3, current_operations: 0 });
}

#[test]
fn continuous_updates_advance_playback() {
    let table = create_standard_lod_levels();
    let mut entities = vec![TrackedEntity {
        entity: 5,
        distance: LODDistance(0),
        state: LODState::new(table[0]),
        data: VATLODData::default(),
    }];
    update_lod_representations::<VATLODStrategy>(2_500_000_000, &mut entities);
    assert_eq!(entities[0].data.current_frame, 15_000_000);

    let mut animated = vec![entity_at(6, 0, table[0])];
    update_lod_representations::<AnimationLODStrategy>(2_500_000_000, &mut animated);
    assert_eq!(animated[0].data, AnimationLODData::default());
}
