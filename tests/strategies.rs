use lod_system::level::{create_aggressive_lod_levels, create_standard_lod_levels, LODLevel};
use lod_system::strategies::{
    AnimationLODConfig, AnimationLODData, AnimationLODStrategy, HybridLODConfig, HybridLODData,
    HybridLODStrategy, LODStrategyType, MeshSwapLODConfig, MeshSwapLODData, MeshSwapLODStrategy,
    VATLODConfig, VATLODData, VATLODStrategy,
};
use lod_system::strategy::{AttachmentKind, AttachmentOp, LODCommand, LODStrategy};
use lod_system::vat::{calculate_vat_texture_dimensions, VATAnimationState};

fn ops(commands: &[LODCommand]) -> Vec<AttachmentOp> {
    commands.iter().map(|c| c.op).collect()
}

#[test]
fn lookup_takes_first_matching_row() {
    let table = create_standard_lod_levels();
    assert_eq!(LODLevel::from_distance(0, &table), Some(table[0]));
    assert_eq!(LODLevel::from_distance(9_999, &table), Some(table[0]));
    assert_eq!(LODLevel::from_distance(10_000, &table), Some(table[1]));
    assert_eq!(LODLevel::from_distance(30_000, &table), Some(table[2]));
    assert_eq!(LODLevel::from_distance(1_000_000, &table), Some(table[3]));
    assert_eq!(LODLevel::from_distance(u64::MAX, &table), None);
    assert_eq!(LODLevel::from_distance(5, &Vec::new()), None);

    let overlapping = vec![LODLevel::new(4, 0, 100, 1), LODLevel::new(5, 50, 200, 1)];
    assert_eq!(LODLevel::from_distance(75, &overlapping), Some(overlapping[0]));
    assert_eq!(LODLevel::from_distance(150, &overlapping), Some(overlapping[1]));
    // Same inputs, same answer.
    assert_eq!(LODLevel::from_distance(75, &overlapping), LODLevel::from_distance(75, &overlapping));
}

#[test]
fn lookup_level_grows_with_distance() {
    let table = create_aggressive_lod_levels();
    let mut last = 0u8;
    for d in (0..40_000u64).step_by(250) {
        let l = LODLevel::from_distance(d, &table).unwrap().level;
        assert!(l >= last);
        last = l;
    }
    assert_eq!(table[1], LODLevel { level: 1, min_distance: 5_000, max_distance: 15_000, update_frequency: 20 });
}

#[test]
fn update_periods() {
    let table = create_standard_lod_levels();
    assert_eq!(table[0].update_period(), 16_666_666);
    assert_eq!(table[2].update_period(), 100_000_000);
    assert_eq!(table[3].update_period(), 1_000_000_000);
    assert_eq!(LODLevel::new(0, 0, 1, 0).update_period(), u64::MAX);
}

#[test]
fn animation_levels() {
    let cfg = AnimationLODConfig::default();
    let expected = [(0u8, true, 60u32, true), (1, true, 10, true), (2, false, 2, true), (3, false, 7, false), (9, false, 7, false)];
    for (level, enabled, rate, visible) in expected {
        let mut data = AnimationLODData { animation_enabled: true, update_rate: 7 };
        let mut commands = Vec::new();
        AnimationLODStrategy::transition(&mut commands, 11, 0, level, &cfg, &mut data);
        assert_eq!(data, AnimationLODData { animation_enabled: enabled, update_rate: rate });
        assert_eq!(commands, vec![LODCommand { entity: 11, op: AttachmentOp::SetVisibility(visible) }]);
    }
    assert!(!AnimationLODStrategy::requires_update());
}

#[test]
fn vat_transition_uses_level_entry_or_hides() {
    let mut cfg = VATLODConfig::default();
    cfg.texture_handles = vec![100, 101, 102];
    let mut data = VATLODData::default();
    let mut commands = Vec::new();
    VATLODStrategy::transition(&mut commands, 2, 0, 1, &cfg, &mut data);
    assert_eq!(data, VATLODData { current_frame: 0, frame_count: 30, playback_speed: 500, texture_index: 1 });
    assert_eq!(
        ops(&commands),
        vec![AttachmentOp::Insert(AttachmentKind::VatTexture, 101), AttachmentOp::SetVisibility(true)]
    );

    commands.clear();
    VATLODStrategy::transition(&mut commands, 2, 1, 3, &cfg, &mut data);
    assert_eq!(data.texture_index, 1);
    assert_eq!(ops(&commands), vec![AttachmentOp::SetVisibility(false)]);

    // A table with fewer frame counts than textures hides the level.
    cfg.frame_counts = vec![60];
    commands.clear();
    VATLODStrategy::transition(&mut commands, 2, 0, 2, &cfg, &mut data);
    assert_eq!(ops(&commands), vec![AttachmentOp::SetVisibility(false)]);
    assert!(VATLODStrategy::requires_update());
}

#[test]
fn vat_cursor_wraps_and_freezes() {
    let mut data = VATLODData { current_frame: 59_000_000, frame_count: 60, playback_speed: 1000, texture_index: 0 };
    VATLODStrategy::update(1_000_000_000, 0, 0, &mut data);
    assert_eq!(data.current_frame, 29_000_000);
    for _ in 0..50 {
        VATLODStrategy::update(123_456_789, 0, 0, &mut data);
        assert!(data.current_frame < 60 * 1_000_000);
    }
    let mut stopped = VATLODData { current_frame: 1_234, frame_count: 1, playback_speed: 0, texture_index: 3 };
    VATLODStrategy::update(u64::MAX, 0, 0, &mut stopped);
    assert_eq!(stopped.current_frame, 1_234);
    let mut half = VATLODData { current_frame: 0, frame_count: 30, playback_speed: 500, texture_index: 1 };
    VATLODStrategy::update(1_000_000_000, 0, 0, &mut half);
    assert_eq!(half.current_frame, 15_000_000);
}

#[test]
fn mesh_swap_prefers_scenes_then_meshes() {
    let cfg = MeshSwapLODConfig { mesh_handles: vec![10, 11, 12], material_handles: vec![20], scene_handles: vec![30, 31] };
    let mut data = MeshSwapLODData::default();
    let mut commands = Vec::new();
    MeshSwapLODStrategy::transition(&mut commands, 1, 0, 1, &cfg, &mut data);
    assert_eq!(data, MeshSwapLODData { current_mesh_index: 0, current_scene_index: 1 });
    assert_eq!(ops(&commands), vec![AttachmentOp::Insert(AttachmentKind::Scene, 31), AttachmentOp::SetVisibility(true)]);

    commands.clear();
    MeshSwapLODStrategy::transition(&mut commands, 1, 1, 2, &cfg, &mut data);
    assert_eq!(data, MeshSwapLODData { current_mesh_index: 2, current_scene_index: 1 });
    assert_eq!(ops(&commands), vec![AttachmentOp::Insert(AttachmentKind::Mesh, 12), AttachmentOp::SetVisibility(true)]);

    commands.clear();
    MeshSwapLODStrategy::transition(&mut commands, 1, 2, 3, &cfg, &mut data);
    assert_eq!(ops(&commands), vec![AttachmentOp::SetVisibility(false)]);

    let meshes = MeshSwapLODConfig { mesh_handles: vec![10], material_handles: vec![20], scene_handles: Vec::new() };
    commands.clear();
    MeshSwapLODStrategy::transition(&mut commands, 1, 1, 0, &meshes, &mut data);
    assert_eq!(
        ops(&commands),
        vec![
            AttachmentOp::Insert(AttachmentKind::Mesh, 10),
            AttachmentOp::Insert(AttachmentKind::Material, 20),
            AttachmentOp::SetVisibility(true)
        ]
    );
}

#[test]
fn hybrid_selection_rule() {
    assert_eq!(HybridLODStrategy::select_strategy(0, 2), LODStrategyType::Animation);
    assert_eq!(HybridLODStrategy::select_strategy(1, 0), LODStrategyType::MeshSwap);
    assert_eq!(HybridLODStrategy::select_strategy(2, 2), LODStrategyType::VAT);
    assert_eq!(HybridLODStrategy::select_strategy(2, 3), LODStrategyType::MeshSwap);
    assert_eq!(HybridLODStrategy::select_strategy(2, 99), LODStrategyType::MeshSwap);
    assert_eq!(HybridLODStrategy::select_strategy(3, 2), LODStrategyType::MeshSwap);
    assert_eq!(HybridLODStrategy::select_strategy(7, 0), LODStrategyType::MeshSwap);
}

fn hybrid_config() -> HybridLODConfig {
    let mut cfg = HybridLODConfig::default();
    cfg.use_vat_at_level = 2;
    cfg.vat_config.texture_handles = vec![40, 41, 42];
    cfg.mesh_swap_config.scene_handles = vec![30, 31, 32];
    cfg
}

#[test]
fn hybrid_leaving_animation_removes_driver_first() {
    let cfg = hybrid_config();
    let mut data = HybridLODData::default();
    let mut commands = Vec::new();
    HybridLODStrategy::transition(&mut commands, 8, 0, 1, &cfg, &mut data);
    assert_eq!(data.current_strategy, LODStrategyType::MeshSwap);
    assert_eq!(
        ops(&commands),
        vec![
            AttachmentOp::Remove(AttachmentKind::AnimationPlayer),
            AttachmentOp::Remove(AttachmentKind::AnimationTransitions),
            AttachmentOp::Insert(AttachmentKind::Scene, 31),
            AttachmentOp::SetVisibility(true),
            AttachmentOp::SetVisibility(true),
        ]
    );
    assert_eq!(data.animation_data, AnimationLODData { animation_enabled: true, update_rate: 10 });

    commands.clear();
    HybridLODStrategy::transition(&mut commands, 8, 1, 2, &cfg, &mut data);
    assert_eq!(data.current_strategy, LODStrategyType::VAT);
    assert_eq!(
        ops(&commands),
        vec![
            AttachmentOp::Remove(AttachmentKind::Scene),
            AttachmentOp::Remove(AttachmentKind::Mesh),
            AttachmentOp::Remove(AttachmentKind::Material),
            AttachmentOp::Insert(AttachmentKind::VatTexture, 42),
            AttachmentOp::SetVisibility(true),
        ]
    );
    assert_eq!(data.vat_data.frame_count, 15);

    commands.clear();
    HybridLODStrategy::transition(&mut commands, 8, 2, 0, &cfg, &mut data);
    assert_eq!(data.current_strategy, LODStrategyType::Animation);
    assert_eq!(
        ops(&commands),
        vec![
            AttachmentOp::Remove(AttachmentKind::VatTexture),
            AttachmentOp::SetVisibility(true),
            AttachmentOp::Insert(AttachmentKind::Scene, 30),
            AttachmentOp::SetVisibility(true),
        ]
    );
}

#[test]
fn hybrid_same_strategy_tears_nothing_down() {
    let cfg = hybrid_config();
    let mut data = HybridLODData::default();
    data.current_strategy = LODStrategyType::MeshSwap;
    let mut commands = Vec::new();
    HybridLODStrategy::transition(&mut commands, 8, 1, 3, &cfg, &mut data);
    assert_eq!(ops(&commands), vec![AttachmentOp::SetVisibility(false)]);
    assert_eq!(data.current_strategy, LODStrategyType::MeshSwap);
}

#[test]
fn hybrid_update_only_while_playing_textures() {
    let cfg = hybrid_config();
    let mut data = HybridLODData::default();
    HybridLODStrategy::update(1_000_000_000, 0, 0, &mut data);
    assert_eq!(data, HybridLODData::default());
    let mut commands = Vec::new();
    HybridLODStrategy::transition(&mut commands, 8, 0, 2, &cfg, &mut data);
    HybridLODStrategy::update(1_000_000_000, 0, 2, &mut data);
    assert_eq!(data.vat_data.current_frame, 7_500_000);
    assert!(HybridLODStrategy::requires_update());
}

#[test]
fn texture_dimensions() {
    assert_eq!(calculate_vat_texture_dimensions(5000, 60), (1024, 1024));
    assert_eq!(calculate_vat_texture_dimensions(0, 0), (1, 1));
    assert_eq!(calculate_vat_texture_dimensions(1, 1), (1, 1));
    assert_eq!(calculate_vat_texture_dimensions(3, 3), (4, 4));
    assert_eq!(calculate_vat_texture_dimensions(2, 3), (4, 2));
    assert_eq!(calculate_vat_texture_dimensions(10, 1), (4, 4));
    assert_eq!(calculate_vat_texture_dimensions(5, 1), (4, 2));
    assert_eq!(calculate_vat_texture_dimensions(100, 3), (32, 32));
    assert_eq!(calculate_vat_texture_dimensions(7, 1), (4, 4));
    assert_eq!(calculate_vat_texture_dimensions(2500, 30), (512, 512));
}

#[test]
fn animation_state_loops_or_stops() {
    let mut s = VATAnimationState::default();
    s.advance(1_000_000_000, 60);
    assert_eq!(s.current_frame, 30_000_000);
    s.advance(2_000_000_000, 60);
    assert_eq!(s.current_frame, 30_000_000);

    let mut once = VATAnimationState { current_frame: 0, playback_speed: 1000, loop_animation: false, is_playing: true };
    once.advance(10_000_000_000, 60);
    assert_eq!(once.current_frame, 59_000_000);

    let mut paused = VATAnimationState { current_frame: 5, playback_speed: 1000, loop_animation: true, is_playing: false };
    paused.advance(10_000_000_000, 60);
    assert_eq!(paused.current_frame, 5);
}

#[test]
fn repeated_transition_keeps_data() {
    let cfg = hybrid_config();
    let mut data = HybridLODData::default();
    let mut commands = Vec::new();
    HybridLODStrategy::transition(&mut commands, 8, 0, 2, &cfg, &mut data);
    let once = data;
    commands.clear();
    HybridLODStrategy::transition(&mut commands, 8, 2, 2, &cfg, &mut data);
    assert_eq!(data, once);
    assert_eq!(
        ops(&commands),
        vec![AttachmentOp::Insert(AttachmentKind::VatTexture, 42), AttachmentOp::SetVisibility(true)]
    );

    let mut swap = MeshSwapLODData::default();
    let swap_cfg = MeshSwapLODConfig { mesh_handles: vec![1, 2], material_handles: Vec::new(), scene_handles: Vec::new() };
    MeshSwapLODStrategy::transition(&mut commands, 8, 0, 1, &swap_cfg, &mut swap);
    let first = swap;
    MeshSwapLODStrategy::transition(&mut commands, 8, 1, 1, &swap_cfg, &mut swap);
    assert_eq!(swap, first);
}
