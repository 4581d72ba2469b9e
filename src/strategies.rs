//! The concrete strategies: animation rate, vertex-texture playback,
//! representation swap, and a hybrid that composes them by level.

use vstd::prelude::*;
use crate::strategy::{
    AttachmentKind, AttachmentOp, LODCommand, LODStrategy, apply_ops, installs, push_op, tagged,
};
use crate::strategy::{lemma_apply_append, lemma_apply_keeps_absent, lemma_apply_single};

verus! {

/// Subdivisions of one frame in a playback cursor.
pub const FRAME_UNITS: u64 = 1_000_000;

/// Frames per second that a playback speed of one plays.
pub const BASE_FRAME_RATE: u64 = 30;

/// A playback speed of one, in thousandths.
pub const SPEED_SCALE: u64 = 1000;

/// The first level at which an entity is culled.
pub const CULL_LEVEL: u8 = 3;

// ---------------------------------------------------------------- animation

/// Levels 0, 1 and 2 animate at full, reduced and low rate; from level 3 on
/// the entity is hidden.
pub struct AnimationLODStrategy;

/// Distances, in thousandths of a unit, at which animation quality drops.
#[derive(Clone, Copy, Debug, PartialEq, Eq, Structural)]
pub struct AnimationLODConfig {
    pub high_quality_distance: u64,
    pub medium_quality_distance: u64,
    pub low_quality_distance: u64,
}

impl Default for AnimationLODConfig {
    fn default() -> (r: AnimationLODConfig)
        ensures
            r == (AnimationLODConfig { high_quality_distance: 0, medium_quality_distance: 0, low_quality_distance: 0 }),
    {
        AnimationLODConfig { high_quality_distance: 0, medium_quality_distance: 0, low_quality_distance: 0 }
    }
}

/// Whether the entity animates, and at how many updates per second.
#[derive(Clone, Copy, Debug, PartialEq, Eq, Structural)]
pub struct AnimationLODData {
    pub animation_enabled: bool,
    pub update_rate: u32,
}

impl Default for AnimationLODData {
    fn default() -> (r: AnimationLODData)
        ensures
            r == (AnimationLODData { animation_enabled: false, update_rate: 0 }),
    {
        AnimationLODData { animation_enabled: false, update_rate: 0 }
    }
}

pub open spec fn animation_data_at(to_level: u8, data: AnimationLODData) -> AnimationLODData {
    if to_level == 0 {
        AnimationLODData { animation_enabled: true, update_rate: 60 }
    } else if to_level == 1 {
        AnimationLODData { animation_enabled: true, update_rate: 10 }
    } else if to_level == 2 {
        AnimationLODData { animation_enabled: false, update_rate: 2 }
    } else {
        AnimationLODData { animation_enabled: false, ..data }
    }
}

pub open spec fn animation_ops_at(to_level: u8) -> Seq<AttachmentOp> {
    seq![AttachmentOp::SetVisibility(to_level < CULL_LEVEL)]
}

impl LODStrategy for AnimationLODStrategy {
    type Config = AnimationLODConfig;
    type ComponentData = AnimationLODData;

    open spec fn transition_data(from_level: u8, to_level: u8, config: AnimationLODConfig, data: AnimationLODData) -> AnimationLODData {
        animation_data_at(to_level, data)
    }

    open spec fn transition_ops(from_level: u8, to_level: u8, config: AnimationLODConfig, data: AnimationLODData) -> Seq<AttachmentOp> {
        animation_ops_at(to_level)
    }

    open spec fn updated(delta: u64, current_level: u8, data: AnimationLODData) -> AnimationLODData {
        data
    }

    open spec fn continuous() -> bool {
        false
    }

    fn transition(
        commands: &mut Vec<LODCommand>,
        entity: u64,
        from_level: u8,
        to_level: u8,
        config: &AnimationLODConfig,
        component_data: &mut AnimationLODData,
    ) {
        if to_level == 0 {
            component_data.animation_enabled = true;
            component_data.update_rate = 60;
        } else if to_level == 1 {
            component_data.animation_enabled = true;
            component_data.update_rate = 10;
        } else if to_level == 2 {
            component_data.animation_enabled = false;
            component_data.update_rate = 2;
        } else {
            component_data.animation_enabled = false;
        }
        push_op(commands, entity, AttachmentOp::SetVisibility(to_level < CULL_LEVEL));
    }

    fn update(delta: u64, entity: u64, current_level: u8, component_data: &mut AnimationLODData) {
    }

    fn requires_update() -> (r: bool) {
        false
    }
}

// ------------------------------------------------------ vertex-texture playback

/// Each level plays its own precomputed texture with its own frame count and
/// speed; a level without a complete entry hides the entity.
pub struct VATLODStrategy;

/// Per level: the texture slot, the frame count, and the playback speed in
/// thousandths.
pub struct VATLODConfig {
    pub texture_handles: Vec<u64>,
    pub frame_counts: Vec<u32>,
    pub playback_speeds: Vec<u32>,
}

impl Default for VATLODConfig {
    fn default() -> (r: VATLODConfig)
        ensures
            r.texture_handles@ == Seq::<u64>::empty(),
            r.frame_counts@ == seq![60u32, 30, 15, 1],
            r.playback_speeds@ == seq![1000u32, 500, 250, 0],
    {
        let r = VATLODConfig {
            texture_handles: Vec::new(),
            frame_counts: vec![60, 30, 15, 1],
            playback_speeds: vec![1000, 500, 250, 0],
        };
        assert(r.texture_handles@ =~= Seq::<u64>::empty());
        assert(r.frame_counts@ =~= seq![60u32, 30, 15, 1]);
        assert(r.playback_speeds@ =~= seq![1000u32, 500, 250, 0]);
        r
    }
}

/// The playback cursor, in millionths of a frame, and what is playing.
#[derive(Clone, Copy, Debug, PartialEq, Eq, Structural)]
pub struct VATLODData {
    pub current_frame: u64,
    pub frame_count: u32,
    pub playback_speed: u32,
    pub texture_index: usize,
}

impl Default for VATLODData {
    fn default() -> (r: VATLODData)
        ensures
            r == (VATLODData { current_frame: 0, frame_count: 60, playback_speed: 1000, texture_index: 0 }),
    {
        VATLODData { current_frame: 0, frame_count: 60, playback_speed: 1000, texture_index: 0 }
    }
}

/// Whether `config` has a texture, a frame count and a speed for level `i`.
pub open spec fn has_vat_entry(config: VATLODConfig, i: int) -> bool {
    &&& i < config.texture_handles@.len()
    &&& i < config.frame_counts@.len()
    &&& i < config.playback_speeds@.len()
}

pub open spec fn vat_data_at(to_level: u8, config: VATLODConfig, data: VATLODData) -> VATLODData {
    let i = to_level as int;
    if has_vat_entry(config, i) {
        VATLODData {
            texture_index: to_level as usize,
            frame_count: config.frame_counts@[i],
            playback_speed: config.playback_speeds@[i],
            ..data
        }
    } else {
        data
    }
}

pub open spec fn vat_ops_at(to_level: u8, config: VATLODConfig) -> Seq<AttachmentOp> {
    let i = to_level as int;
    if has_vat_entry(config, i) {
        seq![
            AttachmentOp::Insert(AttachmentKind::VatTexture, config.texture_handles@[i]),
            AttachmentOp::SetVisibility(true),
        ]
    } else {
        seq![AttachmentOp::SetVisibility(false)]
    }
}

/// How far, in millionths of a frame, a cursor moves in `delta` nanoseconds
/// at `speed` thousandths.
pub open spec fn cursor_advance(delta: u64, speed: u32) -> int {
    (delta as int * speed as int * BASE_FRAME_RATE as int) / ((NANOS_PER_FRAME_UNIT * SPEED_SCALE) as int)
}

/// Nanoseconds per second divided by the frame subdivisions.
pub const NANOS_PER_FRAME_UNIT: u64 = 1000;

/// The data after a frame: a running cursor moves and wraps within the frame
/// count; a stopped one, or one with no frames, stays.
pub open spec fn vat_advanced(delta: u64, data: VATLODData) -> VATLODData {
    if data.playback_speed > 0 && data.frame_count > 0 {
        VATLODData {
            current_frame: ((data.current_frame as int + cursor_advance(delta, data.playback_speed)) % (
            data.frame_count as int * FRAME_UNITS as int)) as u64,
            ..data
        }
    } else {
        data
    }
}

/// Moves a playback cursor on by one frame of `delta` nanoseconds.
pub fn advance_cursor(delta: u64, data: &mut VATLODData)
    ensures
        *final(data) == vat_advanced(delta, *old(data)),
{
    if data.playback_speed > 0 && data.frame_count > 0 {
        proof {
            assert((delta as int) * (data.playback_speed as int) <= 0xffff_ffff_ffff_ffff * 0xffff_ffff)
                by (nonlinear_arith)
                requires
                    delta as int <= 0xffff_ffff_ffff_ffff,
                    data.playback_speed as int <= 0xffff_ffff,
                    delta >= 0,
                    data.playback_speed >= 0,
            ;
            assert((data.frame_count as int) * (FRAME_UNITS as int) <= 0xffff_ffff * 1_000_000) by (nonlinear_arith)
                requires
                    data.frame_count as int <= 0xffff_ffff,
            ;
        }
        let scaled: u128 = (delta as u128) * (data.playback_speed as u128);
        proof {
            let m: int = 0xffff_ffff_ffff_ffff as int * 0xffff_ffff as int;
            assert(m * 30 < 0x1_0000_0000_0000_0000_0000_0000_0000 - 0x1_0000_0000_0000_0000);
            assert(scaled as int * 30 <= m * 30) by (nonlinear_arith)
                requires
                    scaled as int <= m,
            ;
        }
        let advance: u128 = scaled * (BASE_FRAME_RATE as u128) / ((NANOS_PER_FRAME_UNIT * SPEED_SCALE) as u128);
        let span: u128 = (data.frame_count as u128) * (FRAME_UNITS as u128);
        let next: u128 = ((data.current_frame as u128) + advance) % span;
        data.current_frame = next as u64;
    }
}

impl LODStrategy for VATLODStrategy {
    type Config = VATLODConfig;
    type ComponentData = VATLODData;

    open spec fn transition_data(from_level: u8, to_level: u8, config: VATLODConfig, data: VATLODData) -> VATLODData {
        vat_data_at(to_level, config, data)
    }

    open spec fn transition_ops(from_level: u8, to_level: u8, config: VATLODConfig, data: VATLODData) -> Seq<AttachmentOp> {
        vat_ops_at(to_level, config)
    }

    open spec fn updated(delta: u64, current_level: u8, data: VATLODData) -> VATLODData {
        vat_advanced(delta, data)
    }

    open spec fn continuous() -> bool {
        true
    }

    fn transition(
        commands: &mut Vec<LODCommand>,
        entity: u64,
        from_level: u8,
        to_level: u8,
        config: &VATLODConfig,
        component_data: &mut VATLODData,
    ) {
        let i = to_level as usize;
        if i < config.texture_handles.len() && i < config.frame_counts.len() && i < config.playback_speeds.len() {
            component_data.texture_index = i;
            component_data.frame_count = config.frame_counts[i];
            component_data.playback_speed = config.playback_speeds[i];
            push_op(commands, entity, AttachmentOp::Insert(AttachmentKind::VatTexture, config.texture_handles[i]));
            push_op(commands, entity, AttachmentOp::SetVisibility(true));
            proof {
                assert(seq![
                    AttachmentOp::Insert(AttachmentKind::VatTexture, config.texture_handles@[i as int]),
                    AttachmentOp::SetVisibility(true),
                ] =~= seq![AttachmentOp::Insert(AttachmentKind::VatTexture, config.texture_handles@[i as int])]
                    + seq![AttachmentOp::SetVisibility(true)]);
                crate::strategy::lemma_tagged_append(
                    entity,
                    seq![AttachmentOp::Insert(AttachmentKind::VatTexture, config.texture_handles@[i as int])],
                    seq![AttachmentOp::SetVisibility(true)],
                );
            }
        } else {
            push_op(commands, entity, AttachmentOp::SetVisibility(false));
        }
    }

    fn update(delta: u64, entity: u64, current_level: u8, component_data: &mut VATLODData) {
        advance_cursor(delta, component_data);
    }

    fn requires_update() -> (r: bool) {
        true
    }
}

/// While it runs, a playback cursor always lies within its frame count; while
/// it is stopped, no frame length moves it.
pub proof fn lemma_vat_wrap(delta: u64, data: VATLODData)
    ensures
        data.playback_speed > 0 && data.frame_count > 0 ==> vat_advanced(delta, data).current_frame
            < data.frame_count as int * FRAME_UNITS as int,
        data.playback_speed == 0 ==> vat_advanced(delta, data).current_frame == data.current_frame,
{
}

// ------------------------------------------------------- representation swap

/// Each level has its own full scene, or else its own mesh and material; a
/// level beyond every table hides the entity.
pub struct MeshSwapLODStrategy;

/// Per level: mesh, material and scene slots. Scenes win when present.
pub struct MeshSwapLODConfig {
    pub mesh_handles: Vec<u64>,
    pub material_handles: Vec<u64>,
    pub scene_handles: Vec<u64>,
}

impl Default for MeshSwapLODConfig {
    fn default() -> (r: MeshSwapLODConfig)
        ensures
            r.mesh_handles@.len() == 0,
            r.material_handles@.len() == 0,
            r.scene_handles@.len() == 0,
    {
        MeshSwapLODConfig { mesh_handles: Vec::new(), material_handles: Vec::new(), scene_handles: Vec::new() }
    }
}

/// Which mesh and which scene the entity shows.
#[derive(Clone, Copy, Debug, PartialEq, Eq, Structural)]
pub struct MeshSwapLODData {
    pub current_mesh_index: usize,
    pub current_scene_index: usize,
}

impl Default for MeshSwapLODData {
    fn default() -> (r: MeshSwapLODData)
        ensures
            r == (MeshSwapLODData { current_mesh_index: 0, current_scene_index: 0 }),
    {
        MeshSwapLODData { current_mesh_index: 0, current_scene_index: 0 }
    }
}

pub open spec fn mesh_swap_data_at(to_level: u8, config: MeshSwapLODConfig, data: MeshSwapLODData) -> MeshSwapLODData {
    let i = to_level as int;
    if i < config.scene_handles@.len() {
        MeshSwapLODData { current_scene_index: to_level as usize, ..data }
    } else if i < config.mesh_handles@.len() {
        MeshSwapLODData { current_mesh_index: to_level as usize, ..data }
    } else {
        data
    }
}

pub open spec fn mesh_swap_ops_at(to_level: u8, config: MeshSwapLODConfig) -> Seq<AttachmentOp> {
    let i = to_level as int;
    if i < config.scene_handles@.len() {
        seq![
            AttachmentOp::Insert(AttachmentKind::Scene, config.scene_handles@[i]),
            AttachmentOp::SetVisibility(true),
        ]
    } else if i < config.mesh_handles@.len() {
        seq![AttachmentOp::Insert(AttachmentKind::Mesh, config.mesh_handles@[i])] + (if i
            < config.material_handles@.len() {
            seq![AttachmentOp::Insert(AttachmentKind::Material, config.material_handles@[i])]
        } else {
            Seq::empty()
        }) + seq![AttachmentOp::SetVisibility(true)]
    } else {
        seq![AttachmentOp::SetVisibility(false)]
    }
}

impl LODStrategy for MeshSwapLODStrategy {
    type Config = MeshSwapLODConfig;
    type ComponentData = MeshSwapLODData;

    open spec fn transition_data(from_level: u8, to_level: u8, config: MeshSwapLODConfig, data: MeshSwapLODData) -> MeshSwapLODData {
        mesh_swap_data_at(to_level, config, data)
    }

    open spec fn transition_ops(from_level: u8, to_level: u8, config: MeshSwapLODConfig, data: MeshSwapLODData) -> Seq<AttachmentOp> {
        mesh_swap_ops_at(to_level, config)
    }

    open spec fn updated(delta: u64, current_level: u8, data: MeshSwapLODData) -> MeshSwapLODData {
        data
    }

    open spec fn continuous() -> bool {
        false
    }

    fn transition(
        commands: &mut Vec<LODCommand>,
        entity: u64,
        from_level: u8,
        to_level: u8,
        config: &MeshSwapLODConfig,
        component_data: &mut MeshSwapLODData,
    ) {
        let i = to_level as usize;
        if i < config.scene_handles.len() {
            component_data.current_scene_index = i;
            let op = AttachmentOp::Insert(AttachmentKind::Scene, config.scene_handles[i]);
            push_op(commands, entity, op);
            push_op(commands, entity, AttachmentOp::SetVisibility(true));
            proof {
                assert(seq![op, AttachmentOp::SetVisibility(true)] =~= seq![op] + seq![AttachmentOp::SetVisibility(true)]);
                crate::strategy::lemma_tagged_append(entity, seq![op], seq![AttachmentOp::SetVisibility(true)]);
            }
        } else if i < config.mesh_handles.len() {
            component_data.current_mesh_index = i;
            let mesh = AttachmentOp::Insert(AttachmentKind::Mesh, config.mesh_handles[i]);
            push_op(commands, entity, mesh);
            let ghost mid: Seq<AttachmentOp>;
            if i < config.material_handles.len() {
                let material = AttachmentOp::Insert(AttachmentKind::Material, config.material_handles[i]);
                push_op(commands, entity, material);
                proof {
                    mid = seq![material];
                    crate::strategy::lemma_tagged_append(entity, seq![mesh], mid);
                }
            } else {
                proof {
                    mid = Seq::empty();
                    assert(seq![mesh] + mid =~= seq![mesh]);
                }
            }
            push_op(commands, entity, AttachmentOp::SetVisibility(true));
            proof {
                crate::strategy::lemma_tagged_append(entity, seq![mesh] + mid, seq![AttachmentOp::SetVisibility(true)]);
            }
        } else {
            push_op(commands, entity, AttachmentOp::SetVisibility(false));
        }
    }

    fn update(delta: u64, entity: u64, current_level: u8, component_data: &mut MeshSwapLODData) {
    }

    fn requires_update() -> (r: bool) {
        false
    }
}

// ------------------------------------------------------------------- hybrid

/// Picks one of the other strategies by level and delegates to it, removing
/// the attachments of the previous one first whenever the choice changes.
pub struct HybridLODStrategy;

/// The configurations of the three sub-strategies and the level from which
/// vertex-texture playback takes over (below the cull level).
pub struct HybridLODConfig {
    pub animation_config: AnimationLODConfig,
    pub vat_config: VATLODConfig,
    pub mesh_swap_config: MeshSwapLODConfig,
    pub use_vat_at_level: u8,
}

impl Default for HybridLODConfig {
    fn default() -> (r: HybridLODConfig)
        ensures
            r.animation_config == (AnimationLODConfig {
                high_quality_distance: 0,
                medium_quality_distance: 0,
                low_quality_distance: 0,
            }),
            r.vat_config.texture_handles@.len() == 0,
            r.vat_config.frame_counts@ == seq![60u32, 30, 15, 1],
            r.vat_config.playback_speeds@ == seq![1000u32, 500, 250, 0],
            r.mesh_swap_config.mesh_handles@.len() == 0,
            r.mesh_swap_config.material_handles@.len() == 0,
            r.mesh_swap_config.scene_handles@.len() == 0,
            r.use_vat_at_level == 0,
    {
        HybridLODConfig {
            animation_config: AnimationLODConfig::default(),
            vat_config: VATLODConfig::default(),
            mesh_swap_config: MeshSwapLODConfig::default(),
            use_vat_at_level: 0,
        }
    }
}

/// The sub-strategy that a hybrid entity is using.
#[derive(Clone, Copy, Debug, PartialEq, Eq, Structural)]
pub enum LODStrategyType {
    Animation,
    VAT,
    MeshSwap,
}

impl Default for LODStrategyType {
    fn default() -> (r: LODStrategyType)
        ensures
            r == LODStrategyType::Animation,
    {
        LODStrategyType::Animation
    }
}

/// The data of all three sub-strategies and which one is active.
#[derive(Clone, Copy, Debug, PartialEq, Eq, Structural)]
pub struct HybridLODData {
    pub animation_data: AnimationLODData,
    pub vat_data: VATLODData,
    pub mesh_swap_data: MeshSwapLODData,
    pub current_strategy: LODStrategyType,
}

impl Default for HybridLODData {
    fn default() -> (r: HybridLODData)
        ensures
            r == (HybridLODData {
                animation_data: AnimationLODData { animation_enabled: false, update_rate: 0 },
                vat_data: VATLODData { current_frame: 0, frame_count: 60, playback_speed: 1000, texture_index: 0 },
                mesh_swap_data: MeshSwapLODData { current_mesh_index: 0, current_scene_index: 0 },
                current_strategy: LODStrategyType::Animation,
            }),
    {
        HybridLODData {
            animation_data: AnimationLODData::default(),
            vat_data: VATLODData::default(),
            mesh_swap_data: MeshSwapLODData::default(),
            current_strategy: LODStrategyType::default(),
        }
    }
}

/// Level 0 animates; level 1, and any level below the switch level, swaps
/// representations; the levels from the switch level up to the cull level
/// play vertex textures; culled levels swap representations.
pub open spec fn strategy_for(to_level: u8, use_vat_at_level: u8) -> LODStrategyType {
    if to_level == 0 {
        LODStrategyType::Animation
    } else if to_level == 1 || to_level < use_vat_at_level {
        LODStrategyType::MeshSwap
    } else if to_level < CULL_LEVEL {
        LODStrategyType::VAT
    } else {
        LODStrategyType::MeshSwap
    }
}

/// The sub-strategy that owns attachments of kind `k`.
pub open spec fn owner_of(k: AttachmentKind) -> LODStrategyType {
    match k {
        AttachmentKind::AnimationPlayer => LODStrategyType::Animation,
        AttachmentKind::AnimationTransitions => LODStrategyType::Animation,
        AttachmentKind::VatTexture => LODStrategyType::VAT,
        _ => LODStrategyType::MeshSwap,
    }
}

/// The removals of every attachment that sub-strategy `s` owns.
pub open spec fn teardown_ops(s: LODStrategyType) -> Seq<AttachmentOp> {
    match s {
        LODStrategyType::Animation => seq![
            AttachmentOp::Remove(AttachmentKind::AnimationPlayer),
            AttachmentOp::Remove(AttachmentKind::AnimationTransitions),
        ],
        LODStrategyType::VAT => seq![AttachmentOp::Remove(AttachmentKind::VatTexture)],
        LODStrategyType::MeshSwap => seq![
            AttachmentOp::Remove(AttachmentKind::Scene),
            AttachmentOp::Remove(AttachmentKind::Mesh),
            AttachmentOp::Remove(AttachmentKind::Material),
        ],
    }
}

/// What the chosen sub-strategy asks for, after any teardown.
pub open spec fn hybrid_install_ops(from_level: u8, to_level: u8, config: HybridLODConfig) -> Seq<AttachmentOp> {
    match strategy_for(to_level, config.use_vat_at_level) {
        LODStrategyType::Animation => animation_ops_at(to_level) + mesh_swap_ops_at(to_level, config.mesh_swap_config),
        LODStrategyType::MeshSwap => mesh_swap_ops_at(to_level, config.mesh_swap_config) + (if to_level <= 1 {
            animation_ops_at(to_level)
        } else {
            Seq::empty()
        }),
        LODStrategyType::VAT => vat_ops_at(to_level, config.vat_config),
    }
}

pub open spec fn hybrid_ops(from_level: u8, to_level: u8, config: HybridLODConfig, data: HybridLODData) -> Seq<AttachmentOp> {
    let next = strategy_for(to_level, config.use_vat_at_level);
    (if data.current_strategy != next {
        teardown_ops(data.current_strategy)
    } else {
        Seq::empty()
    }) + hybrid_install_ops(from_level, to_level, config)
}

pub open spec fn hybrid_data(from_level: u8, to_level: u8, config: HybridLODConfig, data: HybridLODData) -> HybridLODData {
    let next = strategy_for(to_level, config.use_vat_at_level);
    match next {
        LODStrategyType::Animation => HybridLODData {
            animation_data: animation_data_at(to_level, data.animation_data),
            mesh_swap_data: mesh_swap_data_at(to_level, config.mesh_swap_config, data.mesh_swap_data),
            current_strategy: next,
            ..data
        },
        LODStrategyType::MeshSwap => HybridLODData {
            animation_data: if to_level <= 1 {
                animation_data_at(to_level, data.animation_data)
            } else {
                data.animation_data
            },
            mesh_swap_data: mesh_swap_data_at(to_level, config.mesh_swap_config, data.mesh_swap_data),
            current_strategy: next,
            ..data
        },
        LODStrategyType::VAT => HybridLODData {
            vat_data: vat_data_at(to_level, config.vat_config, data.vat_data),
            current_strategy: next,
            ..data
        },
    }
}

impl HybridLODStrategy {
    /// The sub-strategy for `to_level`.
    pub fn select_strategy(to_level: u8, use_vat_at_level: u8) -> (r: LODStrategyType)
        ensures
            r == strategy_for(to_level, use_vat_at_level),
    {
        if to_level == 0 {
            LODStrategyType::Animation
        } else if to_level == 1 || to_level < use_vat_at_level {
            LODStrategyType::MeshSwap
        } else if to_level < CULL_LEVEL {
            LODStrategyType::VAT
        } else {
            LODStrategyType::MeshSwap
        }
    }
}

/// Appends the removals of what sub-strategy `s` owns.
fn push_teardown(commands: &mut Vec<LODCommand>, entity: u64, s: LODStrategyType)
    ensures
        final(commands)@ == old(commands)@ + tagged(entity, teardown_ops(s)),
{
    match s {
        LODStrategyType::Animation => {
            push_op(commands, entity, AttachmentOp::Remove(AttachmentKind::AnimationPlayer));
            push_op(commands, entity, AttachmentOp::Remove(AttachmentKind::AnimationTransitions));
            proof {
                assert(teardown_ops(s) =~= seq![AttachmentOp::Remove(AttachmentKind::AnimationPlayer)]
                    + seq![AttachmentOp::Remove(AttachmentKind::AnimationTransitions)]);
                crate::strategy::lemma_tagged_append(
                    entity,
                    seq![AttachmentOp::Remove(AttachmentKind::AnimationPlayer)],
                    seq![AttachmentOp::Remove(AttachmentKind::AnimationTransitions)],
                );
            }
        },
        LODStrategyType::VAT => {
            push_op(commands, entity, AttachmentOp::Remove(AttachmentKind::VatTexture));
        },
        LODStrategyType::MeshSwap => {
            push_op(commands, entity, AttachmentOp::Remove(AttachmentKind::Scene));
            push_op(commands, entity, AttachmentOp::Remove(AttachmentKind::Mesh));
            push_op(commands, entity, AttachmentOp::Remove(AttachmentKind::Material));
            proof {
                let a = seq![AttachmentOp::Remove(AttachmentKind::Scene)];
                let b = seq![AttachmentOp::Remove(AttachmentKind::Mesh)];
                let c = seq![AttachmentOp::Remove(AttachmentKind::Material)];
                assert(teardown_ops(s) =~= a + b + c);
                crate::strategy::lemma_tagged_append(entity, a, b);
                crate::strategy::lemma_tagged_append(entity, a + b, c);
            }
        },
    }
}

impl LODStrategy for HybridLODStrategy {
    type Config = HybridLODConfig;
    type ComponentData = HybridLODData;

    open spec fn transition_data(from_level: u8, to_level: u8, config: HybridLODConfig, data: HybridLODData) -> HybridLODData {
        hybrid_data(from_level, to_level, config, data)
    }

    open spec fn transition_ops(from_level: u8, to_level: u8, config: HybridLODConfig, data: HybridLODData) -> Seq<AttachmentOp> {
        hybrid_ops(from_level, to_level, config, data)
    }

    open spec fn updated(delta: u64, current_level: u8, data: HybridLODData) -> HybridLODData {
        if data.current_strategy == LODStrategyType::VAT {
            HybridLODData { vat_data: vat_advanced(delta, data.vat_data), ..data }
        } else {
            data
        }
    }

    open spec fn continuous() -> bool {
        true
    }

    fn transition(
        commands: &mut Vec<LODCommand>,
        entity: u64,
        from_level: u8,
        to_level: u8,
        config: &HybridLODConfig,
        component_data: &mut HybridLODData,
    ) {
        let ghost start = commands@;
        let ghost data0 = *component_data;
        let next = HybridLODStrategy::select_strategy(to_level, config.use_vat_at_level);
        let ghost td: Seq<AttachmentOp>;
        if component_data.current_strategy != next {
            push_teardown(commands, entity, component_data.current_strategy);
            proof {
                td = teardown_ops(data0.current_strategy);
            }
        } else {
            proof {
                td = Seq::empty();
                assert(commands@ =~= start + tagged(entity, td));
            }
        }
        component_data.current_strategy = next;
        match next {
            LODStrategyType::Animation => {
                AnimationLODStrategy::transition(
                    commands,
                    entity,
                    from_level,
                    to_level,
                    &config.animation_config,
                    &mut component_data.animation_data,
                );
                MeshSwapLODStrategy::transition(
                    commands,
                    entity,
                    from_level,
                    to_level,
                    &config.mesh_swap_config,
                    &mut component_data.mesh_swap_data,
                );
                proof {
                    let a = animation_ops_at(to_level);
                    let m = mesh_swap_ops_at(to_level, config.mesh_swap_config);
                    crate::strategy::lemma_tagged_append(entity, a, m);
                    crate::strategy::lemma_tagged_append(entity, td, a + m);
                    assert(commands@ =~= start + tagged(entity, td + (a + m)));
                }
            },
            LODStrategyType::MeshSwap => {
                MeshSwapLODStrategy::transition(
                    commands,
                    entity,
                    from_level,
                    to_level,
                    &config.mesh_swap_config,
                    &mut component_data.mesh_swap_data,
                );
                let ghost after_swap = commands@;
                let ghost extra: Seq<AttachmentOp>;
                if to_level <= 1 {
                    AnimationLODStrategy::transition(
                        commands,
                        entity,
                        from_level,
                        to_level,
                        &config.animation_config,
                        &mut component_data.animation_data,
                    );
                    proof {
                        extra = animation_ops_at(to_level);
                    }
                } else {
                    proof {
                        extra = Seq::empty();
                        assert(commands@ =~= after_swap + tagged(entity, extra));
                    }
                }
                proof {
                    let m = mesh_swap_ops_at(to_level, config.mesh_swap_config);
                    crate::strategy::lemma_tagged_append(entity, m, extra);
                    crate::strategy::lemma_tagged_append(entity, td, m + extra);
                    assert(commands@ =~= start + tagged(entity, td + (m + extra)));
                }
            },
            LODStrategyType::VAT => {
                VATLODStrategy::transition(
                    commands,
                    entity,
                    from_level,
                    to_level,
                    &config.vat_config,
                    &mut component_data.vat_data,
                );
                proof {
                    let v = vat_ops_at(to_level, config.vat_config);
                    crate::strategy::lemma_tagged_append(entity, td, v);
                    assert(commands@ =~= start + tagged(entity, td + v));
                }
            },
        }
    }

    fn update(delta: u64, entity: u64, current_level: u8, component_data: &mut HybridLODData) {
        if component_data.current_strategy == LODStrategyType::VAT {
            VATLODStrategy::update(delta, entity, current_level, &mut component_data.vat_data);
        }
    }

    fn requires_update() -> (r: bool) {
        true
    }
}

/// Running a transition to the same level a second time leaves each
/// strategy's data as the first run left it, and a repeated hybrid
/// transition tears nothing down.
pub proof fn lemma_repeat_transition_is_stable(
    from_level: u8,
    to_level: u8,
    animation: AnimationLODData,
    vat_config: VATLODConfig,
    vat: VATLODData,
    swap_config: MeshSwapLODConfig,
    swap: MeshSwapLODData,
    config: HybridLODConfig,
    data: HybridLODData,
)
    ensures
        animation_data_at(to_level, animation_data_at(to_level, animation)) == animation_data_at(to_level, animation),
        vat_data_at(to_level, vat_config, vat_data_at(to_level, vat_config, vat)) == vat_data_at(
            to_level,
            vat_config,
            vat,
        ),
        mesh_swap_data_at(to_level, swap_config, mesh_swap_data_at(to_level, swap_config, swap))
            == mesh_swap_data_at(to_level, swap_config, swap),
        ({
            let once = hybrid_data(from_level, to_level, config, data);
            &&& hybrid_data(to_level, to_level, config, once) == once
            &&& hybrid_ops(to_level, to_level, config, once) == hybrid_install_ops(to_level, to_level, config)
        }),
{
    let once = hybrid_data(from_level, to_level, config, data);
    assert(Seq::<AttachmentOp>::empty() + hybrid_install_ops(to_level, to_level, config) =~= hybrid_install_ops(
        to_level,
        to_level,
        config,
    ));
}

/// Changes that remove nothing and install nothing that animation owns.
pub open spec fn only_installs(ops: Seq<AttachmentOp>) -> bool {
    forall|i: int|
        0 <= i < ops.len() ==> !(#[trigger] ops[i] is Remove) && (ops[i] is Insert ==> owner_of(ops[i]->Insert_0)
            != LODStrategyType::Animation)
}

proof fn lemma_only_installs_append(a: Seq<AttachmentOp>, b: Seq<AttachmentOp>)
    requires
        only_installs(a),
        only_installs(b),
    ensures
        only_installs(a + b),
{
    assert forall|i: int| 0 <= i < (a + b).len() implies !(#[trigger] (a + b)[i] is Remove) && ((a + b)[i] is Insert
        ==> owner_of((a + b)[i]->Insert_0) != LODStrategyType::Animation) by {
        if i < a.len() {
            assert((a + b)[i] == a[i]);
        } else {
            assert((a + b)[i] == b[i - a.len()]);
        }
    }
}

proof fn lemma_install_ops_only_install(from_level: u8, to_level: u8, config: HybridLODConfig)
    ensures
        only_installs(hybrid_install_ops(from_level, to_level, config)),
{
    let a = animation_ops_at(to_level);
    let m = mesh_swap_ops_at(to_level, config.mesh_swap_config);
    let v = vat_ops_at(to_level, config.vat_config);
    let i = to_level as int;
    assert(only_installs(a));
    assert(only_installs(v));
    if !(i < config.mesh_swap_config.scene_handles@.len()) && i < config.mesh_swap_config.mesh_handles@.len() {
        let mesh = seq![AttachmentOp::Insert(AttachmentKind::Mesh, config.mesh_swap_config.mesh_handles@[i])];
        let mat: Seq<AttachmentOp> = if i < config.mesh_swap_config.material_handles@.len() {
            seq![AttachmentOp::Insert(AttachmentKind::Material, config.mesh_swap_config.material_handles@[i])]
        } else {
            Seq::empty()
        };
        let vis = seq![AttachmentOp::SetVisibility(true)];
        assert(only_installs(mesh));
        assert(only_installs(mat));
        assert(only_installs(vis));
        lemma_only_installs_append(mesh, mat);
        lemma_only_installs_append(mesh + mat, vis);
    }
    assert(only_installs(m));
    assert(only_installs(Seq::<AttachmentOp>::empty()));
    lemma_only_installs_append(a, m);
    lemma_only_installs_append(m, a);
    lemma_only_installs_append(m, Seq::<AttachmentOp>::empty());
}

proof fn lemma_teardown_clears(attached: Set<AttachmentKind>, s: LODStrategyType)
    ensures
        forall|k: AttachmentKind| owner_of(k) == s ==> !(#[trigger] apply_ops(attached, teardown_ops(s)).contains(k)),
{
    let r = |k: AttachmentKind| seq![AttachmentOp::Remove(k)];
    match s {
        LODStrategyType::Animation => {
            let a = r(AttachmentKind::AnimationPlayer);
            let b = r(AttachmentKind::AnimationTransitions);
            assert(teardown_ops(s) =~= a + b);
            lemma_apply_append(attached, a, b);
            lemma_apply_single(attached, a[0]);
            lemma_apply_single(apply_ops(attached, a), b[0]);
        },
        LODStrategyType::VAT => {
            let a = r(AttachmentKind::VatTexture);
            assert(teardown_ops(s) =~= a);
            lemma_apply_single(attached, a[0]);
        },
        LODStrategyType::MeshSwap => {
            let a = r(AttachmentKind::Scene);
            let b = r(AttachmentKind::Mesh);
            let c = r(AttachmentKind::Material);
            assert(teardown_ops(s) =~= a + b + c);
            lemma_apply_append(attached, a + b, c);
            lemma_apply_append(attached, a, b);
            lemma_apply_single(attached, a[0]);
            lemma_apply_single(apply_ops(attached, a), b[0]);
            lemma_apply_single(apply_ops(attached, a + b), c[0]);
        },
    }
}

/// When a hybrid transition changes sub-strategy, its changes start with the
/// removal of every attachment the previous sub-strategy owns and remove
/// nothing after that; whatever the entity held before, it then holds no
/// attachment of the previous sub-strategy that the new one did not install
/// itself, and in particular no animation driver once it has left animation.
pub proof fn lemma_hybrid_teardown(
    from_level: u8,
    to_level: u8,
    config: HybridLODConfig,
    data: HybridLODData,
    attached: Set<AttachmentKind>,
)
    requires
        data.current_strategy != strategy_for(to_level, config.use_vat_at_level),
    ensures
        ({
            let ops = hybrid_ops(from_level, to_level, config, data);
            let td = teardown_ops(data.current_strategy);
            let after = apply_ops(attached, ops);
            &&& ops.subrange(0, td.len() as int) == td
            &&& forall|i: int| td.len() <= i < ops.len() ==> !(#[trigger] ops[i] is Remove)
            &&& forall|k: AttachmentKind|
                owner_of(k) == data.current_strategy && !installs(ops, k) ==> !(#[trigger] after.contains(k))
            &&& data.current_strategy == LODStrategyType::Animation ==> !after.contains(
                AttachmentKind::AnimationPlayer,
            ) && !after.contains(AttachmentKind::AnimationTransitions)
        }),
{
    let ops = hybrid_ops(from_level, to_level, config, data);
    let td = teardown_ops(data.current_strategy);
    let rest = hybrid_install_ops(from_level, to_level, config);
    assert(ops == td + rest);
    assert(ops.subrange(0, td.len() as int) =~= td);
    lemma_install_ops_only_install(from_level, to_level, config);
    assert forall|i: int| td.len() <= i < ops.len() implies !(#[trigger] ops[i] is Remove) by {
        assert(ops[i] == rest[i - td.len()]);
    }
    lemma_apply_append(attached, td, rest);
    lemma_teardown_clears(attached, data.current_strategy);
    assert forall|k: AttachmentKind|
        owner_of(k) == data.current_strategy && !installs(ops, k) implies !(#[trigger] apply_ops(
        attached,
        ops,
    ).contains(k)) by {
        assert(!installs(rest, k)) by {
            if installs(rest, k) {
                let (i, slot) = choose|i: int, slot: u64| 0 <= i < rest.len() && rest[i] == AttachmentOp::Insert(k, slot);
                assert(ops[i + td.len()] == AttachmentOp::Insert(k, slot));
            }
        }
        lemma_apply_keeps_absent(apply_ops(attached, td), rest, k);
    }
    if data.current_strategy == LODStrategyType::Animation {
        assert forall|k: AttachmentKind| owner_of(k) == LODStrategyType::Animation implies !installs(ops, k) by {
            if installs(ops, k) {
                let (i, slot) = choose|i: int, slot: u64| 0 <= i < ops.len() && ops[i] == AttachmentOp::Insert(k, slot);
                if i >= td.len() {
                    assert(rest[i - td.len()] == ops[i]);
                }
            }
        }
        assert(owner_of(AttachmentKind::AnimationPlayer) == LODStrategyType::Animation);
        assert(owner_of(AttachmentKind::AnimationTransitions) == LODStrategyType::Animation);
    }
}

} // verus!
