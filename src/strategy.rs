//! What committing a level means for a kind of representation.
//!
//! A strategy does not touch the renderer. Its transition appends commands
//! that say which attachments an entity gains or loses and whether it is
//! shown; whoever owns the entities carries them out.

use vstd::prelude::*;

verus! {

/// The attachments that strategies install on or remove from an entity.
#[derive(Clone, Copy, Debug, PartialEq, Eq, Structural)]
pub enum AttachmentKind {
    AnimationPlayer,
    AnimationTransitions,
    VatTexture,
    Scene,
    Mesh,
    Material,
}

/// One change to an entity. `Insert` carries the asset slot that backs the
/// attachment.
#[derive(Clone, Copy, Debug, PartialEq, Eq, Structural)]
pub enum AttachmentOp {
    SetVisibility(bool),
    Insert(AttachmentKind, u64),
    Remove(AttachmentKind),
}

/// A change addressed to one entity, named by its id bits.
#[derive(Clone, Copy, Debug, PartialEq, Eq, Structural)]
pub struct LODCommand {
    pub entity: u64,
    pub op: AttachmentOp,
}

/// The changes `ops`, each addressed to `entity`.
pub open spec fn tagged(entity: u64, ops: Seq<AttachmentOp>) -> Seq<LODCommand> {
    Seq::new(ops.len(), |k: int| LODCommand { entity, op: ops[k] })
}

pub proof fn lemma_tagged_append(entity: u64, a: Seq<AttachmentOp>, b: Seq<AttachmentOp>)
    ensures
        tagged(entity, a + b) == tagged(entity, a) + tagged(entity, b),
{
    assert(tagged(entity, a + b) =~= tagged(entity, a) + tagged(entity, b));
}

/// Appends one change for `entity`.
pub fn push_op(commands: &mut Vec<LODCommand>, entity: u64, op: AttachmentOp)
    ensures
        final(commands)@ == old(commands)@ + tagged(entity, seq![op]),
{
    commands.push(LODCommand { entity, op });
    proof {
        assert(final(commands)@ =~= old(commands)@ + tagged(entity, seq![op]));
    }
}

/// The attachments an entity holds after the change `op`.
pub open spec fn apply_op(attached: Set<AttachmentKind>, op: AttachmentOp) -> Set<AttachmentKind> {
    match op {
        AttachmentOp::SetVisibility(_) => attached,
        AttachmentOp::Insert(k, _) => attached.insert(k),
        AttachmentOp::Remove(k) => attached.remove(k),
    }
}

/// The attachments an entity holds after the changes `ops`.
pub open spec fn apply_ops(attached: Set<AttachmentKind>, ops: Seq<AttachmentOp>) -> Set<AttachmentKind>
    decreases ops.len(),
{
    if ops.len() == 0 {
        attached
    } else {
        apply_ops(apply_op(attached, ops[0]), ops.drop_first())
    }
}

/// Whether `ops` installs an attachment of kind `k`.
pub open spec fn installs(ops: Seq<AttachmentOp>, k: AttachmentKind) -> bool {
    exists|i: int, slot: u64| 0 <= i < ops.len() && ops[i] == AttachmentOp::Insert(k, slot)
}

pub proof fn lemma_apply_single(attached: Set<AttachmentKind>, op: AttachmentOp)
    ensures
        apply_ops(attached, seq![op]) == apply_op(attached, op),
{
    reveal_with_fuel(apply_ops, 2);
}

pub proof fn lemma_apply_append(attached: Set<AttachmentKind>, a: Seq<AttachmentOp>, b: Seq<AttachmentOp>)
    ensures
        apply_ops(attached, a + b) == apply_ops(apply_ops(attached, a), b),
    decreases a.len(),
{
    if a.len() == 0 {
        assert(a + b =~= b);
    } else {
        assert((a + b)[0] == a[0]);
        assert((a + b).drop_first() =~= a.drop_first() + b);
        lemma_apply_append(apply_op(attached, a[0]), a.drop_first(), b);
    }
}

/// An attachment that is absent stays absent through changes that never
/// install it.
pub proof fn lemma_apply_keeps_absent(attached: Set<AttachmentKind>, ops: Seq<AttachmentOp>, k: AttachmentKind)
    requires
        !attached.contains(k),
        !installs(ops, k),
    ensures
        !apply_ops(attached, ops).contains(k),
    decreases ops.len(),
{
    if ops.len() > 0 {
        let rest = ops.drop_first();
        assert(!installs(rest, k)) by {
            if installs(rest, k) {
                let (i, slot) = choose|i: int, slot: u64| 0 <= i < rest.len() && rest[i] == AttachmentOp::Insert(k, slot);
                assert(ops[i + 1] == AttachmentOp::Insert(k, slot));
            }
        }
        if let AttachmentOp::Insert(j, slot) = ops[0] {
            assert(j != k) by {
                if j == k {
                    assert(ops[0] == AttachmentOp::Insert(k, slot));
                }
            }
        }
        lemma_apply_keeps_absent(apply_op(attached, ops[0]), rest, k);
    }
}

/// A strategy: its per-class configuration, its per-entity data, and the
/// transition and per-frame update over them.
pub trait LODStrategy {
    type Config;
    type ComponentData;

    /// The entity data after a transition.
    spec fn transition_data(
        from_level: u8,
        to_level: u8,
        config: Self::Config,
        data: Self::ComponentData,
    ) -> Self::ComponentData;

    /// The changes a transition asks for.
    spec fn transition_ops(
        from_level: u8,
        to_level: u8,
        config: Self::Config,
        data: Self::ComponentData,
    ) -> Seq<AttachmentOp>;

    /// The entity data after a frame of `delta` nanoseconds.
    spec fn updated(delta: u64, current_level: u8, data: Self::ComponentData) -> Self::ComponentData;

    /// Whether the strategy needs an update every frame.
    spec fn continuous() -> bool;

    /// Moves an entity from one level to another.
    fn transition(
        commands: &mut Vec<LODCommand>,
        entity: u64,
        from_level: u8,
        to_level: u8,
        config: &Self::Config,
        component_data: &mut Self::ComponentData,
    )
        ensures
            *final(component_data) == Self::transition_data(from_level, to_level, *config, *old(component_data)),
            final(commands)@ == old(commands)@ + tagged(
                entity,
                Self::transition_ops(from_level, to_level, *config, *old(component_data)),
            ),
    ;

    /// Advances an entity's representation by one frame.
    fn update(delta: u64, entity: u64, current_level: u8, component_data: &mut Self::ComponentData)
        ensures
            *final(component_data) == Self::updated(delta, current_level, *old(component_data)),
    ;

    fn requires_update() -> (r: bool)
        ensures
            r == Self::continuous(),
    ;
}

} // verus!
