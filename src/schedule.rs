//! Which meshing passes run for a grid entity, and which generated children
//! are reaped when a descriptor is removed.
use crate::registry::{children_in, lemma_replace_twice, replaced, ChildKind, ChildRecord};
use crate::model::EntityId;
use vstd::prelude::*;

verus! {

/// One flag for each component that a meshing pass watches.
#[derive(Clone, Copy, Debug, PartialEq, Eq, Structural)]
pub struct ComponentFlags {
    pub grid: bool,
    pub sub_grid: bool,
    pub axis: bool,
    pub tracking: bool,
    pub render_layers: bool,
}

impl ComponentFlags {
    /// No component.
    pub open spec fn none() -> ComponentFlags {
        ComponentFlags { grid: false, sub_grid: false, axis: false, tracking: false, render_layers: false }
    }
}

/// The meshing passes that run for one grid entity.
#[derive(Clone, Copy, Debug, PartialEq, Eq, Structural)]
pub struct MesherPasses {
    /// Main lines of a grid that is not tracked.
    pub untracked_main: bool,
    /// Main lines of a tracked grid, with its highlighted axis.
    pub tracked_main: bool,
    pub sub_grid: bool,
    /// Axis lines of a grid that is not tracked.
    pub axis: bool,
}

/// The passes due for an entity with the components `present`, of which
/// `changed` changed since the last pass.
pub open spec fn passes_for(present: ComponentFlags, changed: ComponentFlags) -> MesherPasses {
    MesherPasses {
        untracked_main: present.grid && !present.tracking && (changed.grid || changed.render_layers),
        tracked_main: present.grid && present.tracking && (changed.grid || changed.tracking
            || changed.axis || changed.render_layers),
        sub_grid: present.grid && present.sub_grid && (changed.grid || changed.sub_grid
            || changed.tracking || changed.render_layers),
        axis: present.grid && !present.tracking && (changed.grid || changed.axis
            || changed.render_layers),
    }
}

/// The passes due for an entity with the components `present`, of which
/// `changed` changed since the last pass. An entity with no change gets none.
pub fn passes_to_run(present: ComponentFlags, changed: ComponentFlags) -> (r: MesherPasses)
    ensures
        r == passes_for(present, changed),
{
    let touched = changed.grid || changed.render_layers;
    MesherPasses {
        untracked_main: present.grid && !present.tracking && touched,
        tracked_main: present.grid && present.tracking && (touched || changed.tracking
            || changed.axis),
        sub_grid: present.grid && present.sub_grid && (touched || changed.sub_grid
            || changed.tracking),
        axis: present.grid && !present.tracking && (touched || changed.axis),
    }
}

/// A descriptor component whose removal reaps generated children.
#[derive(Clone, Copy, Debug, PartialEq, Eq, Structural)]
pub enum DescriptorKind {
    Grid,
    SubGrid,
    GridAxis,
}

/// The kinds of children that removal of `descriptor` reaps: all of them for
/// a grid, the sub-grid lines for a sub-grid, the axis lines for a grid axis.
pub open spec fn reaped_by(descriptor: DescriptorKind) -> Seq<ChildKind> {
    match descriptor {
        DescriptorKind::Grid => seq![ChildKind::Grid, ChildKind::SubGrid, ChildKind::GridAxis],
        DescriptorKind::SubGrid => seq![ChildKind::SubGrid],
        DescriptorKind::GridAxis => seq![ChildKind::GridAxis],
    }
}

/// The kinds of children that removal of `descriptor` reaps.
pub fn reaped_kinds(descriptor: DescriptorKind) -> (r: Vec<ChildKind>)
    ensures
        r@ == reaped_by(descriptor),
{
    let mut r: Vec<ChildKind> = Vec::new();
    match descriptor {
        DescriptorKind::Grid => {
            r.push(ChildKind::Grid);
            r.push(ChildKind::SubGrid);
            r.push(ChildKind::GridAxis);
        },
        DescriptorKind::SubGrid => {
            r.push(ChildKind::SubGrid);
        },
        DescriptorKind::GridAxis => {
            r.push(ChildKind::GridAxis);
        },
    }
    assert(r@ =~= reaped_by(descriptor));
    r
}

/// Meshing twice with no change in between regenerates nothing the second
/// time; and a regeneration forced on unchanged descriptors, which builds as
/// many children as the pass before, leaves the number of live children as
/// it was.
pub proof fn lemma_idempotent_regeneration(
    present: ComponentFlags,
    recs: Seq<ChildRecord>,
    owner: EntityId,
    kind: ChildKind,
    first: Seq<EntityId>,
    second: Seq<EntityId>,
)
    requires
        first.len() == second.len(),
    ensures
        passes_for(present, ComponentFlags::none()) == (MesherPasses {
            untracked_main: false,
            tracked_main: false,
            sub_grid: false,
            axis: false,
        }),
        replaced(replaced(recs, owner, kind, first), owner, kind, second).len() == replaced(
            recs,
            owner,
            kind,
            first,
        ).len(),
        children_in(replaced(replaced(recs, owner, kind, first), owner, kind, second), seq![owner], kind).len()
            == children_in(replaced(recs, owner, kind, first), seq![owner], kind).len(),
{
    lemma_replace_twice(recs, owner, kind, first, second);
    crate::registry::lemma_replaced_children(recs, owner, kind, first);
}

} // verus!
