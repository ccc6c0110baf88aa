//! Bookkeeping of the child entities generated for each grid entity.
//!
//! Each generated child is recorded with the grid entity that owns it and the
//! kind of lines it draws. Regeneration replaces the children of one kind at
//! once, and removal of a descriptor reaps them, so that none leaks and none
//! is doubled.
use crate::model::EntityId;
use vstd::prelude::*;

verus! {

/// What a generated child draws: main grid lines, sub-grid lines or axis lines.
#[derive(Clone, Copy, Debug, PartialEq, Eq, Structural, Hash)]
pub enum ChildKind {
    Grid,
    SubGrid,
    GridAxis,
}

/// One generated child and the grid entity that owns it.
#[derive(Clone, Copy, Debug, PartialEq, Eq, Structural)]
pub struct ChildRecord {
    pub owner: EntityId,
    pub kind: ChildKind,
    pub child: EntityId,
}

/// The generated children of all grid entities, in the order they were recorded.
pub struct ChildRegistry {
    records: Vec<ChildRecord>,
}

impl View for ChildRegistry {
    type V = Seq<ChildRecord>;

    closed spec fn view(&self) -> Seq<ChildRecord> {
        self.records@
    }
}

/// Whether `r` is a child of kind `kind` of one of `owners`.
pub open spec fn owned_by(r: ChildRecord, owners: Seq<EntityId>, kind: ChildKind) -> bool {
    owners.contains(r.owner) && r.kind == kind
}

/// The children of kind `kind` of `owners` in `recs`, in order.
pub open spec fn children_in(recs: Seq<ChildRecord>, owners: Seq<EntityId>, kind: ChildKind) -> Seq<
    EntityId,
>
    decreases recs.len(),
{
    if recs.len() == 0 {
        Seq::empty()
    } else {
        let rest = children_in(recs.drop_last(), owners, kind);
        if owned_by(recs.last(), owners, kind) {
            rest.push(recs.last().child)
        } else {
            rest
        }
    }
}

/// `recs` without the children of kind `kind` of `owners`.
pub open spec fn without_children(
    recs: Seq<ChildRecord>,
    owners: Seq<EntityId>,
    kind: ChildKind,
) -> Seq<ChildRecord>
    decreases recs.len(),
{
    if recs.len() == 0 {
        Seq::empty()
    } else {
        let rest = without_children(recs.drop_last(), owners, kind);
        if owned_by(recs.last(), owners, kind) {
            rest
        } else {
            rest.push(recs.last())
        }
    }
}

/// Records of `children` as children of kind `kind` of `owner`.
pub open spec fn records_for(owner: EntityId, kind: ChildKind, children: Seq<EntityId>) -> Seq<
    ChildRecord,
> {
    children.map_values(|c: EntityId| ChildRecord { owner, kind, child: c })
}

/// `recs` after the children of kind `kind` of `owner` are replaced by `spawned`.
pub open spec fn replaced(
    recs: Seq<ChildRecord>,
    owner: EntityId,
    kind: ChildKind,
    spawned: Seq<EntityId>,
) -> Seq<ChildRecord> {
    without_children(recs, seq![owner], kind) + records_for(owner, kind, spawned)
}

fn contains_entity(v: &Vec<EntityId>, e: EntityId) -> (r: bool)
    ensures
        r == v@.contains(e),
{
    let mut i: usize = 0;
    while i < v.len()
        invariant
            0 <= i <= v.len(),
            forall|j: int| 0 <= j < i ==> v@[j] != e,
        decreases v.len() - i,
    {
        if v[i] == e {
            return true;
        }
        i = i + 1;
    }
    false
}

pub proof fn lemma_children_in_concat(
    a: Seq<ChildRecord>,
    b: Seq<ChildRecord>,
    owners: Seq<EntityId>,
    kind: ChildKind,
)
    ensures
        children_in(a + b, owners, kind) == children_in(a, owners, kind) + children_in(b, owners, kind),
    decreases b.len(),
{
    if b.len() == 0 {
        assert(a + b =~= a);
        assert(children_in(a, owners, kind) + children_in(b, owners, kind) =~= children_in(a, owners, kind));
    } else {
        assert((a + b).drop_last() =~= a + b.drop_last());
        lemma_children_in_concat(a, b.drop_last(), owners, kind);
        let l = children_in(a, owners, kind);
        let m = children_in(b.drop_last(), owners, kind);
        if owned_by(b.last(), owners, kind) {
            assert((l + m).push(b.last().child) =~= l + m.push(b.last().child));
        }
    }
}

proof fn lemma_without_concat(
    a: Seq<ChildRecord>,
    b: Seq<ChildRecord>,
    owners: Seq<EntityId>,
    kind: ChildKind,
)
    ensures
        without_children(a + b, owners, kind) == without_children(a, owners, kind)
            + without_children(b, owners, kind),
    decreases b.len(),
{
    if b.len() == 0 {
        assert(a + b =~= a);
        assert(without_children(a, owners, kind) + without_children(b, owners, kind)
            =~= without_children(a, owners, kind));
    } else {
        assert((a + b).drop_last() =~= a + b.drop_last());
        lemma_without_concat(a, b.drop_last(), owners, kind);
        let l = without_children(a, owners, kind);
        let m = without_children(b.drop_last(), owners, kind);
        if !owned_by(b.last(), owners, kind) {
            assert((l + m).push(b.last()) =~= l + m.push(b.last()));
        }
    }
}

proof fn lemma_nothing_owned_is_kept(recs: Seq<ChildRecord>, owners: Seq<EntityId>, kind: ChildKind)
    requires
        forall|i: int| 0 <= i < recs.len() ==> !owned_by(#[trigger] recs[i], owners, kind),
    ensures
        children_in(recs, owners, kind) == Seq::<EntityId>::empty(),
        without_children(recs, owners, kind) == recs,
    decreases recs.len(),
{
    if recs.len() > 0 {
        let d = recs.drop_last();
        assert forall|i: int| 0 <= i < d.len() implies !owned_by(#[trigger] d[i], owners, kind) by {
            assert(d[i] == recs[i]);
        }
        lemma_nothing_owned_is_kept(d, owners, kind);
        assert(!owned_by(recs[recs.len() - 1], owners, kind));
        assert(d.push(recs.last()) =~= recs);
    }
}

/// After the children of kind `kind` of `owners` are taken out, none of them
/// is left.
pub proof fn lemma_without_has_none(
    recs: Seq<ChildRecord>,
    owners: Seq<EntityId>,
    kind: ChildKind,
    sub_owners: Seq<EntityId>,
)
    requires
        forall|e: EntityId| sub_owners.contains(e) ==> owners.contains(e),
    ensures
        children_in(without_children(recs, owners, kind), sub_owners, kind).len() == 0,
    decreases recs.len(),
{
    if recs.len() > 0 {
        lemma_without_has_none(recs.drop_last(), owners, kind, sub_owners);
        let rest = without_children(recs.drop_last(), owners, kind);
        if !owned_by(recs.last(), owners, kind) {
            assert(rest.push(recs.last()).drop_last() =~= rest);
        }
    }
}

proof fn lemma_records_for_children(owner: EntityId, kind: ChildKind, spawned: Seq<EntityId>)
    ensures
        children_in(records_for(owner, kind, spawned), seq![owner], kind) == spawned,
    decreases spawned.len(),
{
    let recs = records_for(owner, kind, spawned);
    if spawned.len() > 0 {
        lemma_records_for_children(owner, kind, spawned.drop_last());
        assert(recs.drop_last() =~= records_for(owner, kind, spawned.drop_last()));
        assert(seq![owner].contains(owner)) by {
            assert(seq![owner][0] == owner);
        }
        assert(spawned.drop_last().push(spawned.last()) =~= spawned);
    } else {
        assert(spawned =~= Seq::<EntityId>::empty());
    }
}

/// Replacing the children of one kind of `owner` leaves exactly `spawned` as
/// its children of that kind.
pub proof fn lemma_replaced_children(
    recs: Seq<ChildRecord>,
    owner: EntityId,
    kind: ChildKind,
    spawned: Seq<EntityId>,
)
    ensures
        children_in(replaced(recs, owner, kind, spawned), seq![owner], kind) == spawned,
{
    let w = without_children(recs, seq![owner], kind);
    lemma_children_in_concat(w, records_for(owner, kind, spawned), seq![owner], kind);
    lemma_without_has_none(recs, seq![owner], kind, seq![owner]);
    lemma_records_for_children(owner, kind, spawned);
    assert(children_in(w, seq![owner], kind) =~= Seq::<EntityId>::empty());
    assert(Seq::<EntityId>::empty() + spawned =~= spawned);
}

proof fn lemma_without_twice(recs: Seq<ChildRecord>, owners: Seq<EntityId>, kind: ChildKind)
    ensures
        without_children(without_children(recs, owners, kind), owners, kind) == without_children(
            recs,
            owners,
            kind,
        ),
    decreases recs.len(),
{
    if recs.len() > 0 {
        lemma_without_twice(recs.drop_last(), owners, kind);
        let rest = without_children(recs.drop_last(), owners, kind);
        if !owned_by(recs.last(), owners, kind) {
            assert(rest.push(recs.last()).drop_last() =~= rest);
        }
    }
}

proof fn lemma_without_records_for(owner: EntityId, kind: ChildKind, spawned: Seq<EntityId>)
    ensures
        without_children(records_for(owner, kind, spawned), seq![owner], kind) == Seq::<
            ChildRecord,
        >::empty(),
    decreases spawned.len(),
{
    if spawned.len() > 0 {
        lemma_without_records_for(owner, kind, spawned.drop_last());
        assert(records_for(owner, kind, spawned).drop_last() =~= records_for(
            owner,
            kind,
            spawned.drop_last(),
        ));
        assert(seq![owner][0] == owner);
    } else {
        assert(records_for(owner, kind, spawned) =~= Seq::<ChildRecord>::empty());
    }
}

/// Replacing the children of one kind of `owner` a second time, by as many
/// children as the first time, leaves as many records as the first time, and
/// exactly the second children as that owner's children of that kind.
pub proof fn lemma_replace_twice(
    recs: Seq<ChildRecord>,
    owner: EntityId,
    kind: ChildKind,
    first: Seq<EntityId>,
    second: Seq<EntityId>,
)
    requires
        first.len() == second.len(),
    ensures
        replaced(replaced(recs, owner, kind, first), owner, kind, second).len() == replaced(
            recs,
            owner,
            kind,
            first,
        ).len(),
        children_in(replaced(replaced(recs, owner, kind, first), owner, kind, second), seq![owner], kind)
            == second,
{
    let w = without_children(recs, seq![owner], kind);
    lemma_without_concat(w, records_for(owner, kind, first), seq![owner], kind);
    lemma_without_twice(recs, seq![owner], kind);
    lemma_without_records_for(owner, kind, first);
    assert(w + Seq::<ChildRecord>::empty() =~= w);
    lemma_replaced_children(replaced(recs, owner, kind, first), owner, kind, second);
}

/// Reaping the children of kind `kind` of the entities in `removed` leaves
/// none of that kind under any of them.
pub proof fn lemma_reaper_exclusivity(
    recs: Seq<ChildRecord>,
    removed: Seq<EntityId>,
    kind: ChildKind,
    parent: EntityId,
)
    requires
        removed.contains(parent),
    ensures
        children_in(without_children(recs, removed, kind), seq![parent], kind).len() == 0,
{
    assert forall|e: EntityId| seq![parent].contains(e) implies removed.contains(e) by {
        let j = choose|j: int| 0 <= j < 1 && seq![parent][j] == e;
    }
    lemma_without_has_none(recs, removed, kind, seq![parent]);
}

impl ChildRegistry {
    pub fn new() -> (r: ChildRegistry)
        ensures
            r@ == Seq::<ChildRecord>::empty(),
    {
        ChildRegistry { records: Vec::new() }
    }

    /// Splits off the children of kind `kind` of `owners`: they leave the
    /// registry and are returned in order.
    fn take_children(&mut self, owners: &Vec<EntityId>, kind: ChildKind) -> (r: Vec<EntityId>)
        ensures
            r@ == children_in(old(self)@, owners@, kind),
            final(self)@ == without_children(old(self)@, owners@, kind),
    {
        let ghost recs = self.records@;
        let mut kept: Vec<ChildRecord> = Vec::new();
        let mut taken: Vec<EntityId> = Vec::new();
        let mut i: usize = 0;
        while i < self.records.len()
            invariant
                0 <= i <= self.records.len(),
                self.records@ == recs,
                kept@ == without_children(recs.take(i as int), owners@, kind),
                taken@ == children_in(recs.take(i as int), owners@, kind),
            decreases self.records.len() - i,
        {
            let r = self.records[i];
            assert(recs.take(i + 1).drop_last() =~= recs.take(i as int));
            if r.kind == kind && contains_entity(owners, r.owner) {
                taken.push(r.child);
            } else {
                kept.push(r);
            }
            i = i + 1;
        }
        assert(recs.take(recs.len() as int) =~= recs);
        self.records = kept;
        taken
    }

    /// The children of kind `kind` of `owner`.
    pub fn children_of(&self, owner: EntityId, kind: ChildKind) -> (r: Vec<EntityId>)
        ensures
            r@ == children_in(self@, seq![owner], kind),
    {
        let mut taken: Vec<EntityId> = Vec::new();
        let mut i: usize = 0;
        while i < self.records.len()
            invariant
                0 <= i <= self.records.len(),
                taken@ == children_in(self.records@.take(i as int), seq![owner], kind),
            decreases self.records.len() - i,
        {
            let r = self.records[i];
            assert(self.records@.take(i + 1).drop_last() =~= self.records@.take(i as int));
            proof {
                assert(seq![owner].contains(r.owner) <==> r.owner == owner) by {
                    if seq![owner].contains(r.owner) {
                        let j = choose|j: int| 0 <= j < 1 && seq![owner][j] == r.owner;
                    } else {
                        assert(seq![owner][0] == owner);
                    }
                }
            }
            if r.kind == kind && r.owner == owner {
                taken.push(r.child);
            }
            i = i + 1;
        }
        assert(self.records@.take(self.records.len() as int) =~= self.records@);
        taken
    }

    /// Records `spawned` as the children of kind `kind` of `owner`, in place of
    /// the earlier ones, which are returned for despawning.
    pub fn replace_children(&mut self, owner: EntityId, kind: ChildKind, spawned: &Vec<EntityId>) -> (r:
        Vec<EntityId>)
        ensures
            r@ == children_in(old(self)@, seq![owner], kind),
            final(self)@ == replaced(old(self)@, owner, kind, spawned@),
            children_in(final(self)@, seq![owner], kind) == spawned@,
    {
        let mut owners: Vec<EntityId> = Vec::new();
        owners.push(owner);
        assert(owners@ =~= seq![owner]);
        let old_children = self.take_children(&owners, kind);
        let ghost kept = self.records@;
        let mut i: usize = 0;
        while i < spawned.len()
            invariant
                0 <= i <= spawned.len(),
                self.records@ == kept + records_for(owner, kind, spawned@.take(i as int)),
            decreases spawned.len() - i,
        {
            self.records.push(ChildRecord { owner, kind, child: spawned[i] });
            assert(records_for(owner, kind, spawned@.take(i + 1)) =~= records_for(
                owner,
                kind,
                spawned@.take(i as int),
            ).push(ChildRecord { owner, kind, child: spawned@[i as int] }));
            i = i + 1;
        }
        assert(spawned@.take(spawned.len() as int) =~= spawned@);
        proof {
            lemma_replaced_children(old(self)@, owner, kind, spawned@);
        }
        old_children
    }

    /// Reaps the children of kind `kind` of the entities in `removed`, whose
    /// governing descriptor was removed: they leave the registry and are
    /// returned for despawning.
    pub fn despawn_children_upon_removal(&mut self, removed: &Vec<EntityId>, kind: ChildKind) -> (r:
        Vec<EntityId>)
        ensures
            r@ == children_in(old(self)@, removed@, kind),
            final(self)@ == without_children(old(self)@, removed@, kind),
    {
        if removed.len() == 0 {
            proof {
                lemma_nothing_owned_is_kept(self@, removed@, kind);
            }
            return Vec::new();
        }
        self.take_children(removed, kind)
    }
}

} // verus!
