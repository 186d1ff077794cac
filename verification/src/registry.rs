//! The entity registry and the snapshot builder: what is placed in each scene,
//! and how a placement becomes the structure that is sent to a client.

use vstd::prelude::*;
use crate::error::ProtocolError;
use crate::message::{
    groups_view, GroupView, MotionInfo, SceneActorInfo, SceneEntityGroupInfo, SceneEntityInfo,
    ScenePropInfo, Vector,
};

verus! {

/// What kind of object is placed, with the fields of that kind only.
#[derive(Clone, Copy, Debug, PartialEq, Eq)]
pub enum PlacedKind {
    Actor { avatar_type: u32, base_avatar_id: u32, map_layer: u32 },
    Prop { prop_id: u32, prop_state: u32 },
}

/// One object at rest in a scene.
#[derive(Clone, Copy, Debug, PartialEq, Eq)]
pub struct EntityPlacement {
    pub inst_id: u32,
    /// The identifier the server assigned; no other entity of the scene has it.
    pub entity_id: u32,
    pub position: Vector,
    pub kind: PlacedKind,
}

/// The placements that share a group identifier and an activation state.
#[derive(Clone, Debug, PartialEq, Eq)]
pub struct GroupPlacement {
    pub group_id: u32,
    pub state: u32,
    pub entities: Vec<EntityPlacement>,
}

/// What a `GroupPlacement` stands for.
pub struct GroupPlacementView {
    pub group_id: u32,
    pub state: u32,
    pub entities: Seq<EntityPlacement>,
}

impl View for GroupPlacement {
    type V = GroupPlacementView;

    open spec fn view(&self) -> GroupPlacementView {
        GroupPlacementView { group_id: self.group_id, state: self.state, entities: self.entities@ }
    }
}

/// The groups of the scene behind one entrance.
#[derive(Clone, Debug, PartialEq, Eq)]
pub struct SceneLayout {
    pub entry_id: u32,
    pub groups: Vec<GroupPlacement>,
}

/// What a `SceneLayout` stands for.
pub struct SceneLayoutView {
    pub entry_id: u32,
    pub groups: Seq<GroupPlacementView>,
}

impl View for SceneLayout {
    type V = SceneLayoutView;

    open spec fn view(&self) -> SceneLayoutView {
        SceneLayoutView {
            entry_id: self.entry_id,
            groups: Seq::new(self.groups@.len(), |i: int| self.groups@[i]@),
        }
    }
}

/// The server's record of what is placed where.
#[derive(Clone, Debug, PartialEq, Eq)]
pub struct EntityRegistry {
    pub scenes: Vec<SceneLayout>,
}

impl View for EntityRegistry {
    type V = Seq<SceneLayoutView>;

    open spec fn view(&self) -> Seq<SceneLayoutView> {
        Seq::new(self.scenes@.len(), |i: int| self.scenes@[i]@)
    }
}

/// The first layout recorded for an entrance, searching from the front.
pub open spec fn find_layout(scenes: Seq<SceneLayoutView>, entry_id: u32) -> Option<
    SceneLayoutView,
>
    decreases scenes.len(),
{
    if scenes.len() == 0 {
        None
    } else if scenes.first().entry_id == entry_id {
        Some(scenes.first())
    } else {
        find_layout(scenes.drop_first(), entry_id)
    }
}

/// The group identifiers of a scene, in order.
pub open spec fn group_ids(groups: Seq<GroupPlacementView>) -> Seq<u32> {
    Seq::new(groups.len(), |i: int| groups[i].group_id)
}

/// The entity identifiers of one group, in order.
pub open spec fn ids_in(entities: Seq<EntityPlacement>) -> Seq<u32> {
    Seq::new(entities.len(), |i: int| entities[i].entity_id)
}

/// The entity identifiers of a whole scene: those of the first group, then
/// those of the second, and so on.
pub open spec fn entity_ids(groups: Seq<GroupPlacementView>) -> Seq<u32>
    decreases groups.len(),
{
    if groups.len() == 0 {
        Seq::empty()
    } else {
        entity_ids(groups.drop_last()) + ids_in(groups.last().entities)
    }
}

/// A scene is consistent when no group identifier and no entity identifier
/// occurs twice in it.
pub open spec fn layout_consistent(groups: Seq<GroupPlacementView>) -> bool {
    group_ids(groups).no_duplicates() && entity_ids(groups).no_duplicates()
}

/// How one placement looks to the client of player `uid`: it rests at its
/// position, and it has the actor part or the prop part that its kind calls
/// for, an actor owned by `uid`.
pub open spec fn entity_snapshot(group_id: u32, p: EntityPlacement, uid: u32) -> SceneEntityInfo {
    SceneEntityInfo {
        group_id,
        inst_id: p.inst_id,
        entity_id: p.entity_id,
        motion: MotionInfo { pos: p.position, target: p.position },
        actor: match p.kind {
            PlacedKind::Actor { avatar_type, base_avatar_id, map_layer } => Some(
                SceneActorInfo { avatar_type, base_avatar_id, map_layer, uid },
            ),
            PlacedKind::Prop { .. } => None,
        },
        prop: match p.kind {
            PlacedKind::Actor { .. } => None,
            PlacedKind::Prop { prop_id, prop_state } => Some(ScenePropInfo { prop_id, prop_state }),
        },
    }
}

/// How one group looks to the client of player `uid`.
pub open spec fn group_snapshot(g: GroupPlacementView, uid: u32) -> GroupView {
    GroupView {
        state: g.state,
        group_id: g.group_id,
        entities: Seq::new(g.entities.len(), |i: int| entity_snapshot(g.group_id, g.entities[i], uid)),
    }
}

/// How the groups of a scene look to the client of player `uid`, in order.
pub open spec fn groups_snapshot(groups: Seq<GroupPlacementView>, uid: u32) -> Seq<GroupView> {
    Seq::new(groups.len(), |i: int| group_snapshot(groups[i], uid))
}

/// The groups to report for the scene behind `entry_id`: none where the
/// registry knows no such scene, the snapshot of its layout where that is
/// consistent, and an error where it is not.
pub open spec fn scene_groups(scenes: Seq<SceneLayoutView>, entry_id: u32, uid: u32) -> Result<
    Seq<GroupView>,
    ProtocolError,
> {
    match find_layout(scenes, entry_id) {
        None => Ok(Seq::empty()),
        Some(layout) => if layout_consistent(layout.groups) {
            Ok(groups_snapshot(layout.groups, uid))
        } else {
            Err(ProtocolError::InternalInconsistency)
        },
    }
}

/// Tests whether some value occurs at two places of the list.
pub fn has_duplicates(ids: &Vec<u32>) -> (r: bool)
    ensures
        r == !ids@.no_duplicates(),
{
    let mut i: usize = 0;
    while i < ids.len()
        invariant
            i <= ids.len(),
            forall|a: int, b: int| 0 <= a < b < i ==> ids@[a] != ids@[b],
        decreases ids.len() - i,
    {
        let mut j: usize = 0;
        while j < i
            invariant
                j <= i,
                i < ids.len(),
                forall|a: int| 0 <= a < j ==> ids@[a] != ids@[i as int],
            decreases i - j,
        {
            if ids[j] == ids[i] {
                return true;
            }
            j += 1;
        }
        i += 1;
    }
    assert forall|a: int, b: int| 0 <= a < ids@.len() && 0 <= b < ids@.len() && a != b implies ids@[a]
        != ids@[b] by {}
    false
}

/// Builds the client's picture of one placement.
pub fn snapshot_entity(group_id: u32, p: &EntityPlacement, uid: u32) -> (e: SceneEntityInfo)
    ensures
        e == entity_snapshot(group_id, *p, uid),
{
    let motion = MotionInfo::at_rest(p.position);
    match p.kind {
        PlacedKind::Actor { avatar_type, base_avatar_id, map_layer } => SceneEntityInfo {
            group_id,
            inst_id: p.inst_id,
            entity_id: p.entity_id,
            motion,
            actor: Some(SceneActorInfo { avatar_type, base_avatar_id, map_layer, uid }),
            prop: None,
        },
        PlacedKind::Prop { prop_id, prop_state } => SceneEntityInfo {
            group_id,
            inst_id: p.inst_id,
            entity_id: p.entity_id,
            motion,
            actor: None,
            prop: Some(ScenePropInfo { prop_id, prop_state }),
        },
    }
}

/// Builds the client's picture of one group.
pub fn snapshot_group(g: &GroupPlacement, uid: u32) -> (out: SceneEntityGroupInfo)
    ensures
        out@ == group_snapshot(g@, uid),
{
    let mut entity_list: Vec<SceneEntityInfo> = Vec::new();
    let mut i: usize = 0;
    while i < g.entities.len()
        invariant
            i <= g.entities.len(),
            entity_list@.len() == i,
            forall|k: int|
                0 <= k < i ==> entity_list@[k] == entity_snapshot(g.group_id, g.entities@[k], uid),
        decreases g.entities.len() - i,
    {
        entity_list.push(snapshot_entity(g.group_id, &g.entities[i], uid));
        i += 1;
    }
    assert(entity_list@ =~= group_snapshot(g@, uid).entities);
    SceneEntityGroupInfo { state: g.state, group_id: g.group_id, entity_list }
}

impl SceneLayout {
    /// Lists the group identifiers, in order.
    pub fn collect_group_ids(&self) -> (ids: Vec<u32>)
        ensures
            ids@ == group_ids(self@.groups),
    {
        let mut ids: Vec<u32> = Vec::new();
        let mut g: usize = 0;
        while g < self.groups.len()
            invariant
                g <= self.groups.len(),
                ids@.len() == g,
                forall|k: int| 0 <= k < g ==> ids@[k] == self.groups@[k].group_id,
            decreases self.groups.len() - g,
        {
            ids.push(self.groups[g].group_id);
            g += 1;
        }
        ids
    }

    /// Lists the entity identifiers, group after group.
    pub fn collect_entity_ids(&self) -> (ids: Vec<u32>)
        ensures
            ids@ == entity_ids(self@.groups),
    {
        let mut ids: Vec<u32> = Vec::new();
        let mut g: usize = 0;
        while g < self.groups.len()
            invariant
                g <= self.groups.len(),
                ids@ == entity_ids(self@.groups.take(g as int)),
            decreases self.groups.len() - g,
        {
            let group = &self.groups[g];
            let ghost before = ids@;
            let mut i: usize = 0;
            while i < group.entities.len()
                invariant
                    i <= group.entities.len(),
                    ids@ == before + ids_in(group.entities@.take(i as int)),
                decreases group.entities.len() - i,
            {
                ids.push(group.entities[i].entity_id);
                i += 1;
            }
            g += 1;
            assert(self@.groups.take(g as int).drop_last() =~= self@.groups.take(g - 1));
        }
        assert(self@.groups.take(g as int) =~= self@.groups);
        ids
    }

    /// Checks that no group identifier and no entity identifier is repeated.
    pub fn is_consistent(&self) -> (r: bool)
        ensures
            r == layout_consistent(self@.groups),
    {
        let groups = self.collect_group_ids();
        if has_duplicates(&groups) {
            return false;
        }
        let entities = self.collect_entity_ids();
        !has_duplicates(&entities)
    }

    /// Builds the client's picture of every group, in order.
    pub fn snapshot(&self, uid: u32) -> (out: Vec<SceneEntityGroupInfo>)
        ensures
            groups_view(out@) == groups_snapshot(self@.groups, uid),
    {
        let mut out: Vec<SceneEntityGroupInfo> = Vec::new();
        let mut g: usize = 0;
        while g < self.groups.len()
            invariant
                g <= self.groups.len(),
                out@.len() == g,
                forall|k: int| 0 <= k < g ==> out@[k]@ == group_snapshot(self.groups@[k]@, uid),
            decreases self.groups.len() - g,
        {
            out.push(snapshot_group(&self.groups[g], uid));
            g += 1;
        }
        out
    }
}

impl EntityRegistry {
    /// Wraps the recorded layouts, keeping their order.
    pub fn new(scenes: Vec<SceneLayout>) -> (registry: EntityRegistry)
        ensures
            registry.scenes == scenes,
    {
        EntityRegistry { scenes }
    }

    /// Looks up the layout recorded for an entrance.
    pub fn find_layout(&self, entry_id: u32) -> (r: Option<&SceneLayout>)
        ensures
            match r {
                Some(layout) => find_layout(self@, entry_id) == Some(layout@),
                None => find_layout(self@, entry_id) is None,
            },
    {
        let mut i: usize = 0;
        assert(self@.skip(0) =~= self@);
        while i < self.scenes.len()
            invariant
                i <= self.scenes.len(),
                find_layout(self@, entry_id) == find_layout(self@.skip(i as int), entry_id),
            decreases self.scenes.len() - i,
        {
            let layout = &self.scenes[i];
            if layout.entry_id == entry_id {
                return Some(layout);
            }
            assert(self@.skip(i as int).drop_first() =~= self@.skip(i as int + 1));
            i += 1;
        }
        None
    }

    /// Assembles the entity groups of the scene behind `entry_id` for the
    /// client of player `uid`. A scene the registry does not know has no
    /// groups; a scene whose record repeats an identifier is refused.
    pub fn build_entity_groups(&self, entry_id: u32, uid: u32) -> (r: Result<
        Vec<SceneEntityGroupInfo>,
        ProtocolError,
    >)
        ensures
            match r {
                Ok(groups) => scene_groups(self@, entry_id, uid) == Ok::<
                    Seq<GroupView>,
                    ProtocolError,
                >(groups_view(groups@)),
                Err(e) => scene_groups(self@, entry_id, uid) == Err::<Seq<GroupView>, ProtocolError>(
                    e,
                ),
            },
    {
        match self.find_layout(entry_id) {
            None => {
                let groups: Vec<SceneEntityGroupInfo> = Vec::new();
                assert(groups_view(groups@) =~= Seq::empty());
                Ok(groups)
            },
            Some(layout) => {
                if layout.is_consistent() {
                    Ok(layout.snapshot(uid))
                } else {
                    Err(ProtocolError::InternalInconsistency)
                }
            },
        }
    }
}

/// Every entity of a snapshot is an actor or a prop and never both, rests at
/// the position of its placement, carries the identifiers of its placement and
/// of its group, and, where it is an actor, is owned by the player the snapshot
/// was built for.
pub proof fn lemma_snapshot_entities(groups: Seq<GroupPlacementView>, uid: u32, g: int, i: int)
    requires
        0 <= g < groups.len(),
        0 <= i < groups[g].entities.len(),
    ensures
        groups_snapshot(groups, uid).len() == groups.len(),
        groups_snapshot(groups, uid)[g].group_id == groups[g].group_id,
        groups_snapshot(groups, uid)[g].state == groups[g].state,
        groups_snapshot(groups, uid)[g].entities.len() == groups[g].entities.len(),
        ({
            let e = groups_snapshot(groups, uid)[g].entities[i];
            let p = groups[g].entities[i];
            &&& e.is_exclusive()
            &&& e.owned_by(uid)
            &&& e.actor is Some <==> p.kind is Actor
            &&& e.prop is Some <==> p.kind is Prop
            &&& e.motion.is_stationary()
            &&& e.motion.pos == p.position
            &&& e.group_id == groups[g].group_id
            &&& e.inst_id == p.inst_id
            &&& e.entity_id == p.entity_id
        }),
{
}

/// The number of entity identifiers in the first `g` groups of a scene.
pub open spec fn ids_before(groups: Seq<GroupPlacementView>, g: int) -> int {
    entity_ids(groups.take(g)).len() as int
}

proof fn lemma_entity_ids_step(groups: Seq<GroupPlacementView>, g: int)
    requires
        0 <= g < groups.len(),
    ensures
        entity_ids(groups.take(g + 1)) == entity_ids(groups.take(g)) + ids_in(groups[g].entities),
{
    let upto = groups.take(g + 1);
    assert(upto.drop_last() =~= groups.take(g));
}

proof fn lemma_entity_ids_prefix(groups: Seq<GroupPlacementView>, g: int, h: int)
    requires
        0 <= g <= h <= groups.len(),
    ensures
        ids_before(groups, g) <= ids_before(groups, h),
        forall|k: int|
            0 <= k < ids_before(groups, g) ==> entity_ids(groups.take(h))[k] == entity_ids(
                groups.take(g),
            )[k],
    decreases h - g,
{
    if g < h {
        lemma_entity_ids_prefix(groups, g, h - 1);
        lemma_entity_ids_step(groups, h - 1);
    }
}

/// The entity identifier of placement `i` of group `g` stands in the scene's
/// list of identifiers at the place that the groups before it leave free.
pub proof fn lemma_entity_id_position(groups: Seq<GroupPlacementView>, g: int, i: int)
    requires
        0 <= g < groups.len(),
        0 <= i < groups[g].entities.len(),
    ensures
        0 <= ids_before(groups, g) + i < entity_ids(groups).len(),
        ids_before(groups, g) + i < ids_before(groups, g + 1),
        entity_ids(groups)[ids_before(groups, g) + i] == groups[g].entities[i].entity_id,
{
    lemma_entity_ids_step(groups, g);
    lemma_entity_ids_prefix(groups, g + 1, groups.len() as int);
    assert(groups.take(groups.len() as int) =~= groups);
}

/// In a consistent scene two different groups have different identifiers, and
/// two different placements, of one group or of two, have different entity
/// identifiers; a snapshot of the scene keeps both.
pub proof fn lemma_consistent_ids_distinct(
    groups: Seq<GroupPlacementView>,
    uid: u32,
    g1: int,
    i1: int,
    g2: int,
    i2: int,
)
    requires
        layout_consistent(groups),
        0 <= g1 < groups.len(),
        0 <= i1 < groups[g1].entities.len(),
        0 <= g2 < groups.len(),
        0 <= i2 < groups[g2].entities.len(),
    ensures
        g1 != g2 ==> groups[g1].group_id != groups[g2].group_id,
        g1 != g2 ==> groups_snapshot(groups, uid)[g1].group_id != groups_snapshot(
            groups,
            uid,
        )[g2].group_id,
        (g1 != g2 || i1 != i2) ==> groups[g1].entities[i1].entity_id
            != groups[g2].entities[i2].entity_id,
        (g1 != g2 || i1 != i2) ==> groups_snapshot(groups, uid)[g1].entities[i1].entity_id
            != groups_snapshot(groups, uid)[g2].entities[i2].entity_id,
{
    if g1 != g2 {
        assert(group_ids(groups)[g1] == groups[g1].group_id);
        assert(group_ids(groups)[g2] == groups[g2].group_id);
    }
    lemma_entity_id_position(groups, g1, i1);
    lemma_entity_id_position(groups, g2, i2);
    if g1 < g2 {
        lemma_entity_ids_prefix(groups, g1 + 1, g2);
    } else if g2 < g1 {
        lemma_entity_ids_prefix(groups, g2 + 1, g1);
    }
}

/// What a layout lookup finds: a layout recorded for the entrance asked for,
/// with no such layout before it; and nothing exactly when none is recorded.
/// A scene without a recorded layout has no groups, which is no error.
pub proof fn lemma_find_layout(scenes: Seq<SceneLayoutView>, entry_id: u32, uid: u32)
    ensures
        find_layout(scenes, entry_id) is None <==> forall|i: int|
            0 <= i < scenes.len() ==> (#[trigger] scenes[i]).entry_id != entry_id,
        find_layout(scenes, entry_id) matches Some(l) ==> l.entry_id == entry_id && exists|i: int|
            0 <= i < scenes.len() && #[trigger] scenes[i] == l && forall|j: int|
                0 <= j < i ==> (#[trigger] scenes[j]).entry_id != entry_id,
        find_layout(scenes, entry_id) is None ==> scene_groups(scenes, entry_id, uid) == Ok::<
            Seq<GroupView>,
            ProtocolError,
        >(Seq::empty()),
    decreases scenes.len(),
{
    if scenes.len() == 0 {
    } else if scenes.first().entry_id == entry_id {
        assert(scenes[0] == scenes.first());
    } else {
        let rest = scenes.drop_first();
        lemma_find_layout(rest, entry_id, uid);
        assert forall|i: int| 0 <= i < rest.len() implies rest[i] == scenes[i + 1] by {}
        if find_layout(rest, entry_id) is None {
            assert forall|i: int| 0 <= i < scenes.len() implies (#[trigger] scenes[i]).entry_id
                != entry_id by {
                if i > 0 {
                    assert(rest[i - 1].entry_id != entry_id);
                }
            }
        } else {
            let l = find_layout(rest, entry_id).unwrap();
            let k = choose|i: int|
                0 <= i < rest.len() && #[trigger] rest[i] == l && forall|j: int|
                    0 <= j < i ==> (#[trigger] rest[j]).entry_id != entry_id;
            assert(scenes[k + 1] == l);
            assert forall|j: int| 0 <= j < k + 1 implies (#[trigger] scenes[j]).entry_id
                != entry_id by {
                if j > 0 {
                    assert(rest[j - 1].entry_id != entry_id);
                }
            }
        }
    }
}

} // verus!
