//! The typed payloads that travel between client and server, each with the
//! mathematical value that contracts speak of.

use vstd::prelude::*;
use crate::cmd::{
    CMD_ENTER_SCENE_BY_SERVER_SC_NOTIFY, CMD_ENTER_SCENE_SC_RSP, CMD_GET_CUR_SCENE_INFO_SC_RSP,
};

verus! {

/// Reason code of a scene entry that nothing special caused.
pub const ENTER_SCENE_REASON_NONE: u32 = 0;

/// Game-mode type reported for every scene reached through a map entrance.
pub const ENTRANCE_GAME_MODE_TYPE: u32 = 2;

/// A point or direction in the game's integer coordinate scale.
#[derive(Clone, Copy, Debug, PartialEq, Eq)]
pub struct Vector {
    pub x: i32,
    pub y: i32,
    pub z: i32,
}

/// Where an entity is and where it is heading.
#[derive(Clone, Copy, Debug, PartialEq, Eq)]
pub struct MotionInfo {
    pub pos: Vector,
    pub target: Vector,
}

impl MotionInfo {
    /// An entity at rest heads for the place where it already is.
    pub open spec fn is_stationary(self) -> bool {
        self.pos == self.target
    }

    /// The motion of an entity resting at `at`.
    pub fn at_rest(at: Vector) -> (m: MotionInfo)
        ensures
            m == (MotionInfo { pos: at, target: at }),
            m.is_stationary(),
    {
        MotionInfo { pos: at, target: at }
    }
}

/// The character part of an entity.
#[derive(Clone, Copy, Debug, PartialEq, Eq)]
pub struct SceneActorInfo {
    pub avatar_type: u32,
    pub base_avatar_id: u32,
    pub map_layer: u32,
    /// The player who owns the character.
    pub uid: u32,
}

/// The prop part of an entity.
#[derive(Clone, Copy, Debug, PartialEq, Eq)]
pub struct ScenePropInfo {
    pub prop_id: u32,
    pub prop_state: u32,
}

/// One placed object as the client sees it. Exactly one of `actor` and `prop`
/// is filled in a well-formed entity.
#[derive(Clone, Copy, Debug, PartialEq, Eq)]
pub struct SceneEntityInfo {
    pub group_id: u32,
    pub inst_id: u32,
    pub entity_id: u32,
    pub motion: MotionInfo,
    pub actor: Option<SceneActorInfo>,
    pub prop: Option<ScenePropInfo>,
}

impl SceneEntityInfo {
    /// The entity is an actor or a prop, never both and never neither.
    pub open spec fn is_exclusive(self) -> bool {
        self.actor.is_some() != self.prop.is_some()
    }

    /// Every actor part names `uid` as its owner.
    pub open spec fn owned_by(self, uid: u32) -> bool {
        self.actor matches Some(a) ==> a.uid == uid
    }

    /// Tests that exactly one of the two parts is present.
    pub fn check_exclusive(&self) -> (r: bool)
        ensures
            r == self.is_exclusive(),
    {
        self.actor.is_some() != self.prop.is_some()
    }
}

/// The entities of one group with the group's activation state.
#[derive(Clone, Debug, PartialEq, Eq)]
pub struct SceneEntityGroupInfo {
    pub state: u32,
    pub group_id: u32,
    pub entity_list: Vec<SceneEntityInfo>,
}

/// What a `SceneEntityGroupInfo` stands for.
pub struct GroupView {
    pub state: u32,
    pub group_id: u32,
    pub entities: Seq<SceneEntityInfo>,
}

impl View for SceneEntityGroupInfo {
    type V = GroupView;

    open spec fn view(&self) -> GroupView {
        GroupView { state: self.state, group_id: self.group_id, entities: self.entity_list@ }
    }
}

/// The values of a list of groups, in order.
pub open spec fn groups_view(groups: Seq<SceneEntityGroupInfo>) -> Seq<GroupView> {
    Seq::new(groups.len(), |i: int| groups[i]@)
}

/// A player's location with what is placed there.
#[derive(Clone, Debug, PartialEq, Eq)]
pub struct SceneInfo {
    pub plane_id: u32,
    pub floor_id: u32,
    pub entry_id: u32,
    pub game_mode_type: u32,
    pub entity_group_list: Vec<SceneEntityGroupInfo>,
}

/// What a `SceneInfo` stands for.
pub struct SceneInfoView {
    pub plane_id: u32,
    pub floor_id: u32,
    pub entry_id: u32,
    pub game_mode_type: u32,
    pub groups: Seq<GroupView>,
}

impl View for SceneInfo {
    type V = SceneInfoView;

    open spec fn view(&self) -> SceneInfoView {
        SceneInfoView {
            plane_id: self.plane_id,
            floor_id: self.floor_id,
            entry_id: self.entry_id,
            game_mode_type: self.game_mode_type,
            groups: groups_view(self.entity_group_list@),
        }
    }
}

impl SceneInfoView {
    /// The snapshot of a player who is in no scene: every number zero, no
    /// group.
    pub open spec fn blank() -> SceneInfoView {
        SceneInfoView {
            plane_id: 0,
            floor_id: 0,
            entry_id: 0,
            game_mode_type: 0,
            groups: Seq::empty(),
        }
    }
}

impl SceneInfo {
    /// Builds the snapshot of a player who is in no scene.
    pub fn blank() -> (s: SceneInfo)
        ensures
            s@ == SceneInfoView::blank(),
    {
        let s = SceneInfo {
            plane_id: 0,
            floor_id: 0,
            entry_id: 0,
            game_mode_type: 0,
            entity_group_list: Vec::new(),
        };
        assert(s@.groups =~= Seq::empty());
        s
    }
}

/// One deployed character of a lineup.
#[derive(Clone, Copy, Debug, PartialEq, Eq)]
pub struct LineupAvatar {
    pub id: u32,
    pub slot: u32,
}

/// The characters a player has deployed, in slot order.
#[derive(Clone, Debug, PartialEq, Eq)]
pub struct LineupInfo {
    pub avatar_list: Vec<LineupAvatar>,
    pub leader_slot: u32,
}

/// What a `LineupInfo` stands for.
pub struct LineupView {
    pub avatars: Seq<LineupAvatar>,
    pub leader_slot: u32,
}

impl View for LineupInfo {
    type V = LineupView;

    open spec fn view(&self) -> LineupView {
        LineupView { avatars: self.avatar_list@, leader_slot: self.leader_slot }
    }
}

impl LineupInfo {
    /// Makes an independent copy with the same characters in the same order.
    pub fn duplicate(&self) -> (r: LineupInfo)
        ensures
            r@ == self@,
    {
        let mut avatars: Vec<LineupAvatar> = Vec::new();
        let mut i: usize = 0;
        while i < self.avatar_list.len()
            invariant
                i <= self.avatar_list.len(),
                avatars@ == self.avatar_list@.take(i as int),
            decreases self.avatar_list.len() - i,
        {
            avatars.push(self.avatar_list[i]);
            i += 1;
        }
        assert(avatars@ =~= self.avatar_list@);
        LineupInfo { avatar_list: avatars, leader_slot: self.leader_slot }
    }
}

/// Request to move the player through a map entrance.
#[derive(Clone, Copy, Debug, PartialEq, Eq)]
pub struct EnterSceneCsReq {
    pub entry_id: u32,
}

/// Request for the player's current scene. It carries nothing.
#[derive(Clone, Copy, Debug, PartialEq, Eq)]
pub struct GetCurSceneInfoCsReq {}

/// Everything the server sends.
#[derive(Clone, Debug, PartialEq, Eq)]
pub enum Payload {
    /// Answer to `EnterSceneCsReq`.
    EnterSceneScRsp { retcode: u32 },
    /// Push that tells the client which scene it is now in.
    EnterSceneByServerScNotify { reason: u32, lineup: LineupInfo, scene: SceneInfo },
    /// Answer to `GetCurSceneInfoCsReq`.
    GetCurSceneInfoScRsp { retcode: u32, scene: SceneInfo },
}

/// What a `Payload` stands for.
pub enum PayloadView {
    EnterSceneScRsp { retcode: u32 },
    EnterSceneByServerScNotify { reason: u32, lineup: LineupView, scene: SceneInfoView },
    GetCurSceneInfoScRsp { retcode: u32, scene: SceneInfoView },
}

impl PayloadView {
    /// The command number that belongs to this payload's shape.
    pub open spec fn command_id(self) -> u16 {
        match self {
            PayloadView::EnterSceneScRsp { .. } => CMD_ENTER_SCENE_SC_RSP,
            PayloadView::EnterSceneByServerScNotify { .. } => CMD_ENTER_SCENE_BY_SERVER_SC_NOTIFY,
            PayloadView::GetCurSceneInfoScRsp { .. } => CMD_GET_CUR_SCENE_INFO_SC_RSP,
        }
    }
}

impl View for Payload {
    type V = PayloadView;

    open spec fn view(&self) -> PayloadView {
        match *self {
            Payload::EnterSceneScRsp { retcode } => PayloadView::EnterSceneScRsp { retcode },
            Payload::EnterSceneByServerScNotify { reason, lineup, scene } => {
                PayloadView::EnterSceneByServerScNotify { reason, lineup: lineup@, scene: scene@ }
            },
            Payload::GetCurSceneInfoScRsp { retcode, scene } => {
                PayloadView::GetCurSceneInfoScRsp { retcode, scene: scene@ }
            },
        }
    }
}

impl Payload {
    /// The command number under which this payload must be sent.
    pub fn command_id(&self) -> (id: u16)
        ensures
            id == self@.command_id(),
    {
        match self {
            Payload::EnterSceneScRsp { .. } => CMD_ENTER_SCENE_SC_RSP,
            Payload::EnterSceneByServerScNotify { .. } => CMD_ENTER_SCENE_BY_SERVER_SC_NOTIFY,
            Payload::GetCurSceneInfoScRsp { .. } => CMD_GET_CUR_SCENE_INFO_SC_RSP,
        }
    }
}

/// A payload with the command number it is sent under.
#[derive(Clone, Debug, PartialEq, Eq)]
pub struct Packet {
    pub cmd_id: u16,
    pub payload: Payload,
}

/// What a `Packet` stands for.
pub struct PacketView {
    pub cmd_id: u16,
    pub payload: PayloadView,
}

impl PacketView {
    /// The packet travels under the number of its payload's shape.
    pub open spec fn is_consistent(self) -> bool {
        self.cmd_id == self.payload.command_id()
    }
}

impl View for Packet {
    type V = PacketView;

    open spec fn view(&self) -> PacketView {
        PacketView { cmd_id: self.cmd_id, payload: self.payload@ }
    }
}

/// The values of a list of packets, in order.
pub open spec fn packets_view(packets: Seq<Packet>) -> Seq<PacketView> {
    Seq::new(packets.len(), |i: int| packets[i]@)
}

} // verus!
