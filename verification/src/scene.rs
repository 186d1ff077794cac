//! The scene state machine: the handlers that move a session between scenes
//! and report where it stands.

use vstd::prelude::*;
use crate::cmd::{
    CMD_ENTER_SCENE_BY_SERVER_SC_NOTIFY, CMD_ENTER_SCENE_SC_RSP, CMD_GET_CUR_SCENE_INFO_SC_RSP,
    RETCODE_FAIL, RETCODE_SUCCESS,
};
use crate::data::{find_entrance, EntranceConfig, StaticDataIndex};
use crate::error::ProtocolError;
use crate::message::{
    EnterSceneCsReq, GetCurSceneInfoCsReq, GroupView, Payload, PayloadView, SceneEntityGroupInfo,
    SceneInfo, SceneInfoView, ENTER_SCENE_REASON_NONE, ENTRANCE_GAME_MODE_TYPE,
};
use crate::registry::{scene_groups, EntityRegistry, SceneLayoutView};
use crate::session::{PlayerSession, SceneRef, SceneState, SessionView};

verus! {

/// The scene that an entrance record leads to.
pub open spec fn scene_behind(c: EntranceConfig) -> SceneRef {
    SceneRef { plane_id: c.plane_id, floor_id: c.floor_id, entry_id: c.id }
}

/// The description of a scene with the given groups in it.
pub open spec fn scene_info_of(scene: SceneRef, groups: Seq<GroupView>) -> SceneInfoView {
    SceneInfoView {
        plane_id: scene.plane_id,
        floor_id: scene.floor_id,
        entry_id: scene.entry_id,
        game_mode_type: ENTRANCE_GAME_MODE_TYPE,
        groups,
    }
}

/// The acknowledgement of an enter-scene request.
pub open spec fn enter_scene_ack() -> PayloadView {
    PayloadView::EnterSceneScRsp { retcode: RETCODE_SUCCESS }
}

/// The refusal of an enter-scene request.
pub open spec fn enter_scene_refusal() -> PayloadView {
    PayloadView::EnterSceneScRsp { retcode: RETCODE_FAIL }
}

/// The push that follows the acknowledgement: the player's lineup and the
/// scene just entered, with no group listed.
pub open spec fn enter_scene_notify(s: SessionView, c: EntranceConfig) -> PayloadView {
    PayloadView::EnterSceneByServerScNotify {
        reason: ENTER_SCENE_REASON_NONE,
        lineup: s.lineup,
        scene: scene_info_of(scene_behind(c), Seq::empty()),
    }
}

/// What an enter-scene request does to a session and how it ends.
///
/// On a closed session nothing happens. For an entrance without a record the
/// session keeps its scene and a refusal is queued. Otherwise the session moves
/// to the scene behind the entrance, and the acknowledgement is queued first,
/// the push second.
pub open spec fn enter_scene_spec(s: SessionView, index: Seq<EntranceConfig>, entry_id: u32) -> (
    SessionView,
    Result<(), ProtocolError>,
) {
    if s.state is Disconnected {
        (s, Err(ProtocolError::ChannelClosed))
    } else {
        match find_entrance(index, entry_id) {
            None => (
                s.with_packet(CMD_ENTER_SCENE_SC_RSP, enter_scene_refusal()),
                Err(ProtocolError::UnknownEntrance),
            ),
            Some(c) => (
                s.with_state(SceneState::InScene(scene_behind(c))).with_packet(
                    CMD_ENTER_SCENE_SC_RSP,
                    enter_scene_ack(),
                ).with_packet(CMD_ENTER_SCENE_BY_SERVER_SC_NOTIFY, enter_scene_notify(s, c)),
                Ok(()),
            ),
        }
    }
}

/// The answer to a scene query that could be served.
pub open spec fn scene_report(scene: SceneInfoView) -> PayloadView {
    PayloadView::GetCurSceneInfoScRsp { retcode: RETCODE_SUCCESS, scene }
}

/// The answer to a scene query that could not be served.
pub open spec fn scene_report_refusal() -> PayloadView {
    PayloadView::GetCurSceneInfoScRsp { retcode: RETCODE_FAIL, scene: SceneInfoView::blank() }
}

/// What a scene query does to a session and how it ends.
///
/// On a closed session nothing happens. A session in no scene is answered with
/// the blank snapshot. A session in a scene is answered with that scene and the
/// groups the registry holds for it; where the registry's record is
/// inconsistent, a refusal is queued in place of the answer.
pub open spec fn get_cur_scene_info_spec(s: SessionView, registry: Seq<SceneLayoutView>) -> (
    SessionView,
    Result<(), ProtocolError>,
) {
    match s.state {
        SceneState::Disconnected => (s, Err(ProtocolError::ChannelClosed)),
        SceneState::NoScene => (
            s.with_packet(CMD_GET_CUR_SCENE_INFO_SC_RSP, scene_report(SceneInfoView::blank())),
            Ok(()),
        ),
        SceneState::InScene(scene) => match scene_groups(registry, scene.entry_id, s.uid) {
            Ok(groups) => (
                s.with_packet(
                    CMD_GET_CUR_SCENE_INFO_SC_RSP,
                    scene_report(scene_info_of(scene, groups)),
                ),
                Ok(()),
            ),
            Err(e) => (
                s.with_packet(CMD_GET_CUR_SCENE_INFO_SC_RSP, scene_report_refusal()),
                Err(e),
            ),
        },
    }
}

/// Builds the description of a scene from its reference and its groups.
pub fn make_scene_info(scene: SceneRef, groups: Vec<SceneEntityGroupInfo>) -> (info: SceneInfo)
    ensures
        info@ == scene_info_of(scene, crate::message::groups_view(groups@)),
{
    SceneInfo {
        plane_id: scene.plane_id,
        floor_id: scene.floor_id,
        entry_id: scene.entry_id,
        game_mode_type: ENTRANCE_GAME_MODE_TYPE,
        entity_group_list: groups,
    }
}

/// Serves a request to enter the scene behind an entrance.
///
/// The entrance is looked up before anything is sent. If it has no record, the
/// client gets a refusal and the session stays where it was. If it has one, the
/// session moves there, the client gets the acknowledgement and, after it, the
/// push with the lineup and the new scene.
pub fn on_enter_scene_cs_req(
    session: &mut PlayerSession,
    index: &StaticDataIndex,
    body: &EnterSceneCsReq,
) -> (r: Result<(), ProtocolError>)
    ensures
        final(session)@ == enter_scene_spec(old(session)@, index@, body.entry_id).0,
        r == enter_scene_spec(old(session)@, index@, body.entry_id).1,
{
    if !session.is_connected() {
        return Err(ProtocolError::ChannelClosed);
    }
    let entrance_config = match index.find_entrance_config(body.entry_id) {
        Some(c) => c,
        None => {
            let refusal = Payload::EnterSceneScRsp { retcode: RETCODE_FAIL };
            return match session.send(CMD_ENTER_SCENE_SC_RSP, refusal) {
                Ok(()) => Err(ProtocolError::UnknownEntrance),
                Err(e) => Err(e),
            };
        },
    };
    let scene = SceneRef {
        plane_id: entrance_config.plane_id,
        floor_id: entrance_config.floor_id,
        entry_id: entrance_config.id,
    };
    let player = session.player_info();
    session.enter_scene(scene);
    match session.send(CMD_ENTER_SCENE_SC_RSP, Payload::EnterSceneScRsp { retcode: RETCODE_SUCCESS }) {
        Ok(()) => {},
        Err(e) => {
            return Err(e);
        },
    }
    let groups: Vec<SceneEntityGroupInfo> = Vec::new();
    assert(crate::message::groups_view(groups@) =~= Seq::empty());
    let enter_scene_by_server = Payload::EnterSceneByServerScNotify {
        reason: ENTER_SCENE_REASON_NONE,
        lineup: player.lineup,
        scene: make_scene_info(scene, groups),
    };
    session.send(CMD_ENTER_SCENE_BY_SERVER_SC_NOTIFY, enter_scene_by_server)
}

/// Serves a request for the current scene.
///
/// A player in no scene gets the blank snapshot. A player in a scene gets that
/// scene with the groups the registry holds for it, every actor owned by the
/// player; if the registry's record of the scene repeats an identifier, the
/// client gets a refusal. The session's scene never changes.
pub fn on_get_cur_scene_info_cs_req(
    session: &mut PlayerSession,
    registry: &EntityRegistry,
    _body: &GetCurSceneInfoCsReq,
) -> (r: Result<(), ProtocolError>)
    ensures
        final(session)@ == get_cur_scene_info_spec(old(session)@, registry@).0,
        r == get_cur_scene_info_spec(old(session)@, registry@).1,
{
    match session.scene_state() {
        SceneState::Disconnected => Err(ProtocolError::ChannelClosed),
        SceneState::NoScene => {
            let report = Payload::GetCurSceneInfoScRsp {
                retcode: RETCODE_SUCCESS,
                scene: SceneInfo::blank(),
            };
            session.send(CMD_GET_CUR_SCENE_INFO_SC_RSP, report)
        },
        SceneState::InScene(scene) => {
            match registry.build_entity_groups(scene.entry_id, session.player_uid()) {
                Ok(groups) => {
                    let report = Payload::GetCurSceneInfoScRsp {
                        retcode: RETCODE_SUCCESS,
                        scene: make_scene_info(scene, groups),
                    };
                    session.send(CMD_GET_CUR_SCENE_INFO_SC_RSP, report)
                },
                Err(e) => {
                    let refusal = Payload::GetCurSceneInfoScRsp {
                        retcode: RETCODE_FAIL,
                        scene: SceneInfo::blank(),
                    };
                    match session.send(CMD_GET_CUR_SCENE_INFO_SC_RSP, refusal) {
                        Ok(()) => Err(e),
                        Err(closed) => Err(closed),
                    }
                },
            }
        },
    }
}

} // verus!
