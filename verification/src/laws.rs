//! What holds of the handlers and the dispatcher on every input, stated over
//! the same functions that their contracts use.

use vstd::prelude::*;
use crate::cmd::{
    kind_of, response_of, CommandKind, CMD_ENTER_SCENE_BY_SERVER_SC_NOTIFY, CMD_ENTER_SCENE_CS_REQ,
    CMD_ENTER_SCENE_SC_RSP, CMD_GET_CUR_SCENE_INFO_CS_REQ, CMD_GET_CUR_SCENE_INFO_SC_RSP,
    RETCODE_FAIL, RETCODE_SUCCESS,
};
use crate::data::{find_entrance, lemma_find_entrance, EntranceConfig};
use crate::dispatch::{dispatch_spec, standard_routes, HandlerKind};
use crate::error::ProtocolError;
use crate::message::{PacketView, PayloadView, SceneInfoView, ENTRANCE_GAME_MODE_TYPE};
use crate::registry::{
    find_layout, groups_snapshot, layout_consistent, lemma_consistent_ids_distinct,
    lemma_snapshot_entities, SceneLayoutView,
};
use crate::scene::{enter_scene_spec, get_cur_scene_info_spec};
use crate::session::{SceneRef, SceneState, SessionView};

verus! {

/// Entering an entrance that the index holds, on an open session, succeeds.
/// The session is then in the scene of the entrance's record. Two packets are
/// queued behind those that waited: the acknowledgement, and after it the push,
/// whose scene carries the record's plane and floor and the entrance asked for,
/// with the game-mode type of entrances, and whose lineup is the player's.
pub proof fn lemma_enter_known_entrance(
    s: SessionView,
    index: Seq<EntranceConfig>,
    entry_id: u32,
)
    requires
        !(s.state is Disconnected),
        exists|i: int| 0 <= i < index.len() && (#[trigger] index[i]).id == entry_id,
    ensures
        find_entrance(index, entry_id) is Some,
        ({
            let c = find_entrance(index, entry_id).unwrap();
            let (after, r) = enter_scene_spec(s, index, entry_id);
            let n = s.outbox.len() as int;
            &&& index.contains(c)
            &&& c.id == entry_id
            &&& r is Ok
            &&& after.uid == s.uid
            &&& after.lineup == s.lineup
            &&& after.state == SceneState::InScene(
                SceneRef { plane_id: c.plane_id, floor_id: c.floor_id, entry_id },
            )
            &&& after.outbox.len() == n + 2
            &&& after.outbox.take(n) == s.outbox
            &&& after.outbox[n] == PacketView {
                cmd_id: CMD_ENTER_SCENE_SC_RSP,
                payload: PayloadView::EnterSceneScRsp { retcode: RETCODE_SUCCESS },
            }
            &&& after.outbox[n + 1].cmd_id == CMD_ENTER_SCENE_BY_SERVER_SC_NOTIFY
            &&& after.outbox[n + 1].payload matches PayloadView::EnterSceneByServerScNotify {
                lineup,
                scene,
                ..
            }
            &&& lineup == s.lineup
            &&& scene.plane_id == c.plane_id
            &&& scene.floor_id == c.floor_id
            &&& scene.entry_id == entry_id
            &&& scene.game_mode_type == ENTRANCE_GAME_MODE_TYPE
        }),
{
    lemma_find_entrance(index, entry_id);
}

/// Entering an entrance that the index does not hold fails and leaves the
/// session in the scene it was in. An open session gets one packet more, the
/// refusal; a closed one gets nothing.
pub proof fn lemma_enter_unknown_entrance(
    s: SessionView,
    index: Seq<EntranceConfig>,
    entry_id: u32,
)
    requires
        forall|i: int| 0 <= i < index.len() ==> (#[trigger] index[i]).id != entry_id,
    ensures
        ({
            let (after, r) = enter_scene_spec(s, index, entry_id);
            &&& r is Err
            &&& after.state == s.state
            &&& after.uid == s.uid
            &&& after.lineup == s.lineup
            &&& s.state is Disconnected ==> after == s && r == Err::<(), ProtocolError>(
                ProtocolError::ChannelClosed,
            )
            &&& !(s.state is Disconnected) ==> r == Err::<(), ProtocolError>(
                ProtocolError::UnknownEntrance,
            ) && after.outbox == s.outbox.push(
                PacketView {
                    cmd_id: CMD_ENTER_SCENE_SC_RSP,
                    payload: PayloadView::EnterSceneScRsp { retcode: RETCODE_FAIL },
                },
            )
        }),
{
    lemma_find_entrance(index, entry_id);
}

/// Whenever an enter-scene request succeeds, exactly two packets are queued,
/// and the response to the request stands before the notification.
pub proof fn lemma_acknowledgement_precedes_notification(
    s: SessionView,
    index: Seq<EntranceConfig>,
    entry_id: u32,
)
    requires
        enter_scene_spec(s, index, entry_id).1 is Ok,
    ensures
        ({
            let after = enter_scene_spec(s, index, entry_id).0;
            let n = s.outbox.len() as int;
            &&& after.outbox.len() == n + 2
            &&& after.outbox.take(n) == s.outbox
            &&& response_of(CMD_ENTER_SCENE_CS_REQ) == Some(after.outbox[n].cmd_id)
            &&& kind_of(after.outbox[n].cmd_id) == Some(CommandKind::Response)
            &&& after.outbox[n].payload is EnterSceneScRsp
            &&& kind_of(after.outbox[n + 1].cmd_id) == Some(CommandKind::Notify)
            &&& after.outbox[n + 1].payload is EnterSceneByServerScNotify
        }),
{
}

/// A scene query on a session that has entered no scene succeeds, whatever
/// the registry holds: the answer is the blank snapshot, and the session stays
/// in no scene.
pub proof fn lemma_query_before_entry(s: SessionView, registry: Seq<SceneLayoutView>)
    requires
        s.state is NoScene,
    ensures
        ({
            let (after, r) = get_cur_scene_info_spec(s, registry);
            &&& r is Ok
            &&& after.state == s.state
            &&& after.outbox == s.outbox.push(
                PacketView {
                    cmd_id: CMD_GET_CUR_SCENE_INFO_SC_RSP,
                    payload: PayloadView::GetCurSceneInfoScRsp {
                        retcode: RETCODE_SUCCESS,
                        scene: SceneInfoView::blank(),
                    },
                },
            )
        }),
{
}

/// A scene query on a session that is in a scene whose record is consistent
/// is answered with that scene and, group for group, the snapshot of what the
/// registry holds for it.
pub proof fn lemma_query_in_scene(
    s: SessionView,
    registry: Seq<SceneLayoutView>,
    scene: SceneRef,
    layout: SceneLayoutView,
)
    requires
        s.state == SceneState::InScene(scene),
        find_layout(registry, scene.entry_id) == Some(layout),
        layout_consistent(layout.groups),
    ensures
        ({
            let (after, r) = get_cur_scene_info_spec(s, registry);
            let n = s.outbox.len() as int;
            &&& r is Ok
            &&& after.state == s.state
            &&& after.outbox.len() == n + 1
            &&& after.outbox[n].cmd_id == CMD_GET_CUR_SCENE_INFO_SC_RSP
            &&& after.outbox[n].payload matches PayloadView::GetCurSceneInfoScRsp {
                retcode,
                scene: info,
            }
            &&& retcode == RETCODE_SUCCESS
            &&& info.plane_id == scene.plane_id
            &&& info.floor_id == scene.floor_id
            &&& info.entry_id == scene.entry_id
            &&& info.groups == groups_snapshot(layout.groups, s.uid)
            &&& info.groups.len() == layout.groups.len()
        }),
{
}

/// No handler changes who the player is, and a scene query never changes
/// where the player stands.
pub proof fn lemma_handlers_keep_identity(
    s: SessionView,
    index: Seq<EntranceConfig>,
    registry: Seq<SceneLayoutView>,
    entry_id: u32,
)
    ensures
        enter_scene_spec(s, index, entry_id).0.uid == s.uid,
        enter_scene_spec(s, index, entry_id).0.lineup == s.lineup,
        get_cur_scene_info_spec(s, registry).0.uid == s.uid,
        get_cur_scene_info_spec(s, registry).0.lineup == s.lineup,
        get_cur_scene_info_spec(s, registry).0.state == s.state,
{
}

/// A command number without a route is refused and leaves the session as it
/// was, so the command that follows it is served exactly as if the refused one
/// had never come.
pub proof fn lemma_unroutable_command_is_harmless(
    table: Map<u16, HandlerKind>,
    s: SessionView,
    index: Seq<EntranceConfig>,
    registry: Seq<SceneLayoutView>,
    unknown: u16,
    unknown_body: Seq<u8>,
    next: u16,
    next_body: Seq<u8>,
)
    requires
        !table.contains_key(unknown),
    ensures
        dispatch_spec(table, s, index, registry, unknown, unknown_body) == (
            s,
            Err::<(), ProtocolError>(ProtocolError::UnroutableCommand),
        ),
        dispatch_spec(
            table,
            dispatch_spec(table, s, index, registry, unknown, unknown_body).0,
            index,
            registry,
            next,
            next_body,
        ) == dispatch_spec(table, s, index, registry, next, next_body),
{
}

/// With the standard routes, an open session that has entered no scene can
/// still query its scene after any command number outside the catalogue's
/// requests was refused.
pub proof fn lemma_query_succeeds_after_unroutable_command(
    s: SessionView,
    index: Seq<EntranceConfig>,
    registry: Seq<SceneLayoutView>,
    unknown: u16,
    unknown_body: Seq<u8>,
)
    requires
        unknown != CMD_ENTER_SCENE_CS_REQ,
        unknown != CMD_GET_CUR_SCENE_INFO_CS_REQ,
        s.state is NoScene,
    ensures
        ({
            let (mid, first) = dispatch_spec(
                standard_routes(),
                s,
                index,
                registry,
                unknown,
                unknown_body,
            );
            let (after, second) = dispatch_spec(
                standard_routes(),
                mid,
                index,
                registry,
                CMD_GET_CUR_SCENE_INFO_CS_REQ,
                Seq::empty(),
            );
            &&& first == Err::<(), ProtocolError>(ProtocolError::UnroutableCommand)
            &&& mid == s
            &&& second is Ok
            &&& after.outbox.len() == s.outbox.len() + 1
        }),
{
}

/// A body that does not decode is refused and leaves the session as it was.
pub proof fn lemma_malformed_payload_is_harmless(
    table: Map<u16, HandlerKind>,
    s: SessionView,
    index: Seq<EntranceConfig>,
    registry: Seq<SceneLayoutView>,
    cmd_id: u16,
    body: Seq<u8>,
)
    requires
        dispatch_spec(table, s, index, registry, cmd_id, body).1 == Err::<(), ProtocolError>(
            ProtocolError::MalformedPayload,
        ),
    ensures
        dispatch_spec(table, s, index, registry, cmd_id, body).0 == s,
{
}

/// Dispatch only ever adds packets behind those that wait, and each packet it
/// adds travels under the command number of its payload's shape.
pub proof fn lemma_dispatch_keeps_outbox_consistent(
    table: Map<u16, HandlerKind>,
    s: SessionView,
    index: Seq<EntranceConfig>,
    registry: Seq<SceneLayoutView>,
    cmd_id: u16,
    body: Seq<u8>,
)
    ensures
        ({
            let after = dispatch_spec(table, s, index, registry, cmd_id, body).0;
            &&& s.outbox.len() <= after.outbox.len() <= s.outbox.len() + 2
            &&& after.outbox.take(s.outbox.len() as int) == s.outbox
            &&& forall|i: int|
                s.outbox.len() <= i < after.outbox.len() ==> (
                #[trigger] after.outbox[i]).is_consistent()
            &&& s.outbox_consistent() ==> after.outbox_consistent()
        }),
{
    let after = dispatch_spec(table, s, index, registry, cmd_id, body).0;
    if s.outbox_consistent() {
        assert forall|i: int| 0 <= i < after.outbox.len() implies (
        #[trigger] after.outbox[i]).is_consistent() by {}
    }
}

/// After a disconnect no handler sends anything: every command ends in an
/// error and the session stays exactly as it is.
pub proof fn lemma_closed_session_is_inert(
    table: Map<u16, HandlerKind>,
    s: SessionView,
    index: Seq<EntranceConfig>,
    registry: Seq<SceneLayoutView>,
    cmd_id: u16,
    body: Seq<u8>,
)
    requires
        s.state is Disconnected,
    ensures
        dispatch_spec(table, s, index, registry, cmd_id, body).0 == s,
        dispatch_spec(table, s, index, registry, cmd_id, body).1 is Err,
{
}

/// Whatever a scene query reports, every entity in the report is an actor or a
/// prop and never both, every actor in it is owned by the player who asked, no
/// two groups of it share an identifier, and no two entities of it share one.
pub proof fn lemma_reported_entities_are_sound(
    s: SessionView,
    registry: Seq<SceneLayoutView>,
    g1: int,
    i1: int,
    g2: int,
    i2: int,
)
    requires
        get_cur_scene_info_spec(s, registry).1 is Ok,
        get_cur_scene_info_spec(s, registry).0.outbox.last().payload
            matches PayloadView::GetCurSceneInfoScRsp { scene, .. } && 0 <= g1 < scene.groups.len()
            && 0 <= i1 < scene.groups[g1].entities.len() && 0 <= g2 < scene.groups.len() && 0
            <= i2 < scene.groups[g2].entities.len(),
    ensures
        get_cur_scene_info_spec(s, registry).0.outbox.last().payload
            matches PayloadView::GetCurSceneInfoScRsp { scene, .. } && {
            let e1 = scene.groups[g1].entities[i1];
            let e2 = scene.groups[g2].entities[i2];
            &&& e1.is_exclusive()
            &&& e1.owned_by(s.uid)
            &&& e1.motion.is_stationary()
            &&& e1.group_id == scene.groups[g1].group_id
            &&& g1 != g2 ==> scene.groups[g1].group_id != scene.groups[g2].group_id
            &&& (g1 != g2 || i1 != i2) ==> e1.entity_id != e2.entity_id
        },
{
    match s.state {
        SceneState::InScene(scene) => {
            match find_layout(registry, scene.entry_id) {
                Some(layout) => {
                    lemma_snapshot_entities(layout.groups, s.uid, g1, i1);
                    lemma_snapshot_entities(layout.groups, s.uid, g2, i2);
                    lemma_consistent_ids_distinct(layout.groups, s.uid, g1, i1, g2, i2);
                },
                None => {},
            }
        },
        _ => {},
    }
}

} // verus!
