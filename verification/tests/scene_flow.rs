use gameserver::cmd::{
    CMD_ENTER_SCENE_BY_SERVER_SC_NOTIFY, CMD_ENTER_SCENE_CS_REQ, CMD_ENTER_SCENE_SC_RSP,
    CMD_GET_CUR_SCENE_INFO_CS_REQ, CMD_GET_CUR_SCENE_INFO_SC_RSP, RETCODE_FAIL, RETCODE_SUCCESS,
};
use gameserver::data::{EntranceConfig, StaticDataIndex};
use gameserver::dispatch::{dispatch, DispatchTable};
use gameserver::wire::encode_enter_scene_cs_req;
use gameserver::error::ProtocolError;
use gameserver::message::{
    EnterSceneCsReq, GetCurSceneInfoCsReq, LineupAvatar, LineupInfo, MotionInfo, Packet, Payload,
    SceneActorInfo, SceneEntityGroupInfo, SceneEntityInfo, SceneInfo, ScenePropInfo, Vector,
};
use gameserver::registry::{
    EntityPlacement, EntityRegistry, GroupPlacement, PlacedKind, SceneLayout,
};
use gameserver::scene::{on_enter_scene_cs_req, on_get_cur_scene_info_cs_req};
use gameserver::session::{PlayerSession, SceneRef, SceneState};

fn lineup() -> LineupInfo {
    LineupInfo {
        avatar_list: vec![LineupAvatar { id: 1309, slot: 0 }, LineupAvatar { id: 1001, slot: 1 }],
        leader_slot: 0,
    }
}

fn index() -> StaticDataIndex {
    StaticDataIndex::new(vec![
        EntranceConfig { id: 2000101, plane_id: 20001, floor_id: 20001001 },
        EntranceConfig { id: 2010101, plane_id: 20101, floor_id: 20101001 },
    ])
}

fn registry() -> EntityRegistry {
    EntityRegistry::new(vec![SceneLayout {
        entry_id: 2010101,
        groups: vec![
            GroupPlacement {
                group_id: 0,
                state: 1,
                entities: vec![EntityPlacement {
                    inst_id: 0,
                    entity_id: 0,
                    position: Vector { x: 4480, y: 19364, z: -550 },
                    kind: PlacedKind::Actor { avatar_type: 3, base_avatar_id: 1309, map_layer: 2 },
                }],
            },
            GroupPlacement {
                group_id: 19,
                state: 1,
                entities: vec![EntityPlacement {
                    inst_id: 300001,
                    entity_id: 228,
                    position: Vector { x: 4480, y: 19364, z: -570 },
                    kind: PlacedKind::Prop { prop_id: 808, prop_state: 1 },
                }],
            },
        ],
    }])
}

fn expected_scene() -> SceneInfo {
    SceneInfo {
        plane_id: 20101,
        floor_id: 20101001,
        entry_id: 2010101,
        game_mode_type: 2,
        entity_group_list: vec![
            SceneEntityGroupInfo {
                state: 1,
                group_id: 0,
                entity_list: vec![SceneEntityInfo {
                    group_id: 0,
                    inst_id: 0,
                    entity_id: 0,
                    motion: MotionInfo {
                        pos: Vector { x: 4480, y: 19364, z: -550 },
                        target: Vector { x: 4480, y: 19364, z: -550 },
                    },
                    actor: Some(SceneActorInfo {
                        avatar_type: 3,
                        base_avatar_id: 1309,
                        map_layer: 2,
                        uid: 1337,
                    }),
                    prop: None,
                }],
            },
            SceneEntityGroupInfo {
                state: 1,
                group_id: 19,
                entity_list: vec![SceneEntityInfo {
                    group_id: 19,
                    inst_id: 300001,
                    entity_id: 228,
                    motion: MotionInfo {
                        pos: Vector { x: 4480, y: 19364, z: -570 },
                        target: Vector { x: 4480, y: 19364, z: -570 },
                    },
                    actor: None,
                    prop: Some(ScenePropInfo { prop_id: 808, prop_state: 1 }),
                }],
            },
        ],
    }
}

#[test]
fn enter_scene_sends_response_then_notify() {
    let mut session = PlayerSession::new(1337, lineup());
    let r = on_enter_scene_cs_req(&mut session, &index(), &EnterSceneCsReq { entry_id: 2010101 });
    assert_eq!(r, Ok(()));
    let sent = session.take_outbox();
    assert_eq!(sent.len(), 2);
    assert_eq!(
        sent[0],
        Packet {
            cmd_id: CMD_ENTER_SCENE_SC_RSP,
            payload: Payload::EnterSceneScRsp { retcode: RETCODE_SUCCESS },
        }
    );
    assert_eq!(
        sent[1],
        Packet {
            cmd_id: CMD_ENTER_SCENE_BY_SERVER_SC_NOTIFY,
            payload: Payload::EnterSceneByServerScNotify {
                reason: 0,
                lineup: lineup(),
                scene: SceneInfo {
                    plane_id: 20101,
                    floor_id: 20101001,
                    entry_id: 2010101,
                    game_mode_type: 2,
                    entity_group_list: vec![],
                },
            },
        }
    );
}

#[test]
fn enter_scene_moves_session_to_the_entrance_scene() {
    let mut session = PlayerSession::new(1337, lineup());
    assert_eq!(session.scene_state(), SceneState::NoScene);
    let r = on_enter_scene_cs_req(&mut session, &index(), &EnterSceneCsReq { entry_id: 2000101 });
    assert_eq!(r, Ok(()));
    assert_eq!(
        session.scene_state(),
        SceneState::InScene(SceneRef { plane_id: 20001, floor_id: 20001001, entry_id: 2000101 })
    );
    let r = on_enter_scene_cs_req(&mut session, &index(), &EnterSceneCsReq { entry_id: 2010101 });
    assert_eq!(r, Ok(()));
    assert_eq!(
        session.scene_state(),
        SceneState::InScene(SceneRef { plane_id: 20101, floor_id: 20101001, entry_id: 2010101 })
    );
    assert_eq!(session.pending(), 4);
}

#[test]
fn enter_every_known_entrance_reports_its_record() {
    let idx = index();
    for c in idx.map_entrance_configs.iter() {
        let mut session = PlayerSession::new(5, lineup());
        let r = on_enter_scene_cs_req(&mut session, &idx, &EnterSceneCsReq { entry_id: c.id });
        assert_eq!(r, Ok(()));
        let sent = session.take_outbox();
        assert_eq!(sent.len(), 2);
        match &sent[1].payload {
            Payload::EnterSceneByServerScNotify { scene, .. } => {
                assert_eq!(scene.plane_id, c.plane_id);
                assert_eq!(scene.floor_id, c.floor_id);
                assert_eq!(scene.entry_id, c.id);
                assert_eq!(scene.game_mode_type, 2);
            }
            other => panic!("unexpected payload {:?}", other),
        }
    }
}

#[test]
fn enter_unknown_entrance_keeps_scene_and_refuses() {
    let mut session = PlayerSession::new(1337, lineup());
    let r = on_enter_scene_cs_req(&mut session, &index(), &EnterSceneCsReq { entry_id: 2010101 });
    assert_eq!(r, Ok(()));
    let before = session.scene_state();
    session.take_outbox();
    let r = on_enter_scene_cs_req(&mut session, &index(), &EnterSceneCsReq { entry_id: 42 });
    assert_eq!(r, Err(ProtocolError::UnknownEntrance));
    assert_eq!(session.scene_state(), before);
    let sent = session.take_outbox();
    assert_eq!(
        sent,
        vec![Packet {
            cmd_id: CMD_ENTER_SCENE_SC_RSP,
            payload: Payload::EnterSceneScRsp { retcode: RETCODE_FAIL },
        }]
    );
}

#[test]
fn enter_unknown_entrance_from_no_scene_stays_in_no_scene() {
    let mut session = PlayerSession::new(1337, lineup());
    let empty = StaticDataIndex::new(vec![]);
    let r = on_enter_scene_cs_req(&mut session, &empty, &EnterSceneCsReq { entry_id: 2010101 });
    assert_eq!(r, Err(ProtocolError::UnknownEntrance));
    assert_eq!(session.scene_state(), SceneState::NoScene);
    assert_eq!(session.pending(), 1);
}

#[test]
fn query_before_any_entry_returns_blank_snapshot() {
    let mut session = PlayerSession::new(1337, lineup());
    let r = on_get_cur_scene_info_cs_req(&mut session, &registry(), &GetCurSceneInfoCsReq {});
    assert_eq!(r, Ok(()));
    assert_eq!(session.scene_state(), SceneState::NoScene);
    assert_eq!(
        session.take_outbox(),
        vec![Packet {
            cmd_id: CMD_GET_CUR_SCENE_INFO_SC_RSP,
            payload: Payload::GetCurSceneInfoScRsp {
                retcode: 0,
                scene: SceneInfo {
                    plane_id: 0,
                    floor_id: 0,
                    entry_id: 0,
                    game_mode_type: 0,
                    entity_group_list: vec![],
                },
            },
        }]
    );
    assert_eq!(SceneInfo::blank().entity_group_list.len(), 0);
}

#[test]
fn query_in_scene_reports_registry_content() {
    let mut session = PlayerSession::new(1337, lineup());
    on_enter_scene_cs_req(&mut session, &index(), &EnterSceneCsReq { entry_id: 2010101 }).unwrap();
    session.take_outbox();
    let r = on_get_cur_scene_info_cs_req(&mut session, &registry(), &GetCurSceneInfoCsReq {});
    assert_eq!(r, Ok(()));
    let sent = session.take_outbox();
    assert_eq!(sent.len(), 1);
    assert_eq!(sent[0].cmd_id, CMD_GET_CUR_SCENE_INFO_SC_RSP);
    match &sent[0].payload {
        Payload::GetCurSceneInfoScRsp { retcode, scene } => {
            assert_eq!(*retcode, 0);
            assert_eq!(scene.entity_group_list.len(), 2);
            let ids: Vec<u32> = scene
                .entity_group_list
                .iter()
                .flat_map(|g| g.entity_list.iter().map(|e| e.entity_id))
                .collect();
            assert_eq!(ids, vec![0, 228]);
            assert_eq!(*scene, expected_scene());
        }
        other => panic!("unexpected payload {:?}", other),
    }
}

#[test]
fn query_in_scene_without_record_has_no_groups() {
    let mut session = PlayerSession::new(1337, lineup());
    on_enter_scene_cs_req(&mut session, &index(), &EnterSceneCsReq { entry_id: 2000101 }).unwrap();
    session.take_outbox();
    let r = on_get_cur_scene_info_cs_req(&mut session, &registry(), &GetCurSceneInfoCsReq {});
    assert_eq!(r, Ok(()));
    assert_eq!(
        session.take_outbox(),
        vec![Packet {
            cmd_id: CMD_GET_CUR_SCENE_INFO_SC_RSP,
            payload: Payload::GetCurSceneInfoScRsp {
                retcode: 0,
                scene: SceneInfo {
                    plane_id: 20001,
                    floor_id: 20001001,
                    entry_id: 2000101,
                    game_mode_type: 2,
                    entity_group_list: vec![],
                },
            },
        }]
    );
}

#[test]
fn query_in_inconsistent_scene_is_refused() {
    let mut reg = registry();
    reg.scenes[0].groups[1].group_id = 0;
    let mut session = PlayerSession::new(1337, lineup());
    on_enter_scene_cs_req(&mut session, &index(), &EnterSceneCsReq { entry_id: 2010101 }).unwrap();
    session.take_outbox();
    let before = session.scene_state();
    let r = on_get_cur_scene_info_cs_req(&mut session, &reg, &GetCurSceneInfoCsReq {});
    assert_eq!(r, Err(ProtocolError::InternalInconsistency));
    assert_eq!(session.scene_state(), before);
    assert_eq!(
        session.take_outbox(),
        vec![Packet {
            cmd_id: CMD_GET_CUR_SCENE_INFO_SC_RSP,
            payload: Payload::GetCurSceneInfoScRsp { retcode: RETCODE_FAIL, scene: SceneInfo::blank() },
        }]
    );
}

#[test]
fn snapshot_actors_belong_to_the_asking_player() {
    for uid in [1u32, 1337, u32::MAX] {
        let groups = registry().build_entity_groups(2010101, uid).unwrap();
        for g in groups.iter() {
            for e in g.entity_list.iter() {
                assert!(e.check_exclusive());
                assert_ne!(e.actor.is_some(), e.prop.is_some());
                assert_eq!(e.group_id, g.group_id);
                assert_eq!(e.motion.pos, e.motion.target);
                if let Some(a) = e.actor {
                    assert_eq!(a.uid, uid);
                }
            }
        }
    }
}

#[test]
fn handlers_on_closed_session_send_nothing() {
    let mut session = PlayerSession::new(1337, lineup());
    session.disconnect();
    assert_eq!(session.scene_state(), SceneState::Disconnected);
    let r = on_enter_scene_cs_req(&mut session, &index(), &EnterSceneCsReq { entry_id: 2010101 });
    assert_eq!(r, Err(ProtocolError::ChannelClosed));
    let r = on_get_cur_scene_info_cs_req(&mut session, &registry(), &GetCurSceneInfoCsReq {});
    assert_eq!(r, Err(ProtocolError::ChannelClosed));
    assert_eq!(session.pending(), 0);
    assert_eq!(session.scene_state(), SceneState::Disconnected);
}

#[test]
fn dispatch_enter_scene_from_bytes() {
    let table = DispatchTable::standard();
    let mut session = PlayerSession::new(1337, lineup());
    let body = [0x00u8, 0x1E, 0xAB, 0xF5];
    let r = dispatch(&table, &mut session, &index(), &registry(), CMD_ENTER_SCENE_CS_REQ, &body);
    assert_eq!(r, Ok(()));
    assert_eq!(
        session.scene_state(),
        SceneState::InScene(SceneRef { plane_id: 20101, floor_id: 20101001, entry_id: 2010101 })
    );
    let sent = session.take_outbox();
    assert_eq!(sent.len(), 2);
    assert_eq!(sent[0].cmd_id, CMD_ENTER_SCENE_SC_RSP);
    assert_eq!(sent[1].cmd_id, CMD_ENTER_SCENE_BY_SERVER_SC_NOTIFY);
}

#[test]
fn dispatch_unknown_command_then_valid_command() {
    let table = DispatchTable::standard();
    let mut session = PlayerSession::new(1337, lineup());
    let r = dispatch(&table, &mut session, &index(), &registry(), 9999, &[1, 2, 3]);
    assert_eq!(r, Err(ProtocolError::UnroutableCommand));
    assert!(session.is_connected());
    assert_eq!(session.pending(), 0);
    assert_eq!(session.scene_state(), SceneState::NoScene);
    let body = encode_enter_scene_cs_req(&EnterSceneCsReq { entry_id: 2010101 });
    let r = dispatch(&table, &mut session, &index(), &registry(), CMD_ENTER_SCENE_CS_REQ, &body);
    assert_eq!(r, Ok(()));
    let r = dispatch(&table, &mut session, &index(), &registry(), CMD_GET_CUR_SCENE_INFO_CS_REQ, &[]);
    assert_eq!(r, Ok(()));
    let sent = session.take_outbox();
    assert_eq!(sent.len(), 3);
    assert_eq!(
        sent[2],
        Packet {
            cmd_id: CMD_GET_CUR_SCENE_INFO_SC_RSP,
            payload: Payload::GetCurSceneInfoScRsp { retcode: 0, scene: expected_scene() },
        }
    );
}

#[test]
fn dispatch_response_number_is_not_routable() {
    let table = DispatchTable::standard();
    let mut session = PlayerSession::new(1337, lineup());
    for cmd in [CMD_ENTER_SCENE_SC_RSP, CMD_ENTER_SCENE_BY_SERVER_SC_NOTIFY, 0, u16::MAX] {
        let r = dispatch(&table, &mut session, &index(), &registry(), cmd, &[]);
        assert_eq!(r, Err(ProtocolError::UnroutableCommand));
    }
    assert_eq!(session.pending(), 0);
}

#[test]
fn dispatch_malformed_payload_changes_nothing() {
    let table = DispatchTable::standard();
    let mut session = PlayerSession::new(1337, lineup());
    for body in [vec![], vec![1u8], vec![0, 0x1E, 0xAB], vec![0, 0x1E, 0xAB, 0xF5, 0]] {
        let r = dispatch(&table, &mut session, &index(), &registry(), CMD_ENTER_SCENE_CS_REQ, &body);
        assert_eq!(r, Err(ProtocolError::MalformedPayload));
    }
    let r = dispatch(&table, &mut session, &index(), &registry(), CMD_GET_CUR_SCENE_INFO_CS_REQ, &[0]);
    assert_eq!(r, Err(ProtocolError::MalformedPayload));
    assert_eq!(session.pending(), 0);
    assert_eq!(session.scene_state(), SceneState::NoScene);
    let r = dispatch(&table, &mut session, &index(), &registry(), CMD_GET_CUR_SCENE_INFO_CS_REQ, &[]);
    assert_eq!(r, Ok(()));
    assert_eq!(session.pending(), 1);
}

#[test]
fn dispatch_on_closed_session_reports_closed_channel() {
    let table = DispatchTable::standard();
    let mut session = PlayerSession::new(1337, lineup());
    session.disconnect();
    let r = dispatch(&table, &mut session, &index(), &registry(), CMD_GET_CUR_SCENE_INFO_CS_REQ, &[]);
    assert_eq!(r, Err(ProtocolError::ChannelClosed));
    let r = dispatch(&table, &mut session, &index(), &registry(), 7, &[]);
    assert_eq!(r, Err(ProtocolError::UnroutableCommand));
    assert_eq!(session.pending(), 0);
}

#[test]
fn dispatch_with_empty_table_routes_nothing() {
    let table = DispatchTable::new();
    let mut session = PlayerSession::new(1337, lineup());
    let r = dispatch(&table, &mut session, &index(), &registry(), CMD_ENTER_SCENE_CS_REQ, &[0, 0, 0, 1]);
    assert_eq!(r, Err(ProtocolError::UnroutableCommand));
    assert_eq!(session.pending(), 0);
}
