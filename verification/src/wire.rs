//! The bytes of message bodies. Every number travels with its most
//! significant byte first, a list as its length in eight bytes followed by its
//! items, and an optional part as one byte that says whether it is there.

use vstd::prelude::*;
use crate::message::{
    groups_view, EnterSceneCsReq, GetCurSceneInfoCsReq, GroupView, LineupAvatar, LineupInfo,
    LineupView, Payload, PayloadView, SceneActorInfo, SceneEntityGroupInfo, SceneEntityInfo,
    SceneInfo, SceneInfoView, ScenePropInfo, Vector,
};

verus! {

/// The number that four bytes spell, most significant byte first.
pub open spec fn be_u32(b0: u8, b1: u8, b2: u8, b3: u8) -> u32 {
    (b0 as int * 0x100_0000 + b1 as int * 0x1_0000 + b2 as int * 0x100 + b3 as int) as u32
}

/// The four bytes of an unsigned number.
pub open spec fn u32_bytes(x: u32) -> Seq<u8> {
    seq![
        (x / 0x100_0000) as u8,
        (x / 0x1_0000 % 0x100) as u8,
        (x / 0x100 % 0x100) as u8,
        (x % 0x100) as u8,
    ]
}

/// The eight bytes of a length.
pub open spec fn u64_bytes(x: u64) -> Seq<u8> {
    u32_bytes((x / 0x1_0000_0000) as u32) + u32_bytes((x % 0x1_0000_0000) as u32)
}

/// The four bytes of a signed number, in two's complement.
pub open spec fn i32_bytes(x: i32) -> Seq<u8> {
    u32_bytes(
        if x < 0 {
            (x + 0x1_0000_0000) as u32
        } else {
            x as u32
        },
    )
}

/// The bytes of a vector: x, y, z.
pub open spec fn vector_bytes(v: Vector) -> Seq<u8> {
    i32_bytes(v.x) + i32_bytes(v.y) + i32_bytes(v.z)
}

/// The bytes of an optional actor part.
pub open spec fn actor_bytes(a: Option<SceneActorInfo>) -> Seq<u8> {
    match a {
        None => seq![0u8],
        Some(a) => seq![1u8] + u32_bytes(a.avatar_type) + u32_bytes(a.base_avatar_id) + u32_bytes(
            a.map_layer,
        ) + u32_bytes(a.uid),
    }
}

/// The bytes of an optional prop part.
pub open spec fn prop_bytes(p: Option<ScenePropInfo>) -> Seq<u8> {
    match p {
        None => seq![0u8],
        Some(p) => seq![1u8] + u32_bytes(p.prop_id) + u32_bytes(p.prop_state),
    }
}

/// The bytes of one entity: its three identifiers, where it is, where it is
/// heading, its actor part and its prop part.
pub open spec fn entity_bytes(e: SceneEntityInfo) -> Seq<u8> {
    u32_bytes(e.group_id) + u32_bytes(e.inst_id) + u32_bytes(e.entity_id) + vector_bytes(
        e.motion.pos,
    ) + vector_bytes(e.motion.target) + actor_bytes(e.actor) + prop_bytes(e.prop)
}

/// The bytes of the entities of a list, one after the other.
pub open spec fn entities_bytes(entities: Seq<SceneEntityInfo>) -> Seq<u8>
    decreases entities.len(),
{
    if entities.len() == 0 {
        Seq::empty()
    } else {
        entities_bytes(entities.drop_last()) + entity_bytes(entities.last())
    }
}

/// The bytes of one group: state, identifier, and the list of its entities.
pub open spec fn group_bytes(g: GroupView) -> Seq<u8> {
    u32_bytes(g.state) + u32_bytes(g.group_id) + u64_bytes(g.entities.len() as u64)
        + entities_bytes(g.entities)
}

/// The bytes of the groups of a list, one after the other.
pub open spec fn groups_bytes(groups: Seq<GroupView>) -> Seq<u8>
    decreases groups.len(),
{
    if groups.len() == 0 {
        Seq::empty()
    } else {
        groups_bytes(groups.drop_last()) + group_bytes(groups.last())
    }
}

/// The bytes of a scene: plane, floor, entrance, game-mode type, and the list
/// of its groups.
pub open spec fn scene_bytes(s: SceneInfoView) -> Seq<u8> {
    u32_bytes(s.plane_id) + u32_bytes(s.floor_id) + u32_bytes(s.entry_id) + u32_bytes(
        s.game_mode_type,
    ) + u64_bytes(s.groups.len() as u64) + groups_bytes(s.groups)
}

/// The bytes of the characters of a list, one after the other: identifier,
/// then slot.
pub open spec fn avatars_bytes(avatars: Seq<LineupAvatar>) -> Seq<u8>
    decreases avatars.len(),
{
    if avatars.len() == 0 {
        Seq::empty()
    } else {
        avatars_bytes(avatars.drop_last()) + u32_bytes(avatars.last().id) + u32_bytes(
            avatars.last().slot,
        )
    }
}

/// The bytes of a lineup: the leader's slot and the list of its characters.
pub open spec fn lineup_bytes(l: LineupView) -> Seq<u8> {
    u32_bytes(l.leader_slot) + u64_bytes(l.avatars.len() as u64) + avatars_bytes(l.avatars)
}

/// The body of each message the server sends.
pub open spec fn payload_bytes(p: PayloadView) -> Seq<u8> {
    match p {
        PayloadView::EnterSceneScRsp { retcode } => u32_bytes(retcode),
        PayloadView::EnterSceneByServerScNotify { reason, lineup, scene } => u32_bytes(reason)
            + lineup_bytes(lineup) + scene_bytes(scene),
        PayloadView::GetCurSceneInfoScRsp { retcode, scene } => u32_bytes(retcode) + scene_bytes(
            scene,
        ),
    }
}

fn put_u32(out: &mut Vec<u8>, x: u32)
    ensures
        final(out)@ == old(out)@ + u32_bytes(x),
{
    out.push((x / 0x100_0000) as u8);
    out.push((x / 0x1_0000 % 0x100) as u8);
    out.push((x / 0x100 % 0x100) as u8);
    out.push((x % 0x100) as u8);
}

fn put_len(out: &mut Vec<u8>, n: usize)
    ensures
        final(out)@ == old(out)@ + u64_bytes(n as u64),
{
    let wide: u64 = n as u64;
    put_u32(out, (wide / 0x1_0000_0000) as u32);
    put_u32(out, (wide % 0x1_0000_0000) as u32);
}

fn put_i32(out: &mut Vec<u8>, x: i32)
    ensures
        final(out)@ == old(out)@ + i32_bytes(x),
{
    let wide: i64 = x as i64;
    let folded: u32 = if wide < 0 {
        (wide + 0x1_0000_0000) as u32
    } else {
        wide as u32
    };
    put_u32(out, folded);
}

fn put_vector(out: &mut Vec<u8>, v: &Vector)
    ensures
        final(out)@ == old(out)@ + vector_bytes(*v),
{
    put_i32(out, v.x);
    put_i32(out, v.y);
    put_i32(out, v.z);
}

fn put_entity(out: &mut Vec<u8>, e: &SceneEntityInfo)
    ensures
        final(out)@ == old(out)@ + entity_bytes(*e),
{
    put_u32(out, e.group_id);
    put_u32(out, e.inst_id);
    put_u32(out, e.entity_id);
    put_vector(out, &e.motion.pos);
    put_vector(out, &e.motion.target);
    let ghost head = out@;
    match e.actor {
        None => {
            out.push(0);
        },
        Some(a) => {
            out.push(1);
            put_u32(out, a.avatar_type);
            put_u32(out, a.base_avatar_id);
            put_u32(out, a.map_layer);
            put_u32(out, a.uid);
        },
    }
    assert(out@ =~= head + actor_bytes(e.actor));
    let ghost mid = out@;
    match e.prop {
        None => {
            out.push(0);
        },
        Some(p) => {
            out.push(1);
            put_u32(out, p.prop_id);
            put_u32(out, p.prop_state);
        },
    }
    assert(out@ =~= mid + prop_bytes(e.prop));
}

fn put_group(out: &mut Vec<u8>, g: &SceneEntityGroupInfo)
    ensures
        final(out)@ == old(out)@ + group_bytes(g@),
{
    put_u32(out, g.state);
    put_u32(out, g.group_id);
    put_len(out, g.entity_list.len());
    let ghost head = out@;
    let mut i: usize = 0;
    while i < g.entity_list.len()
        invariant
            i <= g.entity_list.len(),
            out@ == head + entities_bytes(g.entity_list@.take(i as int)),
        decreases g.entity_list.len() - i,
    {
        put_entity(out, &g.entity_list[i]);
        i += 1;
        assert(g.entity_list@.take(i as int).drop_last() =~= g.entity_list@.take(i - 1));
    }
    assert(g.entity_list@.take(i as int) =~= g.entity_list@);
}

fn put_scene(out: &mut Vec<u8>, s: &SceneInfo)
    ensures
        final(out)@ == old(out)@ + scene_bytes(s@),
{
    put_u32(out, s.plane_id);
    put_u32(out, s.floor_id);
    put_u32(out, s.entry_id);
    put_u32(out, s.game_mode_type);
    put_len(out, s.entity_group_list.len());
    let ghost head = out@;
    let ghost groups = groups_view(s.entity_group_list@);
    let mut i: usize = 0;
    while i < s.entity_group_list.len()
        invariant
            i <= s.entity_group_list.len(),
            groups == groups_view(s.entity_group_list@),
            out@ == head + groups_bytes(groups.take(i as int)),
        decreases s.entity_group_list.len() - i,
    {
        put_group(out, &s.entity_group_list[i]);
        i += 1;
        assert(groups.take(i as int).drop_last() =~= groups.take(i - 1));
    }
    assert(groups.take(i as int) =~= groups);
}

fn put_lineup(out: &mut Vec<u8>, l: &LineupInfo)
    ensures
        final(out)@ == old(out)@ + lineup_bytes(l@),
{
    put_u32(out, l.leader_slot);
    put_len(out, l.avatar_list.len());
    let ghost head = out@;
    let mut i: usize = 0;
    while i < l.avatar_list.len()
        invariant
            i <= l.avatar_list.len(),
            out@ == head + avatars_bytes(l.avatar_list@.take(i as int)),
        decreases l.avatar_list.len() - i,
    {
        put_u32(out, l.avatar_list[i].id);
        put_u32(out, l.avatar_list[i].slot);
        i += 1;
        assert(l.avatar_list@.take(i as int).drop_last() =~= l.avatar_list@.take(i - 1));
    }
    assert(l.avatar_list@.take(i as int) =~= l.avatar_list@);
}

/// Encodes the body of a message for the transport.
pub fn encode_payload(payload: &Payload) -> (body: Vec<u8>)
    ensures
        body@ == payload_bytes(payload@),
{
    let mut body: Vec<u8> = Vec::new();
    match payload {
        Payload::EnterSceneScRsp { retcode } => {
            put_u32(&mut body, *retcode);
        },
        Payload::EnterSceneByServerScNotify { reason, lineup, scene } => {
            put_u32(&mut body, *reason);
            put_lineup(&mut body, lineup);
            put_scene(&mut body, scene);
        },
        Payload::GetCurSceneInfoScRsp { retcode, scene } => {
            put_u32(&mut body, *retcode);
            put_scene(&mut body, scene);
        },
    }
    body
}

/// The body of an enter-scene request: exactly four bytes, the entrance
/// identifier with its most significant byte first.
pub open spec fn decode_enter_scene(body: Seq<u8>) -> Option<EnterSceneCsReq> {
    if body.len() == 4 {
        Some(EnterSceneCsReq { entry_id: be_u32(body[0], body[1], body[2], body[3]) })
    } else {
        None
    }
}

/// The body of a scene query: it has no field, so it is empty.
pub open spec fn decode_get_cur_scene_info(body: Seq<u8>) -> Option<GetCurSceneInfoCsReq> {
    if body.len() == 0 {
        Some(GetCurSceneInfoCsReq {  })
    } else {
        None
    }
}

/// The bytes that spell an enter-scene request.
pub open spec fn encode_enter_scene(req: EnterSceneCsReq) -> Seq<u8> {
    u32_bytes(req.entry_id)
}

/// Decodes the body of an enter-scene request.
pub fn decode_enter_scene_cs_req(body: &[u8]) -> (r: Option<EnterSceneCsReq>)
    ensures
        r == decode_enter_scene(body@),
{
    if body.len() != 4 {
        return None;
    }
    let entry_id: u32 = (body[0] as u32) * 0x100_0000 + (body[1] as u32) * 0x1_0000 + (
    body[2] as u32) * 0x100 + (body[3] as u32);
    Some(EnterSceneCsReq { entry_id })
}

/// Decodes the body of a scene query.
pub fn decode_get_cur_scene_info_cs_req(body: &[u8]) -> (r: Option<GetCurSceneInfoCsReq>)
    ensures
        r == decode_get_cur_scene_info(body@),
{
    if body.len() == 0 {
        Some(GetCurSceneInfoCsReq {  })
    } else {
        None
    }
}

/// Encodes an enter-scene request as a client does.
pub fn encode_enter_scene_cs_req(req: &EnterSceneCsReq) -> (body: Vec<u8>)
    ensures
        body@ == encode_enter_scene(*req),
{
    let mut body: Vec<u8> = Vec::new();
    put_u32(&mut body, req.entry_id);
    body
}

/// Decoding undoes encoding.
pub proof fn lemma_decode_encode_enter_scene(req: EnterSceneCsReq)
    ensures
        decode_enter_scene(encode_enter_scene(req)) == Some(req),
{
    let x = req.entry_id as int;
    assert(x == (x / 0x100_0000) * 0x100_0000 + (x / 0x1_0000 % 0x100) * 0x1_0000 + (x / 0x100
        % 0x100) * 0x100 + x % 0x100);
}

} // verus!
