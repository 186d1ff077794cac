//! The per-player session: who the player is, where the player stands, and
//! the queue of packets on their way to the client.

use vstd::prelude::*;
use crate::error::ProtocolError;
use crate::message::{
    packets_view, LineupInfo, LineupView, Packet, PacketView, Payload, PayloadView,
};

verus! {

/// The scene a player is in, named by the three identifiers of its entrance
/// record.
#[derive(Clone, Copy, Debug, PartialEq, Eq)]
pub struct SceneRef {
    pub plane_id: u32,
    pub floor_id: u32,
    pub entry_id: u32,
}

/// Where a session is in its life.
#[derive(Clone, Copy, Debug, PartialEq, Eq)]
pub enum SceneState {
    /// The connection is gone; nothing can be sent any more.
    Disconnected,
    /// Connected, and no scene entered yet or the last one left.
    NoScene,
    /// Connected and in the given scene.
    InScene(SceneRef),
}

/// A copy of what identifies a player, taken at one moment.
#[derive(Clone, Debug, PartialEq, Eq)]
pub struct PlayerInfo {
    pub uid: u32,
    pub lineup: LineupInfo,
}

/// The state of one connected player. Packets leave through `send` only, so
/// they reach the transport in the order in which they were sent.
#[derive(Debug)]
pub struct PlayerSession {
    uid: u32,
    lineup: LineupInfo,
    state: SceneState,
    outbox: Vec<Packet>,
}

/// What a `PlayerSession` stands for.
pub struct SessionView {
    pub uid: u32,
    pub lineup: LineupView,
    pub state: SceneState,
    /// The packets sent and not yet taken by the transport, oldest first.
    pub outbox: Seq<PacketView>,
}

impl SessionView {
    /// The session as it is after one more packet was queued.
    pub open spec fn with_packet(self, cmd_id: u16, payload: PayloadView) -> SessionView {
        SessionView {
            uid: self.uid,
            lineup: self.lineup,
            state: self.state,
            outbox: self.outbox.push(PacketView { cmd_id, payload }),
        }
    }

    /// The session as it is in another state, all else kept.
    pub open spec fn with_state(self, state: SceneState) -> SessionView {
        SessionView { uid: self.uid, lineup: self.lineup, state, outbox: self.outbox }
    }

    /// The session as it is once the transport has taken every packet.
    pub open spec fn drained(self) -> SessionView {
        SessionView { uid: self.uid, lineup: self.lineup, state: self.state, outbox: Seq::empty() }
    }

    /// Every queued packet travels under the number of its payload's shape.
    pub open spec fn outbox_consistent(self) -> bool {
        forall|i: int| 0 <= i < self.outbox.len() ==> (#[trigger] self.outbox[i]).is_consistent()
    }
}

/// What `send` does: nothing on a closed channel or with a command number
/// that does not belong to the payload, else it queues the packet last.
pub open spec fn send_spec(s: SessionView, cmd_id: u16, payload: PayloadView) -> (
    SessionView,
    Result<(), ProtocolError>,
) {
    if s.state is Disconnected {
        (s, Err(ProtocolError::ChannelClosed))
    } else if cmd_id != payload.command_id() {
        (s, Err(ProtocolError::InternalInconsistency))
    } else {
        (s.with_packet(cmd_id, payload), Ok(()))
    }
}

/// What `enter_scene` does to a session: a closed one stays as it is.
pub open spec fn set_scene_spec(s: SessionView, scene: SceneRef) -> SessionView {
    if s.state is Disconnected {
        s
    } else {
        s.with_state(SceneState::InScene(scene))
    }
}

/// What `leave_scene` does to a session: only one that is in a scene changes.
pub open spec fn leave_scene_spec(s: SessionView) -> SessionView {
    if s.state is InScene {
        s.with_state(SceneState::NoScene)
    } else {
        s
    }
}

impl View for PlayerSession {
    type V = SessionView;

    closed spec fn view(&self) -> SessionView {
        SessionView {
            uid: self.uid,
            lineup: self.lineup@,
            state: self.state,
            outbox: packets_view(self.outbox@),
        }
    }
}

impl PlayerSession {
    /// Opens the session of player `uid`: connected, in no scene, nothing
    /// queued.
    pub fn new(uid: u32, lineup: LineupInfo) -> (s: PlayerSession)
        ensures
            s@ == (SessionView {
                uid,
                lineup: lineup@,
                state: SceneState::NoScene,
                outbox: Seq::empty(),
            }),
    {
        let s = PlayerSession { uid, lineup, state: SceneState::NoScene, outbox: Vec::new() };
        assert(s@.outbox =~= Seq::empty());
        s
    }

    /// The player's stable identifier.
    pub fn player_uid(&self) -> (uid: u32)
        ensures
            uid == self@.uid,
    {
        self.uid
    }

    /// A snapshot of the player's identity and lineup. It shares nothing with
    /// the session, so later changes on either side do not show on the other.
    pub fn player_info(&self) -> (info: PlayerInfo)
        ensures
            info.uid == self@.uid,
            info.lineup@ == self@.lineup,
    {
        PlayerInfo { uid: self.uid, lineup: self.lineup.duplicate() }
    }

    /// Where the session is in its life.
    pub fn scene_state(&self) -> (state: SceneState)
        ensures
            state == self@.state,
    {
        self.state
    }

    /// Whether packets can still be sent.
    pub fn is_connected(&self) -> (r: bool)
        ensures
            r == !(self@.state is Disconnected),
    {
        match self.state {
            SceneState::Disconnected => false,
            _ => true,
        }
    }

    /// The number of packets that wait for the transport.
    pub fn pending(&self) -> (n: usize)
        ensures
            n == self@.outbox.len(),
    {
        self.outbox.len()
    }

    /// Queues a packet behind those already sent. It fails, and changes
    /// nothing, when the connection is gone or when `cmd_id` is not the number
    /// that belongs to the payload.
    pub fn send(&mut self, cmd_id: u16, payload: Payload) -> (r: Result<(), ProtocolError>)
        ensures
            final(self)@ == send_spec(old(self)@, cmd_id, payload@).0,
            r == send_spec(old(self)@, cmd_id, payload@).1,
    {
        if !self.is_connected() {
            return Err(ProtocolError::ChannelClosed);
        }
        if cmd_id != payload.command_id() {
            return Err(ProtocolError::InternalInconsistency);
        }
        self.outbox.push(Packet { cmd_id, payload });
        assert(self@.outbox =~= old(self)@.outbox.push(PacketView { cmd_id, payload: payload@ }));
        Ok(())
    }

    /// Hands the queued packets to the transport, oldest first, and leaves the
    /// queue empty.
    pub fn take_outbox(&mut self) -> (packets: Vec<Packet>)
        ensures
            packets_view(packets@) == old(self)@.outbox,
            final(self)@ == old(self)@.drained(),
    {
        let mut packets: Vec<Packet> = Vec::new();
        std::mem::swap(&mut self.outbox, &mut packets);
        assert(self@.outbox =~= Seq::empty());
        packets
    }

    /// Records the scene the player is now in. A session whose connection is
    /// gone stays as it is.
    pub fn enter_scene(&mut self, scene: SceneRef)
        ensures
            final(self)@ == set_scene_spec(old(self)@, scene),
    {
        if self.is_connected() {
            self.state = SceneState::InScene(scene);
        }
    }

    /// Takes the player out of the current scene. A session that is in no
    /// scene stays as it is.
    pub fn leave_scene(&mut self)
        ensures
            final(self)@ == leave_scene_spec(old(self)@),
    {
        match self.state {
            SceneState::InScene(_) => {
                self.state = SceneState::NoScene;
            },
            _ => {},
        }
    }

    /// Marks the connection as gone. The scene is left with it, and every
    /// later `send` fails.
    pub fn disconnect(&mut self)
        ensures
            final(self)@ == old(self)@.with_state(SceneState::Disconnected),
    {
        self.state = SceneState::Disconnected;
    }
}

} // verus!
