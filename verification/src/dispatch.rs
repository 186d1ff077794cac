//! The command dispatcher: from a command number to a handler, from the bytes
//! of a body to the handler's request, and on to the handler itself.

use vstd::prelude::*;
use crate::cmd::{CMD_ENTER_SCENE_CS_REQ, CMD_GET_CUR_SCENE_INFO_CS_REQ};
use crate::data::{EntranceConfig, StaticDataIndex};
use crate::error::ProtocolError;
use crate::registry::{EntityRegistry, SceneLayoutView};
use crate::scene::{
    enter_scene_spec, get_cur_scene_info_spec, on_enter_scene_cs_req, on_get_cur_scene_info_cs_req,
};
use crate::session::{PlayerSession, SessionView};
use crate::wire::{
    decode_enter_scene, decode_enter_scene_cs_req, decode_get_cur_scene_info,
    decode_get_cur_scene_info_cs_req,
};

verus! {

/// The handlers a command can be routed to.
#[derive(Clone, Copy, Debug, PartialEq, Eq, Structural)]
pub enum HandlerKind {
    EnterScene,
    GetCurSceneInfo,
}

/// One line of the dispatch table.
#[derive(Clone, Copy, Debug, PartialEq, Eq)]
pub struct Route {
    pub cmd_id: u16,
    pub handler: HandlerKind,
}

/// The mapping that a list of routes stands for. Of two routes with one
/// command number the earlier counts.
pub open spec fn routes_map(routes: Seq<Route>) -> Map<u16, HandlerKind>
    decreases routes.len(),
{
    if routes.len() == 0 {
        Map::empty()
    } else {
        let before = routes_map(routes.drop_last());
        if before.contains_key(routes.last().cmd_id) {
            before
        } else {
            before.insert(routes.last().cmd_id, routes.last().handler)
        }
    }
}

/// The routes every server starts with: one for each request of the
/// catalogue.
pub open spec fn standard_routes() -> Map<u16, HandlerKind> {
    Map::empty().insert(CMD_ENTER_SCENE_CS_REQ, HandlerKind::EnterScene).insert(
        CMD_GET_CUR_SCENE_INFO_CS_REQ,
        HandlerKind::GetCurSceneInfo,
    )
}

proof fn lemma_routes_absent(routes: Seq<Route>, id: u16)
    requires
        forall|j: int| 0 <= j < routes.len() ==> (#[trigger] routes[j]).cmd_id != id,
    ensures
        !routes_map(routes).contains_key(id),
    decreases routes.len(),
{
    if routes.len() > 0 {
        let init = routes.drop_last();
        assert forall|j: int| 0 <= j < init.len() implies (#[trigger] init[j]).cmd_id != id by {}
        lemma_routes_absent(init, id);
    }
}

proof fn lemma_routes_first(routes: Seq<Route>, i: int)
    requires
        0 <= i < routes.len(),
        forall|j: int| 0 <= j < i ==> (#[trigger] routes[j]).cmd_id != routes[i].cmd_id,
    ensures
        routes_map(routes).contains_key(routes[i].cmd_id),
        routes_map(routes)[routes[i].cmd_id] == routes[i].handler,
    decreases routes.len(),
{
    let init = routes.drop_last();
    let id = routes[i].cmd_id;
    if i < routes.len() - 1 {
        assert forall|j: int| 0 <= j < i implies (#[trigger] init[j]).cmd_id != init[i].cmd_id by {}
        lemma_routes_first(init, i);
    } else {
        assert forall|j: int| 0 <= j < init.len() implies (#[trigger] init[j]).cmd_id != id by {}
        lemma_routes_absent(init, id);
    }
}

/// The table that maps command numbers to handlers. It is filled once and
/// then only read.
#[derive(Clone, Debug)]
pub struct DispatchTable {
    routes: Vec<Route>,
}

impl View for DispatchTable {
    type V = Map<u16, HandlerKind>;

    closed spec fn view(&self) -> Map<u16, HandlerKind> {
        routes_map(self.routes@)
    }
}

impl DispatchTable {
    /// A table that routes nothing.
    pub fn new() -> (t: DispatchTable)
        ensures
            t@ == Map::<u16, HandlerKind>::empty(),
    {
        DispatchTable { routes: Vec::new() }
    }

    /// The table with one route for each request of the catalogue.
    pub fn standard() -> (t: DispatchTable)
        ensures
            t@ == standard_routes(),
    {
        let mut t = DispatchTable::new();
        t.register(CMD_ENTER_SCENE_CS_REQ, HandlerKind::EnterScene);
        t.register(CMD_GET_CUR_SCENE_INFO_CS_REQ, HandlerKind::GetCurSceneInfo);
        t
    }

    /// Finds the handler registered for a command number.
    pub fn resolve(&self, cmd_id: u16) -> (r: Option<HandlerKind>)
        ensures
            r == (if self@.contains_key(cmd_id) {
                Some(self@[cmd_id])
            } else {
                None
            }),
    {
        let mut i: usize = 0;
        while i < self.routes.len()
            invariant
                i <= self.routes.len(),
                forall|j: int| 0 <= j < i ==> (#[trigger] self.routes@[j]).cmd_id != cmd_id,
            decreases self.routes.len() - i,
        {
            if self.routes[i].cmd_id == cmd_id {
                proof {
                    lemma_routes_first(self.routes@, i as int);
                }
                return Some(self.routes[i].handler);
            }
            i += 1;
        }
        proof {
            lemma_routes_absent(self.routes@, cmd_id);
        }
        None
    }

    /// Adds a route, unless the command number has one already: a number is
    /// routed to one handler for good. Returns whether the route was added.
    pub fn register(&mut self, cmd_id: u16, handler: HandlerKind) -> (added: bool)
        ensures
            added == !old(self)@.contains_key(cmd_id),
            final(self)@ == (if added {
                old(self)@.insert(cmd_id, handler)
            } else {
                old(self)@
            }),
    {
        if self.resolve(cmd_id).is_some() {
            return false;
        }
        self.routes.push(Route { cmd_id, handler });
        assert(self.routes@.drop_last() =~= old(self).routes@);
        true
    }
}

/// What dispatching one command does to a session and how it ends.
///
/// A command number without a route and a body that does not decode leave the
/// session exactly as it was. Anything else is what the handler does.
pub open spec fn dispatch_spec(
    table: Map<u16, HandlerKind>,
    s: SessionView,
    index: Seq<EntranceConfig>,
    registry: Seq<SceneLayoutView>,
    cmd_id: u16,
    body: Seq<u8>,
) -> (SessionView, Result<(), ProtocolError>) {
    if !table.contains_key(cmd_id) {
        (s, Err(ProtocolError::UnroutableCommand))
    } else {
        match table[cmd_id] {
            HandlerKind::EnterScene => match decode_enter_scene(body) {
                None => (s, Err(ProtocolError::MalformedPayload)),
                Some(req) => enter_scene_spec(s, index, req.entry_id),
            },
            HandlerKind::GetCurSceneInfo => match decode_get_cur_scene_info(body) {
                None => (s, Err(ProtocolError::MalformedPayload)),
                Some(_) => get_cur_scene_info_spec(s, registry),
            },
        }
    }
}

/// Routes one command: finds its handler, decodes the body into the
/// handler's request and runs the handler on the session.
pub fn dispatch(
    table: &DispatchTable,
    session: &mut PlayerSession,
    index: &StaticDataIndex,
    registry: &EntityRegistry,
    cmd_id: u16,
    body: &[u8],
) -> (r: Result<(), ProtocolError>)
    ensures
        final(session)@ == dispatch_spec(table@, old(session)@, index@, registry@, cmd_id, body@).0,
        r == dispatch_spec(table@, old(session)@, index@, registry@, cmd_id, body@).1,
{
    let handler = match table.resolve(cmd_id) {
        Some(handler) => handler,
        None => {
            return Err(ProtocolError::UnroutableCommand);
        },
    };
    match handler {
        HandlerKind::EnterScene => match decode_enter_scene_cs_req(body) {
            Some(req) => on_enter_scene_cs_req(session, index, &req),
            None => Err(ProtocolError::MalformedPayload),
        },
        HandlerKind::GetCurSceneInfo => match decode_get_cur_scene_info_cs_req(body) {
            Some(req) => on_get_cur_scene_info_cs_req(session, registry, &req),
            None => Err(ProtocolError::MalformedPayload),
        },
    }
}

} // verus!
