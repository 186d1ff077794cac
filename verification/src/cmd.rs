//! The command catalogue: the numbers that tag each request, response and
//! notification, and how requests pair with their responses.

use vstd::prelude::*;

verus! {

pub const CMD_GET_CUR_SCENE_INFO_CS_REQ: u16 = 1419;

pub const CMD_GET_CUR_SCENE_INFO_SC_RSP: u16 = 1464;

pub const CMD_ENTER_SCENE_CS_REQ: u16 = 1472;

pub const CMD_ENTER_SCENE_SC_RSP: u16 = 1478;

pub const CMD_ENTER_SCENE_BY_SERVER_SC_NOTIFY: u16 = 1483;

/// Return code of a response to a request that was served.
pub const RETCODE_SUCCESS: u32 = 0;

/// Return code of a response to a request that could not be served.
pub const RETCODE_FAIL: u32 = 1;

/// The three shapes a command can have.
#[derive(Clone, Copy, Debug, PartialEq, Eq, Structural)]
pub enum CommandKind {
    /// Sent by the client, answered by exactly one response.
    Request,
    /// Sent by the server in answer to a request.
    Response,
    /// Pushed by the server on its own, tied to no request.
    Notify,
}

/// The kind of each catalogued command; `None` for a number outside the
/// catalogue.
pub open spec fn kind_of(id: u16) -> Option<CommandKind> {
    if id == CMD_GET_CUR_SCENE_INFO_CS_REQ || id == CMD_ENTER_SCENE_CS_REQ {
        Some(CommandKind::Request)
    } else if id == CMD_GET_CUR_SCENE_INFO_SC_RSP || id == CMD_ENTER_SCENE_SC_RSP {
        Some(CommandKind::Response)
    } else if id == CMD_ENTER_SCENE_BY_SERVER_SC_NOTIFY {
        Some(CommandKind::Notify)
    } else {
        None
    }
}

/// The response that answers a request; `None` for anything but a request.
pub open spec fn response_of(id: u16) -> Option<u16> {
    if id == CMD_GET_CUR_SCENE_INFO_CS_REQ {
        Some(CMD_GET_CUR_SCENE_INFO_SC_RSP)
    } else if id == CMD_ENTER_SCENE_CS_REQ {
        Some(CMD_ENTER_SCENE_SC_RSP)
    } else {
        None
    }
}

/// The request that a response answers; `None` for anything but a response.
pub open spec fn request_of(id: u16) -> Option<u16> {
    if id == CMD_GET_CUR_SCENE_INFO_SC_RSP {
        Some(CMD_GET_CUR_SCENE_INFO_CS_REQ)
    } else if id == CMD_ENTER_SCENE_SC_RSP {
        Some(CMD_ENTER_SCENE_CS_REQ)
    } else {
        None
    }
}

/// Classifies a command number.
pub fn command_kind(id: u16) -> (r: Option<CommandKind>)
    ensures
        r == kind_of(id),
{
    if id == CMD_GET_CUR_SCENE_INFO_CS_REQ || id == CMD_ENTER_SCENE_CS_REQ {
        Some(CommandKind::Request)
    } else if id == CMD_GET_CUR_SCENE_INFO_SC_RSP || id == CMD_ENTER_SCENE_SC_RSP {
        Some(CommandKind::Response)
    } else if id == CMD_ENTER_SCENE_BY_SERVER_SC_NOTIFY {
        Some(CommandKind::Notify)
    } else {
        None
    }
}

/// Looks up the response number that answers a request number.
pub fn response_for(id: u16) -> (r: Option<u16>)
    ensures
        r == response_of(id),
{
    if id == CMD_GET_CUR_SCENE_INFO_CS_REQ {
        Some(CMD_GET_CUR_SCENE_INFO_SC_RSP)
    } else if id == CMD_ENTER_SCENE_CS_REQ {
        Some(CMD_ENTER_SCENE_SC_RSP)
    } else {
        None
    }
}

/// Looks up the request number that a response number answers.
pub fn request_for(id: u16) -> (r: Option<u16>)
    ensures
        r == request_of(id),
{
    if id == CMD_GET_CUR_SCENE_INFO_SC_RSP {
        Some(CMD_GET_CUR_SCENE_INFO_CS_REQ)
    } else if id == CMD_ENTER_SCENE_SC_RSP {
        Some(CMD_ENTER_SCENE_CS_REQ)
    } else {
        None
    }
}

/// Requests and responses pair off one to one: `response_of` and `request_of`
/// undo each other, a request has a response exactly when it is a request, and
/// a notification is paired with nothing.
pub proof fn lemma_request_response_bijection(a: u16, b: u16)
    ensures
        response_of(a) == Some(b) <==> request_of(b) == Some(a),
        response_of(a).is_some() <==> kind_of(a) == Some(CommandKind::Request),
        request_of(b).is_some() <==> kind_of(b) == Some(CommandKind::Response),
        kind_of(a) == Some(CommandKind::Notify) ==> response_of(a).is_none() && request_of(a).is_none(),
{
}

} // verus!
