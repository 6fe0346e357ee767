//! The messages exchanged with a remote bot over its stream, and the
//! request that the match runner hands a player.
use std::time::Duration;
use vstd::prelude::*;

verus! {

/// A request for the bot's next action (server to bot).
pub struct PlayerActionRequest {
    pub action_request_id: i32,
    pub content: Vec<u8>,
}

pub enum ServerMessage {
    ActionRequest(PlayerActionRequest),
}

pub struct PlayerApiServerMessage {
    pub server_message: Option<ServerMessage>,
}

/// The bot's answer to an action request (bot to server).
pub struct PlayerAction {
    pub action_request_id: i32,
    pub content: Vec<u8>,
}

pub enum ClientMessage {
    Action(PlayerAction),
}

pub struct PlayerApiClientMessage {
    pub client_message: Option<ClientMessage>,
}

/// One turn's request from the match runner to a player.
pub struct RequestMessage {
    pub request_id: u32,
    pub content: Vec<u8>,
    pub timeout: Duration,
}

/// `message` asks the bot for its action under request `request_id`, with
/// `content`; on the wire the id is carried as an `i32`.
pub open spec fn carries_request(message: PlayerApiServerMessage, request_id: u32, content: Seq<u8>) -> bool {
    match message.server_message {
        Some(ServerMessage::ActionRequest(req)) => {
            &&& req.action_request_id == request_id as i32
            &&& req.content@ == content
        },
        None => false,
    }
}

/// The wire message that asks the bot for its action under `request_id`.
pub fn action_request(request_id: u32, content: Vec<u8>) -> (r: PlayerApiServerMessage)
    ensures
        carries_request(r, request_id, content@),
{
    let req = PlayerActionRequest { action_request_id: request_id as i32, content };
    PlayerApiServerMessage { server_message: Some(ServerMessage::ActionRequest(req)) }
}

/// The id under which a bot's answer to request `request_id` comes back
/// names that same request.
pub proof fn lemma_request_id_round_trip(request_id: u32)
    ensures
        (request_id as i32) as u32 == request_id,
{
    assert((request_id as i32) as u32 == request_id) by (bit_vector);
}

} // verus!
