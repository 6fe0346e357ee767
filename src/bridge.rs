//! The network-facing side: what a bot's incoming messages do.
//!
//! A connected bot's stream is drained message by message. An action
//! answers the pending request of this player under the id it carries;
//! anything else on the stream is ignored.
use vstd::prelude::*;

use crate::correlator::{Correlator, Delivery, RequestError, register_step, resolve_step};
use crate::messages::{
    ClientMessage, PlayerAction, PlayerApiClientMessage, lemma_request_id_round_trip,
};

verus! {

/// The effect of one message from the bot of player `player_id` on the
/// pending requests.
pub open spec fn bot_message_step<W>(
    pending: Map<(u32, u32), W>,
    player_id: u32,
    message: PlayerApiClientMessage,
) -> (Map<(u32, u32), W>, Option<Delivery<W>>) {
    match message.client_message {
        Some(ClientMessage::Action(resp)) => resolve_step(
            pending,
            (player_id, resp.action_request_id as u32),
            Ok(resp.content),
        ),
        None => (pending, None),
    }
}

/// Handles one message from the bot of player `player_id`: an action
/// resolves the request it names with its content, if that request is
/// still pending.
pub fn handle_bot_message<W>(
    bus: &mut Correlator<W>,
    player_id: u32,
    message: PlayerApiClientMessage,
) -> (r: Option<Delivery<W>>)
    requires
        old(bus).wf(),
    ensures
        final(bus).wf(),
        (final(bus)@, r) == bot_message_step(old(bus)@, player_id, message),
{
    match message.client_message {
        Some(ClientMessage::Action(resp)) => {
            bus.resolve_request(player_id, resp.action_request_id as u32, Ok(resp.content))
        },
        None => None,
    }
}

/// The bot's answer to request `request_id`, echoing the id it was sent with.
pub open spec fn answer_to(request_id: u32, content: Vec<u8>) -> PlayerApiClientMessage {
    PlayerApiClientMessage {
        client_message: Some(
            ClientMessage::Action(PlayerAction { action_request_id: request_id as i32, content }),
        ),
    }
}

/// The response and the timer race to resolve one registered request, and
/// the one that comes first decides: an answer that arrives first is
/// delivered to the waiter and the timeout after it is a no-op; a timeout
/// that fires first is delivered and the late answer is a no-op. Either way
/// the request is gone afterwards and no other request is touched.
pub proof fn lemma_first_resolution_wins<W>(
    pending: Map<(u32, u32), W>,
    player_id: u32,
    request_id: u32,
    waiter: W,
    content: Vec<u8>,
)
    requires
        !pending.contains_key((player_id, request_id)),
    ensures
        ({
            let key = (player_id, request_id);
            let registered = register_step(pending, key, waiter).0;
            let (after_answer, answered) = bot_message_step(
                registered,
                player_id,
                answer_to(request_id, content),
            );
            let (after_late_timeout, late_timeout) = resolve_step(
                after_answer,
                key,
                Err(RequestError::Timeout),
            );
            let (after_timeout, timed_out) = resolve_step(
                registered,
                key,
                Err(RequestError::Timeout),
            );
            let (after_late_answer, late_answer) = bot_message_step(
                after_timeout,
                player_id,
                answer_to(request_id, content),
            );
            &&& answered == Some(Delivery { waiter, outcome: Ok(content) })
            &&& late_timeout.is_none()
            &&& after_late_timeout == pending
            &&& timed_out == Some(Delivery { waiter, outcome: Err(RequestError::Timeout) })
            &&& late_answer.is_none()
            &&& after_late_answer == pending
        }),
{
    lemma_request_id_round_trip(request_id);
    let key = (player_id, request_id);
    assert(pending.insert(key, waiter).remove(key) =~= pending);
}

} // verus!
