//! The match runner's handle on a remote, network-connected bot.
//!
//! Starting the player is the server side of the rendezvous; if the bot
//! does not connect within the connection wait, the key is dropped from the
//! router and the handle stays disconnected for good. Each request is then
//! registered with the correlator and pushed to the bot, with a deadline
//! after which it times out; a disconnected handle times every request out
//! at once.
use std::time::Duration;
use vstd::prelude::*;

use crate::correlator::{Correlator, Delivery, RequestError, resolve_step};
use crate::messages::{PlayerApiServerMessage, RequestMessage, action_request, carries_request};
use crate::router::{PlayerConnectionState, PlayerRouter, RendezvousResult, server_step};
use crate::token::{PLAYER_KEY_LENGTH, all_alphanumeric, new_player_key};

verus! {

/// How long a started player waits for its bot to connect, in seconds.
pub const CONNECTION_WAIT_SECS: u64 = 10;

/// How many keys `RemoteBotSpec::reserve` draws before it gives up on
/// finding one that is not taken.
pub const KEY_DRAWS: usize = 8;

/// A deadline to arm: once `duration` has elapsed, the request under
/// (player_id, request_id) is timed out, unless it was resolved before.
pub struct ScheduledTimeout {
    pub player_id: u32,
    pub request_id: u32,
    pub duration: Duration,
}

/// What the caller of `send_request` does next.
pub enum RequestPlan<W> {
    /// Push `message` to the bot and arm `timeout`. Where the push fails,
    /// time the request out at once.
    Deliver { message: PlayerApiServerMessage, timeout: ScheduledTimeout },
    /// The bot never connected: the request is resolved already.
    Resolved(Delivery<W>),
}

/// The remote player that the match runner starts: its key in the router.
pub struct RemoteBotSpec {
    pub player_key: String,
}

impl RemoteBotSpec {
    /// A remote player for a new match: a fresh key, one that the router
    /// does not hold, reserved before anyone is told of it so that the bot
    /// may connect at once. `None`, with the router unchanged, where every
    /// one of `KEY_DRAWS` drawn keys was taken.
    pub fn reserve<C, S>(router: &mut PlayerRouter<C, S>) -> (r: Option<RemoteBotSpec>)
        requires
            old(router).wf(),
        ensures
            final(router).wf(),
            match r {
                Some(spec) => {
                    &&& !old(router)@.contains_key(spec.player_key@)
                    &&& final(router)@ == old(router)@.insert(
                        spec.player_key@,
                        PlayerConnectionState::Reserved,
                    )
                    &&& spec.player_key@.len() == PLAYER_KEY_LENGTH
                    &&& all_alphanumeric(spec.player_key@)
                },
                None => final(router)@ == old(router)@,
            },
    {
        let mut draws: usize = 0;
        while draws < KEY_DRAWS
            invariant
                router.wf(),
                router@ == old(router)@,
            decreases KEY_DRAWS - draws,
        {
            let player_key = new_player_key();
            if !router.contains_key(&player_key) {
                router.reserve(player_key.clone());
                return Some(RemoteBotSpec { player_key });
            }
            draws += 1;
        }
        None
    }

    /// The server side arrives under this player's key, leaving `server`
    /// (where the bot's inbound stream is to be handed) if it comes first.
    pub fn connect<C, S>(&self, router: &mut PlayerRouter<C, S>, server: S) -> (r:
        RendezvousResult<C, S>)
        requires
            old(router).wf(),
        ensures
            final(router).wf(),
            (final(router)@, r) == server_step(old(router)@, self.player_key@, server),
    {
        router.connect_server(&self.player_key, server)
    }

    /// The bot did not connect within the connection wait: its key leaves
    /// the router and the handle is disconnected for good.
    pub fn connection_timed_out<C, S>(&self, router: &mut PlayerRouter<C, S>, player_id: u32) -> (r:
        RemoteBotHandle)
        requires
            old(router).wf(),
        ensures
            final(router).wf(),
            final(router)@ == old(router)@.remove(self.player_key@),
            r.player_id() == player_id,
            !r.is_connected(),
    {
        router.take(&self.player_key);
        RemoteBotHandle { player_id, connected: false }
    }

    /// The rendezvous completed: the handle can reach its bot.
    pub fn connected(&self, player_id: u32) -> (r: RemoteBotHandle)
        ensures
            r.player_id() == player_id,
            r.is_connected(),
    {
        RemoteBotHandle { player_id, connected: true }
    }
}

/// A started remote player.
pub struct RemoteBotHandle {
    player_id: u32,
    connected: bool,
}

impl RemoteBotHandle {
    pub closed spec fn spec_player_id(&self) -> u32 {
        self.player_id
    }

    pub closed spec fn spec_is_connected(&self) -> bool {
        self.connected
    }

    /// The id that the match runner gave this player.
    #[verifier::when_used_as_spec(spec_player_id)]
    pub fn player_id(&self) -> (r: u32)
        ensures
            r == self.player_id(),
    {
        self.player_id
    }

    /// Whether the bot connected in time.
    #[verifier::when_used_as_spec(spec_is_connected)]
    pub fn is_connected(&self) -> (r: bool)
        ensures
            r == self.is_connected(),
    {
        self.connected
    }

    /// Starts request `r` for this player, on behalf of `waiter`.
    ///
    /// Connected: the request is registered as pending and the plan is to
    /// push it to the bot and arm its own timeout. Disconnected: nothing is
    /// registered and the waiter gets a timeout at once.
    pub fn send_request<W>(&self, bus: &mut Correlator<W>, r: RequestMessage, waiter: W) -> (plan:
        RequestPlan<W>)
        requires
            old(bus).wf(),
            !old(bus)@.contains_key((self.player_id(), r.request_id)),
        ensures
            final(bus).wf(),
            self.is_connected() ==> {
                &&& final(bus)@ == old(bus)@.insert((self.player_id(), r.request_id), waiter)
                &&& match plan {
                    RequestPlan::Deliver { message, timeout } => {
                        &&& carries_request(message, r.request_id, r.content@)
                        &&& timeout == ScheduledTimeout {
                            player_id: self.player_id(),
                            request_id: r.request_id,
                            duration: r.timeout,
                        }
                    },
                    RequestPlan::Resolved(_) => false,
                }
            },
            !self.is_connected() ==> {
                &&& final(bus)@ == old(bus)@
                &&& plan == RequestPlan::Resolved(
                    Delivery { waiter, outcome: Err(RequestError::Timeout) },
                )
            },
    {
        if !self.connected {
            return RequestPlan::Resolved(Delivery { waiter, outcome: Err(RequestError::Timeout) });
        }
        let registered = bus.register_request(self.player_id, r.request_id, waiter);
        proof {
            assert(registered is Ok);
        }
        let timeout = ScheduledTimeout {
            player_id: self.player_id,
            request_id: r.request_id,
            duration: r.timeout,
        };
        RequestPlan::Deliver { message: action_request(r.request_id, r.content), timeout }
    }

    /// The push of request `request_id` to the bot failed: a bot that
    /// cannot be reached is treated as one that does not answer.
    pub fn delivery_failed<W>(&self, bus: &mut Correlator<W>, request_id: u32) -> (r: Option<
        Delivery<W>,
    >)
        requires
            old(bus).wf(),
        ensures
            final(bus).wf(),
            (final(bus)@, r) == resolve_step(
                old(bus)@,
                (self.player_id(), request_id),
                Err(RequestError::Timeout),
            ),
    {
        bus.time_out_request(self.player_id, request_id)
    }
}

} // verus!
