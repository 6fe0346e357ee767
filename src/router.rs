//! The routing table where the two halves of a player's connection meet.
//!
//! A player key is reserved when a match is created. The network side
//! (a remote bot opening its stream) and the server side (the match runner
//! starting that player) then arrive in either order. Whoever arrives first
//! parks its payload under the key; whoever arrives second takes it out and
//! completes the pair. The key is gone from the table from that moment on.
use vstd::prelude::*;

use crate::table::KeyedTable;

verus! {

/// The handshake state stored under one player key.
///
/// `C` is what the network side leaves behind when it arrives first (its
/// inbound message stream and the slot through which it waits for the
/// outbound channel); `S` is the same for the server side.
pub enum PlayerConnectionState<C, S> {
    /// Neither side has arrived yet.
    Reserved,
    /// The network side arrived first and waits.
    ClientConnected { client: C },
    /// The server side arrived first and waits.
    ServerConnected { server: S },
}

/// What a side learns when its rendezvous succeeds.
pub enum Rendezvous<C, S> {
    /// This side arrived first: its payload is parked under the key, and it
    /// must wait for the peer to hand over the other half.
    Waiting,
    /// This side arrived second: both halves are here and the key is removed.
    Joined { client: C, server: S },
}

#[derive(Debug, Clone, Copy, PartialEq, Eq, Structural)]
pub enum RendezvousError {
    /// No entry exists under the key.
    UnknownToken,
    /// The same side already arrived under the key; the earlier arrival
    /// is left as it was.
    AlreadyConnected,
}

/// The abstract routing table: player key to handshake state.
pub type RoutingTable<C, S> = Map<Seq<char>, PlayerConnectionState<C, S>>;

pub type RendezvousResult<C, S> = Result<Rendezvous<C, S>, RendezvousError>;

/// The network side arrives under `key` with payload `client`.
pub open spec fn client_step<C, S>(table: RoutingTable<C, S>, key: Seq<char>, client: C) -> (
    RoutingTable<C, S>,
    RendezvousResult<C, S>,
) {
    if !table.contains_key(key) {
        (table, Err(RendezvousError::UnknownToken))
    } else {
        match table[key] {
            PlayerConnectionState::Reserved => (
                table.insert(key, PlayerConnectionState::ClientConnected { client }),
                Ok(Rendezvous::Waiting),
            ),
            PlayerConnectionState::ServerConnected { server } => (
                table.remove(key),
                Ok(Rendezvous::Joined { client, server }),
            ),
            PlayerConnectionState::ClientConnected { .. } => (
                table,
                Err(RendezvousError::AlreadyConnected),
            ),
        }
    }
}

/// The server side arrives under `key` with payload `server`.
pub open spec fn server_step<C, S>(table: RoutingTable<C, S>, key: Seq<char>, server: S) -> (
    RoutingTable<C, S>,
    RendezvousResult<C, S>,
) {
    if !table.contains_key(key) {
        (table, Err(RendezvousError::UnknownToken))
    } else {
        match table[key] {
            PlayerConnectionState::Reserved => (
                table.insert(key, PlayerConnectionState::ServerConnected { server }),
                Ok(Rendezvous::Waiting),
            ),
            PlayerConnectionState::ClientConnected { client } => (
                table.remove(key),
                Ok(Rendezvous::Joined { client, server }),
            ),
            PlayerConnectionState::ServerConnected { .. } => (
                table,
                Err(RendezvousError::AlreadyConnected),
            ),
        }
    }
}

/// Routes players to their handler.
pub struct PlayerRouter<C, S> {
    routing_table: KeyedTable<String, PlayerConnectionState<C, S>>,
}

impl<C, S> View for PlayerRouter<C, S> {
    type V = RoutingTable<C, S>;

    closed spec fn view(&self) -> RoutingTable<C, S> {
        self.routing_table@
    }
}

impl<C, S> Default for PlayerRouter<C, S> {
    fn default() -> (r: Self)
        ensures
            r.wf(),
            r@ == RoutingTable::<C, S>::empty(),
    {
        Self::new()
    }
}

impl<C, S> PlayerRouter<C, S> {
    pub closed spec fn wf(&self) -> bool {
        self.routing_table.wf()
    }

    pub fn new() -> (r: Self)
        ensures
            r.wf(),
            r@ == RoutingTable::<C, S>::empty(),
    {
        PlayerRouter { routing_table: KeyedTable::new() }
    }

    /// Stores `state` under `player_key`, replacing any earlier entry.
    pub fn put(&mut self, player_key: String, state: PlayerConnectionState<C, S>)
        requires
            old(self).wf(),
        ensures
            final(self).wf(),
            final(self)@ == old(self)@.insert(player_key@, state),
    {
        self.routing_table.insert(player_key, state);
    }

    /// Registers `player_key` with neither side arrived.
    pub fn reserve(&mut self, player_key: String)
        requires
            old(self).wf(),
        ensures
            final(self).wf(),
            final(self)@ == old(self)@.insert(player_key@, PlayerConnectionState::Reserved),
    {
        self.put(player_key, PlayerConnectionState::Reserved);
    }

    /// Removes the entry under `player_key` and returns it.
    pub fn take(&mut self, player_key: &String) -> (r: Option<PlayerConnectionState<C, S>>)
        requires
            old(self).wf(),
        ensures
            final(self).wf(),
            final(self)@ == old(self)@.remove(player_key@),
            r == (if old(self)@.contains_key(player_key@) {
                Some(old(self)@[player_key@])
            } else {
                None
            }),
    {
        self.routing_table.remove(player_key)
    }

    /// Whether an entry exists under `player_key`.
    pub fn contains_key(&self, player_key: &String) -> (r: bool)
        requires
            self.wf(),
        ensures
            r == self@.contains_key(player_key@),
    {
        self.routing_table.contains_key(player_key)
    }

    /// The network side arrives under `player_key` with `client`.
    ///
    /// On a reserved key the client is parked and must wait; on a key where
    /// the server waits, the pair is complete and the key is removed.
    pub fn connect_client(&mut self, player_key: &String, client: C) -> (r: RendezvousResult<C, S>)
        requires
            old(self).wf(),
        ensures
            final(self).wf(),
            (final(self)@, r) == client_step(old(self)@, player_key@, client),
    {
        match self.take(player_key) {
            None => Err(RendezvousError::UnknownToken),
            Some(PlayerConnectionState::Reserved) => {
                self.put(player_key.clone(), PlayerConnectionState::ClientConnected { client });
                proof {
                    assert(self@ =~= old(self)@.insert(
                        player_key@,
                        PlayerConnectionState::ClientConnected { client },
                    ));
                }
                Ok(Rendezvous::Waiting)
            },
            Some(PlayerConnectionState::ServerConnected { server }) => {
                Ok(Rendezvous::Joined { client, server })
            },
            Some(PlayerConnectionState::ClientConnected { client: earlier }) => {
                self.put(
                    player_key.clone(),
                    PlayerConnectionState::ClientConnected { client: earlier },
                );
                proof {
                    assert(self@ =~= old(self)@);
                }
                Err(RendezvousError::AlreadyConnected)
            },
        }
    }

    /// The server side arrives under `player_key` with `server`.
    ///
    /// On a reserved key the server is parked and must wait; on a key where
    /// the client waits, the pair is complete and the key is removed.
    pub fn connect_server(&mut self, player_key: &String, server: S) -> (r: RendezvousResult<C, S>)
        requires
            old(self).wf(),
        ensures
            final(self).wf(),
            (final(self)@, r) == server_step(old(self)@, player_key@, server),
    {
        match self.take(player_key) {
            None => Err(RendezvousError::UnknownToken),
            Some(PlayerConnectionState::Reserved) => {
                self.put(player_key.clone(), PlayerConnectionState::ServerConnected { server });
                proof {
                    assert(self@ =~= old(self)@.insert(
                        player_key@,
                        PlayerConnectionState::ServerConnected { server },
                    ));
                }
                Ok(Rendezvous::Waiting)
            },
            Some(PlayerConnectionState::ClientConnected { client }) => {
                Ok(Rendezvous::Joined { client, server })
            },
            Some(PlayerConnectionState::ServerConnected { server: earlier }) => {
                self.put(
                    player_key.clone(),
                    PlayerConnectionState::ServerConnected { server: earlier },
                );
                proof {
                    assert(self@ =~= old(self)@);
                }
                Err(RendezvousError::AlreadyConnected)
            },
        }
    }
}

/// Order independence: on a reserved key, the network side arriving before
/// the server side and the server side arriving before the network side
/// both leave the first arrival waiting, hand the second arrival the same
/// joined pair, and end with the key removed and every other key untouched.
pub proof fn lemma_rendezvous_order_independent<C, S>(
    table: RoutingTable<C, S>,
    key: Seq<char>,
    client: C,
    server: S,
)
    requires
        table.contains_key(key),
        table[key] == PlayerConnectionState::<C, S>::Reserved,
    ensures
        ({
            let (after_client, first_client) = client_step(table, key, client);
            let (client_then_server, second_server) = server_step(after_client, key, server);
            let (after_server, first_server) = server_step(table, key, server);
            let (server_then_client, second_client) = client_step(after_server, key, client);
            &&& first_client == Ok::<Rendezvous<C, S>, RendezvousError>(Rendezvous::Waiting)
            &&& first_server == Ok::<Rendezvous<C, S>, RendezvousError>(Rendezvous::Waiting)
            &&& second_server == Ok::<Rendezvous<C, S>, RendezvousError>(
                Rendezvous::Joined { client, server },
            )
            &&& second_client == second_server
            &&& client_then_server == table.remove(key)
            &&& server_then_client == table.remove(key)
        }),
{
    let after_client = table.insert(key, PlayerConnectionState::ClientConnected { client });
    let after_server = table.insert(key, PlayerConnectionState::ServerConnected { server });
    assert(after_client.remove(key) =~= table.remove(key));
    assert(after_server.remove(key) =~= table.remove(key));
}

/// No reconnect: once both sides of a reserved key have met, in either
/// order, a further arrival of either side under that key fails with
/// `UnknownToken` and changes nothing.
pub proof fn lemma_no_reconnect<C, S>(
    table: RoutingTable<C, S>,
    key: Seq<char>,
    client: C,
    server: S,
    client_first: bool,
    late_client: C,
    late_server: S,
)
    requires
        table.contains_key(key),
        table[key] == PlayerConnectionState::<C, S>::Reserved,
    ensures
        ({
            let done = if client_first {
                server_step(client_step(table, key, client).0, key, server).0
            } else {
                client_step(server_step(table, key, server).0, key, client).0
            };
            &&& client_step(done, key, late_client) == (
                done,
                Err::<Rendezvous<C, S>, RendezvousError>(RendezvousError::UnknownToken),
            )
            &&& server_step(done, key, late_server) == (
                done,
                Err::<Rendezvous<C, S>, RendezvousError>(RendezvousError::UnknownToken),
            )
        }),
{
    lemma_rendezvous_order_independent(table, key, client, server);
}

/// Isolation: an arrival under one key, whatever its outcome, leaves the
/// entry under every other key exactly as it was.
pub proof fn lemma_rendezvous_isolated<C, S>(
    table: RoutingTable<C, S>,
    key: Seq<char>,
    other: Seq<char>,
    client: C,
    server: S,
)
    requires
        key != other,
    ensures
        client_step(table, key, client).0.contains_key(other) == table.contains_key(other),
        server_step(table, key, server).0.contains_key(other) == table.contains_key(other),
        table.contains_key(other) ==> client_step(table, key, client).0[other] == table[other],
        table.contains_key(other) ==> server_step(table, key, server).0[other] == table[other],
{
}

} // verus!
