//! A client from its first packet to the server that its player goes to.
use crate::packets::{ClientIntent, ConnectionProtocol, PacketIds};
use crate::proxy::backend_connector::{BackendConnector, ConnectorView, PROTOCOL_VERSION};
use crate::proxy::{target_of, ProxyServer, ProxyView, RouteError, Switches};
use vstd::prelude::*;

verus! {

/// What the proxy says of itself in a server list.
#[derive(Debug, PartialEq, Eq, Clone, Copy)]
pub struct StatusReport {
    pub description: &'static str,
    pub max_players: i32,
    pub online_players: i32,
    pub version_name: &'static str,
    pub version_protocol: i32,
    pub enforce_secure_chat: bool,
}

impl StatusReport {
    /// Whether this is what the proxy says of itself.
    pub open spec fn is_own(self) -> bool {
        &&& self.description@ == "Steel Proxy Server (Offline Mode)"@
        &&& self.max_players == 100
        &&& self.online_players == 0
        &&& self.version_name@ == "1.21.11"@
        &&& self.version_protocol == PROTOCOL_VERSION
        &&& !self.enforce_secure_chat
    }

    /// What the proxy says of itself.
    pub fn own() -> (r: StatusReport)
        ensures
            r.is_own(),
    {
        StatusReport {
            description: "Steel Proxy Server (Offline Mode)",
            max_players: 100,
            online_players: 0,
            version_name: "1.21.11",
            version_protocol: PROTOCOL_VERSION,
            enforce_secure_chat: false,
        }
    }
}

/// A client that has not yet been connected to a backend.
#[derive(Debug)]
pub struct ClientHandler {
    client_id: u64,
    protocol: ConnectionProtocol,
    username: Option<String>,
    player_uuid: Option<u128>,
    /// Whether the connection is at its end
    ended: bool,
}

/// What is known of a client.
#[verifier::ext_equal]
pub struct HandlerView {
    /// The phase that its connection is in.
    pub protocol: ConnectionProtocol,
    /// The name and the UUID of its player.
    pub player: Option<(Seq<char>, u128)>,
    /// Whether its connection is at its end.
    pub ended: bool,
}

impl View for ClientHandler {
    type V = HandlerView;

    closed spec fn view(&self) -> HandlerView {
        HandlerView {
            protocol: self.protocol,
            player: match self.username {
                Some(name) => Some((name@, self.player_uuid->0)),
                None => None,
            },
            ended: self.ended,
        }
    }
}

/// What a packet of a client asks for.
#[derive(Debug)]
pub enum HandlerStep {
    /// Nothing; wait for the next packet.
    Ignore,
    /// Read what the client wants, and hand it to [`ClientHandler::on_intention`].
    ReadIntention,
    /// Send this report.
    SendStatus { report: StatusReport },
    /// Read the time in the packet, send back what [`ClientHandler::on_ping`] gives for it, and end
    /// the connection.
    EchoPing,
    /// Read who the player is, and hand it to [`ClientHandler::on_hello`].
    ReadHello,
    /// Connect the player to this backend, and forward packets between them.
    Connect { backend_name: String, connector: BackendConnector },
    /// End the connection.
    Close,
}

/// The values in a [`HandlerStep`]; a report is always the proxy's own.
pub enum HandlerStepView {
    Ignore,
    ReadIntention,
    SendStatus,
    EchoPing,
    ReadHello,
    Connect { backend_name: Seq<char>, connector: ConnectorView },
    Close,
}

impl HandlerStep {
    /// Whether this step holds those values.
    pub open spec fn holds(&self, v: HandlerStepView) -> bool {
        match self {
            HandlerStep::Ignore => v is Ignore,
            HandlerStep::ReadIntention => v is ReadIntention,
            HandlerStep::SendStatus { report } => v is SendStatus && report.is_own(),
            HandlerStep::EchoPing => v is EchoPing,
            HandlerStep::ReadHello => v is ReadHello,
            HandlerStep::Connect { backend_name, connector } => v == HandlerStepView::Connect {
                backend_name: backend_name@,
                connector: connector@,
            },
            HandlerStep::Close => v is Close,
        }
    }
}

/// Whether the packet ends the login of a client.
pub open spec fn ends_login(v: HandlerView, id: i32, ids: PacketIds) -> bool {
    &&& !v.ended
    &&& v.protocol == ConnectionProtocol::Login
    &&& id != ids.hello
    &&& id == ids.login_acknowledged
}

/// What a packet that does not end the login asks for.
pub open spec fn plain_step(v: HandlerView, id: i32, ids: PacketIds) -> HandlerStepView {
    if v.ended {
        HandlerStepView::Close
    } else {
        phase_step(v.protocol, id, ids)
    }
}

/// What is known after a packet that does not end the login: a ping ends the connection, and so
/// does a packet in a phase in which the proxy takes none.
pub open spec fn after_packet(v: HandlerView, id: i32, ids: PacketIds) -> HandlerView {
    let step = plain_step(v, id, ids);
    HandlerView { ended: v.ended || step is EchoPing || step is Close, ..v }
}

/// What a packet that does not end the login asks for in a phase of the connection.
pub open spec fn phase_step(
    protocol: ConnectionProtocol,
    id: i32,
    ids: PacketIds,
) -> HandlerStepView {
    match protocol {
        ConnectionProtocol::Handshake => if id == ids.intention {
            HandlerStepView::ReadIntention
        } else {
            HandlerStepView::Ignore
        },
        ConnectionProtocol::Status => if id == ids.status_request {
            HandlerStepView::SendStatus
        } else if id == ids.ping_request {
            HandlerStepView::EchoPing
        } else {
            HandlerStepView::Ignore
        },
        ConnectionProtocol::Login => if id == ids.hello {
            HandlerStepView::ReadHello
        } else {
            HandlerStepView::Ignore
        },
        _ => HandlerStepView::Close,
    }
}

/// Where a player goes at the end of the login: to the server that was asked for, else to the
/// default server; nowhere if there is no such backend.
pub open spec fn login_route(
    p: ProxyView,
    default_server: Seq<char>,
    player: (Seq<char>, u128),
) -> Result<HandlerStepView, RouteError> {
    let name = target_of(p.switches, default_server, player.1);
    match p.backends.find(name) {
        Some(b) => Ok(
            HandlerStepView::Connect {
                backend_name: name,
                connector: ConnectorView {
                    address: b.address,
                    port: b.port,
                    username: player.0,
                    uuid: player.1,
                },
            },
        ),
        None => Err(RouteError::BackendNotFound),
    }
}

impl ClientHandler {
    #[verifier::type_invariant]
    spec fn name_with_uuid(&self) -> bool {
        self.username is Some ==> self.player_uuid is Some
    }

    /// The number of the client.
    pub closed spec fn id(&self) -> u64 {
        self.client_id
    }

    /// A client whose first packet is still to come.
    pub fn new(client_id: u64) -> (r: Self)
        ensures
            r@ == (HandlerView {
                protocol: ConnectionProtocol::Handshake,
                player: None,
                ended: false,
            }),
            r.id() == client_id,
    {
        ClientHandler {
            client_id,
            protocol: ConnectionProtocol::Handshake,
            username: None,
            player_uuid: None,
            ended: false,
        }
    }

    /// The number of the client.
    pub fn client_id(&self) -> (r: u64)
        ensures
            r == self.id(),
    {
        self.client_id
    }

    /// Whether this packet ends the login of the client although nobody said who the player is.
    pub fn is_nameless(&self, id: i32, ids: &PacketIds) -> (r: bool)
        ensures
            r == (ends_login(self@, id, *ids) && self@.player is None),
    {
        let in_login = match self.protocol {
            ConnectionProtocol::Login => true,
            _ => false,
        };
        !self.ended && in_login && id != ids.hello && id == ids.login_acknowledged && self.username.is_none()
    }

    /// What a packet of this number asks for. At the end of the login the wish of the player for a
    /// server is met and forgotten.
    pub fn run(&mut self, id: i32, ids: &PacketIds, proxy_server: &mut ProxyServer) -> (r: Result<
        HandlerStep,
        RouteError,
    >)
        requires
            ends_login(old(self)@, id, *ids) ==> old(self)@.player is Some,
        ensures
            final(self).id() == old(self).id(),
            final(proxy_server).same_parts(old(proxy_server)),
            ends_login(old(self)@, id, *ids) ==> {
                &&& match r {
                    Ok(step) => login_route(
                        old(proxy_server)@,
                        old(proxy_server).settings().default_server@,
                        old(self)@.player->0,
                    ) matches Ok(v) && step.holds(v),
                    Err(e) => login_route(
                        old(proxy_server)@,
                        old(proxy_server).settings().default_server@,
                        old(self)@.player->0,
                    ) == Err::<HandlerStepView, RouteError>(e),
                }
                &&& final(self)@ == (HandlerView {
                    protocol: ConnectionProtocol::Config,
                    ..old(self)@
                })
                &&& final(proxy_server)@ == (ProxyView {
                    switches: old(proxy_server)@.switches.remove((old(self)@.player->0).1),
                    ..old(proxy_server)@
                })
            },
            !ends_login(old(self)@, id, *ids) ==> {
                &&& r matches Ok(step) && step.holds(plain_step(old(self)@, id, *ids))
                &&& final(self)@ == after_packet(old(self)@, id, *ids)
                &&& final(proxy_server)@ == old(proxy_server)@
            },
    {
        proof {
            use_type_invariant(&*self);
        }
        if self.ended {
            return Ok(HandlerStep::Close);
        }
        match self.protocol {
            ConnectionProtocol::Handshake => {
                if id == ids.intention {
                    Ok(HandlerStep::ReadIntention)
                } else {
                    Ok(HandlerStep::Ignore)
                }
            },
            ConnectionProtocol::Status => {
                if id == ids.status_request {
                    Ok(HandlerStep::SendStatus { report: StatusReport::own() })
                } else if id == ids.ping_request {
                    self.ended = true;
                    Ok(HandlerStep::EchoPing)
                } else {
                    Ok(HandlerStep::Ignore)
                }
            },
            ConnectionProtocol::Login => {
                if id == ids.hello {
                    Ok(HandlerStep::ReadHello)
                } else if id == ids.login_acknowledged {
                    self.finish_login(proxy_server)
                } else {
                    Ok(HandlerStep::Ignore)
                }
            },
            _ => {
                self.ended = true;
                Ok(HandlerStep::Close)
            },
        }
    }

    fn finish_login(&mut self, proxy_server: &mut ProxyServer) -> (r: Result<
        HandlerStep,
        RouteError,
    >)
        requires
            old(self)@.player is Some,
        ensures
            final(self).id() == old(self).id(),
            final(proxy_server).same_parts(old(proxy_server)),
            match r {
                Ok(step) => login_route(
                    old(proxy_server)@,
                    old(proxy_server).settings().default_server@,
                    old(self)@.player->0,
                ) matches Ok(v) && step.holds(v),
                Err(e) => login_route(
                    old(proxy_server)@,
                    old(proxy_server).settings().default_server@,
                    old(self)@.player->0,
                ) == Err::<HandlerStepView, RouteError>(e),
            },
            final(self)@ == (HandlerView {
                protocol: ConnectionProtocol::Config,
                ..old(self)@
            }),
            final(proxy_server)@ == (ProxyView {
                switches: old(proxy_server)@.switches.remove((old(self)@.player->0).1),
                ..old(proxy_server)@
            }),
    {
        proof {
            use_type_invariant(&*self);
        }
        self.protocol = ConnectionProtocol::Config;
        let uuid: u128 = self.player_uuid.unwrap();
        let username = crate::config::copy_optional(&self.username).unwrap();
        match proxy_server.route(uuid) {
            Ok((backend_name, address, port)) => {
                let connector = BackendConnector::new(address, port, username, uuid);
                Ok(HandlerStep::Connect { backend_name, connector })
            },
            Err(e) => Err(e),
        }
    }

    /// Goes on after it was read what the client wants.
    pub fn on_intention(&mut self, intention: ClientIntent)
        ensures
            final(self)@ == (HandlerView {
                protocol: match intention {
                    ClientIntent::Status => ConnectionProtocol::Status,
                    ClientIntent::Login => ConnectionProtocol::Login,
                    ClientIntent::Transfer => ConnectionProtocol::Login,
                },
                ..old(self)@
            }),
            final(self).id() == old(self).id(),
    {
        proof {
            use_type_invariant(&*self);
        }
        match intention {
            ClientIntent::Status => {
                self.protocol = ConnectionProtocol::Status;
            },
            ClientIntent::Login | ClientIntent::Transfer => {
                self.protocol = ConnectionProtocol::Login;
            },
        }
    }

    /// The time to send back for a ping: the one that the client sent.
    pub fn on_ping(time: i64) -> (r: i64)
        ensures
            r == time,
    {
        time
    }

    /// Goes on after it was read who the player is, which is believed: this name and UUID are then
    /// sent back, with the login complete.
    pub fn on_hello(&mut self, name: String, profile_id: u128) -> (r: (u128, String))
        ensures
            r.0 == profile_id,
            r.1 == name,
            final(self)@ == (HandlerView {
                player: Some((name@, profile_id)),
                ..old(self)@
            }),
            final(self).id() == old(self).id(),
    {
        let answer = (profile_id, name.clone());
        self.player_uuid = Some(profile_id);
        self.username = Some(name);
        answer
    }
}

/// Whether a packet of a client only gets the end of the connection for an answer, and changes
/// nothing.
pub open spec fn is_over(v: HandlerView, id: i32, ids: PacketIds) -> bool {
    &&& !ends_login(v, id, ids)
    &&& plain_step(v, id, ids) is Close
    &&& after_packet(v, id, ids) == v
}

/// A ping is the last packet of a client that is answered: it ends the connection, and whatever
/// packet comes after it only gets the end of the connection for an answer.
pub proof fn ping_is_the_last_packet(v: HandlerView, ids: PacketIds, id: i32)
    requires
        v.protocol == ConnectionProtocol::Status,
        ids.ping_request != ids.status_request,
        !v.ended,
    ensures
        plain_step(v, ids.ping_request, ids) is EchoPing,
        is_over(after_packet(v, ids.ping_request, ids), id, ids),
{
}

/// Once the connection of a client is at its end, it stays so.
pub proof fn end_is_final(v: HandlerView, ids: PacketIds, id: i32)
    requires
        v.ended,
    ensures
        is_over(v, id, ids),
{
}

/// What players do one after the other: ask for a server, or log in.
pub enum Wish {
    Asks { uuid: u128, server: Seq<char> },
    LogsIn { uuid: u128 },
}

impl Wish {
    /// The player who does it.
    pub open spec fn uuid(self) -> u128 {
        match self {
            Wish::Asks { uuid, .. } => uuid,
            Wish::LogsIn { uuid } => uuid,
        }
    }
}

/// The wishes that are kept after all of that.
pub open spec fn kept_wishes(switches: Switches, row: Seq<Wish>) -> Switches
    decreases row.len(),
{
    if row.len() == 0 {
        switches
    } else {
        let before = kept_wishes(switches, row.drop_last());
        match row.last() {
            Wish::Asks { uuid, server } => before.insert(uuid, server),
            Wish::LogsIn { uuid } => before.remove(uuid),
        }
    }
}

/// The wish of a player is kept as long as only other players ask and log in.
pub proof fn wish_is_kept(switches: Switches, row: Seq<Wish>, uuid: u128)
    requires
        forall|i: int| 0 <= i < row.len() ==> (#[trigger] row[i]).uuid() != uuid,
    ensures
        kept_wishes(switches, row).contains_key(uuid) == switches.contains_key(uuid),
        switches.contains_key(uuid) ==> kept_wishes(switches, row)[uuid] == switches[uuid],
    decreases row.len(),
{
    if row.len() > 0 {
        assert(row[row.len() - 1].uuid() != uuid);
        assert forall|i: int| 0 <= i < row.drop_last().len() implies (
        #[trigger] row.drop_last()[i]).uuid() != uuid by {
            assert(row[i].uuid() != uuid);
        }
        wish_is_kept(switches, row.drop_last(), uuid);
    }
}

/// A player who asks for a server reaches it at the next login, whatever other players ask for and
/// whoever of them logs in between, as long as there is such a backend then; with that the wish is
/// met, and the login after it leads to the default server.
pub proof fn wish_is_met_once(
    switches: Switches,
    row: Seq<Wish>,
    p: ProxyView,
    default_server: Seq<char>,
    player: (Seq<char>, u128),
    server: Seq<char>,
)
    requires
        forall|i: int| 0 <= i < row.len() ==> (#[trigger] row[i]).uuid() != player.1,
        p.switches == kept_wishes(switches.insert(player.1, server), row),
        p.backends.has(server),
    ensures
        login_route(p, default_server, player) == Ok::<HandlerStepView, RouteError>(
            HandlerStepView::Connect {
                backend_name: server,
                connector: ConnectorView {
                    address: p.backends.find(server)->0.address,
                    port: p.backends.find(server)->0.port,
                    username: player.0,
                    uuid: player.1,
                },
            },
        ),
        target_of(p.switches.remove(player.1), default_server, player.1) == default_server,
{
    wish_is_kept(switches.insert(player.1, server), row, player.1);
}

/// The backend is told the name and the UUID that the client gave at its login, and those of no
/// other player.
pub proof fn identity_is_kept(p: ProxyView, default_server: Seq<char>, player: (Seq<char>, u128))
    ensures
        login_route(p, default_server, player) matches Ok(step) ==> (
        step matches HandlerStepView::Connect { connector, .. } && connector.username == player.0
            && connector.uuid == player.1),
{
}

/// What one player asks for, or has met, changes nothing for another.
pub proof fn wishes_are_apart(
    p: ProxyView,
    default_server: Seq<char>,
    uuid: u128,
    server: Seq<char>,
    other: (Seq<char>, u128),
)
    requires
        other.1 != uuid,
    ensures
        login_route(
            ProxyView { switches: p.switches.insert(uuid, server), ..p },
            default_server,
            other,
        ) == login_route(p, default_server, other),
        login_route(
            ProxyView { switches: p.switches.remove(uuid), ..p },
            default_server,
            other,
        ) == login_route(p, default_server, other),
{
}

/// A player who asked for nothing goes to the default server, which settings that were accepted
/// always have.
pub proof fn default_server_is_reached(
    p: ProxyView,
    config: crate::config::ProxyConfig,
    player: (Seq<char>, u128),
)
    requires
        config.is_usable(),
        p.backends.fixed == config.backends@,
        !p.switches.contains_key(player.1),
    ensures
        login_route(p, config.default_server@, player) matches Ok(step)
            && step matches HandlerStepView::Connect { backend_name, .. } && backend_name
            == config.default_server@,
{
}

} // verus!
