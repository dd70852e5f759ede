//! Clients on their way to a server.
use crate::codec::{int_at, VarIntError};
use crate::k8s::lifecycle::{Outcome, Turn};
use crate::packets::{ConnectionProtocol, PacketIds, RawPacketView};
use crate::proxy::backend_connector::{
    acknowledgement, login_answer, ConnectorView, LoginError, LoginStepView,
};
use crate::proxy::client_handler::{
    after_packet, ends_login, login_route, plain_step, HandlerStep, HandlerStepView, HandlerView,
    StatusReport,
};
use crate::proxy::{target_of, ProxyServer, ProxyView, RouteError, Switches};
use crate::text::{decimal, parsed_u32, signed_decimal};
use vstd::prelude::*;

verus! {

/// In each phase of a connection exactly the packets of that phase are heeded, by their numbers
/// alone, and any other is passed over: the intention in the handshake, questions and pings for the
/// status, and the name of the player at the login. Once the login is over no packet is taken.
pub proof fn packets_are_heeded_by_phase(
    player: Option<(Seq<char>, u128)>,
    id: i32,
    ids: PacketIds,
)
    ensures
        ({
            let v = HandlerView {
                protocol: ConnectionProtocol::Handshake,
                player,
                ended: false,
            };
            &&& !ends_login(v, id, ids)
            &&& plain_step(v, id, ids) is ReadIntention <==> id == ids.intention
            &&& plain_step(v, id, ids) is Ignore <==> id != ids.intention
            &&& after_packet(v, id, ids) == v
        }),
        ({
            let v = HandlerView { protocol: ConnectionProtocol::Status, player, ended: false };
            &&& !ends_login(v, id, ids)
            &&& plain_step(v, id, ids) is SendStatus <==> id == ids.status_request
            &&& plain_step(v, id, ids) is EchoPing <==> id == ids.ping_request && id
                != ids.status_request
            &&& plain_step(v, id, ids) is Ignore <==> id != ids.ping_request && id
                != ids.status_request
            &&& after_packet(v, id, ids) == (HandlerView {
                ended: plain_step(v, id, ids) is EchoPing,
                ..v
            })
        }),
        ({
            let v = HandlerView { protocol: ConnectionProtocol::Login, player, ended: false };
            &&& ends_login(v, id, ids) <==> id == ids.login_acknowledged && id != ids.hello
            &&& plain_step(v, id, ids) is ReadHello <==> id == ids.hello
            &&& plain_step(v, id, ids) is Ignore <==> id != ids.hello
            &&& after_packet(v, id, ids) == v
        }),
        ({
            let v = HandlerView { protocol: ConnectionProtocol::Config, player, ended: false };
            &&& !ends_login(v, id, ids)
            &&& plain_step(v, id, ids) is Close
            &&& after_packet(v, id, ids) == (HandlerView { ended: true, ..v })
        }),
        ({
            let v = HandlerView { protocol: ConnectionProtocol::Play, player, ended: false };
            &&& !ends_login(v, id, ids)
            &&& plain_step(v, id, ids) is Close
            &&& after_packet(v, id, ids) == (HandlerView { ended: true, ..v })
        }),
{
}

/// A connection that has ended stays so, whatever it was for and whatever comes.
pub proof fn ended_connections_take_nothing(v: HandlerView, id: i32, ids: PacketIds)
    requires
        v.ended,
    ensures
        !ends_login(v, id, ids),
        plain_step(v, id, ids) is Close,
        after_packet(v, id, ids) == v,
{
}

/// A player who asked for a server goes to it, and one who did not goes to the default server; a
/// wish stands for its own player alone.
pub proof fn wishes_decide(
    switches: Switches,
    default_server: Seq<char>,
    uuid: u128,
    other: u128,
    server: Seq<char>,
)
    ensures
        target_of(switches.insert(uuid, server), default_server, uuid) == server,
        target_of(switches.remove(uuid), default_server, uuid) == default_server,
        other != uuid ==> target_of(switches.insert(uuid, server), default_server, other)
            == target_of(switches, default_server, other),
        target_of(Switches::empty(), default_server, uuid) == default_server,
{
}

/// At the end of the login a player is connected to the backend of the server that the player goes
/// to, as the registry has it, under the own name and UUID; and to none exactly where the registry
/// has no such backend.
pub proof fn routes_lead_to_the_target(
    p: ProxyView,
    default_server: Seq<char>,
    player: (Seq<char>, u128),
)
    ensures
        ({
            let name = target_of(p.switches, default_server, player.1);
            match login_route(p, default_server, player) {
                Ok(step) => {
                    &&& p.backends.find(name) matches Some(b)
                    &&& step matches HandlerStepView::Connect { backend_name, connector }
                    &&& backend_name == name
                    &&& connector.address == b.address
                    &&& connector.port == b.port
                    &&& connector.username == player.0
                    &&& connector.uuid == player.1
                },
                Err(e) => p.backends.find(name) is None && e == RouteError::BackendNotFound,
            }
        }),
{
}

/// A step that is given is one step only, and holds just the values that it is said to hold.
pub proof fn steps_hold_what_they_say(step: HandlerStep, a: HandlerStepView, b: HandlerStepView)
    requires
        step.holds(a),
        step.holds(b),
    ensures
        a == b,
        step matches HandlerStep::Connect { backend_name, connector } ==> a == (
        HandlerStepView::Connect { backend_name: backend_name@, connector: connector@ }),
        step matches HandlerStep::SendStatus { report } ==> a is SendStatus && report.is_own(),
        step is Close <==> a is Close,
        step is Ignore <==> a is Ignore,
        step is EchoPing <==> a is EchoPing,
        step is ReadHello <==> a is ReadHello,
        step is ReadIntention <==> a is ReadIntention,
{
}

/// What the proxy says of itself in a server list.
pub proof fn own_status_report(report: StatusReport)
    ensures
        report.is_own() <==> report.description@ == "Steel Proxy Server (Offline Mode)"@
            && report.max_players == 100 && report.online_players == 0 && report.version_name@
            == "1.21.11"@ && report.version_protocol == 774 && !report.enforce_secure_chat,
{
}

/// Two proxies of the same parts have the same settings, clients of other services, instances and
/// backends.
pub proof fn same_parts_are_the_same(a: &ProxyServer, b: &ProxyServer)
    ensures
        a.same_parts(b) <==> a.settings() == b.settings() && a.jenkins() == b.jenkins() && a.k8s()
            == b.k8s() && a.registry() == b.registry(),
{
}

/// A part of a turn that tells an outcome announces what the outcome announces, and asks for what it
/// asks for.
pub proof fn turns_tell_their_outcome(turn: Turn, o: Outcome)
    requires
        turn.tells(o),
    ensures
        turn.step@ == o.step,
        o.announce is Some <==> turn.announce is Some,
        turn.announce matches Some(text) ==> o.announce == Some(text@),
{
}

/// Where a backend listens is its address and then its port, which is read back from it.
pub proof fn sockets_hold_address_and_port(c: ConnectorView)
    ensures
        c.address.is_prefix_of(c.socket()),
        parsed_u32(c.socket().skip(c.address.len() as int + 1)) == Some(c.port as u32),
        c.socket()[c.address.len() as int] == ':',
{
    reveal_strlit(":");
    let s = c.socket();
    let n = decimal(c.port as nat);
    assert(c.address =~= s.subrange(0, c.address.len() as int));
    assert(s.skip(c.address.len() as int + 1) =~= n);
    crate::text::parse_undoes_decimal(c.port as u32);
}

/// During a login any packet that neither asks for compression nor ends the login makes it fail,
/// with its own number, whatever it holds and whatever came before; so does a size that cannot be
/// read. A positive size replaces the one before; any other changes nothing.
pub proof fn answers_to_a_login(
    threshold: Option<u32>,
    packet: RawPacketView,
    ids: PacketIds,
)
    ensures
        packet.id != ids.login_compression && packet.id != ids.login_finished ==> login_answer(
            threshold,
            packet,
            ids,
        ) == Err::<(LoginStepView, Option<u32>), LoginError>(
            LoginError::Unexpected { id: packet.id },
        ),
        packet.id == ids.login_compression ==> match (
            int_at(packet.payload),
            login_answer(threshold, packet, ids),
        ) {
            (Err(e), Err(LoginError::Threshold(f))) => e == f,
            (Ok((n, _)), Ok((LoginStepView::Compress { threshold: t }, after))) => n > 0 && t == n
                && after == Some(t),
            (Ok((n, _)), Ok((LoginStepView::Wait, after))) => n <= 0 && after == threshold,
            _ => false,
        },
{
}

/// The packet that ends a login holds its number, and nothing else.
pub proof fn acknowledgement_is_its_number(ids: PacketIds)
    ensures
        int_at(acknowledgement(ids)) == Ok::<(i32, nat), VarIntError>(
            (ids.login_acknowledged, acknowledgement(ids).len()),
        ),
{
    crate::codec::varint_is_read_back(ids.login_acknowledged, Seq::empty());
    assert(acknowledgement(ids) + Seq::<u8>::empty() =~= acknowledgement(ids));
}

/// The reason why a login failed tells the number of the packet.
pub proof fn login_failures_tell_the_packet(id: i32)
    ensures
        (LoginError::Unexpected { id }).text() == "Unexpected packet from backend during login: ID="@
            + signed_decimal(id as int),
        signed_decimal(id as int).is_suffix_of((LoginError::Unexpected { id }).text()),
{
    crate::laws::lifecycle::lemma_ends_with(
        "Unexpected packet from backend during login: ID="@,
        signed_decimal(id as int),
    );
}

} // verus!
