//! Packets between a player and a server, and the commands among them.
use crate::backends::Listing;
use crate::codec::{as_unsigned, big_endian, text_at, VarIntError};
use crate::config::BackendServerView;
use crate::k8s::instance::{backend_name, InstanceStateView, PrInstanceView};
use crate::k8s::Instances;
use crate::packets::{
    packet_in, proxy_commands, ArgumentStringTypeBehavior, ArgumentType, ConnectionProtocol,
    NodeKindView, PacketIds, RawPacketView, COMPRESSION_LEVEL,
};
use crate::proxy::packet_forwarder::{
    after_backend, after_client, after_event, backend_step, client_packet, client_step, command_in,
    command_step, proxy_after_client, proxy_command, run_step, server_line, server_list,
    state_message, status_message, CommandView, EventView, ForwardView, ForwarderView,
    DRAIN_SECS,
};
use crate::proxy::registry::RegistryView;
use crate::proxy::ProxyView;
use crate::text::{decimal, parsed_u32, trimmed};
use vstd::prelude::*;

verus! {

/// During play every packet of the backend with the number of the commands, and not with that of
/// the play login or of the entity event, makes the proxy send its own commands in its place,
/// whatever its payload and whatever is known of the player; and nothing is learnt from it.
pub proof fn commands_are_always_replaced(v: ForwarderView, packet: RawPacketView, ids: PacketIds)
    requires
        v.protocol == ConnectionProtocol::Play,
        packet.id == ids.commands,
        packet.id != ids.play_login,
        packet.id != ids.entity_event,
    ensures
        backend_step(v, packet, ids) matches ForwardView::SendCommands { nodes, root_index }
            && nodes == proxy_commands() && root_index == 0,
        after_backend(v, packet, ids) == v,
{
}

/// Every packet of the backend that comes before play, or has another number than the commands,
/// reaches the client with its number and its payload unchanged, and must arrive.
pub proof fn no_other_packet_is_replaced(v: ForwarderView, packet: RawPacketView, ids: PacketIds)
    requires
        v.protocol != ConnectionProtocol::Play || packet.id != ids.commands || packet.id
            == ids.play_login || packet.id == ids.entity_event,
    ensures
        backend_step(v, packet, ids) matches ForwardView::ToClient { bytes, must_arrive }
            && must_arrive && packet_in(bytes) == Ok::<RawPacketView, VarIntError>(packet),
{
    crate::packets::packet_is_read_back(packet);
}

/// A command is only found in a packet of the client that comes during play, has one of the two
/// numbers of commands, and begins with a text that is `server`, or begins with `server `,
/// `start ` or `status `.
pub proof fn nothing_else_is_a_command(
    protocol: ConnectionProtocol,
    packet: RawPacketView,
    ids: PacketIds,
)
    requires
        command_in(protocol, packet, ids) is Some,
    ensures
        protocol == ConnectionProtocol::Play,
        packet.id == ids.chat_command || packet.id == ids.chat_command_signed,
        text_at(packet.payload) matches Ok(text) && (text == "server"@ || "server "@.is_prefix_of(
            text,
        ) || "start "@.is_prefix_of(text) || "status "@.is_prefix_of(text)),
{
}

/// Every packet of the client that comes before play, or has another number than the commands,
/// reaches the backend with its number and its payload unchanged, whatever it holds, and compressed
/// from the size on that the backend asked for.
pub proof fn no_other_packet_is_obeyed(
    v: ForwarderView,
    packet: RawPacketView,
    ids: PacketIds,
    listing: Listing,
    p: ProxyView,
    public_address: Seq<char>,
    bind_port: u16,
)
    requires
        v.protocol != ConnectionProtocol::Play || (packet.id != ids.chat_command && packet.id
            != ids.chat_command_signed),
    ensures
        client_step(v, packet, ids, listing, p, public_address, bind_port) matches
            ForwardView::ToBackend { bytes, compression } && packet_in(bytes) == Ok::<
            RawPacketView,
            VarIntError,
        >(packet) && (compression is Some <==> v.threshold is Some) && (compression matches Some(c)
            ==> Some(c.threshold) == v.threshold && c.level == 4),
        proxy_after_client(v, packet, ids, p) == p,
        !after_client(v, packet, ids, p.backends).draining || v.draining,
{
    crate::packets::packet_is_read_back(packet);
    assert(COMPRESSION_LEVEL == 4);
}

/// Play begins with the end of the configuration, and with nothing else that the client sends; what
/// is known of the player and the server stays.
pub proof fn play_begins_after_configuration(
    v: ForwarderView,
    packet: RawPacketView,
    ids: PacketIds,
    backends: RegistryView,
)
    ensures
        ({
            let w = after_client(v, packet, ids, backends);
            &&& v.protocol != ConnectionProtocol::Play ==> (w.protocol == (if packet.id
                == ids.finish_configuration {
                ConnectionProtocol::Play
            } else {
                v.protocol
            }))
            &&& v.protocol == ConnectionProtocol::Play ==> w.protocol == v.protocol
            &&& w.client_id == v.client_id
            &&& w.player_uuid == v.player_uuid
            &&& w.current_backend == v.current_backend
            &&& w.threshold == v.threshold
            &&& w.permission_level == v.permission_level
            &&& w.entity_id == v.entity_id
        }),
{
}

/// A packet of the client changes at most the wish of its own player, and only to a server that is
/// there; the wishes of all others, the backends and the instances stay.
pub proof fn only_the_own_wish_changes(
    v: ForwarderView,
    packet: RawPacketView,
    ids: PacketIds,
    p: ProxyView,
    other: u128,
)
    ensures
        ({
            let q = proxy_after_client(v, packet, ids, p);
            &&& q.backends == p.backends
            &&& q.instances == p.instances
            &&& q.clients == p.clients
            &&& other != v.player_uuid ==> q.switches.contains_key(other)
                == p.switches.contains_key(other)
            &&& other != v.player_uuid && p.switches.contains_key(other) ==> q.switches[other]
                == p.switches[other]
            &&& q.switches != p.switches ==> q.switches.contains_key(v.player_uuid)
                && p.backends.has(q.switches[v.player_uuid])
        }),
{
}

/// During play the login packet of the backend tells the entity of the player, whatever follows it.
pub proof fn entity_is_told(v: ForwarderView, entity: i32, rest: Seq<u8>, ids: PacketIds)
    requires
        v.protocol == ConnectionProtocol::Play,
    ensures
        after_backend(
            v,
            RawPacketView {
                id: ids.play_login,
                payload: big_endian(as_unsigned(entity), 4) + rest,
            },
            ids,
        ) == (ForwarderView { entity_id: Some(entity), ..v }),
{
    let four = big_endian(as_unsigned(entity), 4);
    crate::codec::big_endian_is_read_back(as_unsigned(entity), 4);
    assert(crate::codec::byte_bound(4) == 0x1_0000_0000) by {
        reveal_with_fuel(crate::codec::byte_bound, 5);
    }
    assert((four + rest).take(4) =~= four);
}

/// During play an entity event of the player's own entity with one of the five statuses from
/// twenty-four on sets the permission level to the place of the status among them; events of other
/// entities, and other statuses, change nothing.
pub proof fn permission_is_told(
    v: ForwarderView,
    entity: i32,
    status: u8,
    rest: Seq<u8>,
    ids: PacketIds,
)
    requires
        v.protocol == ConnectionProtocol::Play,
        ids.entity_event != ids.play_login,
    ensures
        ({
            let w = after_backend(
                v,
                RawPacketView {
                    id: ids.entity_event,
                    payload: big_endian(as_unsigned(entity), 4) + seq![status] + rest,
                },
                ids,
            );
            if v.entity_id == Some(entity) && 24 <= status <= 28 {
                w == (ForwarderView { permission_level: (status - 24) as u8, ..v })
            } else {
                w == v
            }
        }),
{
    let four = big_endian(as_unsigned(entity), 4);
    crate::codec::big_endian_is_read_back(as_unsigned(entity), 4);
    assert(crate::codec::byte_bound(4) == 0x1_0000_0000) by {
        reveal_with_fuel(crate::codec::byte_bound, 5);
    }
    let payload = four + seq![status] + rest;
    assert(payload.take(4) =~= four);
    assert(payload[4] == status);
}

/// Nothing is learnt from a packet of the backend before play, from one with another number than
/// the play login or the entity event, or from one that is too short.
pub proof fn nothing_else_is_learnt(v: ForwarderView, packet: RawPacketView, ids: PacketIds)
    requires
        v.protocol != ConnectionProtocol::Play || packet.payload.len() < 4 || (packet.id
            != ids.play_login && packet.id != ids.entity_event),
    ensures
        after_backend(v, packet, ids) == v,
{
}

/// What ends a connection, and how: a failed backend with an error that ends in its reason, a
/// failed client, or the end of everything, without one. A message to all players is shown as it
/// is, but need not arrive.
pub proof fn ends_of_a_connection(
    v: ForwarderView,
    text: Seq<char>,
    ids: PacketIds,
    listing: Listing,
    p: ProxyView,
    public_address: Seq<char>,
    bind_port: u16,
)
    requires
        !v.draining,
    ensures
        run_step(
            v,
            EventView::Backend(Err(text)),
            ids,
            listing,
            p,
            public_address,
            bind_port,
        ) matches ForwardView::End { error: Some(said) } && text.is_suffix_of(said) && said
            == "Backend read failed: "@ + text,
        run_step(v, EventView::Client(Err(text)), ids, listing, p, public_address, bind_port) == (
        ForwardView::End { error: None }),
        run_step(v, EventView::AllClosed, ids, listing, p, public_address, bind_port) == (
        ForwardView::End { error: None }),
        run_step(
            v,
            EventView::Broadcast(Some(text)),
            ids,
            listing,
            p,
            public_address,
            bind_port,
        ) == (ForwardView::Say { text, must_arrive: false }),
        run_step(v, EventView::Broadcast(None), ids, listing, p, public_address, bind_port)
            is Nothing,
        run_step(v, EventView::TimedOut, ids, listing, p, public_address, bind_port) is Nothing,
{
    crate::laws::lifecycle::lemma_ends_with("Backend read failed: "@, text);
}

/// Once the client was told to go, the connection ends when the client does or when its two seconds
/// are over, and never with an error; until then only packets of the backend are passed on, which need
/// not arrive, and nothing is said, started or learnt.
pub proof fn waiting_for_the_client_to_go(
    v: ForwarderView,
    event: EventView,
    ids: PacketIds,
    listing: Listing,
    p: ProxyView,
    public_address: Seq<char>,
    bind_port: u16,
)
    requires
        v.draining,
    ensures
        ({
            let step = run_step(v, event, ids, listing, p, public_address, bind_port);
            let ends = event is TimedOut || (event matches EventView::Client(r) && r is Err);
            let passes = event matches EventView::Backend(r) && r is Ok;
            &&& step is End <==> ends
            &&& step matches ForwardView::End { error } ==> error is None
            &&& step is ToClient <==> passes
            &&& step matches ForwardView::ToClient { must_arrive, .. } ==> !must_arrive
            &&& step is Nothing <==> !ends && !passes
            &&& after_event(v, event, ids, p.backends) == v
            &&& client_packet(v, event) is None
        }),
        DRAIN_SECS == 2,
{
}

/// Only packets teach the proxy anything: whatever else happens on a connection leaves all that is
/// known of it as it was.
pub proof fn only_packets_are_learnt_from(
    v: ForwarderView,
    event: EventView,
    ids: PacketIds,
    backends: RegistryView,
)
    requires
        event matches EventView::Backend(r) ==> r is Err,
        event matches EventView::Client(r) ==> r is Err,
    ensures
        after_event(v, event, ids, backends) == v,
        client_packet(v, event) is None,
{
}

/// The commands that players are offered end where the proxy understands them: `server` alone or
/// with one word, `start` and `status` with a number, of any sign and size.
pub proof fn offered_commands_have_their_arguments(i: int)
    requires
        0 <= i < proxy_commands().len(),
    ensures
        proxy_commands().len() == 7,
        proxy_commands()[0].kind is Root && !proxy_commands()[0].executable,
        proxy_commands()[0].children == seq![1i32, 3, 5],
        proxy_commands()[1].children == seq![2i32],
        proxy_commands()[3].children == seq![4i32],
        proxy_commands()[5].children == seq![6i32],
        ({
            let node = proxy_commands()[i];
            &&& node.kind is Argument <==> i != 0 && i % 2 == 0
            &&& node.kind is Argument <==> node.children.len() == 0
            &&& node.executable <==> node.kind is Argument || i == 1
            &&& node.kind matches NodeKindView::Argument { name, parser } ==> if i == 2 {
                name == "server_name"@ && parser == (ArgumentType::String {
                    behavior: ArgumentStringTypeBehavior::SingleWord,
                })
            } else {
                name == "pr_number"@ && parser == (ArgumentType::Integer { min: None, max: None })
            }
            &&& node.kind matches NodeKindView::Literal { name } ==> name == (if i == 1 {
                "server"@
            } else if i == 3 {
                "start"@
            } else {
                "status"@
            })
        }),
{
    assert(proxy_commands()[0].children =~= seq![1i32, 3, 5]);
    assert(proxy_commands()[1].children =~= seq![2i32]);
    assert(proxy_commands()[3].children =~= seq![4i32]);
    assert(proxy_commands()[5].children =~= seq![6i32]);
}

/// A packet that is read is dealt with as its own side's packets are, as long as the client was not
/// told to go; from then on, what the backend sends still reaches the client unchanged, if it can,
/// and what the client sends is dropped.
pub proof fn packets_are_dealt_with_by_side(
    v: ForwarderView,
    packet: RawPacketView,
    ids: PacketIds,
    listing: Listing,
    p: ProxyView,
    public_address: Seq<char>,
    bind_port: u16,
)
    ensures
        !v.draining ==> {
            &&& run_step(
                v,
                EventView::Backend(Ok(packet)),
                ids,
                listing,
                p,
                public_address,
                bind_port,
            ) == backend_step(v, packet, ids)
            &&& run_step(
                v,
                EventView::Client(Ok(packet)),
                ids,
                listing,
                p,
                public_address,
                bind_port,
            ) == client_step(v, packet, ids, listing, p, public_address, bind_port)
            &&& client_packet(v, EventView::Client(Ok(packet))) == Some(packet)
            &&& after_event(v, EventView::Backend(Ok(packet)), ids, p.backends) == after_backend(
                v,
                packet,
                ids,
            )
            &&& after_event(v, EventView::Client(Ok(packet)), ids, p.backends) == after_client(
                v,
                packet,
                ids,
                p.backends,
            )
        },
        v.draining ==> {
            &&& run_step(
                v,
                EventView::Backend(Ok(packet)),
                ids,
                listing,
                p,
                public_address,
                bind_port,
            ) matches ForwardView::ToClient { bytes, must_arrive }
            &&& !must_arrive
            &&& packet_in(bytes) == Ok::<RawPacketView, VarIntError>(packet)
            &&& run_step(
                v,
                EventView::Client(Ok(packet)),
                ids,
                listing,
                p,
                public_address,
                bind_port,
            ) is Nothing
            &&& client_packet(v, EventView::Client(Ok(packet))) is None
        },
        client_packet(v, EventView::Backend(Ok(packet))) is None,
        client_packet(v, EventView::TimedOut) is None,
        client_packet(v, EventView::AllClosed) is None,
{
    crate::packets::packet_is_read_back(packet);
}

/// What a player asks for is done: a server that is there is reached through the proxy's own
/// address, one that is not is named back; a number starts its PR or tells its status, and anything
/// else than a number is answered with how to write the command.
pub proof fn commands_do_what_they_say(
    text: Seq<char>,
    listing: Listing,
    current: Seq<char>,
    p: ProxyView,
    public_address: Seq<char>,
    bind_port: u16,
)
    ensures
        ({
            let step = command_step(
                CommandView::Switch { server: text },
                listing,
                current,
                p,
                public_address,
                bind_port,
            );
            if p.backends.has(text) {
                step matches ForwardView::Transfer { host, port } && host == public_address && port
                    == bind_port
            } else {
                step matches ForwardView::Say { text: said, must_arrive } && must_arrive
                    && text.is_suffix_of(said)
            }
        }),
        ({
            let step = command_step(
                CommandView::Start { pr_arg: text },
                listing,
                current,
                p,
                public_address,
                bind_port,
            );
            match parsed_u32(text) {
                Some(n) => step matches ForwardView::StartPr { pr_number } && pr_number == n,
                None => step == (ForwardView::Say {
                    text: "§cUsage: /start <pr_number>"@,
                    must_arrive: true,
                }),
            }
        }),
        ({
            let step = command_step(
                CommandView::Status { pr_arg: text },
                listing,
                current,
                p,
                public_address,
                bind_port,
            );
            match parsed_u32(text) {
                Some(n) => step == (ForwardView::Say {
                    text: status_message(p.instances, p.backends, n),
                    must_arrive: true,
                }),
                None => step == (ForwardView::Say {
                    text: "§cUsage: /status <pr_number>"@,
                    must_arrive: true,
                }),
            }
        }),
        command_step(CommandView::List, listing, current, p, public_address, bind_port) == (
        ForwardView::Say { text: server_list(listing, current), must_arrive: true }),
{
    crate::laws::lifecycle::lemma_ends_with("Unknown server: "@, text);
}

/// A line of the list of servers begins with the name; the server that the player is on is marked
/// behind everything else, and no other is; a description stands between the two, and one without
/// characters counts as none.
pub proof fn lines_of_the_list(
    name: Seq<char>,
    b: BackendServerView,
    desc: Seq<char>,
    elsewhere: Seq<char>,
)
    requires
        elsewhere != name,
    ensures
        server_line((name, b), name) == server_line((name, b), elsewhere) + " (current)"@,
        server_line((name, BackendServerView { description: None, ..b }), elsewhere) == "\n  - "@
            + name,
        server_line((name, BackendServerView { description: Some(Seq::empty()), ..b }), elsewhere)
            == "\n  - "@ + name,
        desc.len() > 0 ==> server_line(
            (name, BackendServerView { description: Some(desc), ..b }),
            elsewhere,
        ) == "\n  - "@ + name + ": "@ + desc,
{
    reveal_strlit("");
    let e = (name, b);
    assert(server_line(e, name) =~= server_line(e, elsewhere) + " (current)"@);
    assert(server_line((name, BackendServerView { description: None, ..b }), elsewhere)
        =~= "\n  - "@ + name);
    assert(server_line(
        (name, BackendServerView { description: Some(Seq::empty()), ..b }),
        elsewhere,
    ) =~= "\n  - "@ + name);
    if desc.len() > 0 {
        assert(server_line((name, BackendServerView { description: Some(desc), ..b }), elsewhere)
            =~= "\n  - "@ + name + ": "@ + desc);
    }
}

/// The list of servers is its heading and then the line of each server in turn, with nothing in
/// between.
pub proof fn list_is_made_of_lines(row: Listing, more: Listing, current: Seq<char>)
    ensures
        server_list(Listing::empty(), current) == "Available servers:"@,
        server_list(row + more, current).len() == server_list(row, current).len() + server_list(
            more,
            current,
        ).len() - "Available servers:"@.len(),
        server_list(row, current).is_prefix_of(server_list(row + more, current)),
    decreases more.len(),
{
    if more.len() == 0 {
        assert(row + more =~= row);
        assert(server_list(row, current).take(server_list(row, current).len() as int)
            =~= server_list(row, current));
    } else {
        list_is_made_of_lines(row, more.drop_last(), current);
        assert((row + more).drop_last() =~= row + more.drop_last());
        let shorter = server_list(row + more.drop_last(), current);
        let whole = server_list(row + more, current);
        let n = server_list(row, current).len() as int;
        assert(whole =~= shorter + crate::proxy::packet_forwarder::server_line(
            more.last(),
            current,
        ));
        assert(whole.subrange(0, n) =~= shorter.subrange(0, n));
    }
}

/// A kind of state.
pub open spec fn kind_of(state: InstanceStateView) -> nat {
    match state {
        InstanceStateView::Building { .. } => 0,
        InstanceStateView::Deploying { .. } => 1,
        InstanceStateView::Starting { .. } => 2,
        InstanceStateView::Ready { .. } => 3,
        InstanceStateView::ShuttingDown { .. } => 4,
        InstanceStateView::Failed { .. } => 5,
    }
}

/// The answer to a question for the status of a PR hangs on the kind of state of its instance alone,
/// but for the reason of one that failed; instances in different kinds of state never get the same
/// answer; and only a ready instance is called ready.
pub proof fn status_tells_the_kind_of_state(
    pr_number: u32,
    a: InstanceStateView,
    b: InstanceStateView,
)
    ensures
        kind_of(a) == kind_of(b) && !(a is Failed) ==> state_message(pr_number, a)
            == state_message(pr_number, b),
        kind_of(a) != kind_of(b) ==> state_message(pr_number, a) != state_message(pr_number, b),
        a is Building ==> state_message(pr_number, a) == "§e[Status] PR #"@ + decimal(
            pr_number as nat,
        ) + " is building..."@,
        a is Ready <==> "§a"@.is_prefix_of(state_message(pr_number, a)),
        a is Ready ==> exists|lead: Seq<char>, tail: Seq<char>|
            state_message(pr_number, a) == #[trigger] ((lead + ("/server "@ + backend_name(
                pr_number,
            ))) + tail),
        a matches InstanceStateView::Failed { reason } ==> reason.is_suffix_of(
            state_message(pr_number, a),
        ),
        crate::laws::lifecycle::names_pr(state_message(pr_number, a), pr_number),
{
    let n = decimal(pr_number as nat);
    lemma_status_start(pr_number, a);
    lemma_status_start(pr_number, b);
    if a is Ready {
        reveal_strlit(" is ready! Use §e/server pr-");
        reveal_strlit(" is ready! Use §e");
        reveal_strlit("/server ");
        reveal_strlit("pr-");
        let lead = "§a[Status] PR #"@ + n + " is ready! Use §e"@;
        assert(" is ready! Use §e/server pr-"@ =~= " is ready! Use §e"@ + "/server "@ + "pr-"@);
        assert(state_message(pr_number, a) =~= (lead + ("/server "@ + backend_name(pr_number)))
            + "§a to connect."@);
    }
    if let InstanceStateView::Failed { reason } = a {
        crate::laws::lifecycle::lemma_ends_with(
            "§c[Status] PR #"@ + n + " failed: "@,
            reason,
        );
    }
}

/// The colour in front of the answer, and the first letters behind the number.
spec fn status_signs(state: InstanceStateView) -> (char, Seq<char>) {
    match state {
        InstanceStateView::Building { .. } => ('e', seq!['i', 's', ' ', 'b']),
        InstanceStateView::Deploying { .. } => ('e', seq!['i', 's', ' ', 'd']),
        InstanceStateView::Starting { .. } => ('e', seq!['i', 's', ' ', 's']),
        InstanceStateView::Ready { .. } => ('a', seq!['i', 's', ' ', 'r']),
        InstanceStateView::ShuttingDown { .. } => ('c', seq!['i', 's', ' ', 's']),
        InstanceStateView::Failed { .. } => ('c', seq!['f', 'a', 'i', 'l']),
    }
}

proof fn lemma_status_start(pr_number: u32, state: InstanceStateView)
    ensures
        ({
            let text = state_message(pr_number, state);
            let at = 16 + decimal(pr_number as nat).len() as int;
            &&& text.len() >= at + 4
            &&& text[1] == status_signs(state).0
            &&& text.subrange(at, at + 4) == status_signs(state).1
            &&& state is Ready <==> "§a"@.is_prefix_of(text)
            &&& crate::laws::lifecycle::names_pr(text, pr_number)
        }),
{
    let n = decimal(pr_number as nat);
    let text = state_message(pr_number, state);
    let at = 16 + n.len() as int;
    reveal_strlit("§a");
    reveal_strlit("PR #");
    reveal_strlit("§e[Status] PR #");
    reveal_strlit("§a[Status] PR #");
    reveal_strlit("§c[Status] PR #");
    reveal_strlit(" is building...");
    reveal_strlit(" is deploying...");
    reveal_strlit(" is starting...");
    reveal_strlit(" is ready! Use §e/server pr-");
    reveal_strlit(" is shutting down...");
    reveal_strlit(" failed: ");
    assert("PR #"@ =~= "§e[Status] PR #"@.subrange(11, 15));
    assert("PR #"@ =~= "§a[Status] PR #"@.subrange(11, 15));
    assert("PR #"@ =~= "§c[Status] PR #"@.subrange(11, 15));
    match state {
        InstanceStateView::Building { .. } => {
            crate::laws::lifecycle::lemma_names_pr(
                "§e[Status] PR #"@,
                pr_number,
                " is building..."@,
            );
        },
        InstanceStateView::Deploying { .. } => {
            crate::laws::lifecycle::lemma_names_pr(
                "§e[Status] PR #"@,
                pr_number,
                " is deploying..."@,
            );
        },
        InstanceStateView::Starting { .. } => {
            crate::laws::lifecycle::lemma_names_pr(
                "§e[Status] PR #"@,
                pr_number,
                " is starting..."@,
            );
        },
        InstanceStateView::Ready { .. } => {
            let tail = " is ready! Use §e/server pr-"@ + n + "§a to connect."@;
            assert(tail[0] == ' ');
            crate::laws::lifecycle::lemma_names_pr("§a[Status] PR #"@, pr_number, tail);
            assert(text =~= "§a[Status] PR #"@ + n + tail);
        },
        InstanceStateView::ShuttingDown { .. } => {
            crate::laws::lifecycle::lemma_names_pr(
                "§c[Status] PR #"@,
                pr_number,
                " is shutting down..."@,
            );
        },
        InstanceStateView::Failed { reason } => {
            let tail = " failed: "@ + reason;
            assert(tail[0] == ' ');
            crate::laws::lifecycle::lemma_names_pr("§c[Status] PR #"@, pr_number, tail);
            assert(text =~= "§c[Status] PR #"@ + n + tail);
        },
    }
    assert(text.subrange(at, at + 4) =~= status_signs(state).1);
    if state is Ready {
        assert("§a"@ =~= text.subrange(0, 2));
    } else {
        assert(text[1] != 'a');
        if "§a"@.is_prefix_of(text) {
            assert("§a"@[1] == text.subrange(0, 2)[1]);
        }
    }
}

/// The status of a PR is that of its instance, where it has one, whatever backends there are; else
/// it runs exactly where a backend has its name; and without Kubernetes nothing is known of any PR.
pub proof fn status_of_a_pr(
    m: Instances,
    r: RegistryView,
    s: RegistryView,
    pr_number: u32,
    other: u32,
    instance: PrInstanceView,
)
    ensures
        status_message(Some(m.insert(pr_number, instance)), r, pr_number) == state_message(
            pr_number,
            instance.state,
        ),
        other != pr_number ==> status_message(Some(m.insert(other, instance)), r, pr_number)
            == status_message(Some(m), r, pr_number),
        !m.contains_key(pr_number) && r.has(backend_name(pr_number)) ==> status_message(
            Some(m),
            r,
            pr_number,
        ) == "§a[Status] PR #"@ + decimal(pr_number as nat) + " is running. Use §e/server pr-"@
            + decimal(pr_number as nat) + "§a to connect."@,
        !m.contains_key(pr_number) && !r.has(backend_name(pr_number)) ==> status_message(
            Some(m),
            r,
            pr_number,
        ) == "§7[Status] PR #"@ + decimal(pr_number as nat) + " is not running. Use §e/start "@
            + decimal(pr_number as nat) + "§7 to start it."@,
        status_message(None, r, pr_number) == status_message(None, s, other),
        status_message(None, r, pr_number) == "§cKubernetes not configured"@,
{
}

/// A command without white space round its argument is what it is with it.
pub proof fn white_space_round_arguments(a: Seq<char>, b: Seq<char>)
    requires
        trimmed(a) == trimmed(b),
    ensures
        proxy_command("server "@ + a) == proxy_command("server "@ + b),
        proxy_command("start "@ + a) == proxy_command("start "@ + b),
        proxy_command("status "@ + a) == proxy_command("status "@ + b),
{
    crate::proxy::packet_forwarder::offered_commands_are_understood(a);
    crate::proxy::packet_forwarder::offered_commands_are_understood(b);
}

} // verus!
