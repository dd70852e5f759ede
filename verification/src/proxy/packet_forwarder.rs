//! Packets between a player and the server that the player is on.
use crate::backends::Listing;
use crate::codec::{
    as_signed, from_big_endian, int_at, read_text, text_at, text_field, TextError,
    VarIntError,
};
use crate::config::BackendServerView;
use crate::k8s::instance::{backend_name, backend_name_of, InstanceState, InstanceStateView};
use crate::k8s::lifecycle::{offered_when_ready, ready_ones_are_offered};
use crate::k8s::Instances;
use crate::packets::{
    build_commands, compression_from, compression_of, literal, nodes_view, packet_bytes, packet_in,
    proxy_commands, CCommands, CTransfer, CommandNodeView, CompressionInfo, ConnectionProtocol,
    PacketIds, RawPacket, RawPacketView,
};
use crate::proxy::backend_connector::{BackendConnector, BackendLogin, ConnectorView};
use crate::proxy::client_handler::{
    kept_wishes, login_route, wish_is_met_once, HandlerStepView, Wish,
};
use crate::proxy::registry::{BackendRegistry, RegistryView};
use crate::proxy::{target_of, ProxyServer, ProxyView, RouteError};
use crate::text::{
    decimal, is_digit, is_white_space, numbered_with, parse_u32, parsed_u32, push_decimal,
    same_text, strip_prefix, trim, trimmed,
};
use vstd::prelude::*;
use vstd::utf8::encode_utf8;

verus! {

/// A command of the proxy.
#[derive(Debug)]
pub enum ProxyCommand {
    /// List the servers.
    List,
    /// Go to this server.
    Switch { server: String },
    /// Start the PR of this number.
    Start { pr_arg: String },
    /// Tell how the PR of this number is doing.
    Status { pr_arg: String },
}

/// The values in a [`ProxyCommand`].
pub enum CommandView {
    List,
    Switch { server: Seq<char> },
    Start { pr_arg: Seq<char> },
    Status { pr_arg: Seq<char> },
}

impl View for ProxyCommand {
    type V = CommandView;

    open spec fn view(&self) -> CommandView {
        match self {
            ProxyCommand::List => CommandView::List,
            ProxyCommand::Switch { server } => CommandView::Switch { server: server@ },
            ProxyCommand::Start { pr_arg } => CommandView::Start { pr_arg: pr_arg@ },
            ProxyCommand::Status { pr_arg } => CommandView::Status { pr_arg: pr_arg@ },
        }
    }
}

/// What follows `word` in `text`, without white space round it.
pub open spec fn argument(text: Seq<char>, word: Seq<char>) -> Seq<char> {
    trimmed(text.skip(word.len() as int))
}

/// The command of the proxy that a text is, if it is one: `server` alone, or `server `, `start `
/// or `status ` with an argument.
pub open spec fn proxy_command(text: Seq<char>) -> Option<CommandView> {
    if text == "server"@ {
        Some(CommandView::List)
    } else if "server "@.is_prefix_of(text) {
        Some(CommandView::Switch { server: argument(text, "server "@) })
    } else if "start "@.is_prefix_of(text) {
        Some(CommandView::Start { pr_arg: argument(text, "start "@) })
    } else if "status "@.is_prefix_of(text) {
        Some(CommandView::Status { pr_arg: argument(text, "status "@) })
    } else {
        None
    }
}

/// The argument behind `word`, where the text begins with it.
fn argument_of(text: &str, word: &str) -> (r: Option<String>)
    ensures
        match r {
            Some(a) => word@.is_prefix_of(text@) && a@ == argument(text@, word@),
            None => !word@.is_prefix_of(text@),
        },
{
    match strip_prefix(text, word) {
        Some(rest) => {
            assert(text@.skip(word@.len() as int) =~= rest@);
            assert(text@.take(word@.len() as int) =~= word@);
            Some(trim(rest).to_owned())
        },
        None => None,
    }
}

impl ProxyCommand {
    /// The command of the proxy that a text is, if it is one.
    pub fn of(text: &str) -> (r: Option<ProxyCommand>)
        ensures
            match r {
                Some(c) => proxy_command(text@) == Some(c@),
                None => proxy_command(text@) is None,
            },
    {
        if same_text(text, "server") {
            return Some(ProxyCommand::List);
        }
        match argument_of(text, "server ") {
            Some(server) => return Some(ProxyCommand::Switch { server }),
            None => {},
        }
        match argument_of(text, "start ") {
            Some(pr_arg) => return Some(ProxyCommand::Start { pr_arg }),
            None => {},
        }
        match argument_of(text, "status ") {
            Some(pr_arg) => Some(ProxyCommand::Status { pr_arg }),
            None => None,
        }
    }
}

/// Whether the packet holds a command of a player.
pub open spec fn holds_command(
    protocol: ConnectionProtocol,
    packet: RawPacketView,
    ids: PacketIds,
) -> bool {
    &&& protocol == ConnectionProtocol::Play
    &&& packet.id == ids.chat_command || packet.id == ids.chat_command_signed
}

/// The command of the proxy in a packet, if there is one.
pub open spec fn command_in(
    protocol: ConnectionProtocol,
    packet: RawPacketView,
    ids: PacketIds,
) -> Option<CommandView> {
    if holds_command(protocol, packet, ids) {
        match text_at(packet.payload) {
            Ok(text) => proxy_command(text),
            Err(_) => None,
        }
    } else {
        None
    }
}

/// A line of the list of servers.
pub open spec fn server_line(e: (Seq<char>, BackendServerView), current: Seq<char>) -> Seq<char> {
    let mark = if e.0 == current {
        " (current)"@
    } else {
        ""@
    };
    let named = "\n  - "@ + e.0;
    match e.1.description {
        Some(desc) if desc.len() > 0 => named + ": "@ + desc + mark,
        _ => named + mark,
    }
}

/// The list of servers.
pub open spec fn server_list(row: Listing, current: Seq<char>) -> Seq<char>
    decreases row.len(),
{
    if row.len() == 0 {
        "Available servers:"@
    } else {
        server_list(row.drop_last(), current) + server_line(row.last(), current)
    }
}

/// The message on an instance in that state.
pub open spec fn state_message(pr_number: u32, state: InstanceStateView) -> Seq<char> {
    let n = decimal(pr_number as nat);
    match state {
        InstanceStateView::Building { .. } => "§e[Status] PR #"@ + n + " is building..."@,
        InstanceStateView::Deploying { .. } => "§e[Status] PR #"@ + n + " is deploying..."@,
        InstanceStateView::Starting { .. } => "§e[Status] PR #"@ + n + " is starting..."@,
        InstanceStateView::Ready { .. } => "§a[Status] PR #"@ + n + " is ready! Use §e/server pr-"@
            + n + "§a to connect."@,
        InstanceStateView::ShuttingDown { .. } => "§c[Status] PR #"@ + n + " is shutting down..."@,
        InstanceStateView::Failed { reason } => "§c[Status] PR #"@ + n + " failed: "@ + reason,
    }
}

/// The answer to a question for the status of a PR: the state of its instance, else whether a
/// backend has its name.
pub open spec fn status_message(
    instances: Option<Instances>,
    backends: RegistryView,
    pr_number: u32,
) -> Seq<char> {
    let n = decimal(pr_number as nat);
    match instances {
        None => "§cKubernetes not configured"@,
        Some(m) => if m.contains_key(pr_number) {
            state_message(pr_number, m[pr_number].state)
        } else if backends.has(backend_name(pr_number)) {
            "§a[Status] PR #"@ + n + " is running. Use §e/server pr-"@ + n + "§a to connect."@
        } else {
            "§7[Status] PR #"@ + n + " is not running. Use §e/start "@ + n + "§7 to start it."@
        },
    }
}

/// `lead`, the number, `middle`, the number again and `tail`.
fn numbered_twice(lead: &str, pr_number: u32, middle: &str, tail: &str) -> (r: String)
    ensures
        r@ == lead@ + decimal(pr_number as nat) + middle@ + decimal(pr_number as nat) + tail@,
{
    let mut s = numbered_with(lead, pr_number, middle);
    push_decimal(&mut s, pr_number as u64);
    s.append(tail);
    s
}

fn state_message_of(pr_number: u32, state: &InstanceState) -> (r: String)
    ensures
        r@ == state_message(pr_number, state@),
{
    match state {
        InstanceState::Building { .. } => numbered_with(
            "§e[Status] PR #",
            pr_number,
            " is building...",
        ),
        InstanceState::Deploying { .. } => numbered_with(
            "§e[Status] PR #",
            pr_number,
            " is deploying...",
        ),
        InstanceState::Starting { .. } => numbered_with(
            "§e[Status] PR #",
            pr_number,
            " is starting...",
        ),
        InstanceState::Ready { .. } => numbered_twice(
            "§a[Status] PR #",
            pr_number,
            " is ready! Use §e/server pr-",
            "§a to connect.",
        ),
        InstanceState::ShuttingDown { .. } => numbered_with(
            "§c[Status] PR #",
            pr_number,
            " is shutting down...",
        ),
        InstanceState::Failed { reason } => {
            let mut s = numbered_with("§c[Status] PR #", pr_number, " failed: ");
            s.append(reason.as_str());
            s
        },
    }
}

/// Seconds that a client has to disconnect after it was told to go to another server.
pub const DRAIN_SECS: u64 = 2;

/// The status of an entity event that takes permissions away; the four above it give them.
pub const PERMISSION_STATUS: u8 = 24;

/// The highest permission level.
pub const MAX_PERMISSION: u8 = 4;

/// A player and the server that the player is on.
#[derive(Debug)]
pub struct PacketForwarder {
    client_id: u64,
    player_uuid: u128,
    current_backend: String,
    current_protocol: ConnectionProtocol,
    backend_compression_threshold: Option<u32>,
    /// Player's permission level (0-4, where 2+ is typically OP)
    permission_level: u8,
    /// Player's entity ID (needed to identify Entity Event packets for this player)
    entity_id: Option<i32>,
    /// Whether the client was told to go to another server
    draining: bool,
}

/// What is known of a player and the server that the player is on.
#[verifier::ext_equal]
pub struct ForwarderView {
    pub client_id: u64,
    pub player_uuid: u128,
    pub current_backend: Seq<char>,
    pub protocol: ConnectionProtocol,
    pub threshold: Option<u32>,
    pub permission_level: u8,
    pub entity_id: Option<i32>,
    pub draining: bool,
}

impl View for PacketForwarder {
    type V = ForwarderView;

    closed spec fn view(&self) -> ForwarderView {
        ForwarderView {
            client_id: self.client_id,
            player_uuid: self.player_uuid,
            current_backend: self.current_backend@,
            protocol: self.current_protocol,
            threshold: self.backend_compression_threshold,
            permission_level: self.permission_level,
            entity_id: self.entity_id,
            draining: self.draining,
        }
    }
}

/// What is to be done for a player.
#[derive(Debug)]
pub enum ForwardStep {
    /// Nothing.
    Nothing,
    /// Send these bytes to the backend with this compression; where that fails, end with an error.
    ToBackend { bytes: Vec<u8>, compression: Option<CompressionInfo> },
    /// Send these bytes to the client uncompressed; where that fails, end with an error if they
    /// must arrive, and go on if not.
    ToClient { bytes: Vec<u8>, must_arrive: bool },
    /// Send the proxy's own commands to the client; where that fails, end with an error.
    SendCommands { commands: CCommands },
    /// Show this message to the player; where that fails, end with an error if it must arrive, and
    /// go on if not.
    Say { text: String, must_arrive: bool },
    /// Send this packet to the client; where that fails, end with an error, else give the client
    /// some seconds to disconnect.
    Transfer { packet: CTransfer },
    /// Start this PR, and show the player what [`start_answer`] says.
    StartPr { pr_number: u32 },
    /// End the connection, with this error if there is one.
    End { error: Option<String> },
}

/// The values in a [`ForwardStep`].
pub enum ForwardView {
    Nothing,
    ToBackend { bytes: Seq<u8>, compression: Option<CompressionInfo> },
    ToClient { bytes: Seq<u8>, must_arrive: bool },
    SendCommands { nodes: Seq<CommandNodeView>, root_index: i32 },
    Say { text: Seq<char>, must_arrive: bool },
    Transfer { host: Seq<char>, port: i32 },
    StartPr { pr_number: u32 },
    End { error: Option<Seq<char>> },
}

impl View for ForwardStep {
    type V = ForwardView;

    open spec fn view(&self) -> ForwardView {
        match self {
            ForwardStep::Nothing => ForwardView::Nothing,
            ForwardStep::ToBackend { bytes, compression } => ForwardView::ToBackend {
                bytes: bytes@,
                compression: *compression,
            },
            ForwardStep::ToClient { bytes, must_arrive } => ForwardView::ToClient {
                bytes: bytes@,
                must_arrive: *must_arrive,
            },
            ForwardStep::SendCommands { commands } => ForwardView::SendCommands {
                nodes: nodes_view(commands.nodes@),
                root_index: commands.root_index,
            },
            ForwardStep::Say { text, must_arrive } => ForwardView::Say {
                text: text@,
                must_arrive: *must_arrive,
            },
            ForwardStep::Transfer { packet } => ForwardView::Transfer {
                host: packet.host@,
                port: packet.port,
            },
            ForwardStep::StartPr { pr_number } => ForwardView::StartPr { pr_number: *pr_number },
            ForwardStep::End { error } => ForwardView::End {
                error: crate::config::optional_text(*error),
            },
        }
    }
}

/// A message that must arrive.
pub open spec fn says(text: Seq<char>) -> ForwardView {
    ForwardView::Say { text, must_arrive: true }
}

/// What a command of the proxy comes to.
pub open spec fn command_step(
    command: CommandView,
    listing: Listing,
    current: Seq<char>,
    p: ProxyView,
    public_address: Seq<char>,
    bind_port: u16,
) -> ForwardView {
    match command {
        CommandView::List => says(server_list(listing, current)),
        CommandView::Switch { server } => if p.backends.has(server) {
            ForwardView::Transfer { host: public_address, port: bind_port as i32 }
        } else {
            says("Unknown server: "@ + server)
        },
        CommandView::Start { pr_arg } => match parsed_u32(pr_arg) {
            Some(pr_number) => ForwardView::StartPr { pr_number },
            None => says("§cUsage: /start <pr_number>"@),
        },
        CommandView::Status { pr_arg } => match parsed_u32(pr_arg) {
            Some(pr_number) => says(status_message(p.instances, p.backends, pr_number)),
            None => says("§cUsage: /status <pr_number>"@),
        },
    }
}

/// Whether the command makes the player go to another server.
pub open spec fn switches_server(command: Option<CommandView>, backends: RegistryView) -> bool {
    command matches Some(CommandView::Switch { server }) && backends.has(server)
}

/// What a packet of the client comes to: a command of the proxy is obeyed, and any other packet
/// goes to the backend as it is.
pub open spec fn client_step(
    v: ForwarderView,
    packet: RawPacketView,
    ids: PacketIds,
    listing: Listing,
    p: ProxyView,
    public_address: Seq<char>,
    bind_port: u16,
) -> ForwardView {
    match command_in(v.protocol, packet, ids) {
        Some(command) => command_step(
            command,
            listing,
            v.current_backend,
            p,
            public_address,
            bind_port,
        ),
        None => ForwardView::ToBackend {
            bytes: packet_bytes(packet),
            compression: compression_from(v.threshold),
        },
    }
}

/// What is known after a packet of the client: the end of the configuration starts the play, and a
/// command to go to another server starts the wait for the client to disconnect.
pub open spec fn after_client(
    v: ForwarderView,
    packet: RawPacketView,
    ids: PacketIds,
    backends: RegistryView,
) -> ForwarderView {
    let command = command_in(v.protocol, packet, ids);
    if switches_server(command, backends) {
        ForwarderView { draining: true, ..v }
    } else if command is None && packet.id == ids.finish_configuration {
        ForwarderView { protocol: ConnectionProtocol::Play, ..v }
    } else {
        v
    }
}

/// What the proxy knows after a packet of the client: a command to go to another server is kept
/// for the next login.
pub open spec fn proxy_after_client(
    v: ForwarderView,
    packet: RawPacketView,
    ids: PacketIds,
    p: ProxyView,
) -> ProxyView {
    let command = command_in(v.protocol, packet, ids);
    if switches_server(command, p.backends) {
        ProxyView { switches: p.switches.insert(v.player_uuid, command->0->server), ..p }
    } else {
        p
    }
}

/// The entity in the first four bytes.
pub open spec fn entity_in(payload: Seq<u8>) -> i32 {
    as_signed(from_big_endian(payload.take(4)))
}

/// Whether the packet holds the commands of the backend, which the proxy's own replace.
pub open spec fn is_commands(v: ForwarderView, packet: RawPacketView, ids: PacketIds) -> bool {
    &&& v.protocol == ConnectionProtocol::Play
    &&& packet.id != ids.play_login
    &&& packet.id != ids.entity_event
    &&& packet.id == ids.commands
}

/// What is known after a packet of the backend: during play it may tell the entity of the player,
/// or the permission level of that entity.
pub open spec fn after_backend(
    v: ForwarderView,
    packet: RawPacketView,
    ids: PacketIds,
) -> ForwarderView {
    if v.protocol != ConnectionProtocol::Play {
        v
    } else if packet.id == ids.play_login {
        if packet.payload.len() >= 4 {
            ForwarderView { entity_id: Some(entity_in(packet.payload)), ..v }
        } else {
            v
        }
    } else if packet.id == ids.entity_event {
        if packet.payload.len() >= 5 && v.entity_id == Some(entity_in(packet.payload))
            && PERMISSION_STATUS <= packet.payload[4] <= PERMISSION_STATUS + MAX_PERMISSION {
            ForwarderView {
                permission_level: (packet.payload[4] - PERMISSION_STATUS) as u8,
                ..v
            }
        } else {
            v
        }
    } else {
        v
    }
}

/// What a packet of the backend comes to: it goes to the client as it is, but for the commands.
pub open spec fn backend_step(
    v: ForwarderView,
    packet: RawPacketView,
    ids: PacketIds,
) -> ForwardView {
    if is_commands(v, packet, ids) {
        ForwardView::SendCommands { nodes: proxy_commands(), root_index: 0 }
    } else {
        ForwardView::ToClient { bytes: packet_bytes(packet), must_arrive: true }
    }
}

fn read_entity(payload: &[u8]) -> (r: i32)
    requires
        payload@.len() >= 4,
    ensures
        r == entity_in(payload@),
{
    proof {
        reveal_with_fuel(from_big_endian, 5);
        let four = payload@.take(4);
        assert(four.drop_last() =~= payload@.take(3));
        assert(payload@.take(3).drop_last() =~= payload@.take(2));
        assert(payload@.take(2).drop_last() =~= payload@.take(1));
        assert(payload@.take(1).drop_last() =~= payload@.take(0));
    }
    let value: u32 = payload[0] as u32 * 0x100_0000 + payload[1] as u32 * 0x1_0000
        + payload[2] as u32 * 0x100 + payload[3] as u32;
    assert(value == from_big_endian(payload@.take(4)));
    if value < 0x8000_0000 {
        value as i32
    } else {
        ((value as i64) - 0x1_0000_0000) as i32
    }
}

impl PacketForwarder {
    #[verifier::type_invariant]
    spec fn level_in_range(&self) -> bool {
        self.permission_level <= MAX_PERMISSION
    }

    /// A player who was just connected to a server, and whose configuration begins.
    pub fn new(
        client_id: u64,
        player_uuid: u128,
        current_backend: String,
        backend_compression_threshold: Option<u32>,
    ) -> (r: Self)
        ensures
            r@ == (ForwarderView {
                client_id,
                player_uuid,
                current_backend: current_backend@,
                protocol: ConnectionProtocol::Config,
                threshold: backend_compression_threshold,
                permission_level: 0,
                entity_id: None,
                draining: false,
            }),
    {
        PacketForwarder {
            client_id,
            player_uuid,
            current_backend,
            current_protocol: ConnectionProtocol::Config,
            backend_compression_threshold,
            permission_level: 0,
            entity_id: None,
            draining: false,
        }
    }

    /// The player whom the connector brought to this server, with the compression that the login
    /// there ended with.
    pub fn after_login(
        client_id: u64,
        connector: &BackendConnector,
        login: &BackendLogin,
        current_backend: String,
    ) -> (r: Self)
        ensures
            r@ == (ForwarderView {
                client_id,
                player_uuid: connector@.uuid,
                current_backend: current_backend@,
                protocol: ConnectionProtocol::Config,
                threshold: login.threshold,
                permission_level: 0,
                entity_id: None,
                draining: false,
            }),
    {
        Self::new(client_id, connector.uuid(), current_backend, login.threshold)
    }

    /// The number of the client.
    pub fn client_id(&self) -> (r: u64)
        ensures
            r == self@.client_id,
    {
        self.client_id
    }

    /// The permission level of the player, which is at most the highest.
    pub fn permission_level(&self) -> (r: u8)
        ensures
            r == self@.permission_level,
            r <= MAX_PERMISSION,
    {
        proof {
            use_type_invariant(self);
        }
        self.permission_level
    }

    /// The entity of the player, once the backend has told it.
    pub fn entity_id(&self) -> (r: Option<i32>)
        ensures
            r == self@.entity_id,
    {
        self.entity_id
    }

    /// Whether the client was told to go to another server.
    pub fn is_draining(&self) -> (r: bool)
        ensures
            r == self@.draining,
    {
        self.draining
    }

    fn may_hold_command(&self, packet: &RawPacket, ids: &PacketIds) -> (r: bool)
        ensures
            r == holds_command(self@.protocol, packet@, *ids),
    {
        match self.current_protocol {
            ConnectionProtocol::Play => packet.id == ids.chat_command || packet.id
                == ids.chat_command_signed,
            _ => false,
        }
    }

    /// Reads the command at the start of a payload, without the slash in front.
    pub fn parse_command_from_payload(payload: &[u8]) -> (r: Result<String, TextError>)
        ensures
            match r {
                Ok(s) => text_at(payload@) == Ok::<Seq<char>, TextError>(s@),
                Err(e) => text_at(payload@) == Err::<Seq<char>, TextError>(e),
            },
    {
        read_text(payload)
    }

    /// What a packet of the client comes to: a command of the proxy is obeyed, and any other packet
    /// goes to the backend.
    pub fn handle_client_packet(
        &mut self,
        packet: &RawPacket,
        ids: &PacketIds,
        proxy_server: &mut ProxyServer,
    ) -> (r: ForwardStep)
        ensures
            r@ == client_step(
                old(self)@,
                packet@,
                *ids,
                old(proxy_server).registry().static_listing()
                    + old(proxy_server).registry().dynamic_listing(),
                old(proxy_server)@,
                old(proxy_server).settings().public_address@,
                old(proxy_server).settings().bind_port,
            ),
            final(self)@ == after_client(old(self)@, packet@, *ids, old(proxy_server)@.backends),
            final(proxy_server)@ == proxy_after_client(
                old(self)@,
                packet@,
                *ids,
                old(proxy_server)@,
            ),
            final(proxy_server).same_parts(old(proxy_server)),
    {
        proof {
            use_type_invariant(&*self);
        }
        if self.may_hold_command(packet, ids) {
            match Self::parse_command_from_payload(packet.payload.as_slice()) {
                Ok(text) => match ProxyCommand::of(text.as_str()) {
                    Some(command) => return self.obey(command, proxy_server),
                    None => {},
                },
                Err(_) => {},
            }
        }
        assert(command_in(self@.protocol, packet@, *ids) is None);
        if packet.id == ids.finish_configuration {
            self.current_protocol = ConnectionProtocol::Play;
        }
        self.forward_to_backend(packet)
    }

    fn obey(&mut self, command: ProxyCommand, proxy_server: &mut ProxyServer) -> (r: ForwardStep)
        ensures
            r@ == command_step(
                command@,
                old(proxy_server).registry().static_listing()
                    + old(proxy_server).registry().dynamic_listing(),
                old(self)@.current_backend,
                old(proxy_server)@,
                old(proxy_server).settings().public_address@,
                old(proxy_server).settings().bind_port,
            ),
            final(self)@ == (ForwarderView {
                draining: old(self)@.draining || switches_server(
                    Some(command@),
                    old(proxy_server)@.backends,
                ),
                ..old(self)@
            }),
            final(proxy_server)@ == (if switches_server(
                Some(command@),
                old(proxy_server)@.backends,
            ) {
                ProxyView {
                    switches: old(proxy_server)@.switches.insert(
                        old(self)@.player_uuid,
                        command@->server,
                    ),
                    ..old(proxy_server)@
                }
            } else {
                old(proxy_server)@
            }),
            final(proxy_server).same_parts(old(proxy_server)),
    {
        match command {
            ProxyCommand::List => self.list_servers(proxy_server.backends()),
            ProxyCommand::Switch { server } => self.switch_server(server, proxy_server),
            ProxyCommand::Start { pr_arg } => Self::handle_start_command(pr_arg.as_str()),
            ProxyCommand::Status { pr_arg } => Self::handle_status_command(
                pr_arg.as_str(),
                proxy_server,
            ),
        }
    }

    fn say(text: String) -> (r: ForwardStep)
        ensures
            r@ == says(text@),
    {
        ForwardStep::Say { text, must_arrive: true }
    }

    /// The list of all servers, with the one that the player is on marked.
    pub fn list_servers(&self, backends: &BackendRegistry) -> (r: ForwardStep)
        ensures
            r@ == says(
                server_list(
                    backends.static_listing() + backends.dynamic_listing(),
                    self@.current_backend,
                ),
            ),
    {
        let row = backends.iter();
        let ghost all = backends.static_listing() + backends.dynamic_listing();
        let mut message = "Available servers:".to_owned();
        let mut i: usize = 0;
        assert(all.take(0) =~= Listing::empty());
        while i < row.len()
            invariant
                i <= row@.len(),
                crate::proxy::registry::row_view(row@) == all,
                message@ == server_list(all.take(i as int), self@.current_backend),
            decreases row@.len() - i,
        {
            let (name, backend) = row[i];
            assert(all[i as int] == (name@, backend@));
            assert(all.take(i + 1).drop_last() =~= all.take(i as int));
            let ghost before = message@;
            message.append("\n  - ");
            message.append(name.as_str());
            match &backend.description {
                Some(desc) => {
                    if desc.as_str().unicode_len() > 0 {
                        message.append(": ");
                        message.append(desc.as_str());
                    }
                },
                None => {},
            }
            if same_text(name.as_str(), self.current_backend.as_str()) {
                message.append(" (current)");
            }
            proof {
                reveal_strlit("");
            }
            assert(message@ =~= before + server_line(all[i as int], self@.current_backend));
            i = i + 1;
        }
        assert(all.take(row@.len() as int) =~= all);
        Self::say(message)
    }

    /// Sends a player to another server, if there is such a server: the proxy keeps its name for
    /// the next login, and the client is told to connect to the proxy again.
    pub fn switch_server(&mut self, server_name: String, proxy_server: &mut ProxyServer) -> (r:
        ForwardStep)
        ensures
            old(proxy_server)@.backends.has(server_name@) ==> {
                &&& r@ == (ForwardView::Transfer {
                    host: old(proxy_server).settings().public_address@,
                    port: old(proxy_server).settings().bind_port as i32,
                })
                &&& final(self)@ == (ForwarderView { draining: true, ..old(self)@ })
                &&& final(proxy_server)@ == (ProxyView {
                    switches: old(proxy_server)@.switches.insert(
                        old(self)@.player_uuid,
                        server_name@,
                    ),
                    ..old(proxy_server)@
                })
            },
            !old(proxy_server)@.backends.has(server_name@) ==> {
                &&& r@ == says("Unknown server: "@ + server_name@)
                &&& final(self)@ == old(self)@
                &&& final(proxy_server)@ == old(proxy_server)@
            },
            final(proxy_server).same_parts(old(proxy_server)),
    {
        proof {
            use_type_invariant(&*self);
        }
        if !proxy_server.backends().contains(server_name.as_str()) {
            let mut message = "Unknown server: ".to_owned();
            message.append(server_name.as_str());
            return Self::say(message);
        }
        proxy_server.set_target_server(self.player_uuid, server_name);
        let config = proxy_server.config();
        let packet = CTransfer::new(config.public_address.clone(), config.bind_port as i32);
        self.draining = true;
        ForwardStep::Transfer { packet }
    }

    /// What the argument of a command to start a PR comes to.
    pub fn handle_start_command(pr_arg: &str) -> (r: ForwardStep)
        ensures
            r@ == (match parsed_u32(pr_arg@) {
                Some(pr_number) => ForwardView::StartPr { pr_number },
                None => says("§cUsage: /start <pr_number>"@),
            }),
    {
        match parse_u32(pr_arg) {
            Some(pr_number) => ForwardStep::StartPr { pr_number },
            None => Self::say("§cUsage: /start <pr_number>".to_owned()),
        }
    }

    /// What the argument of a question for the status of a PR comes to.
    pub fn handle_status_command(pr_arg: &str, proxy_server: &ProxyServer) -> (r: ForwardStep)
        ensures
            r@ == (match parsed_u32(pr_arg@) {
                Some(pr_number) => says(
                    status_message(
                        proxy_server@.instances,
                        proxy_server@.backends,
                        pr_number,
                    ),
                ),
                None => says("§cUsage: /status <pr_number>"@),
            }),
    {
        let pr_number: u32 = match parse_u32(pr_arg) {
            Some(n) => n,
            None => return Self::say("§cUsage: /status <pr_number>".to_owned()),
        };
        let message = match proxy_server.k8s_manager() {
            None => "§cKubernetes not configured".to_owned(),
            Some(k8s) => match k8s.get_instance_state(pr_number) {
                Some(state) => state_message_of(pr_number, &state),
                None => {
                    let name = backend_name_of(pr_number);
                    if proxy_server.backends().contains(name.as_str()) {
                        numbered_twice(
                            "§a[Status] PR #",
                            pr_number,
                            " is running. Use §e/server pr-",
                            "§a to connect.",
                        )
                    } else {
                        numbered_twice(
                            "§7[Status] PR #",
                            pr_number,
                            " is not running. Use §e/start ",
                            "§7 to start it.",
                        )
                    }
                },
            },
        };
        Self::say(message)
    }

    /// What a packet of the backend comes to: the commands are replaced by the proxy's own, and any
    /// other packet goes to the client.
    pub fn handle_backend_packet(&mut self, packet: &RawPacket, ids: &PacketIds) -> (r: ForwardStep)
        ensures
            r@ == backend_step(old(self)@, packet@, *ids),
            final(self)@ == after_backend(old(self)@, packet@, *ids),
    {
        proof {
            use_type_invariant(&*self);
        }
        let in_play = match self.current_protocol {
            ConnectionProtocol::Play => true,
            _ => false,
        };
        if in_play {
            if packet.id == ids.play_login {
                if packet.payload.len() >= 4 {
                    self.entity_id = Some(read_entity(packet.payload.as_slice()));
                }
            } else if packet.id == ids.entity_event {
                if packet.payload.len() >= 5 {
                    let entity: i32 = read_entity(packet.payload.as_slice());
                    let status: u8 = packet.payload[4];
                    let own = match self.entity_id {
                        Some(e) => e == entity,
                        None => false,
                    };
                    if own && PERMISSION_STATUS <= status && status <= PERMISSION_STATUS
                        + MAX_PERMISSION {
                        self.permission_level = status - PERMISSION_STATUS;
                    }
                }
            } else if packet.id == ids.commands {
                return ForwardStep::SendCommands { commands: build_commands() };
            }
        }
        self.forward_to_client(packet, true)
    }

    /// The packet for the backend, as it is.
    pub fn forward_to_backend(&self, packet: &RawPacket) -> (r: ForwardStep)
        ensures
            r@ == (ForwardView::ToBackend {
                bytes: packet_bytes(packet@),
                compression: compression_from(self@.threshold),
            }),
    {
        ForwardStep::ToBackend {
            bytes: packet.encode(),
            compression: compression_of(self.backend_compression_threshold),
        }
    }

    /// The packet for the client, as it is.
    pub fn forward_to_client(&self, packet: &RawPacket, must_arrive: bool) -> (r: ForwardStep)
        ensures
            r@ == (ForwardView::ToClient { bytes: packet_bytes(packet@), must_arrive }),
    {
        ForwardStep::ToClient { bytes: packet.encode(), must_arrive }
    }
}

/// What happens between a player and the server that the player is on.
#[derive(Debug)]
pub enum ForwarderEvent {
    /// A packet of the backend, or why there will be none any more.
    Backend(Result<RawPacket, String>),
    /// A packet of the client, or why there will be none any more.
    Client(Result<RawPacket, String>),
    /// A message to all players; none where some were missed or there will be none any more.
    Broadcast(Option<String>),
    /// The client did not disconnect in time.
    TimedOut,
    /// Nothing will come any more.
    AllClosed,
}

/// The values in a [`ForwarderEvent`].
pub enum EventView {
    Backend(Result<RawPacketView, Seq<char>>),
    Client(Result<RawPacketView, Seq<char>>),
    Broadcast(Option<Seq<char>>),
    TimedOut,
    AllClosed,
}

/// The values in what was read.
pub open spec fn read_view(r: Result<RawPacket, String>) -> Result<RawPacketView, Seq<char>> {
    match r {
        Ok(p) => Ok(p@),
        Err(e) => Err(e@),
    }
}

impl View for ForwarderEvent {
    type V = EventView;

    open spec fn view(&self) -> EventView {
        match self {
            ForwarderEvent::Backend(r) => EventView::Backend(read_view(*r)),
            ForwarderEvent::Client(r) => EventView::Client(read_view(*r)),
            ForwarderEvent::Broadcast(t) => EventView::Broadcast(crate::config::optional_text(*t)),
            ForwarderEvent::TimedOut => EventView::TimedOut,
            ForwarderEvent::AllClosed => EventView::AllClosed,
        }
    }
}

/// What an event comes to once the client was told to go to another server: what the backend still
/// sends goes to the client if it can, and the connection ends when the client disconnects or
/// takes too long.
pub open spec fn drain_step(event: EventView) -> ForwardView {
    match event {
        EventView::Backend(Ok(packet)) => ForwardView::ToClient {
            bytes: packet_bytes(packet),
            must_arrive: false,
        },
        EventView::Client(Err(_)) => ForwardView::End { error: None },
        EventView::TimedOut => ForwardView::End { error: None },
        _ => ForwardView::Nothing,
    }
}

/// Whether the packet of the client is looked at.
pub open spec fn client_packet(v: ForwarderView, event: EventView) -> Option<RawPacketView> {
    if v.draining {
        None
    } else {
        match event {
            EventView::Client(Ok(packet)) => Some(packet),
            _ => None,
        }
    }
}

/// What an event comes to.
pub open spec fn run_step(
    v: ForwarderView,
    event: EventView,
    ids: PacketIds,
    listing: Listing,
    p: ProxyView,
    public_address: Seq<char>,
    bind_port: u16,
) -> ForwardView {
    if v.draining {
        drain_step(event)
    } else {
        match event {
            EventView::Backend(Ok(packet)) => backend_step(v, packet, ids),
            EventView::Backend(Err(text)) => ForwardView::End {
                error: Some("Backend read failed: "@ + text),
            },
            EventView::Client(Ok(packet)) => client_step(
                v,
                packet,
                ids,
                listing,
                p,
                public_address,
                bind_port,
            ),
            EventView::Client(Err(_)) => ForwardView::End { error: None },
            EventView::Broadcast(Some(text)) => ForwardView::Say { text, must_arrive: false },
            EventView::Broadcast(None) => ForwardView::Nothing,
            EventView::TimedOut => ForwardView::Nothing,
            EventView::AllClosed => ForwardView::End { error: None },
        }
    }
}

/// What is known after an event.
pub open spec fn after_event(
    v: ForwarderView,
    event: EventView,
    ids: PacketIds,
    backends: RegistryView,
) -> ForwarderView {
    if v.draining {
        v
    } else {
        match event {
            EventView::Backend(Ok(packet)) => after_backend(v, packet, ids),
            EventView::Client(Ok(packet)) => after_client(v, packet, ids, backends),
            _ => v,
        }
    }
}

impl PacketForwarder {
    /// After sending a Transfer packet, continue forwarding backend packets until the client
    /// disconnects.
    pub fn drain_until_client_disconnects(&self, event: &ForwarderEvent) -> (r: ForwardStep)
        ensures
            r@ == drain_step(event@),
    {
        match event {
            ForwarderEvent::Backend(Ok(packet)) => self.forward_to_client(packet, false),
            ForwarderEvent::Client(Err(_)) => ForwardStep::End { error: None },
            ForwarderEvent::TimedOut => ForwardStep::End { error: None },
            _ => ForwardStep::Nothing,
        }
    }

    /// What an event comes to.
    pub fn run(
        &mut self,
        event: &ForwarderEvent,
        ids: &PacketIds,
        proxy_server: &mut ProxyServer,
    ) -> (r: ForwardStep)
        ensures
            r@ == run_step(
                old(self)@,
                event@,
                *ids,
                old(proxy_server).registry().static_listing()
                    + old(proxy_server).registry().dynamic_listing(),
                old(proxy_server)@,
                old(proxy_server).settings().public_address@,
                old(proxy_server).settings().bind_port,
            ),
            final(self)@ == after_event(old(self)@, event@, *ids, old(proxy_server)@.backends),
            final(proxy_server)@ == (match client_packet(old(self)@, event@) {
                Some(packet) => proxy_after_client(
                    old(self)@,
                    packet,
                    *ids,
                    old(proxy_server)@,
                ),
                None => old(proxy_server)@,
            }),
            final(proxy_server).same_parts(old(proxy_server)),
    {
        if self.draining {
            return self.drain_until_client_disconnects(event);
        }
        match event {
            ForwarderEvent::Backend(Ok(packet)) => self.handle_backend_packet(packet, ids),
            ForwarderEvent::Backend(Err(e)) => {
                let mut text = "Backend read failed: ".to_owned();
                text.append(e.as_str());
                ForwardStep::End { error: Some(text) }
            },
            ForwarderEvent::Client(Ok(packet)) => self.handle_client_packet(
                packet,
                ids,
                proxy_server,
            ),
            ForwarderEvent::Client(Err(_)) => ForwardStep::End { error: None },
            ForwarderEvent::Broadcast(Some(text)) => ForwardStep::Say {
                text: text.clone(),
                must_arrive: false,
            },
            ForwarderEvent::Broadcast(None) => ForwardStep::Nothing,
            ForwarderEvent::TimedOut => ForwardStep::Nothing,
            ForwarderEvent::AllClosed => ForwardStep::End { error: None },
        }
    }
}

/// What a player who asked for a PR is told: nothing where it was started, which all players are
/// told of, and else why it was not.
pub fn start_answer(pr_number: u32, outcome: Result<(), String>) -> (r: Option<String>)
    ensures
        crate::config::optional_text(r) == (match outcome {
            Ok(()) => None,
            Err(text) => Some(
                "§cFailed to start PR #"@ + decimal(pr_number as nat) + ": "@ + text@,
            ),
        }),
{
    match outcome {
        Ok(()) => None,
        Err(text) => {
            let mut message = numbered_with("§cFailed to start PR #", pr_number, ": ");
            message.append(text.as_str());
            Some(message)
        },
    }
}

/// A packet of the client that is no command of the proxy reaches the backend with its number and
/// its payload unchanged, and the proxy keeps nothing of it.
pub proof fn other_packets_reach_the_backend(
    v: ForwarderView,
    packet: RawPacketView,
    ids: PacketIds,
    listing: Listing,
    p: ProxyView,
    public_address: Seq<char>,
    bind_port: u16,
)
    requires
        command_in(v.protocol, packet, ids) is None,
    ensures
        client_step(v, packet, ids, listing, p, public_address, bind_port) matches
            ForwardView::ToBackend { bytes, .. } && packet_in(bytes) == Ok::<
            RawPacketView,
            VarIntError,
        >(packet),
        proxy_after_client(v, packet, ids, p) == p,
{
    crate::packets::packet_is_read_back(packet);
}

/// A packet of the backend that does not hold its commands reaches the client with its number and
/// its payload unchanged.
pub proof fn other_packets_reach_the_client(v: ForwarderView, packet: RawPacketView, ids: PacketIds)
    requires
        !is_commands(v, packet, ids),
    ensures
        backend_step(v, packet, ids) matches ForwardView::ToClient { bytes, must_arrive }
            && must_arrive && packet_in(bytes) == Ok::<RawPacketView, VarIntError>(packet),
{
    crate::packets::packet_is_read_back(packet);
}

/// A command that a client writes during play, signed or not, is the one that the proxy reads, as
/// long as its length in bytes is no more than the largest signed number of 32 bits; what follows
/// it in the packet, such as signatures, is left alone.
pub proof fn written_commands_are_read(
    id: i32,
    text: Seq<char>,
    rest: Seq<u8>,
    ids: PacketIds,
)
    requires
        id == ids.chat_command || id == ids.chat_command_signed,
        encode_utf8(text).len() <= i32::MAX,
    ensures
        command_in(
            ConnectionProtocol::Play,
            RawPacketView { id, payload: text_field(text) + rest },
            ids,
        ) == proxy_command(text),
{
    crate::codec::text_is_read_back(text, rest);
}

/// A command that cannot be read, such as one whose length is negative, is no command of the proxy,
/// and its packet reaches the backend unchanged.
pub proof fn unreadable_commands_reach_the_backend(
    v: ForwarderView,
    packet: RawPacketView,
    ids: PacketIds,
    listing: Listing,
    p: ProxyView,
    public_address: Seq<char>,
    bind_port: u16,
)
    requires
        text_at(packet.payload) is Err || (int_at(packet.payload) matches Ok((n, _)) && n < 0),
    ensures
        command_in(v.protocol, packet, ids) is None,
        client_step(v, packet, ids, listing, p, public_address, bind_port) matches
            ForwardView::ToBackend { bytes, .. } && packet_in(bytes) == Ok::<
            RawPacketView,
            VarIntError,
        >(packet),
{
    other_packets_reach_the_backend(v, packet, ids, listing, p, public_address, bind_port);
}

/// A text without white space on either side is trimmed to itself.
proof fn lemma_nothing_to_trim(s: Seq<char>)
    requires
        s.len() > 0,
        !is_white_space(s[0]),
        !is_white_space(s.last()),
    ensures
        trimmed(s) == s,
{
}

/// Every command that the proxy offers is understood: `server` alone, and `server`, `start` and
/// `status` with any argument, which is read without white space round it.
pub proof fn offered_commands_are_understood(arg: Seq<char>)
    ensures
        proxy_commands()[1] == literal("server"@, seq![2i32], true),
        proxy_command("server"@) == Some(CommandView::List),
        proxy_command("server "@ + arg) == Some(CommandView::Switch { server: trimmed(arg) }),
        proxy_commands()[3] == literal("start"@, seq![4i32], false),
        proxy_command("start "@ + arg) == Some(CommandView::Start { pr_arg: trimmed(arg) }),
        proxy_commands()[5] == literal("status"@, seq![6i32], false),
        proxy_command("status "@ + arg) == Some(CommandView::Status { pr_arg: trimmed(arg) }),
        "server "@ == "server"@ + " "@,
        "start "@ == "start"@ + " "@,
        "status "@ == "status"@ + " "@,
{
    reveal_strlit("server");
    reveal_strlit("server ");
    reveal_strlit("start");
    reveal_strlit("start ");
    reveal_strlit("status");
    reveal_strlit("status ");
    reveal_strlit(" ");
    let server = "server "@ + arg;
    let start = "start "@ + arg;
    let status = "status "@ + arg;
    assert(server.skip(7) =~= arg);
    assert(start.skip(6) =~= arg);
    assert(status.skip(7) =~= arg);
    assert(server.take(7) =~= "server "@);
    assert(start.take(6) =~= "start "@);
    assert(status.take(7) =~= "status "@);
    assert(server.len() != "server"@.len());
    assert(start[1] == 't' && "server"@[1] == 'e' && "server "@[1] == 'e');
    assert(status[1] == 't' && status[3] == 't' && "start "@[3] == 'r');
    assert("server "@ =~= "server"@ + " "@);
    assert("start "@ =~= "start"@ + " "@);
    assert("status "@ =~= "status"@ + " "@);
}

/// A player who asks to start a PR, or for its status, by its number in decimal is understood.
pub proof fn numbers_are_understood(
    pr_number: u32,
    listing: Listing,
    current: Seq<char>,
    p: ProxyView,
    public_address: Seq<char>,
    bind_port: u16,
)
    ensures
        proxy_command("start "@ + decimal(pr_number as nat)) matches Some(c) && command_step(
            c,
            listing,
            current,
            p,
            public_address,
            bind_port,
        ) == (ForwardView::StartPr { pr_number }),
        proxy_command("status "@ + decimal(pr_number as nat)) matches Some(c) && command_step(
            c,
            listing,
            current,
            p,
            public_address,
            bind_port,
        ) == says(status_message(p.instances, p.backends, pr_number)),
{
    let n = decimal(pr_number as nat);
    crate::text::decimal_is_read_back(pr_number as nat);
    crate::text::parse_undoes_decimal(pr_number);
    assert(is_digit(n[0]) && is_digit(n[n.len() - 1]));
    lemma_nothing_to_trim(n);
    offered_commands_are_understood(n);
}

/// The advice in the messages is good: as long as exactly the PRs with a ready instance are
/// offered, `server pr-` with the number of such a PR names a server that is there, and it is the
/// one at the address of the instance.
pub proof fn advice_names_the_instance(m: Instances, r: RegistryView, pr_number: u32)
    requires
        ready_ones_are_offered(m, r),
        m.contains_key(pr_number),
        m[pr_number].state is Ready,
    ensures
        proxy_command("server pr-"@ + decimal(pr_number as nat)) == Some(
            CommandView::Switch { server: backend_name(pr_number) },
        ),
        r.has(backend_name(pr_number)),
        r.find(backend_name(pr_number)) matches Some(b) && b.address
            == m[pr_number].state->Ready_address && b.port == m[pr_number].state->Ready_port,
{
    let n = decimal(pr_number as nat);
    let name = backend_name(pr_number);
    assert(offered_when_ready(m, r, pr_number));
    reveal_strlit("server pr-");
    reveal_strlit("server ");
    reveal_strlit("pr-");
    crate::text::decimal_is_read_back(pr_number as nat);
    assert(is_digit(n[n.len() - 1]));
    assert(name[0] == 'p');
    assert(name.last() == n[n.len() - 1]);
    lemma_nothing_to_trim(name);
    assert("server pr-"@ + n =~= "server "@ + name);
    offered_commands_are_understood(name);
}

/// A player on any server who writes `server` and the name of a server that is there is told to
/// connect to the proxy again, and reaches that server at the next login, whatever other players
/// ask for and whoever of them logs in between, as long as the server is still there.
pub proof fn switch_leads_to_the_server(
    v: ForwarderView,
    packet: RawPacketView,
    ids: PacketIds,
    listing: Listing,
    p: ProxyView,
    public_address: Seq<char>,
    bind_port: u16,
    server: Seq<char>,
    row: Seq<Wish>,
    at_login: ProxyView,
    default_server: Seq<char>,
    username: Seq<char>,
)
    requires
        command_in(v.protocol, packet, ids) == Some(CommandView::Switch { server }),
        p.backends.has(server),
        forall|i: int| 0 <= i < row.len() ==> (#[trigger] row[i]).uuid() != v.player_uuid,
        at_login.switches == kept_wishes(proxy_after_client(v, packet, ids, p).switches, row),
        at_login.backends.has(server),
    ensures
        client_step(v, packet, ids, listing, p, public_address, bind_port) == (
        ForwardView::Transfer { host: public_address, port: bind_port as i32 }),
        after_client(v, packet, ids, p.backends).draining,
        login_route(at_login, default_server, (username, v.player_uuid)) == Ok::<
            HandlerStepView,
            RouteError,
        >(
            HandlerStepView::Connect {
                backend_name: server,
                connector: ConnectorView {
                    address: at_login.backends.find(server)->0.address,
                    port: at_login.backends.find(server)->0.port,
                    username,
                    uuid: v.player_uuid,
                },
            },
        ),
        target_of(at_login.switches.remove(v.player_uuid), default_server, v.player_uuid)
            == default_server,
{
    wish_is_met_once(p.switches, row, at_login, default_server, (username, v.player_uuid), server);
}

/// A player who asks for a server that is not there is told so, and nothing changes.
pub proof fn unknown_server_changes_nothing(
    v: ForwarderView,
    packet: RawPacketView,
    ids: PacketIds,
    listing: Listing,
    p: ProxyView,
    public_address: Seq<char>,
    bind_port: u16,
    server: Seq<char>,
)
    requires
        command_in(v.protocol, packet, ids) == Some(CommandView::Switch { server }),
        !p.backends.has(server),
    ensures
        client_step(v, packet, ids, listing, p, public_address, bind_port) == says(
            "Unknown server: "@ + server,
        ),
        after_client(v, packet, ids, p.backends) == v,
        proxy_after_client(v, packet, ids, p) == p,
{
}

/// Once a client was told to go to another server, nothing of it reaches the backend any more and
/// no command of it is obeyed; it still gets what the backend sends, until it disconnects or takes
/// too long.
pub proof fn draining_only_empties(
    v: ForwarderView,
    event: EventView,
    ids: PacketIds,
    listing: Listing,
    p: ProxyView,
    public_address: Seq<char>,
    bind_port: u16,
)
    requires
        v.draining,
    ensures
        after_event(v, event, ids, p.backends) == v,
        ({
            let step = run_step(v, event, ids, listing, p, public_address, bind_port);
            &&& step is Nothing || step is ToClient || step is End
            &&& step is End <==> event is TimedOut || (event matches EventView::Client(r)
                && r is Err)
        }),
{
}

/// Whatever happens, the permission level stays between none and the highest, and it only changes
/// by an event of the backend on the player's own entity.
pub proof fn permission_stays_in_range(
    v: ForwarderView,
    event: EventView,
    ids: PacketIds,
    backends: RegistryView,
)
    requires
        v.permission_level <= MAX_PERMISSION,
    ensures
        after_event(v, event, ids, backends).permission_level <= MAX_PERMISSION,
        after_event(v, event, ids, backends).permission_level != v.permission_level ==> (
        event matches EventView::Backend(Ok(packet)) && packet.id == ids.entity_event
            && v.entity_id == Some(entity_in(packet.payload))),
{
}

/// Every server has its line in the list.
pub proof fn every_server_is_listed(row: Listing, current: Seq<char>, i: int)
    requires
        0 <= i < row.len(),
    ensures
        exists|before: Seq<char>, after: Seq<char>|
            server_list(row, current) == #[trigger] ((before + server_line(row[i], current))
                + after),
    decreases row.len(),
{
    let line = server_line(row[i], current);
    let earlier = server_list(row.drop_last(), current);
    if i == row.len() - 1 {
        assert(server_list(row, current) =~= (earlier + line) + Seq::<char>::empty());
    } else {
        every_server_is_listed(row.drop_last(), current, i);
        let (before, after) = choose|before: Seq<char>, after: Seq<char>|
            earlier == #[trigger] ((before + line) + after);
        assert(server_list(row, current) =~= (before + line) + (after + server_line(
            row.last(),
            current,
        )));
    }
}

} // verus!
