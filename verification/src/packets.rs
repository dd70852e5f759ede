//! The packets that the proxy makes itself, and what it knows of the others.
use crate::codec::{
    as_unsigned, int_at, push_text, push_varint, text_at, text_field, varint, TextError,
    VarIntError,
};
use vstd::prelude::*;
use vstd::utf8::encode_utf8;

verus! {

/// The phases of a connection.
#[derive(Clone, Copy, Debug, PartialEq, Eq, Structural)]
pub enum ConnectionProtocol {
    Handshake,
    Status,
    Login,
    Config,
    Play,
}

/// What a client wants of the connection that it opens.
#[derive(Clone, Copy, Debug, PartialEq, Eq, Structural)]
pub enum ClientIntent {
    Status,
    Login,
    Transfer,
}

/// The numbers of the packets that the proxy looks at or makes, and of the login intent.
#[derive(Clone, Copy, Debug, PartialEq, Eq, Structural)]
pub struct PacketIds {
    /// Handshake, from the client: what it wants
    pub intention: i32,
    /// The number of the login intent in that packet
    pub login_intent: i32,
    /// Status, from the client: asks for the status
    pub status_request: i32,
    /// Status, from the client: a ping
    pub ping_request: i32,
    /// Login, from the client: who the player is
    pub hello: i32,
    /// Login, from the client: the login is acknowledged
    pub login_acknowledged: i32,
    /// Login, from the server: compression from a size on
    pub login_compression: i32,
    /// Login, from the server: the login is complete
    pub login_finished: i32,
    /// Config, from the client: the configuration is complete
    pub finish_configuration: i32,
    /// Config, from the server: go to another server
    pub config_transfer: i32,
    /// Play, from the client: a command
    pub chat_command: i32,
    /// Play, from the client: a command with signatures
    pub chat_command_signed: i32,
    /// Play, from the server: the player's entity
    pub play_login: i32,
    /// Play, from the server: something happened to an entity
    pub entity_event: i32,
    /// Play, from the server: the commands that there are
    pub commands: i32,
    /// Play, from the server: go to another server
    pub play_transfer: i32,
}

/// A packet as it is read: its number and what follows.
#[derive(Debug)]
pub struct RawPacket {
    pub id: i32,
    pub payload: Vec<u8>,
}

/// The values in a [`RawPacket`].
#[verifier::ext_equal]
pub struct RawPacketView {
    pub id: i32,
    pub payload: Seq<u8>,
}

impl View for RawPacket {
    type V = RawPacketView;

    open spec fn view(&self) -> RawPacketView {
        RawPacketView { id: self.id, payload: self.payload@ }
    }
}

/// The bytes of a packet: its number, then its payload as it is.
pub open spec fn packet_bytes(packet: RawPacketView) -> Seq<u8> {
    varint(as_unsigned(packet.id)) + packet.payload
}

/// The packet that some bytes hold, or why their number could not be read.
pub open spec fn packet_in(bytes: Seq<u8>) -> Result<RawPacketView, VarIntError> {
    match int_at(bytes) {
        Ok((id, used)) => Ok(RawPacketView { id, payload: bytes.skip(used as int) }),
        Err(e) => Err(e),
    }
}

impl RawPacket {
    /// The bytes of the packet.
    pub fn encode(&self) -> (r: Vec<u8>)
        ensures
            r@ == packet_bytes(self@),
    {
        let mut out: Vec<u8> = Vec::new();
        push_varint(&mut out, self.id);
        crate::codec::push_bytes(&mut out, self.payload.as_slice());
        assert(out@ =~= packet_bytes(self@));
        out
    }
}

/// A packet that is encoded is read back with its number and its payload unchanged.
pub proof fn packet_is_read_back(packet: RawPacketView)
    ensures
        packet_in(packet_bytes(packet)) == Ok::<RawPacketView, VarIntError>(packet),
{
    crate::codec::varint_is_read_back(packet.id, packet.payload);
    assert(packet_bytes(packet).skip(varint(as_unsigned(packet.id)).len() as int)
        =~= packet.payload);
}

/// How hard packets are compressed.
pub const COMPRESSION_LEVEL: u32 = 4;

/// How packets on a connection are compressed.
#[derive(Clone, Copy, Debug, PartialEq, Eq, Structural)]
pub struct CompressionInfo {
    /// Packets of this size on are compressed
    pub threshold: u32,
    /// How hard
    pub level: u32,
}

/// The compression on a connection where there is a threshold.
pub open spec fn compression_from(threshold: Option<u32>) -> Option<CompressionInfo> {
    match threshold {
        Some(threshold) => Some(CompressionInfo { threshold, level: COMPRESSION_LEVEL }),
        None => None,
    }
}

/// The compression on a connection where there is a threshold.
pub fn compression_of(threshold: Option<u32>) -> (r: Option<CompressionInfo>)
    ensures
        r == compression_from(threshold),
{
    match threshold {
        Some(threshold) => Some(CompressionInfo { threshold, level: COMPRESSION_LEVEL }),
        None => None,
    }
}

/// Server -> Client: Transfer to another server.
///
/// Tells the client to disconnect and reconnect to a different server.
/// Can be sent during Config or Play phase.
#[derive(Debug)]
pub struct CTransfer {
    pub host: String,
    pub port: i32,
}

/// The payload of a transfer: the host, then the port.
pub open spec fn transfer_bytes(host: Seq<char>, port: i32) -> Seq<u8> {
    text_field(host) + varint(as_unsigned(port))
}

impl Clone for CTransfer {
    fn clone(&self) -> (r: Self)
        ensures
            r == *self,
    {
        CTransfer { host: self.host.clone(), port: self.port }
    }
}

impl CTransfer {
    /// A transfer to this host and port.
    pub fn new(host: String, port: i32) -> (r: Self)
        ensures
            r.host == host,
            r.port == port,
    {
        CTransfer { host, port }
    }

    /// Appends the payload of the packet.
    pub fn write(&self, writer: &mut Vec<u8>)
        ensures
            final(writer)@ == old(writer)@ + transfer_bytes(self.host@, self.port),
    {
        push_text(writer, self.host.as_str());
        push_varint(writer, self.port);
        assert(writer@ =~= old(writer)@ + transfer_bytes(self.host@, self.port));
    }

    /// The number of the packet, in the phases in which it can be sent.
    pub fn get_id(&self, protocol: ConnectionProtocol, ids: &PacketIds) -> (r: Option<i32>)
        ensures
            r == transfer_id(protocol, *ids),
    {
        match protocol {
            ConnectionProtocol::Config => Some(ids.config_transfer),
            ConnectionProtocol::Play => Some(ids.play_transfer),
            _ => None,
        }
    }
}

/// The number of a transfer: it can be sent during Config and Play.
pub open spec fn transfer_id(protocol: ConnectionProtocol, ids: PacketIds) -> Option<i32> {
    match protocol {
        ConnectionProtocol::Config => Some(ids.config_transfer),
        ConnectionProtocol::Play => Some(ids.play_transfer),
        _ => None,
    }
}

/// A client that reads a transfer learns the host and the port that were written, as long as the
/// length of the host in bytes is no more than the largest signed number of 32 bits.
pub proof fn transfer_is_read_back(host: Seq<char>, port: i32)
    requires
        encode_utf8(host).len() <= i32::MAX,
    ensures
        text_at(transfer_bytes(host, port)) == Ok::<Seq<char>, TextError>(host),
        int_at(transfer_bytes(host, port).skip(text_field(host).len() as int)) == Ok::<
            (i32, nat),
            VarIntError,
        >((port, varint(as_unsigned(port)).len())),
{
    let tail = varint(as_unsigned(port));
    crate::codec::text_is_read_back(host, tail);
    assert(transfer_bytes(host, port).skip(text_field(host).len() as int) =~= tail
        + Seq::<u8>::empty());
    crate::codec::varint_is_read_back(port, Seq::empty());
}

/// How much of a command a text argument takes.
#[derive(Clone, Copy, Debug, PartialEq, Eq, Structural)]
pub enum ArgumentStringTypeBehavior {
    SingleWord,
}

/// What an argument of a command must be.
#[derive(Clone, Copy, Debug, PartialEq, Eq, Structural)]
pub enum ArgumentType {
    String { behavior: ArgumentStringTypeBehavior },
    Integer { min: Option<i32>, max: Option<i32> },
}

/// What a node in a command tree stands for.
#[derive(Debug)]
pub enum NodeKind {
    /// The start of every command
    Root,
    /// A fixed word
    Literal { name: &'static str },
    /// An argument
    Argument { name: &'static str, parser: ArgumentType },
}

/// A node in a command tree.
#[derive(Debug)]
pub struct CommandNode {
    pub kind: NodeKind,
    /// Places of the nodes that can come next
    pub children: Vec<i32>,
    /// Whether a command can end here
    pub executable: bool,
}

/// The values in a [`NodeKind`].
pub enum NodeKindView {
    Root,
    Literal { name: Seq<char> },
    Argument { name: Seq<char>, parser: ArgumentType },
}

/// The values in a [`CommandNode`].
#[verifier::ext_equal]
pub struct CommandNodeView {
    pub kind: NodeKindView,
    pub children: Seq<i32>,
    pub executable: bool,
}

impl View for CommandNode {
    type V = CommandNodeView;

    open spec fn view(&self) -> CommandNodeView {
        CommandNodeView {
            kind: match self.kind {
                NodeKind::Root => NodeKindView::Root,
                NodeKind::Literal { name } => NodeKindView::Literal { name: name@ },
                NodeKind::Argument { name, parser } => NodeKindView::Argument {
                    name: name@,
                    parser,
                },
            },
            children: self.children@,
            executable: self.executable,
        }
    }
}

/// Server -> Client: the commands that there are.
#[derive(Debug)]
pub struct CCommands {
    pub nodes: Vec<CommandNode>,
    /// Place of the root
    pub root_index: i32,
}

/// A node for a fixed word.
pub open spec fn literal(name: Seq<char>, children: Seq<i32>, executable: bool) -> CommandNodeView {
    CommandNodeView { kind: NodeKindView::Literal { name }, children, executable }
}

/// A node for an argument that ends a command.
pub open spec fn last_argument(name: Seq<char>, parser: ArgumentType) -> CommandNodeView {
    CommandNodeView {
        kind: NodeKindView::Argument { name, parser },
        children: Seq::empty(),
        executable: true,
    }
}

/// Any integer.
pub open spec fn any_integer() -> ArgumentType {
    ArgumentType::Integer { min: None, max: None }
}

/// The commands of the proxy: `server`, `server <server_name>`, `start <pr_number>` and
/// `status <pr_number>`.
pub open spec fn proxy_commands() -> Seq<CommandNodeView> {
    seq![
        CommandNodeView {
            kind: NodeKindView::Root,
            children: seq![1i32, 3i32, 5i32],
            executable: false,
        },
        literal("server"@, seq![2i32], true),
        last_argument(
            "server_name"@,
            ArgumentType::String { behavior: ArgumentStringTypeBehavior::SingleWord },
        ),
        literal("start"@, seq![4i32], false),
        last_argument("pr_number"@, any_integer()),
        literal("status"@, seq![6i32], false),
        last_argument("pr_number"@, any_integer()),
    ]
}

/// The nodes of a command tree.
pub open spec fn nodes_view(nodes: Seq<CommandNode>) -> Seq<CommandNodeView> {
    nodes.map_values(|n: CommandNode| n@)
}

fn new_literal(name: &'static str, child: i32, executable: bool) -> (r: CommandNode)
    ensures
        r@ == literal(name@, seq![child], executable),
{
    let mut children: Vec<i32> = Vec::new();
    children.push(child);
    assert(children@ =~= seq![child]);
    CommandNode { kind: NodeKind::Literal { name }, children, executable }
}

fn new_argument(name: &'static str, parser: ArgumentType) -> (r: CommandNode)
    ensures
        r@ == last_argument(name@, parser),
{
    let children: Vec<i32> = Vec::new();
    assert(children@ =~= Seq::<i32>::empty());
    CommandNode { kind: NodeKind::Argument { name, parser }, children, executable: true }
}

/// Build command tree (all commands available to all players)
pub fn build_commands() -> (r: CCommands)
    ensures
        nodes_view(r.nodes@) == proxy_commands(),
        r.root_index == 0,
{
    let mut of_root: Vec<i32> = Vec::new();
    of_root.push(1);
    of_root.push(3);
    of_root.push(5);
    assert(of_root@ =~= seq![1i32, 3i32, 5i32]);
    let mut nodes: Vec<CommandNode> = Vec::new();
    nodes.push(CommandNode { kind: NodeKind::Root, children: of_root, executable: false });
    nodes.push(new_literal("server", 2, true));
    nodes.push(
        new_argument(
            "server_name",
            ArgumentType::String { behavior: ArgumentStringTypeBehavior::SingleWord },
        ),
    );
    nodes.push(new_literal("start", 4, false));
    nodes.push(new_argument("pr_number", ArgumentType::Integer { min: None, max: None }));
    nodes.push(new_literal("status", 6, false));
    nodes.push(new_argument("pr_number", ArgumentType::Integer { min: None, max: None }));
    assert(nodes_view(nodes@) =~= proxy_commands());
    CCommands { nodes, root_index: 0 }
}

/// Every node of the command tree but the root is a child of exactly one node, every child is a
/// node that stands behind its parent, and a command can end at every node without children.
pub proof fn commands_form_a_tree(i: int)
    requires
        0 <= i < proxy_commands().len(),
    ensures
        forall|k: int|
            0 <= k < proxy_commands()[i].children.len() ==> i < (
            #[trigger] proxy_commands()[i].children[k]) < proxy_commands().len(),
        proxy_commands()[i].children.len() == 0 ==> proxy_commands()[i].executable,
        i > 0 ==> exists|p: int|
            0 <= p < proxy_commands().len() && #[trigger] proxy_commands()[p].children.contains(
                i as i32,
            ) && forall|q: int|
                0 <= q < proxy_commands().len() && #[trigger] proxy_commands()[q].children.contains(
                    i as i32,
                ) ==> q == p,
{
    let t = proxy_commands();
    let parent: int = if i % 2 == 1 {
        0
    } else {
        i - 1
    };
    if i > 0 {
        let k: int = if i % 2 == 1 {
            i / 2
        } else {
            0
        };
        assert(t[parent].children[k] == i as i32);
        assert(t[parent].children.contains(i as i32));
        assert forall|q: int|
            0 <= q < t.len() && #[trigger] t[q].children.contains(i as i32) implies q == parent by {
            let j = choose|j: int|
                0 <= j < t[q].children.len() && t[q].children[j] == i as i32;
            assert(q == 0 || q == 1 || q == 2 || q == 3 || q == 4 || q == 5 || q == 6);
        }
    }
}

} // verus!
