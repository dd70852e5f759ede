//! Logging a player in on a backend server.
use crate::codec::{
    as_unsigned, big_endian, from_big_endian, int_at, push_big_endian, push_text, push_u16,
    push_varint, read_varint, text_at, text_field, varint, TextError, VarIntError,
};
use crate::packets::{
    compression_from, compression_of, packet_in, CompressionInfo, PacketIds, RawPacket,
    RawPacketView,
};
use crate::text::{decimal, push_decimal, push_signed, signed_decimal};
use vstd::prelude::*;
use vstd::utf8::encode_utf8;

verus! {

/// The version of the protocol that the proxy speaks.
pub const PROTOCOL_VERSION: i32 = 774;

/// The bytes that a UUID takes.
pub const UUID_BYTES: u8 = 16;

/// A player on the way to a backend server.
#[derive(Debug)]
pub struct BackendConnector {
    address: String,
    port: u16,
    username: String,
    uuid: u128,
}

/// The values in a [`BackendConnector`].
#[verifier::ext_equal]
pub struct ConnectorView {
    pub address: Seq<char>,
    pub port: u16,
    pub username: Seq<char>,
    pub uuid: u128,
}

impl View for BackendConnector {
    type V = ConnectorView;

    closed spec fn view(&self) -> ConnectorView {
        ConnectorView {
            address: self.address@,
            port: self.port,
            username: self.username@,
            uuid: self.uuid,
        }
    }
}

impl ConnectorView {
    /// Where the backend listens.
    pub open spec fn socket(self) -> Seq<char> {
        self.address + ":"@ + decimal(self.port as nat)
    }

    /// The first packet: the version of the protocol, the address and the port, and the intent to
    /// log in.
    pub open spec fn handshake(self, ids: PacketIds) -> Seq<u8> {
        varint(as_unsigned(ids.intention)) + varint(as_unsigned(PROTOCOL_VERSION)) + text_field(
            self.address,
        ) + big_endian(self.port as nat, 2) + varint(as_unsigned(ids.login_intent))
    }

    /// The second packet: the name and the UUID of the player.
    pub open spec fn login_start(self, ids: PacketIds) -> Seq<u8> {
        varint(as_unsigned(ids.hello)) + text_field(self.username) + big_endian(
            self.uuid as nat,
            16,
        )
    }
}

/// The packet that ends the login.
pub open spec fn acknowledgement(ids: PacketIds) -> Seq<u8> {
    varint(as_unsigned(ids.login_acknowledged))
}

impl BackendConnector {
    /// A player on the way to this backend.
    pub fn new(address: String, port: u16, username: String, uuid: u128) -> (r: Self)
        ensures
            r@ == (ConnectorView { address: address@, port, username: username@, uuid }),
    {
        BackendConnector { address, port, username, uuid }
    }

    /// The UUID of the player.
    pub fn uuid(&self) -> (r: u128)
        ensures
            r == self@.uuid,
    {
        self.uuid
    }

    /// Where the backend listens.
    pub fn socket(&self) -> (r: String)
        ensures
            r@ == self@.socket(),
    {
        let mut s = self.address.clone();
        s.append(":");
        push_decimal(&mut s, self.port as u64);
        s
    }

    /// The packets that are sent first, neither of them compressed, and the login that then begins
    pub fn connect(&self, ids: &PacketIds) -> (r: (Vec<u8>, Vec<u8>, BackendLogin))
        ensures
            r.0@ == self@.handshake(*ids),
            r.1@ == self@.login_start(*ids),
            r.2.threshold is None,
    {
        let mut handshake: Vec<u8> = Vec::new();
        push_varint(&mut handshake, ids.intention);
        push_varint(&mut handshake, PROTOCOL_VERSION);
        push_text(&mut handshake, self.address.as_str());
        push_u16(&mut handshake, self.port);
        push_varint(&mut handshake, ids.login_intent);
        assert(handshake@ =~= self@.handshake(*ids));
        let mut login_start: Vec<u8> = Vec::new();
        push_varint(&mut login_start, ids.hello);
        push_text(&mut login_start, self.username.as_str());
        push_big_endian(&mut login_start, self.uuid, UUID_BYTES);
        assert(login_start@ =~= self@.login_start(*ids));
        (handshake, login_start, BackendLogin { threshold: None })
    }
}

/// A login that waits for the backend.
#[derive(Debug)]
pub struct BackendLogin {
    /// The size from which on packets are compressed, once the backend has asked for it
    pub threshold: Option<u32>,
}

/// What an answer of the backend comes to.
#[derive(Debug)]
pub enum LoginStep {
    /// Read packets compressed from this size on, and wait for the next answer.
    Compress { threshold: u32 },
    /// Wait for the next answer.
    Wait,
    /// Send this packet, with this compression; the player is then logged in.
    Acknowledge { packet: Vec<u8>, compression: Option<CompressionInfo> },
}

/// The values in a [`LoginStep`].
pub enum LoginStepView {
    Compress { threshold: u32 },
    Wait,
    Acknowledge { packet: Seq<u8>, compression: Option<CompressionInfo> },
}

impl View for LoginStep {
    type V = LoginStepView;

    open spec fn view(&self) -> LoginStepView {
        match self {
            LoginStep::Compress { threshold } => LoginStepView::Compress { threshold: *threshold },
            LoginStep::Wait => LoginStepView::Wait,
            LoginStep::Acknowledge { packet, compression } => LoginStepView::Acknowledge {
                packet: packet@,
                compression: *compression,
            },
        }
    }
}

/// Why a login on a backend failed.
#[derive(Debug, PartialEq, Eq, Clone, Copy, Structural)]
pub enum LoginError {
    /// The backend sent a packet of this number, which is not part of a login.
    Unexpected { id: i32 },
    /// The size to compress from could not be read.
    Threshold(VarIntError),
}

impl LoginError {
    /// The reason in words.
    pub open spec fn text(self) -> Seq<char> {
        match self {
            LoginError::Unexpected { id } => "Unexpected packet from backend during login: ID="@
                + signed_decimal(id as int),
            LoginError::Threshold(_) => "Unreadable compression threshold"@,
        }
    }

    /// The reason in words.
    pub fn message(&self) -> (r: String)
        ensures
            r@ == self.text(),
    {
        match self {
            LoginError::Unexpected { id } => {
                let mut s = "Unexpected packet from backend during login: ID=".to_owned();
                push_signed(&mut s, *id);
                s
            },
            LoginError::Threshold(_) => "Unreadable compression threshold".to_owned(),
        }
    }
}

/// What an answer of the backend comes to, and the size to compress from after it. A size that is
/// not positive changes nothing.
pub open spec fn login_answer(
    threshold: Option<u32>,
    packet: RawPacketView,
    ids: PacketIds,
) -> Result<(LoginStepView, Option<u32>), LoginError> {
    if packet.id == ids.login_compression {
        match int_at(packet.payload) {
            Err(e) => Err(LoginError::Threshold(e)),
            Ok((n, _)) => if n > 0 {
                Ok((LoginStepView::Compress { threshold: n as u32 }, Some(n as u32)))
            } else {
                Ok((LoginStepView::Wait, threshold))
            },
        }
    } else if packet.id == ids.login_finished {
        Ok(
            (
                LoginStepView::Acknowledge {
                    packet: acknowledgement(ids),
                    compression: compression_from(threshold),
                },
                threshold,
            ),
        )
    } else {
        Err(LoginError::Unexpected { id: packet.id })
    }
}

impl BackendLogin {
    /// Goes on after an answer of the backend.
    pub fn on_packet(&mut self, packet: &RawPacket, ids: &PacketIds) -> (r: Result<
        LoginStep,
        LoginError,
    >)
        ensures
            match r {
                Ok(step) => login_answer(old(self).threshold, packet@, *ids) == Ok::<
                    (LoginStepView, Option<u32>),
                    LoginError,
                >((step@, final(self).threshold)),
                Err(e) => login_answer(old(self).threshold, packet@, *ids) == Err::<
                    (LoginStepView, Option<u32>),
                    LoginError,
                >(e) && final(self).threshold == old(self).threshold,
            },
    {
        if packet.id == ids.login_compression {
            match read_varint(packet.payload.as_slice()) {
                Err(e) => Err(LoginError::Threshold(e)),
                Ok((n, _)) => {
                    if n > 0 {
                        let threshold: u32 = n as u32;
                        self.threshold = Some(threshold);
                        Ok(LoginStep::Compress { threshold })
                    } else {
                        Ok(LoginStep::Wait)
                    }
                },
            }
        } else if packet.id == ids.login_finished {
            let mut bytes: Vec<u8> = Vec::new();
            push_varint(&mut bytes, ids.login_acknowledged);
            assert(bytes@ =~= acknowledgement(*ids));
            Ok(
                LoginStep::Acknowledge {
                    packet: bytes,
                    compression: compression_of(self.threshold),
                },
            )
        } else {
            Err(LoginError::Unexpected { id: packet.id })
        }
    }
}

/// What a backend reads in the two packets that are sent first: their numbers, the version of the
/// protocol, the address, the port and the intent to log in; the name and the UUID of the player.
/// The length in bytes of the address and of the name must be no more than the largest signed
/// number of 32 bits.
pub proof fn backend_learns_the_player(c: ConnectorView, ids: PacketIds)
    requires
        encode_utf8(c.address).len() <= i32::MAX,
        encode_utf8(c.username).len() <= i32::MAX,
    ensures
        ({
            let first = packet_in(c.handshake(ids));
            let version = int_at(first->Ok_0.payload);
            let after = first->Ok_0.payload.skip(version->Ok_0.1 as int);
            &&& first matches Ok(p) && p.id == ids.intention
            &&& version matches Ok((v, _)) && v == PROTOCOL_VERSION
            &&& text_at(after) == Ok::<Seq<char>, TextError>(c.address)
            &&& ({
                let end = after.skip(text_field(c.address).len() as int);
                &&& from_big_endian(end.take(2)) == c.port
                &&& int_at(end.skip(2)) matches Ok((intent, _)) && intent == ids.login_intent
            })
        }),
        ({
            let second = packet_in(c.login_start(ids));
            let payload = second->Ok_0.payload;
            &&& second matches Ok(p) && p.id == ids.hello
            &&& text_at(payload) == Ok::<Seq<char>, TextError>(c.username)
            &&& payload.len() >= 16
            &&& from_big_endian(payload.skip(payload.len() - 16)) == c.uuid
        }),
{
    let head = varint(as_unsigned(ids.intention));
    let version = varint(as_unsigned(PROTOCOL_VERSION));
    let tail = big_endian(c.port as nat, 2) + varint(as_unsigned(ids.login_intent));
    let rest = text_field(c.address) + tail;
    assert(c.handshake(ids) =~= head + (version + rest));
    crate::codec::varint_is_read_back(ids.intention, version + rest);
    assert((head + (version + rest)).skip(head.len() as int) =~= version + rest);
    crate::codec::varint_is_read_back(PROTOCOL_VERSION, rest);
    assert((version + rest).skip(version.len() as int) =~= rest);
    crate::codec::text_is_read_back(c.address, tail);

    let intent = varint(as_unsigned(ids.login_intent));
    assert(rest.skip(text_field(c.address).len() as int) =~= tail);
    crate::codec::big_endian_is_read_back(c.port as nat, 2);
    assert(crate::codec::byte_bound(2) == 0x1_0000) by {
        reveal_with_fuel(crate::codec::byte_bound, 3);
    }
    assert(tail.take(2) =~= big_endian(c.port as nat, 2));
    assert(tail.skip(2) =~= intent + Seq::<u8>::empty());
    crate::codec::varint_is_read_back(ids.login_intent, Seq::empty());

    let hello = varint(as_unsigned(ids.hello));
    let uuid = big_endian(c.uuid as nat, 16);
    let payload = text_field(c.username) + uuid;
    assert(c.login_start(ids) =~= hello + payload);
    crate::codec::varint_is_read_back(ids.hello, payload);
    assert((hello + payload).skip(hello.len() as int) =~= payload);
    crate::codec::text_is_read_back(c.username, uuid);
    crate::codec::big_endian_is_read_back(c.uuid as nat, 16);
    assert(crate::codec::byte_bound(16) == 0x1_0000_0000_0000_0000_0000_0000_0000_0000) by {
        reveal_with_fuel(crate::codec::byte_bound, 17);
    }
    assert(payload.skip(payload.len() - 16) =~= uuid);
}

/// The size to compress from after a row of answers, or why the login failed on the way.
pub open spec fn threshold_after(
    threshold: Option<u32>,
    row: Seq<RawPacketView>,
    ids: PacketIds,
) -> Result<Option<u32>, LoginError>
    decreases row.len(),
{
    if row.len() == 0 {
        Ok(threshold)
    } else {
        match threshold_after(threshold, row.drop_last(), ids) {
            Err(e) => Err(e),
            Ok(before) => match login_answer(before, row.last(), ids) {
                Err(e) => Err(e),
                Ok((_, after)) => Ok(after),
            },
        }
    }
}

/// The last positive size that a row of answers announced.
pub open spec fn last_positive_size(row: Seq<RawPacketView>) -> Option<u32>
    decreases row.len(),
{
    if row.len() == 0 {
        None
    } else {
        match int_at(row.last().payload) {
            Ok((n, _)) if n > 0 => Some(n as u32),
            _ => last_positive_size(row.drop_last()),
        }
    }
}

/// Whether every answer of the row asks for compression from a size that can be read.
pub open spec fn all_ask_for_compression(row: Seq<RawPacketView>, ids: PacketIds) -> bool {
    forall|i: int|
        0 <= i < row.len() ==> (#[trigger] row[i]).id == ids.login_compression && int_at(
            row[i].payload,
        ) is Ok
}

/// However often a backend asks for compression before the login is complete, the end of the login
/// is sent with the last positive size that it announced, and uncompressed where it announced none.
pub proof fn acknowledged_as_asked(
    row: Seq<RawPacketView>,
    finished: RawPacketView,
    ids: PacketIds,
)
    requires
        all_ask_for_compression(row, ids),
        finished.id == ids.login_finished,
        ids.login_compression != ids.login_finished,
    ensures
        threshold_after(None, row, ids) == Ok::<Option<u32>, LoginError>(last_positive_size(row)),
        login_answer(last_positive_size(row), finished, ids) == Ok::<
            (LoginStepView, Option<u32>),
            LoginError,
        >(
            (
                LoginStepView::Acknowledge {
                    packet: acknowledgement(ids),
                    compression: compression_from(last_positive_size(row)),
                },
                last_positive_size(row),
            ),
        ),
    decreases row.len(),
{
    if row.len() > 0 {
        let front = row.drop_last();
        assert forall|i: int| 0 <= i < front.len() implies (#[trigger] front[i]).id
            == ids.login_compression && int_at(front[i].payload) is Ok by {
            assert(front[i] == row[i]);
        }
        assert(row[row.len() - 1].id == ids.login_compression);
        acknowledged_as_asked(front, finished, ids);
    }
}

} // verus!
