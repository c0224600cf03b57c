//! Network play: packets on the wire, the link's socket and the two session
//! roles.
//!
//! The host owns the match: each tick it takes the follower's latest input,
//! advances the state and sends it out. The follower sends its input and
//! shows whatever state it received last. Datagrams may be lost; one that
//! does not have the length of the record awaited is dropped.
//!
//! The Ethernet interface is polled by the caller, once a frame. What the
//! poll put into the socket is taken out here, and what is to be sent is put
//! into the socket here for the next poll to send.

pub mod local;
pub mod packets;

pub use self::packets::BallPacket;
pub use self::packets::GamestatePacket;
pub use self::packets::InputPacket;
pub use self::packets::RacketPacket;
pub use self::packets::WhoamiPacket;
use self::packets::{spec_new_gamestate, Serializable};
use smoltcp::socket::{Socket, SocketSet, UdpPacketMetadata, UdpSocket, UdpSocketBuffer};
use smoltcp::wire::{IpAddress, IpEndpoint};
use vstd::prelude::*;

verus! {

/// The port both boards listen on.
pub const PORT: u16 = 2018;

/// The number of datagrams the link's socket holds until they are taken out.
pub const UDP_RX_PACKETS: usize = 3;

/// The number of bytes those datagrams may have in all.
pub const UDP_RX_BYTES: usize = 256;

/// The number of datagrams the link's socket holds until they are sent.
pub const UDP_TX_PACKETS: usize = 1;

/// The number of bytes those datagrams may have in all.
pub const UDP_TX_BYTES: usize = 128;

/// smoltcp's set of sockets. Nothing inside it is visible here.
#[verifier::external_type_specification]
#[verifier::external_body]
pub struct ExSocketSet<'a>(SocketSet<'a>);

/// smoltcp's error, with its variants.
#[verifier::external_type_specification]
pub struct ExError(smoltcp::Error);

/// The datagrams received and not yet taken out, oldest first: the payloads
/// in the receive buffer of the set's first socket where that is a UDP
/// socket, and none where it is not or the set is empty.
pub uninterp spec fn spec_received(sockets: SocketSet<'static>) -> Seq<Seq<u8>>;

/// The datagrams taken for sending and not yet sent, oldest first: the
/// payloads in the transmit buffer of the set's first UDP socket, and none
/// where the set has no UDP socket.
pub uninterp spec fn spec_to_send(sockets: SocketSet<'static>) -> Seq<Seq<u8>>;

/// What the UDP sockets of the set, in the set's order, answer when handed
/// a datagram for an address and port: `true` where `UdpSocket::send_slice`
/// gives `Ok`. A socket takes a datagram when it is bound, the address and
/// the port are specified and its transmit buffer has room for the datagram.
pub uninterp spec fn spec_send_taken(
    sockets: SocketSet<'static>,
    address: Seq<u8>,
    port: u16,
    data: Seq<u8>,
) -> Seq<bool>;

/// `UdpSocketBuffer::new` for each direction, `UdpSocket::new`,
/// `UdpSocket::bind`, `SocketSet::new` over an empty `Vec` and
/// `SocketSet::add`: a set with one UDP socket, bound to an address and
/// port, that holds so many datagrams of so many bytes in all each way.
///
/// Claimed of them: the socket is the set's first, and nothing is in its
/// buffers. `bind` refuses port 0 and a socket bound before; the port is
/// asked to be another and the socket is new.
#[verifier::external_body]
fn bound_socket_set(
    ip_addr: [u8; 4],
    port: u16,
    rx_packets: usize,
    rx_bytes: usize,
    tx_packets: usize,
    tx_bytes: usize,
) -> (sockets: SocketSet<'static>)
    requires
        port != 0,
    ensures
        spec_received(sockets).len() == 0,
        spec_to_send(sockets).len() == 0,
{
    let rx = UdpSocketBuffer::new(vec![UdpPacketMetadata::EMPTY; rx_packets], vec![0u8; rx_bytes]);
    let tx = UdpSocketBuffer::new(vec![UdpPacketMetadata::EMPTY; tx_packets], vec![0u8; tx_bytes]);
    let mut udp_socket = UdpSocket::new(rx, tx);
    let ip = IpAddress::v4(ip_addr[0], ip_addr[1], ip_addr[2], ip_addr[3]);
    udp_socket.bind(IpEndpoint::new(ip, port)).unwrap();
    let mut sockets = SocketSet::new(Vec::new());
    sockets.add(udp_socket);
    sockets
}

/// `SocketSet::iter_mut` as far as its first socket, and `UdpSocket::recv`
/// on that socket where it is a UDP socket.
///
/// Claimed of them: the oldest datagram in that socket's receive buffer is
/// taken out and returned; an empty buffer gives `Error::Exhausted` and no
/// other error occurs; with no socket, or another kind of socket first,
/// nothing is returned; the transmit buffer is not touched.
#[verifier::external_body]
fn recv_first(sockets: &mut SocketSet<'static>) -> (result: Result<Option<Vec<u8>>, smoltcp::Error>)
    ensures
        spec_received(*old(sockets)).len() > 0 ==> {
            &&& result matches Ok(Some(data))
            &&& data@ == spec_received(*old(sockets))[0]
            &&& spec_received(*final(sockets)) == spec_received(*old(sockets)).drop_first()
        },
        spec_received(*old(sockets)).len() == 0 ==> {
            &&& result == Ok::<Option<Vec<u8>>, smoltcp::Error>(None) || result == Err::<
                Option<Vec<u8>>,
                smoltcp::Error,
            >(smoltcp::Error::Exhausted)
            &&& spec_received(*final(sockets)) == spec_received(*old(sockets))
        },
        spec_to_send(*final(sockets)) == spec_to_send(*old(sockets)),
{
    for mut socket in sockets.iter_mut() {
        return match *socket {
            Socket::Udp(ref mut udp) => match udp.recv() {
                Ok((data, _remote_endpoint)) => Ok(Some(Vec::from(data))),
                Err(err) => Err(err),
            },
            _ => Ok(None),
        };
    }
    Ok(None)
}

/// `UdpSocket::send_slice` on every UDP socket of the set, towards one
/// address and port. Returns, socket by socket, whether the datagram was
/// taken.
///
/// Claimed of it: a socket that answers `Ok` has taken the datagram whole,
/// behind those it holds for sending; one that answers with an error, for
/// want of room or of an address, is left as it was; the receive buffers are
/// not touched.
#[verifier::external_body]
fn send_slice_all(sockets: &mut SocketSet<'static>, address: [u8; 4], port: u16, data: &[u8]) -> (taken:
    Vec<bool>)
    ensures
        taken@ == spec_send_taken(*old(sockets), address@, port, data@),
        spec_to_send(*final(sockets)) == if taken@.len() > 0 && taken@[0] {
            spec_to_send(*old(sockets)).push(data@)
        } else {
            spec_to_send(*old(sockets))
        },
        spec_received(*final(sockets)) == spec_received(*old(sockets)),
{
    let ip = IpAddress::v4(address[0], address[1], address[2], address[3]);
    let endpoint = IpEndpoint::new(ip, port);
    let mut taken = Vec::new();
    for mut socket in sockets.iter_mut() {
        match *socket {
            Socket::Udp(ref mut udp) => taken.push(udp.send_slice(data, endpoint).is_ok()),
            _ => {},
        }
    }
    taken
}

/// The socket of the link takes a datagram for the partner: the set's first
/// UDP socket answers `Ok` to it.
pub open spec fn spec_datagram_taken(
    sockets: SocketSet<'static>,
    partner_ip_addr: [u8; 4],
    data: Seq<u8>,
) -> bool {
    let taken = spec_send_taken(sockets, partner_ip_addr@, PORT, data);
    taken.len() > 0 && taken[0]
}

/// Why the link brought no datagram.
#[derive(Debug, Copy, Clone, PartialEq, Eq)]
pub enum NetworkError {
    /// A buffer is empty or full: the everyday case of nothing to receive.
    Exhausted,
    Illegal,
    Unaddressable,
    Finished,
    Truncated,
    Checksum,
    Unrecognized,
    Fragmented,
    Malformed,
    Dropped,
    /// A fault this program has no name for.
    Other,
}

/// The library's name for a fault of the link.
pub open spec fn spec_network_error(error: smoltcp::Error) -> NetworkError {
    match error {
        smoltcp::Error::Exhausted => NetworkError::Exhausted,
        smoltcp::Error::Illegal => NetworkError::Illegal,
        smoltcp::Error::Unaddressable => NetworkError::Unaddressable,
        smoltcp::Error::Finished => NetworkError::Finished,
        smoltcp::Error::Truncated => NetworkError::Truncated,
        smoltcp::Error::Checksum => NetworkError::Checksum,
        smoltcp::Error::Unrecognized => NetworkError::Unrecognized,
        smoltcp::Error::Fragmented => NetworkError::Fragmented,
        smoltcp::Error::Malformed => NetworkError::Malformed,
        smoltcp::Error::Dropped => NetworkError::Dropped,
        _ => NetworkError::Other,
    }
}

impl NetworkError {
    /// Names a fault of the link.
    pub fn from_link(error: smoltcp::Error) -> (result: NetworkError)
        ensures
            result == spec_network_error(error),
    {
        match error {
            smoltcp::Error::Exhausted => NetworkError::Exhausted,
            smoltcp::Error::Illegal => NetworkError::Illegal,
            smoltcp::Error::Unaddressable => NetworkError::Unaddressable,
            smoltcp::Error::Finished => NetworkError::Finished,
            smoltcp::Error::Truncated => NetworkError::Truncated,
            smoltcp::Error::Checksum => NetworkError::Checksum,
            smoltcp::Error::Unrecognized => NetworkError::Unrecognized,
            smoltcp::Error::Fragmented => NetworkError::Fragmented,
            smoltcp::Error::Malformed => NetworkError::Malformed,
            smoltcp::Error::Dropped => NetworkError::Dropped,
            _ => NetworkError::Other,
        }
    }
}

/// The link as the sessions see it: one socket towards one partner.
pub struct Network {
    pub sockets: SocketSet<'static>,
    pub partner_ip_addr: [u8; 4],
}

/// What a frame gets from the link.
#[derive(Debug, Clone, PartialEq, Eq)]
pub struct Received {
    /// The datagram, if one was there.
    pub datagram: Option<Vec<u8>>,
    /// The fault to report, if there was one. That nothing was there to
    /// receive is no fault.
    pub fault: Option<NetworkError>,
}

/// What taking a datagram out gives after a poll of the interface said
/// `polled`: after a poll that went well, the oldest datagram queued, and
/// nothing only where none is queued; after a failed poll, nothing.
pub open spec fn spec_get_udp_packet(
    received: Seq<Seq<u8>>,
    polled: Result<bool, smoltcp::Error>,
) -> Option<Seq<u8>> {
    if polled is Ok && received.len() > 0 {
        Some(received[0])
    } else {
        None
    }
}

/// The fault that taking a datagram out reports after a poll of the
/// interface said `polled`: the poll's own, unless it is only that nothing
/// was there.
pub open spec fn spec_fault(polled: Result<bool, smoltcp::Error>) -> Option<NetworkError> {
    match polled {
        Ok(_) => None,
        Err(error) => if error == smoltcp::Error::Exhausted {
            None
        } else {
            Some(spec_network_error(error))
        },
    }
}

impl Network {
    /// The link of a board with the address `ip_addr`, towards the partner:
    /// one UDP socket on `PORT`, with nothing received and nothing to send.
    pub fn open(ip_addr: [u8; 4], partner_ip_addr: [u8; 4]) -> (result: Network)
        ensures
            spec_received(result.sockets).len() == 0,
            spec_to_send(result.sockets).len() == 0,
            result.partner_ip_addr == partner_ip_addr,
    {
        let sockets = bound_socket_set(
            ip_addr,
            PORT,
            UDP_RX_PACKETS,
            UDP_RX_BYTES,
            UDP_TX_PACKETS,
            UDP_TX_BYTES,
        );
        Network { sockets, partner_ip_addr }
    }

    /// The link over a set that holds the socket, towards the partner.
    pub fn new(sockets: SocketSet<'static>, partner_ip_addr: [u8; 4]) -> (result: Network)
        ensures
            result.sockets == sockets,
            result.partner_ip_addr == partner_ip_addr,
    {
        Network { sockets, partner_ip_addr }
    }

    /// Takes the oldest datagram out of the socket, after a poll of the
    /// interface, whether or not the poll saw a socket change. Later
    /// datagrams stay for later calls, in the order they came. A failed poll
    /// gives its fault and leaves the socket alone.
    pub fn get_udp_packet(&mut self, polled: Result<bool, smoltcp::Error>) -> (result: Result<
        Option<Vec<u8>>,
        NetworkError,
    >)
        ensures
            final(self).partner_ip_addr == old(self).partner_ip_addr,
            spec_to_send(final(self).sockets) == spec_to_send(old(self).sockets),
            polled matches Err(error) ==> {
                &&& result == Err::<Option<Vec<u8>>, NetworkError>(spec_network_error(error))
                &&& spec_received(final(self).sockets) == spec_received(old(self).sockets)
            },
            polled is Ok ==> {
                &&& spec_payload_of(result) == spec_get_udp_packet(
                    spec_received(old(self).sockets),
                    polled,
                )
                &&& result matches Err(error) ==> error == NetworkError::Exhausted
                &&& spec_received(final(self).sockets) == if spec_get_udp_packet(
                    spec_received(old(self).sockets),
                    polled,
                ) is Some {
                    spec_received(old(self).sockets).drop_first()
                } else {
                    spec_received(old(self).sockets)
                }
            },
    {
        match polled {
            Err(e) => Err(NetworkError::from_link(e)),
            Ok(_socket_changed) => match recv_first(&mut self.sockets) {
                Ok(value) => Ok(value),
                Err(e) => Err(NetworkError::from_link(e)),
            },
        }
    }

    /// What a session is handed for one frame: the oldest datagram or
    /// nothing, never a wait. That nothing was there is no fault; any other
    /// fault is handed on to be reported, and the frame goes on without a
    /// datagram.
    pub fn try_receive(&mut self, polled: Result<bool, smoltcp::Error>) -> (result: Received)
        ensures
            final(self).partner_ip_addr == old(self).partner_ip_addr,
            spec_to_send(final(self).sockets) == spec_to_send(old(self).sockets),
            spec_payload(result.datagram) == spec_get_udp_packet(
                spec_received(old(self).sockets),
                polled,
            ),
            result.fault == spec_fault(polled),
            spec_received(final(self).sockets) == if result.datagram is Some {
                spec_received(old(self).sockets).drop_first()
            } else {
                spec_received(old(self).sockets)
            },
    {
        match self.get_udp_packet(polled) {
            Ok(value) => Received { datagram: value, fault: None },
            Err(NetworkError::Exhausted) => Received { datagram: None, fault: None },
            Err(e) => Received { datagram: None, fault: Some(e) },
        }
    }

    /// Hands a datagram to the socket, for the partner. Best effort: a
    /// datagram that the socket takes is queued behind those waiting to be
    /// sent; one that it does not take, for want of room, is lost, and
    /// nothing says so.
    pub fn send_udp_packet(&mut self, data: &[u8])
        ensures
            final(self).partner_ip_addr == old(self).partner_ip_addr,
            spec_received(final(self).sockets) == spec_received(old(self).sockets),
            spec_to_send(final(self).sockets) == if spec_datagram_taken(
                old(self).sockets,
                old(self).partner_ip_addr,
                data@,
            ) {
                spec_to_send(old(self).sockets).push(data@)
            } else {
                spec_to_send(old(self).sockets)
            },
    {
        let _taken = send_slice_all(&mut self.sockets, self.partner_ip_addr, PORT, data);
    }
}

/// The bytes of the datagram in what taking one out gave.
pub open spec fn spec_payload_of(result: Result<Option<Vec<u8>>, NetworkError>) -> Option<Seq<u8>> {
    match result {
        Ok(value) => spec_payload(value),
        Err(_) => None,
    }
}

/// The bytes of a datagram, if a poll of the link brought one.
pub open spec fn spec_payload(received: Option<Vec<u8>>) -> Option<Seq<u8>> {
    match received {
        Some(data) => Some(data@),
        None => None,
    }
}

/// The follower's input as the host holds it after a poll: a datagram of an
/// input's length replaces it, anything else leaves it as it was.
pub open spec fn spec_accept_input(current: InputPacket, received: Option<Seq<u8>>) -> InputPacket {
    match received {
        Some(data) => if data.len() == InputPacket::spec_len() {
            InputPacket::spec_deserialize(data)
        } else {
            current
        },
        None => current,
    }
}

/// The state as the follower holds it after a poll: a datagram of a state's
/// length replaces it, anything else leaves it as it was.
pub open spec fn spec_accept_gamestate(
    current: GamestatePacket,
    received: Option<Seq<u8>>,
) -> GamestatePacket {
    match received {
        Some(data) => if data.len() == GamestatePacket::spec_len() {
            GamestatePacket::spec_deserialize(data)
        } else {
            current
        },
        None => current,
    }
}

/// A poll brought the follower's handshake.
pub open spec fn spec_is_client_hello(received: Option<Seq<u8>>) -> bool {
    match received {
        Some(data) => data.len() == WhoamiPacket::spec_len() && !WhoamiPacket::spec_deserialize(
            data,
        ).is_server,
        None => false,
    }
}

/// A poll brought a datagram long enough to be a state: the host is there,
/// perhaps already streaming.
pub open spec fn spec_is_server_stream(received: Option<Seq<u8>>) -> bool {
    match received {
        Some(data) => data.len() >= GamestatePacket::spec_len(),
        None => false,
    }
}

/// The state the follower holds after a run of polls, oldest first.
pub open spec fn spec_follow(
    current: GamestatePacket,
    polls: Seq<Option<Seq<u8>>>,
) -> GamestatePacket
    decreases polls.len(),
{
    if polls.len() == 0 {
        current
    } else {
        spec_accept_gamestate(spec_follow(current, polls.drop_last()), polls.last())
    }
}

/// The follower's side of a session.
pub trait Client {
    /// The datagram that carries the local input to the host.
    fn send_input(&mut self, input: &InputPacket) -> Vec<u8>;

    /// Takes what a poll brought and gives the state to show.
    fn receive_gamestate(&mut self, received: Option<Vec<u8>>) -> GamestatePacket;

    /// Whether what a poll brought shows that the host is there.
    fn is_server_connected(&mut self, received: Option<Vec<u8>>) -> bool;

    /// The datagram that announces the follower.
    fn send_whoami(&mut self) -> Vec<u8>;
}

/// The host's side of a session.
pub trait Server {
    /// Takes what a poll brought and gives the follower's input to play with.
    fn receive_input(&mut self, received: Option<Vec<u8>>) -> InputPacket;

    /// The datagram that carries the state to the follower.
    fn send_gamestate(&mut self, gamestate: &GamestatePacket) -> Vec<u8>;

    /// Whether what a poll brought shows that the follower is there.
    fn is_client_connected(&mut self, received: Option<Vec<u8>>) -> bool;

    /// The datagram that announces the host.
    fn send_whoami(&mut self) -> Vec<u8>;
}

/// The host: it remembers the follower's last input.
pub struct EthServer {
    pub player_input: InputPacket,
}

impl Server for EthServer {
    fn receive_input(&mut self, received: Option<Vec<u8>>) -> (result: InputPacket)
        ensures
            final(self).player_input == spec_accept_input(
                old(self).player_input,
                spec_payload(received),
            ),
            result == final(self).player_input,
    {
        match received {
            Some(data) => {
                if data.len() == InputPacket::len() {
                    self.player_input = InputPacket::deserialize(data.as_slice());
                }
            },
            None => {},
        }
        self.player_input
    }

    fn send_gamestate(&mut self, gamestate: &GamestatePacket) -> (result: Vec<u8>)
        ensures
            result@ == gamestate.spec_serialize(),
            *final(self) == *old(self),
    {
        gamestate.serialize()
    }

    fn is_client_connected(&mut self, received: Option<Vec<u8>>) -> (result: bool)
        ensures
            result == spec_is_client_hello(spec_payload(received)),
            *final(self) == *old(self),
    {
        match received {
            Some(data) => {
                if data.len() == WhoamiPacket::len() {
                    let whoami = WhoamiPacket::deserialize(data.as_slice());
                    if whoami.is_server == false {
                        return true;
                    }
                }
            },
            None => {},
        }
        false
    }

    fn send_whoami(&mut self) -> (result: Vec<u8>)
        ensures
            result@ == (WhoamiPacket { is_server: true }).spec_serialize(),
            *final(self) == *old(self),
    {
        WhoamiPacket { is_server: true }.serialize()
    }
}

impl EthServer {
    /// A host that has heard nothing yet: the follower's paddle is asked to
    /// the middle of the field.
    pub fn new() -> (result: EthServer)
        ensures
            result.player_input.goal_y == 136,
    {
        EthServer { player_input: InputPacket::new() }
    }
}

/// The follower: it remembers the last state the host sent.
pub struct EthClient {
    pub gamestate: GamestatePacket,
}

impl Client for EthClient {
    fn send_input(&mut self, input: &InputPacket) -> (result: Vec<u8>)
        ensures
            result@ == input.spec_serialize(),
            *final(self) == *old(self),
    {
        input.serialize()
    }

    fn receive_gamestate(&mut self, received: Option<Vec<u8>>) -> (result: GamestatePacket)
        ensures
            final(self).gamestate == spec_accept_gamestate(
                old(self).gamestate,
                spec_payload(received),
            ),
            result == final(self).gamestate,
    {
        match received {
            Some(data) => {
                if data.len() == GamestatePacket::len() {
                    self.gamestate = GamestatePacket::deserialize(data.as_slice());
                }
            },
            None => {},
        }
        self.gamestate
    }

    fn is_server_connected(&mut self, received: Option<Vec<u8>>) -> (result: bool)
        ensures
            result == spec_is_server_stream(spec_payload(received)),
            *final(self) == *old(self),
    {
        match received {
            Some(data) => {
                if data.len() >= GamestatePacket::len() {
                    return true;
                }
            },
            None => {},
        }
        false
    }

    fn send_whoami(&mut self) -> (result: Vec<u8>)
        ensures
            result@ == (WhoamiPacket { is_server: false }).spec_serialize(),
            *final(self) == *old(self),
    {
        WhoamiPacket { is_server: false }.serialize()
    }
}

impl EthClient {
    /// A follower that has heard nothing yet: it shows the opening position.
    pub fn new() -> (result: EthClient)
        ensures
            result.gamestate == spec_new_gamestate(0),
    {
        EthClient { gamestate: GamestatePacket::new(0) }
    }
}

/// Loss is harmless to the follower: while no poll brings a datagram the
/// state it holds, and so the picture it shows, stays exactly as it was.
pub proof fn lemma_follow_through_silence(current: GamestatePacket, polls: Seq<Option<Seq<u8>>>)
    requires
        forall|i: int| 0 <= i < polls.len() ==> polls[i] is None,
    ensures
        spec_follow(current, polls) == current,
    decreases polls.len(),
{
    if polls.len() > 0 {
        lemma_follow_through_silence(current, polls.drop_last());
    }
}

/// A datagram of any length but a state's changes nothing for the follower.
pub proof fn lemma_follower_drops_other_lengths(current: GamestatePacket, data: Seq<u8>)
    requires
        data.len() != GamestatePacket::spec_len(),
    ensures
        spec_accept_gamestate(current, Some(data)) == current,
{
}

/// What the host sends is what the follower then holds: a state that is
/// serialised, carried and accepted arrives unchanged.
pub proof fn lemma_follower_receives_state(current: GamestatePacket, sent: GamestatePacket)
    ensures
        spec_accept_gamestate(current, Some(sent.spec_serialize())) == sent,
{
    sent.lemma_round_trip();
}

/// What the follower sends is what the host then holds.
pub proof fn lemma_host_receives_input(current: InputPacket, sent: InputPacket)
    ensures
        spec_accept_input(current, Some(sent.spec_serialize())) == sent,
{
    sent.lemma_round_trip();
}

} // verus!
