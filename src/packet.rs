//! Protocol inference and the 4-byte packet-info prefix that some tunnel
//! drivers put in front of each layer-3 frame.
use vstd::prelude::*;

verus! {

/// Linux ethertype of IPv4 in the packet-info protocol field.
pub const ETH_P_IP: u16 = 0x0800;

/// Linux ethertype of IPv6 in the packet-info protocol field.
pub const ETH_P_IPV6: u16 = 0x86DD;

/// Darwin protocol family of IPv4.
pub const PF_INET: u16 = 2;

/// Darwin protocol family of IPv6.
pub const PF_INET6: u16 = 30;

/// Length of the packet-info prefix: two bytes of flags, two of protocol.
pub const PACKET_INFO_LEN: usize = 4;

/// Protocol of a layer-3 packet, read from its version nibble.
#[derive(Debug, Clone, Copy, PartialEq, Eq, Structural)]
pub enum PacketProtocol {
    IPv4,
    IPv6,
    Other(u8),
}

/// Operating system whose tunnel driver fixes the numbering of the
/// packet-info protocol field.
#[derive(Debug, Clone, Copy, PartialEq, Eq, Structural)]
pub enum Platform {
    Linux,
    Darwin,
    Windows,
}

/// Why a packet could not be framed.
#[derive(Debug, Clone, Copy, PartialEq, Eq, Structural)]
pub enum FramingError {
    /// The payload is neither an IPv4 nor an IPv6 packet.
    UnsupportedProtocol,
    /// Packet-info framing is not implemented on this platform.
    UnsupportedPlatform,
}

/// The protocol named by the first byte of a packet.
pub open spec fn proto_of(first: u8) -> PacketProtocol {
    let version = first as int / 16;
    if version == 4 {
        PacketProtocol::IPv4
    } else if version == 6 {
        PacketProtocol::IPv6
    } else {
        PacketProtocol::Other(version as u8)
    }
}

/// The packet-info protocol value of `p` on `platform`.
pub open spec fn pi_field_of(p: PacketProtocol, platform: Platform) -> Result<u16, FramingError> {
    match platform {
        Platform::Windows => Err(FramingError::UnsupportedPlatform),
        Platform::Linux => match p {
            PacketProtocol::IPv4 => Ok(ETH_P_IP),
            PacketProtocol::IPv6 => Ok(ETH_P_IPV6),
            PacketProtocol::Other(_) => Err(FramingError::UnsupportedProtocol),
        },
        Platform::Darwin => match p {
            PacketProtocol::IPv4 => Ok(PF_INET),
            PacketProtocol::IPv6 => Ok(PF_INET6),
            PacketProtocol::Other(_) => Err(FramingError::UnsupportedProtocol),
        },
    }
}

/// The two bytes of `v` in network byte order.
pub open spec fn be_bytes(v: u16) -> Seq<u8> {
    seq![(v as int / 256) as u8, (v as int % 256) as u8]
}

/// The packet-info prefix for `payload`: flags zero, then the protocol of
/// the payload's first byte in network byte order.
pub open spec fn prefix_for(payload: Seq<u8>, platform: Platform) -> Result<Seq<u8>, FramingError> {
    if platform == Platform::Windows {
        Err(FramingError::UnsupportedPlatform)
    } else if payload.len() == 0 {
        Err(FramingError::UnsupportedProtocol)
    } else {
        match pi_field_of(proto_of(payload[0]), platform) {
            Ok(v) => Ok(seq![0u8, 0u8] + be_bytes(v)),
            Err(e) => Err(e),
        }
    }
}

impl PacketProtocol {
    /// The value of the packet-info protocol field for this protocol.
    pub fn into_pi_field(self, platform: Platform) -> (r: Result<u16, FramingError>)
        ensures
            r == pi_field_of(self, platform),
    {
        match platform {
            Platform::Windows => Err(FramingError::UnsupportedPlatform),
            Platform::Linux => match self {
                PacketProtocol::IPv4 => Ok(ETH_P_IP),
                PacketProtocol::IPv6 => Ok(ETH_P_IPV6),
                PacketProtocol::Other(_) => Err(FramingError::UnsupportedProtocol),
            },
            Platform::Darwin => match self {
                PacketProtocol::IPv4 => Ok(PF_INET),
                PacketProtocol::IPv6 => Ok(PF_INET6),
                PacketProtocol::Other(_) => Err(FramingError::UnsupportedProtocol),
            },
        }
    }
}

/// Infers the protocol from the first nibble of the packet.
pub fn infer_proto(buf: &[u8]) -> (r: PacketProtocol)
    requires
        buf@.len() > 0,
    ensures
        r == proto_of(buf@[0]),
{
    let first: u8 = buf[0];
    let version: u8 = first >> 4;
    assert(version == first / 16) by (bit_vector)
        requires
            version == first >> 4,
    ;
    match version {
        4 => PacketProtocol::IPv4,
        6 => PacketProtocol::IPv6,
        p => PacketProtocol::Other(p),
    }
}

/// An outbound packet: `inner` holds the reserved header area followed by
/// the layer-3 payload, which starts at `payload_offset`.
pub struct TunPacket {
    pub inner: Vec<u8>,
    pub payload_offset: usize,
}

impl TunPacket {
    /// Room for the packet-info prefix lies in front of the payload.
    pub open spec fn wf(&self) -> bool {
        PACKET_INFO_LEN <= self.payload_offset <= self.inner@.len()
    }

    /// The layer-3 payload.
    pub open spec fn payload(&self) -> Seq<u8> {
        self.inner@.subrange(self.payload_offset as int, self.inner@.len() as int)
    }
}

/// The bytes handed to the tunnel device for a packet with `payload`.
pub open spec fn framed(payload: Seq<u8>, has_packet_info: bool, platform: Platform) -> Result<
    Seq<u8>,
    FramingError,
> {
    if has_packet_info {
        match prefix_for(payload, platform) {
            Ok(pre) => Ok(pre + payload),
            Err(e) => Err(e),
        }
    } else {
        Ok(payload)
    }
}

/// What a reader of the device recovers from framed bytes: the bytes after
/// the prefix where there is one.
pub open spec fn unframed(bytes: Seq<u8>, has_packet_info: bool) -> Seq<u8> {
    if has_packet_info {
        bytes.subrange(PACKET_INFO_LEN as int, bytes.len() as int)
    } else {
        bytes
    }
}

/// Turns outbound packets into the bytes that the tunnel device takes.
pub struct TunZCPacketToBytes {
    /// Whether the device expects the packet-info prefix.
    pub has_packet_info: bool,
    /// The platform that numbers the prefix's protocol field.
    pub platform: Platform,
}

impl TunZCPacketToBytes {
    pub fn new(has_packet_info: bool, platform: Platform) -> (r: Self)
        ensures
            r.has_packet_info == has_packet_info,
            r.platform == platform,
    {
        TunZCPacketToBytes { has_packet_info, platform }
    }

    /// Writes the packet-info prefix into the first four bytes of `buf`,
    /// inferring the protocol from the payload that follows them. On error
    /// `buf` is left as it was.
    pub fn fill_packet_info(&self, buf: &mut [u8]) -> (r: Result<(), FramingError>)
        requires
            old(buf)@.len() >= PACKET_INFO_LEN,
        ensures
            ({
                let payload = old(buf)@.subrange(PACKET_INFO_LEN as int, old(buf)@.len() as int);
                match prefix_for(payload, self.platform) {
                    Ok(pre) => r is Ok && final(buf)@ == pre + payload,
                    Err(e) => r == Err::<(), FramingError>(e) && final(buf)@ == old(buf)@,
                }
            }),
    {
        let ghost payload = buf@.subrange(PACKET_INFO_LEN as int, buf@.len() as int);
        if self.platform == Platform::Windows {
            return Err(FramingError::UnsupportedPlatform);
        }
        let n = buf.len();
        if n == PACKET_INFO_LEN {
            return Err(FramingError::UnsupportedProtocol);
        }
        let proto = infer_proto(&buf[PACKET_INFO_LEN..n]);
        let field = match proto.into_pi_field(self.platform) {
            Ok(v) => v,
            Err(e) => return Err(e),
        };
        // flags are always zero, whatever the byte order
        buf[0] = 0;
        buf[1] = 0;
        // the protocol goes in network byte order
        buf[2] = (field / 256) as u8;
        buf[3] = (field % 256) as u8;
        assert(buf@ =~= seq![0u8, 0u8] + be_bytes(field) + payload);
        Ok(())
    }

    /// The bytes of `packet` for the device: the payload, behind the
    /// packet-info prefix written in place where the device expects one.
    pub fn into_bytes(&self, packet: TunPacket) -> (r: Result<Vec<u8>, FramingError>)
        requires
            packet.wf(),
        ensures
            match framed(packet.payload(), self.has_packet_info, self.platform) {
                Ok(bytes) => r is Ok && r->Ok_0@ == bytes,
                Err(e) => r is Err && r->Err_0 == e,
            },
    {
        let payload_offset = packet.payload_offset;
        let mut inner = packet.inner;
        if self.has_packet_info {
            let mut out = inner.split_off(payload_offset - PACKET_INFO_LEN);
            assert(out@.subrange(PACKET_INFO_LEN as int, out@.len() as int) =~= packet.payload());
            let res = self.fill_packet_info(out.as_mut_slice());
            match res {
                Ok(()) => Ok(out),
                Err(e) => Err(e),
            }
        } else {
            let out = inner.split_off(payload_offset);
            Ok(out)
        }
    }
}

/// With the prefix on, the framed bytes of an IPv4 or IPv6 payload start
/// with two zero flag bytes, then the protocol value of the inferred
/// protocol in network byte order, then the payload.
pub proof fn lemma_prefix_layout(payload: Seq<u8>, platform: Platform)
    requires
        payload.len() > 0,
        platform != Platform::Windows,
        proto_of(payload[0]) is IPv4 || proto_of(payload[0]) is IPv6,
    ensures
        framed(payload, true, platform) is Ok,
        pi_field_of(proto_of(payload[0]), platform) is Ok,
        ({
            let out = framed(payload, true, platform)->Ok_0;
            let v = pi_field_of(proto_of(payload[0]), platform)->Ok_0;
            &&& out.len() == payload.len() + PACKET_INFO_LEN
            &&& out[0] == 0u8 && out[1] == 0u8
            &&& out.subrange(2, 4) == be_bytes(v)
            &&& out.subrange(PACKET_INFO_LEN as int, out.len() as int) == payload
        }),
{
    let out = framed(payload, true, platform)->Ok_0;
    let v = pi_field_of(proto_of(payload[0]), platform)->Ok_0;
    assert(out.subrange(2, 4) =~= be_bytes(v));
    assert(out.subrange(PACKET_INFO_LEN as int, out.len() as int) =~= payload);
}

/// With the prefix off, the framed bytes are the payload, verbatim.
pub proof fn lemma_no_prefix_verbatim(payload: Seq<u8>, platform: Platform)
    ensures
        framed(payload, false, platform) == Ok::<Seq<u8>, FramingError>(payload),
{
}

/// Framing an IPv4 or IPv6 payload and then stripping the prefix, where
/// there is one, gives back the payload.
pub proof fn lemma_frame_round_trip(payload: Seq<u8>, has_packet_info: bool, platform: Platform)
    requires
        payload.len() > 0,
        proto_of(payload[0]) is IPv4 || proto_of(payload[0]) is IPv6,
        has_packet_info ==> platform != Platform::Windows,
    ensures
        framed(payload, has_packet_info, platform) is Ok,
        unframed(framed(payload, has_packet_info, platform)->Ok_0, has_packet_info) == payload,
{
    if has_packet_info {
        lemma_prefix_layout(payload, platform);
    }
}

} // verus!
