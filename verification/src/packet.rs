use vstd::prelude::*;
use vstd::slice::slice_subrange;
use crate::addr::IpAddrRepr;
use crate::error::StackError;

verus! {

/// An owned buffer carrying exactly one IP datagram.
pub type AnyIpPktFrame = Vec<u8>;

/// Protocol numbers of the IP next-protocol field that the stack routes.
pub const PROTO_ICMP: u8 = 1;

pub const PROTO_TCP: u8 = 6;

pub const PROTO_UDP: u8 = 17;

pub const PROTO_ICMPV6: u8 = 58;

/// A 16-bit big-endian quantity read from two bytes.
pub open spec fn be16(hi: u8, lo: u8) -> int {
    hi * 256 + lo
}

/// The header length in bytes an IPv4 header declares.
pub open spec fn ipv4_header_len(s: Seq<u8>) -> int {
    (s[0] % 16) * 4
}

/// The total length in bytes an IPv4 header declares.
pub open spec fn ipv4_total_len(s: Seq<u8>) -> int {
    be16(s[2], s[3])
}

/// A self-consistent IPv4 header: version nibble 4, a header length of at
/// least the fixed 20 bytes, and header, total and buffer lengths in order.
pub open spec fn ipv4_ok(s: Seq<u8>) -> bool {
    &&& s.len() >= 20
    &&& s[0] / 16 == 4
    &&& ipv4_header_len(s) >= 20
    &&& ipv4_header_len(s) <= ipv4_total_len(s)
    &&& ipv4_total_len(s) <= s.len()
}

/// The length in bytes an IPv6 header says its payload has.
pub open spec fn ipv6_payload_len(s: Seq<u8>) -> int {
    be16(s[4], s[5])
}

/// A self-consistent IPv6 header: version nibble 6, the fixed 40-byte
/// header, and the declared payload contained in the buffer.
pub open spec fn ipv6_ok(s: Seq<u8>) -> bool {
    &&& s.len() >= 40
    &&& s[0] / 16 == 6
    &&& 40 + ipv6_payload_len(s) <= s.len()
}

/// The frame parses as exactly one IP datagram of either version.
pub open spec fn ip_ok(s: Seq<u8>) -> bool {
    if s.len() == 0 {
        false
    } else if s[0] / 16 == 4 {
        ipv4_ok(s)
    } else if s[0] / 16 == 6 {
        ipv6_ok(s)
    } else {
        false
    }
}

pub open spec fn ip_src(s: Seq<u8>) -> IpAddrRepr {
    if s[0] / 16 == 4 {
        IpAddrRepr::V4([s[12], s[13], s[14], s[15]])
    } else {
        IpAddrRepr::V6(
            [
                s[8],
                s[9],
                s[10],
                s[11],
                s[12],
                s[13],
                s[14],
                s[15],
                s[16],
                s[17],
                s[18],
                s[19],
                s[20],
                s[21],
                s[22],
                s[23],
            ],
        )
    }
}

pub open spec fn ip_dst(s: Seq<u8>) -> IpAddrRepr {
    if s[0] / 16 == 4 {
        IpAddrRepr::V4([s[16], s[17], s[18], s[19]])
    } else {
        IpAddrRepr::V6(
            [
                s[24],
                s[25],
                s[26],
                s[27],
                s[28],
                s[29],
                s[30],
                s[31],
                s[32],
                s[33],
                s[34],
                s[35],
                s[36],
                s[37],
                s[38],
                s[39],
            ],
        )
    }
}

/// The next-protocol (IPv4 protocol / IPv6 next-header) field.
pub open spec fn ip_proto(s: Seq<u8>) -> u8 {
    if s[0] / 16 == 4 {
        s[9]
    } else {
        s[6]
    }
}

/// The transport payload the IP header delimits.
pub open spec fn ip_payload(s: Seq<u8>) -> Seq<u8> {
    if s[0] / 16 == 4 {
        s.subrange(ipv4_header_len(s), ipv4_total_len(s))
    } else {
        s.subrange(40, 40 + ipv6_payload_len(s))
    }
}

/// A borrowed, tagged view over one IP frame; it exists only for frames
/// whose header is self-consistent.
pub enum IpPacket<'a> {
    Ipv4(&'a [u8]),
    Ipv6(&'a [u8]),
}

impl<'a> IpPacket<'a> {
    pub open spec fn buf(self) -> Seq<u8> {
        match self {
            IpPacket::Ipv4(d) => d@,
            IpPacket::Ipv6(d) => d@,
        }
    }

    /// The view is well formed: the bytes parse, and the tag matches the
    /// version nibble.
    pub open spec fn wf(self) -> bool {
        &&& ip_ok(self.buf())
        &&& (self is Ipv4 <==> self.buf()[0] / 16 == 4)
    }

    /// Parses one frame; succeeds exactly on self-consistent IPv4/IPv6
    /// headers, and returns a view over the same bytes.
    pub fn new_checked(data: &'a [u8]) -> (r: Result<IpPacket<'a>, StackError>)
        ensures
            r is Ok <==> ip_ok(data@),
            r is Ok ==> r->Ok_0.wf() && r->Ok_0.buf() == data@,
    {
        if data.len() == 0 {
            return Err(StackError::InvalidInput);
        }
        let v: u8 = data[0] / 16;
        if v == 4 {
            if data.len() < 20 {
                return Err(StackError::InvalidInput);
            }
            let hl: u16 = (data[0] % 16) as u16 * 4;
            let tl: u16 = (data[2] as u16) * 256 + (data[3] as u16);
            if hl >= 20 && hl <= tl && (tl as usize) <= data.len() {
                Ok(IpPacket::Ipv4(data))
            } else {
                Err(StackError::InvalidInput)
            }
        } else if v == 6 {
            if data.len() < 40 {
                return Err(StackError::InvalidInput);
            }
            let pl: usize = (data[4] as usize) * 256 + (data[5] as usize);
            if 40 + pl <= data.len() {
                Ok(IpPacket::Ipv6(data))
            } else {
                Err(StackError::InvalidInput)
            }
        } else {
            Err(StackError::InvalidInput)
        }
    }

    pub fn src_addr(&self) -> (r: IpAddrRepr)
        requires
            self.wf(),
        ensures
            r == ip_src(self.buf()),
    {
        match self {
            IpPacket::Ipv4(d) => IpAddrRepr::V4([d[12], d[13], d[14], d[15]]),
            IpPacket::Ipv6(d) => IpAddrRepr::V6(
                [
                    d[8],
                    d[9],
                    d[10],
                    d[11],
                    d[12],
                    d[13],
                    d[14],
                    d[15],
                    d[16],
                    d[17],
                    d[18],
                    d[19],
                    d[20],
                    d[21],
                    d[22],
                    d[23],
                ],
            ),
        }
    }

    pub fn dst_addr(&self) -> (r: IpAddrRepr)
        requires
            self.wf(),
        ensures
            r == ip_dst(self.buf()),
    {
        match self {
            IpPacket::Ipv4(d) => IpAddrRepr::V4([d[16], d[17], d[18], d[19]]),
            IpPacket::Ipv6(d) => IpAddrRepr::V6(
                [
                    d[24],
                    d[25],
                    d[26],
                    d[27],
                    d[28],
                    d[29],
                    d[30],
                    d[31],
                    d[32],
                    d[33],
                    d[34],
                    d[35],
                    d[36],
                    d[37],
                    d[38],
                    d[39],
                ],
            ),
        }
    }

    pub fn protocol(&self) -> (r: u8)
        requires
            self.wf(),
        ensures
            r == ip_proto(self.buf()),
    {
        match self {
            IpPacket::Ipv4(d) => d[9],
            IpPacket::Ipv6(d) => d[6],
        }
    }

    pub fn payload(&self) -> (r: &'a [u8])
        requires
            self.wf(),
        ensures
            r@ == ip_payload(self.buf()),
    {
        match self {
            IpPacket::Ipv4(d) => {
                let hl: usize = (d[0] % 16) as usize * 4;
                let tl: usize = (d[2] as usize) * 256 + (d[3] as usize);
                slice_subrange(d, hl, tl)
            },
            IpPacket::Ipv6(d) => {
                let pl: usize = (d[4] as usize) * 256 + (d[5] as usize);
                slice_subrange(d, 40, 40 + pl)
            },
        }
    }
}

/// The TCP header length in bytes its data-offset nibble declares.
pub open spec fn tcp_header_len(p: Seq<u8>) -> int {
    (p[12] / 16) * 4
}

/// A self-consistent TCP header within the buffer.
pub open spec fn tcp_ok(p: Seq<u8>) -> bool {
    &&& p.len() >= 20
    &&& tcp_header_len(p) >= 20
    &&& tcp_header_len(p) <= p.len()
}

pub open spec fn tcp_src_port(p: Seq<u8>) -> int {
    be16(p[0], p[1])
}

pub open spec fn tcp_dst_port(p: Seq<u8>) -> int {
    be16(p[2], p[3])
}

/// The SYN flag: bit 1 of the flags byte.
pub open spec fn tcp_syn(p: Seq<u8>) -> bool {
    p[13] / 2 % 2 == 1
}

/// The ACK flag: bit 4 of the flags byte.
pub open spec fn tcp_ack(p: Seq<u8>) -> bool {
    p[13] / 16 % 2 == 1
}

/// The fields of a TCP header that demultiplexing reads.
pub struct TcpHeaderInfo {
    pub src_port: u16,
    pub dst_port: u16,
    pub syn: bool,
    pub ack: bool,
}

/// Reads ports and the SYN/ACK flags from a transport payload; succeeds
/// exactly when the TCP header is self-consistent.
pub fn parse_tcp_header(p: &[u8]) -> (r: Option<TcpHeaderInfo>)
    ensures
        r is Some <==> tcp_ok(p@),
        r matches Some(h) ==> {
            &&& h.src_port == tcp_src_port(p@)
            &&& h.dst_port == tcp_dst_port(p@)
            &&& h.syn == tcp_syn(p@)
            &&& h.ack == tcp_ack(p@)
        },
{
    if p.len() < 20 {
        return None;
    }
    let hl: u16 = (p[12] / 16) as u16 * 4;
    if hl < 20 || (hl as usize) > p.len() {
        return None;
    }
    Some(
        TcpHeaderInfo {
            src_port: (p[0] as u16) * 256 + (p[1] as u16),
            dst_port: (p[2] as u16) * 256 + (p[3] as u16),
            syn: p[13] / 2 % 2 == 1,
            ack: p[13] / 16 % 2 == 1,
        },
    )
}

/// The length in bytes a UDP header declares, header included.
pub open spec fn udp_len(p: Seq<u8>) -> int {
    be16(p[4], p[5])
}

/// A self-consistent UDP header within the buffer.
pub open spec fn udp_ok(p: Seq<u8>) -> bool {
    &&& p.len() >= 8
    &&& udp_len(p) >= 8
    &&& udp_len(p) <= p.len()
}

pub open spec fn udp_src_port(p: Seq<u8>) -> int {
    be16(p[0], p[1])
}

pub open spec fn udp_dst_port(p: Seq<u8>) -> int {
    be16(p[2], p[3])
}

/// The datagram payload the UDP length field delimits.
pub open spec fn udp_payload(p: Seq<u8>) -> Seq<u8> {
    p.subrange(8, udp_len(p))
}

} // verus!
