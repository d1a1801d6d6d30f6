use vstd::prelude::*;
use vstd::slice::{slice_subrange, slice_to_vec};
use crate::addr::{IpAddrRepr, SocketAddrRepr};
use crate::checksum::{checksum, internet_checksum};
use crate::error::StackError;
use crate::packet::{
    be16, ip_dst, ip_ok, ip_payload, ip_proto, ip_src, udp_dst_port, udp_ok, udp_payload,
    udp_src_port, IpPacket, PROTO_UDP,
};

verus! {

/// The bytes whose Internet checksum the IPv4 header checksum field holds:
/// the fixed header with the checksum field itself read as zero.
pub open spec fn ipv4_cksum_input(s: Seq<u8>) -> Seq<u8> {
    s.subrange(0, 20).update(10, 0u8).update(11, 0u8)
}

/// The bytes whose Internet checksum the UDP checksum field holds for an
/// IPv4 datagram: the pseudo-header, then the UDP datagram with its
/// checksum field read as zero.
pub open spec fn udp_cksum_input_v4(src: [u8; 4], dst: [u8; 4], udp: Seq<u8>) -> Seq<u8> {
    seq![
        src[0],
        src[1],
        src[2],
        src[3],
        dst[0],
        dst[1],
        dst[2],
        dst[3],
        0u8,
        17u8,
        (udp.len() as int / 256) as u8,
        (udp.len() as int % 256) as u8,
    ] + udp.update(6, 0u8).update(7, 0u8)
}

/// The bytes whose Internet checksum the UDP checksum field holds for an
/// IPv6 datagram: the pseudo-header of RFC 8200, then the UDP datagram with
/// its checksum field read as zero.
pub open spec fn udp_cksum_input_v6(src: [u8; 16], dst: [u8; 16], udp: Seq<u8>) -> Seq<u8> {
    Seq::new(16, |i: int| src[i]) + Seq::new(16, |i: int| dst[i]) + seq![
        0u8,
        0u8,
        (udp.len() as int / 256) as u8,
        (udp.len() as int % 256) as u8,
        0u8,
        0u8,
        0u8,
        17u8,
    ] + udp.update(6, 0u8).update(7, 0u8)
}

/// The value written into the UDP checksum field: the Internet checksum of
/// the input, with zero transmitted as all-ones.
pub open spec fn udp_cksum_value(input: Seq<u8>) -> int {
    if checksum(input) == 0 {
        65535
    } else {
        checksum(input)
    }
}

/// A frame carries exactly the UDP datagram `payload` between `local` and
/// `remote`, with the prescribed TTL of 20: what the egress path promises
/// and the ingress path reads back.
pub open spec fn udp_frame_matches(
    f: Seq<u8>,
    payload: Seq<u8>,
    local: SocketAddrRepr,
    remote: SocketAddrRepr,
) -> bool {
    &&& ip_ok(f)
    &&& udp_ok(ip_payload(f))
    &&& ip_proto(f) == PROTO_UDP
    &&& ip_src(f) == local.addr
    &&& ip_dst(f) == remote.addr
    &&& udp_src_port(ip_payload(f)) == local.port
    &&& udp_dst_port(ip_payload(f)) == remote.port
    &&& udp_payload(ip_payload(f)) == payload
    &&& (local.addr is V4 ==> f[8] == 20)
    &&& (local.addr is V6 ==> f[7] == 20)
}

/// Returns a vector of `n` zero bytes.
fn zero_vec(n: usize) -> (r: Vec<u8>)
    ensures
        r@ == Seq::new(n as nat, |i: int| 0u8),
{
    let mut v: Vec<u8> = Vec::new();
    let mut i: usize = 0;
    while i < n
        invariant
            i <= n,
            v@ == Seq::new(i as nat, |j: int| 0u8),
        decreases n - i,
    {
        v.push(0u8);
        i = i + 1;
        proof {
            assert(v@ =~= Seq::new(i as nat, |j: int| 0u8));
        }
    }
    v
}

/// Builds one IPv4 frame that carries `payload` as a UDP datagram from
/// `src`:`src_port` to `dst`:`dst_port`, with TTL 20 and both checksums
/// computed.
pub fn build_udp_frame_v4(
    payload: &[u8],
    src: [u8; 4],
    src_port: u16,
    dst: [u8; 4],
    dst_port: u16,
) -> (r: Vec<u8>)
    requires
        payload@.len() <= 65507,
    ensures
        r@.len() == 28 + payload@.len(),
        udp_frame_matches(
            r@,
            payload@,
            SocketAddrRepr { addr: IpAddrRepr::V4(src), port: src_port },
            SocketAddrRepr { addr: IpAddrRepr::V4(dst), port: dst_port },
        ),
        be16(r@[10], r@[11]) == checksum(ipv4_cksum_input(r@)),
        be16(ip_payload(r@)[6], ip_payload(r@)[7]) == udp_cksum_value(
            udp_cksum_input_v4(src, dst, ip_payload(r@)),
        ),
{
    let n: usize = payload.len();
    let total: u16 = (28 + n) as u16;
    let ul: u16 = (8 + n) as u16;

    let mut f: Vec<u8> = zero_vec(28);
    f[0] = 0x45;
    f[2] = (total / 256) as u8;
    f[3] = (total % 256) as u8;
    f[8] = 20;
    f[9] = 17;
    f[12] = src[0];
    f[13] = src[1];
    f[14] = src[2];
    f[15] = src[3];
    f[16] = dst[0];
    f[17] = dst[1];
    f[18] = dst[2];
    f[19] = dst[3];
    f[20] = (src_port / 256) as u8;
    f[21] = (src_port % 256) as u8;
    f[22] = (dst_port / 256) as u8;
    f[23] = (dst_port % 256) as u8;
    f[24] = (ul / 256) as u8;
    f[25] = (ul % 256) as u8;

    let ghost f1 = f@;
    let c1: u16 = internet_checksum(slice_subrange(f.as_slice(), 0, 20));
    f[10] = (c1 / 256) as u8;
    f[11] = (c1 % 256) as u8;

    let mut t: Vec<u8> = Vec::new();
    t.push(src[0]);
    t.push(src[1]);
    t.push(src[2]);
    t.push(src[3]);
    t.push(dst[0]);
    t.push(dst[1]);
    t.push(dst[2]);
    t.push(dst[3]);
    t.push(0u8);
    t.push(17u8);
    t.push((ul / 256) as u8);
    t.push((ul % 256) as u8);
    t.push((src_port / 256) as u8);
    t.push((src_port % 256) as u8);
    t.push((dst_port / 256) as u8);
    t.push((dst_port % 256) as u8);
    t.push((ul / 256) as u8);
    t.push((ul % 256) as u8);
    t.push(0u8);
    t.push(0u8);
    t.extend_from_slice(payload);

    let c2r: u16 = internet_checksum(t.as_slice());
    let c2: u16 = if c2r == 0 {
        0xFFFF
    } else {
        c2r
    };
    f[26] = (c2 / 256) as u8;
    f[27] = (c2 % 256) as u8;
    f.extend_from_slice(payload);

    proof {
        let r = f@;
        let u = ip_payload(r);
        assert(r.len() == 28 + payload@.len());
        assert(r[0] == 0x45);
        assert(r[8] == 20);
        assert(ip_ok(r));
        assert(u =~= r.subrange(20, r.len() as int));
        assert(ip_src(r)->V4_0 =~= src);
        assert(ip_dst(r)->V4_0 =~= dst);
        assert(udp_payload(u) =~= payload@);
        assert(ipv4_cksum_input(r) =~= f1.subrange(0, 20));
        assert(udp_cksum_input_v4(src, dst, u) =~= t@);
    }
    f
}

/// Builds one IPv6 frame that carries `payload` as a UDP datagram from
/// `src`:`src_port` to `dst`:`dst_port`, with hop limit 20 and the UDP
/// checksum computed.
pub fn build_udp_frame_v6(
    payload: &[u8],
    src: [u8; 16],
    src_port: u16,
    dst: [u8; 16],
    dst_port: u16,
) -> (r: Vec<u8>)
    requires
        payload@.len() <= 65527,
    ensures
        r@.len() == 48 + payload@.len(),
        udp_frame_matches(
            r@,
            payload@,
            SocketAddrRepr { addr: IpAddrRepr::V6(src), port: src_port },
            SocketAddrRepr { addr: IpAddrRepr::V6(dst), port: dst_port },
        ),
        be16(ip_payload(r@)[6], ip_payload(r@)[7]) == udp_cksum_value(
            udp_cksum_input_v6(src, dst, ip_payload(r@)),
        ),
{
    let n: usize = payload.len();
    let ul: u16 = (8 + n) as u16;

    let mut f: Vec<u8> = zero_vec(48);
    f[0] = 0x60;
    f[4] = (ul / 256) as u8;
    f[5] = (ul % 256) as u8;
    f[6] = 17;
    f[7] = 20;
    let mut i: usize = 0;
    while i < 16
        invariant
            i <= 16,
            f@.len() == 48,
            forall|k: int| 0 <= k < 8 ==> f@[k] == (Seq::new(
                48,
                |j: int| 0u8,
            ).update(0, 0x60u8).update(4, (((8 + n) as u16) / 256) as u8).update(
                5,
                (((8 + n) as u16) % 256) as u8,
            ).update(6, 17u8).update(7, 20u8))[k],
            forall|k: int| 0 <= k < i ==> f@[8 + k] == src[k] && f@[24 + k] == dst[k],
            forall|k: int| 40 <= k < 48 ==> f@[k] == 0,
            n == payload@.len(),
        decreases 16 - i,
    {
        f[8 + i] = src[i];
        f[24 + i] = dst[i];
        i = i + 1;
    }
    f[40] = (src_port / 256) as u8;
    f[41] = (src_port % 256) as u8;
    f[42] = (dst_port / 256) as u8;
    f[43] = (dst_port % 256) as u8;
    f[44] = (ul / 256) as u8;
    f[45] = (ul % 256) as u8;

    let mut t: Vec<u8> = Vec::new();
    let mut j: usize = 0;
    while j < 16
        invariant
            j <= 16,
            t@.len() == j,
            forall|k: int| 0 <= k < j ==> t@[k] == src[k],
        decreases 16 - j,
    {
        t.push(src[j]);
        j = j + 1;
    }
    let mut j2: usize = 0;
    while j2 < 16
        invariant
            j2 <= 16,
            t@.len() == 16 + j2,
            forall|k: int| 0 <= k < 16 ==> t@[k] == src[k],
            forall|k: int| 0 <= k < j2 ==> t@[16 + k] == dst[k],
        decreases 16 - j2,
    {
        t.push(dst[j2]);
        j2 = j2 + 1;
    }
    t.push(0u8);
    t.push(0u8);
    t.push((ul / 256) as u8);
    t.push((ul % 256) as u8);
    t.push(0u8);
    t.push(0u8);
    t.push(0u8);
    t.push(17u8);
    t.push((src_port / 256) as u8);
    t.push((src_port % 256) as u8);
    t.push((dst_port / 256) as u8);
    t.push((dst_port % 256) as u8);
    t.push((ul / 256) as u8);
    t.push((ul % 256) as u8);
    t.push(0u8);
    t.push(0u8);
    t.extend_from_slice(payload);

    let c2r: u16 = internet_checksum(t.as_slice());
    let c2: u16 = if c2r == 0 {
        0xFFFF
    } else {
        c2r
    };
    f[46] = (c2 / 256) as u8;
    f[47] = (c2 % 256) as u8;
    f.extend_from_slice(payload);

    proof {
        let r = f@;
        let u = ip_payload(r);
        assert(r.len() == 48 + payload@.len());
        assert(r[0] == 0x60);
        assert(r[7] == 20);
        assert(ip_ok(r));
        assert(u =~= r.subrange(40, r.len() as int));
        assert(ip_src(r)->V6_0 =~= src);
        assert(ip_dst(r)->V6_0 =~= dst);
        assert(udp_payload(u) =~= payload@);
        assert(udp_cksum_input_v6(src, dst, u) =~= t@);
    }
    f
}

/// Builds the egress frame for one datagram handed to the UDP sink:
/// nothing for an empty payload, an invalid-data error when the endpoint
/// versions differ, and otherwise the checked IPv4 or IPv6 frame.
pub fn udp_egress_frame(payload: &[u8], local: SocketAddrRepr, remote: SocketAddrRepr) -> (r:
    Result<Option<Vec<u8>>, StackError>)
    requires
        local.addr is V4 ==> payload@.len() <= 65507,
        local.addr is V6 ==> payload@.len() <= 65527,
    ensures
        r matches Ok(None) <==> payload@.len() == 0,
        r is Err <==> payload@.len() > 0 && !local.addr.same_version(remote.addr),
        r matches Err(e) ==> e == StackError::InvalidData,
        r matches Ok(Some(f)) ==> udp_frame_matches(f@, payload@, local, remote),
{
    if payload.len() == 0 {
        return Ok(None);
    }
    match (local.addr, remote.addr) {
        (IpAddrRepr::V4(s), IpAddrRepr::V4(d)) => {
            let out = build_udp_frame_v4(payload, s, local.port, d, remote.port);
            proof {
                assert(local =~= SocketAddrRepr { addr: IpAddrRepr::V4(s), port: local.port });
                assert(remote =~= SocketAddrRepr { addr: IpAddrRepr::V4(d), port: remote.port });
            }
            Ok(Some(out))
        },
        (IpAddrRepr::V6(s), IpAddrRepr::V6(d)) => {
            let out = build_udp_frame_v6(payload, s, local.port, d, remote.port);
            proof {
                assert(local =~= SocketAddrRepr { addr: IpAddrRepr::V6(s), port: local.port });
                assert(remote =~= SocketAddrRepr { addr: IpAddrRepr::V6(d), port: remote.port });
            }
            Ok(Some(out))
        },
        _ => Err(StackError::InvalidData),
    }
}

/// Reads one UDP datagram out of an ingress frame: the payload bytes and
/// the two endpoints, exactly when both the IP and the UDP header are
/// self-consistent.
pub fn parse_udp_datagram(frame: &[u8]) -> (r: Option<(Vec<u8>, SocketAddrRepr, SocketAddrRepr)>)
    ensures
        r is Some <==> ip_ok(frame@) && udp_ok(ip_payload(frame@)),
        r matches Some(m) ==> {
            &&& m.0@ == udp_payload(ip_payload(frame@))
            &&& m.1.addr == ip_src(frame@)
            &&& m.1.port == udp_src_port(ip_payload(frame@))
            &&& m.2.addr == ip_dst(frame@)
            &&& m.2.port == udp_dst_port(ip_payload(frame@))
        },
{
    let packet = match IpPacket::new_checked(frame) {
        Ok(p) => p,
        Err(_) => {
            return None;
        },
    };
    let src_ip = packet.src_addr();
    let dst_ip = packet.dst_addr();
    let p = packet.payload();
    if p.len() < 8 {
        return None;
    }
    let ul: u16 = (p[4] as u16) * 256 + (p[5] as u16);
    if ul < 8 || (ul as usize) > p.len() {
        return None;
    }
    let src_port: u16 = (p[0] as u16) * 256 + (p[1] as u16);
    let dst_port: u16 = (p[2] as u16) * 256 + (p[3] as u16);
    let body = slice_to_vec(slice_subrange(p, 8, ul as usize));
    Some(
        (
            body,
            SocketAddrRepr { addr: src_ip, port: src_port },
            SocketAddrRepr { addr: dst_ip, port: dst_port },
        ),
    )
}

/// Law: a frame the UDP egress path builds for `(payload, local, remote)`,
/// captured on the device-side stream and re-parsed, yields exactly that
/// payload, and the outer IP endpoints and ports are `local` and `remote`.
pub proof fn lemma_udp_round_trip(
    f: Seq<u8>,
    payload: Seq<u8>,
    local: SocketAddrRepr,
    remote: SocketAddrRepr,
)
    requires
        udp_frame_matches(f, payload, local, remote),
    ensures
        ip_ok(f) && udp_ok(ip_payload(f)),
        udp_payload(ip_payload(f)) == payload,
        ip_src(f) == local.addr,
        udp_src_port(ip_payload(f)) == local.port,
        ip_dst(f) == remote.addr,
        udp_dst_port(ip_payload(f)) == remote.port,
        local.addr is V4 ==> f[8] == 20,
        local.addr is V6 ==> f[7] == 20,
{
}

} // verus!
