use tunstack::addr::{IpAddrRepr, SocketAddrRepr};
use tunstack::checksum::internet_checksum;
use tunstack::packet::{parse_tcp_header, IpPacket};
use tunstack::udp::{build_udp_frame_v4, build_udp_frame_v6, parse_udp_datagram, udp_egress_frame};
use tunstack::StackError;

fn ipv4_header(src: [u8; 4], dst: [u8; 4], proto: u8, total_len: u16) -> Vec<u8> {
    let mut h = vec![0u8; 20];
    h[0] = 0x45;
    h[2] = (total_len >> 8) as u8;
    h[3] = (total_len & 0xFF) as u8;
    h[8] = 64;
    h[9] = proto;
    h[12..16].copy_from_slice(&src);
    h[16..20].copy_from_slice(&dst);
    h
}

fn tcp_header(sport: u16, dport: u16, flags: u8) -> Vec<u8> {
    let mut t = vec![0u8; 20];
    t[0] = (sport >> 8) as u8;
    t[1] = (sport & 0xFF) as u8;
    t[2] = (dport >> 8) as u8;
    t[3] = (dport & 0xFF) as u8;
    t[12] = 0x50;
    t[13] = flags;
    t
}

fn ipv4_tcp_frame(src: [u8; 4], sport: u16, dst: [u8; 4], dport: u16, flags: u8) -> Vec<u8> {
    let mut f = ipv4_header(src, dst, 6, 40);
    f.extend_from_slice(&tcp_header(sport, dport, flags));
    f
}

#[test]
fn parse_well_formed_ipv4() {
    let f = ipv4_tcp_frame([10, 0, 0, 2], 54321, [10, 0, 0, 1], 80, 0x02);
    let p = IpPacket::new_checked(&f).expect("parses");
    assert_eq!(p.src_addr(), IpAddrRepr::V4([10, 0, 0, 2]));
    assert_eq!(p.dst_addr(), IpAddrRepr::V4([10, 0, 0, 1]));
    assert_eq!(p.protocol(), 6);
    assert_eq!(p.payload().len(), 20);
}

#[test]
fn parse_rejects_empty_and_garbage() {
    assert!(IpPacket::new_checked(&[]).is_err());
    assert!(IpPacket::new_checked(&[0x45, 0, 0]).is_err());
    // Version nibble neither 4 nor 6.
    assert!(IpPacket::new_checked(&vec![0x50u8; 40]).is_err());
    // Total length larger than the buffer.
    let mut f = ipv4_tcp_frame([1, 2, 3, 4], 1, [5, 6, 7, 8], 2, 0);
    f[3] = 0xFF;
    assert!(IpPacket::new_checked(&f).is_err());
}

#[test]
fn parse_rejects_header_len_out_of_range() {
    // IHL of 4 (16 bytes) is below the minimum of 5.
    let mut f = ipv4_tcp_frame([1, 2, 3, 4], 1, [5, 6, 7, 8], 2, 0);
    f[0] = 0x44;
    assert!(IpPacket::new_checked(&f).is_err());
}

#[test]
fn parse_ipv6_header() {
    let mut f = vec![0u8; 48];
    f[0] = 0x60;
    f[4] = 0;
    f[5] = 8; // payload length
    f[6] = 17; // UDP
    f[8] = 0xfe;
    f[23] = 0x01;
    f[24] = 0xfe;
    f[39] = 0x02;
    let p = IpPacket::new_checked(&f).expect("parses");
    assert_eq!(p.protocol(), 17);
    let mut src = [0u8; 16];
    src[0] = 0xfe;
    src[15] = 0x01;
    let mut dst = [0u8; 16];
    dst[0] = 0xfe;
    dst[15] = 0x02;
    assert_eq!(p.src_addr(), IpAddrRepr::V6(src));
    assert_eq!(p.dst_addr(), IpAddrRepr::V6(dst));
    assert_eq!(p.payload().len(), 8);
}

#[test]
fn tcp_header_fields() {
    let t = tcp_header(54321, 80, 0x12); // SYN|ACK
    let h = parse_tcp_header(&t).expect("parses");
    assert_eq!(h.src_port, 54321);
    assert_eq!(h.dst_port, 80);
    assert!(h.syn);
    assert!(h.ack);
    assert!(parse_tcp_header(&t[..19]).is_none());
}

#[test]
fn checksum_known_value() {
    // The worked example of RFC 1071: sum 0x2ddf0, folded 0xddf2,
    // complemented 0x220d.
    let data = [0x00u8, 0x01, 0xf2, 0x03, 0xf4, 0xf5, 0xf6, 0xf7];
    let sum: u32 = 0x0001 + 0xf203 + 0xf4f5 + 0xf6f7;
    let folded = (sum & 0xFFFF) + (sum >> 16);
    let expect = 0xFFFF - (folded as u16);
    assert_eq!(internet_checksum(&data), expect);
}

#[test]
fn udp_round_trip_v4() {
    let local = SocketAddrRepr { addr: IpAddrRepr::V4([10, 0, 0, 1]), port: 5000 };
    let remote = SocketAddrRepr { addr: IpAddrRepr::V4([8, 8, 8, 8]), port: 53 };
    let frame = udp_egress_frame(b"hello", local, remote)
        .expect("no error")
        .expect("a frame");
    assert_eq!(frame.len(), 28 + 5);
    assert_eq!(frame[8], 20); // TTL
    let (payload, src, dst) = parse_udp_datagram(&frame).expect("reparses");
    assert_eq!(payload, b"hello".to_vec());
    assert_eq!(src, local);
    assert_eq!(dst, remote);
}

#[test]
fn udp_round_trip_v6() {
    let mut a = [0u8; 16];
    a[15] = 1;
    let mut b = [0u8; 16];
    b[0] = 0x20;
    b[15] = 2;
    let local = SocketAddrRepr { addr: IpAddrRepr::V6(a), port: 9999 };
    let remote = SocketAddrRepr { addr: IpAddrRepr::V6(b), port: 443 };
    let frame = udp_egress_frame(&[1, 2, 3], local, remote)
        .expect("no error")
        .expect("a frame");
    assert_eq!(frame.len(), 48 + 3);
    assert_eq!(frame[7], 20); // hop limit
    let (payload, src, dst) = parse_udp_datagram(&frame).expect("reparses");
    assert_eq!(payload, vec![1, 2, 3]);
    assert_eq!(src, local);
    assert_eq!(dst, remote);
}

#[test]
fn udp_mixed_versions_is_invalid_data() {
    let local = SocketAddrRepr { addr: IpAddrRepr::V4([10, 0, 0, 1]), port: 1 };
    let remote = SocketAddrRepr { addr: IpAddrRepr::V6([0u8; 16]), port: 2 };
    assert_eq!(udp_egress_frame(b"x", local, remote), Err(StackError::InvalidData));
}

#[test]
fn udp_empty_payload_sends_nothing() {
    let local = SocketAddrRepr { addr: IpAddrRepr::V4([10, 0, 0, 1]), port: 1 };
    let remote = SocketAddrRepr { addr: IpAddrRepr::V6([0u8; 16]), port: 2 };
    // Even with mismatched versions, an empty payload is consumed silently.
    assert_eq!(udp_egress_frame(b"", local, remote), Ok(None));
}

#[test]
fn udp_checksums_verify_against_smoltcp() {
    let frame = build_udp_frame_v4(b"hello", [10, 0, 0, 1], 5000, [8, 8, 8, 8], 53);
    let ip = smoltcp::wire::Ipv4Packet::new_checked(frame.as_slice()).expect("smoltcp parses");
    assert!(ip.verify_checksum(), "IPv4 header checksum smoltcp-valid");
    let src = ip.src_addr();
    let dst = ip.dst_addr();
    let udp = smoltcp::wire::UdpPacket::new_checked(ip.payload()).expect("smoltcp parses UDP");
    assert_eq!(udp.src_port(), 5000);
    assert_eq!(udp.dst_port(), 53);
    assert!(
        udp.verify_checksum(&smoltcp::wire::IpAddress::Ipv4(src), &smoltcp::wire::IpAddress::Ipv4(dst)),
        "UDP checksum smoltcp-valid"
    );
    assert_eq!(udp.payload(), b"hello");
}

#[test]
fn udp_v6_checksum_verifies_against_smoltcp() {
    let mut a = [0u8; 16];
    a[15] = 1;
    let mut b = [0u8; 16];
    b[0] = 0x20;
    b[15] = 2;
    let frame = build_udp_frame_v6(&[9, 9, 9], a, 1000, b, 2000);
    let ip = smoltcp::wire::Ipv6Packet::new_checked(frame.as_slice()).expect("smoltcp parses");
    let src = ip.src_addr();
    let dst = ip.dst_addr();
    let udp = smoltcp::wire::UdpPacket::new_checked(ip.payload()).expect("smoltcp parses UDP");
    assert!(
        udp.verify_checksum(&smoltcp::wire::IpAddress::Ipv6(src), &smoltcp::wire::IpAddress::Ipv6(dst)),
        "UDP checksum smoltcp-valid"
    );
    assert_eq!(udp.payload(), &[9, 9, 9]);
}

#[test]
fn ipv4_options_shift_the_payload() {
    // IHL of 6: one option word before the transport payload.
    let mut f = vec![0u8; 24];
    f[0] = 0x46;
    f[2] = 0;
    f[3] = 28; // total length: 24 header + 4 payload
    f[9] = 17;
    f.extend_from_slice(&[0xAA, 0xBB, 0xCC, 0xDD]);
    let p = IpPacket::new_checked(&f).expect("parses");
    assert_eq!(p.payload(), &[0xAA, 0xBB, 0xCC, 0xDD]);
}

#[test]
fn udp_length_field_delimits_the_payload() {
    // The frame carries two bytes beyond what the UDP length field claims;
    // they are not part of the datagram.
    let mut f = vec![0u8; 20];
    f[0] = 0x45;
    f[9] = 17;
    let udp = [0u8, 7, 0, 9, 0, 10, 0, 0, 0x55, 0x66, 0x77, 0x78];
    f[3] = 20 + udp.len() as u8; // the IP total length covers all of it
    f.extend_from_slice(&udp);
    let (payload, src, dst) = parse_udp_datagram(&f).expect("parses");
    assert_eq!(payload, vec![0x55, 0x66]); // length field 10 = 8 header + 2
    assert_eq!(src.port, 7);
    assert_eq!(dst.port, 9);
}
