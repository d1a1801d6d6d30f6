use vstd::prelude::*;
use crate::addr::SocketAddrRepr;
use crate::packet::{
    ip_ok, ip_payload, ip_proto, ip_src, ip_dst, parse_tcp_header, tcp_ack, tcp_dst_port, tcp_ok,
    tcp_src_port, tcp_syn, IpPacket, PROTO_ICMP, PROTO_ICMPV6,
};

verus! {

/// Capacity of the per-connection send buffer, in bytes.
pub const DEFAULT_TCP_SEND_BUFFER_SIZE: usize = 0x3FFF * 20;

/// Capacity of the per-connection receive buffer, in bytes.
pub const DEFAULT_TCP_RECV_BUFFER_SIZE: usize = 0x3FFF * 20;

/// Keep-alive interval configured on each engine socket, in seconds.
pub const TCP_KEEP_ALIVE_SECS: u64 = 28;

/// Idle timeout configured on each engine socket, in seconds.
pub const TCP_IDLE_TIMEOUT_SECS: u64 = 7200;

/// The driver's sleep when the engine names no poll delay, in milliseconds.
pub const POLL_DELAY_FLOOR_MILLIS: u64 = 5;

/// The endpoints of one TCP flow, as its first packet names them: `src` is
/// the connecting peer, `dst` the address it connected to. It uniquely
/// identifies the flow within the engine.
#[derive(Clone, Copy, Debug, Eq)]
pub struct FlowKey {
    pub src: SocketAddrRepr,
    pub dst: SocketAddrRepr,
}

impl PartialEq for FlowKey {
    fn eq(&self, other: &FlowKey) -> (r: bool) {
        let r = self.src == other.src && self.dst == other.dst;
        proof {
            if r {
                assert(*self =~= *other);
            }
        }
        r
    }
}

impl vstd::std_specs::cmp::PartialEqSpecImpl for FlowKey {
    open spec fn obeys_eq_spec() -> bool {
        true
    }

    open spec fn eq_spec(&self, other: &FlowKey) -> bool {
        *self == *other
    }
}

/// The flow key a frame names: its IP endpoints with its TCP ports.
pub open spec fn spec_flow_key(s: Seq<u8>) -> FlowKey {
    FlowKey {
        src: SocketAddrRepr {
            addr: ip_src(s),
            port: tcp_src_port(ip_payload(s)) as u16,
        },
        dst: SocketAddrRepr {
            addr: ip_dst(s),
            port: tcp_dst_port(ip_payload(s)) as u16,
        },
    }
}

/// The keys of the flows that currently have a socket in the driver's
/// table. The packet task consults it so a retransmitted first handshake
/// packet of a live flow stays an ordinary packet instead of opening a
/// duplicate connection.
pub struct FlowTable {
    flows: Vec<FlowKey>,
}

impl FlowTable {
    pub closed spec fn keys(self) -> Seq<FlowKey> {
        self.flows@
    }

    pub open spec fn spec_contains(self, key: FlowKey) -> bool {
        self.keys().contains(key)
    }

    /// An empty table: no flow is live.
    pub fn new() -> (r: FlowTable)
        ensures
            r.keys().len() == 0,
            forall|k: FlowKey| !r.spec_contains(k),
    {
        FlowTable { flows: Vec::new() }
    }

    /// Records a flow as live.
    pub fn insert(&mut self, key: FlowKey)
        ensures
            final(self).keys() == old(self).keys().push(key),
            final(self).spec_contains(key),
            forall|k: FlowKey| old(self).spec_contains(k) ==> final(self).spec_contains(k),
            forall|k: FlowKey| #[trigger] final(self).spec_contains(k) ==> old(self).spec_contains(k) || k == key,
    {
        self.flows.push(key);
        proof {
            assert(self.flows@.last() == key);
            assert(self.flows@.contains(key));
            assert forall|k: FlowKey| old(self).keys().contains(k) implies self.flows@.contains(
                k,
            ) by {
                let idx = choose|idx: int|
                    0 <= idx < old(self).keys().len() && old(self).keys()[idx] == k;
                assert(self.flows@[idx] == k);
            }
            assert forall|k: FlowKey| #[trigger] self.flows@.contains(k) implies old(
                self,
            ).keys().contains(k) || k == key by {
                let idx = choose|idx: int| 0 <= idx < self.flows@.len() && self.flows@[idx] == k;
                if idx < old(self).keys().len() {
                    assert(old(self).keys()[idx] == k);
                }
            }
        }
    }

    /// Forgets a flow once its socket has been recycled; every other flow
    /// stays.
    pub fn remove(&mut self, key: &FlowKey)
        ensures
            !final(self).spec_contains(*key),
            forall|k: FlowKey| #[trigger] final(self).spec_contains(k) ==> old(self).spec_contains(k) && k != *key,
            forall|k: FlowKey| #[trigger] old(self).spec_contains(k) && k != *key ==> final(self).spec_contains(k),
    {
        let n: usize = self.flows.len();
        let mut kept: Vec<FlowKey> = Vec::new();
        let mut i: usize = 0;
        while i < n
            invariant
                i <= n,
                n == old(self).keys().len(),
                self.flows@ == old(self).keys(),
                forall|j: int|
                    0 <= j < kept@.len() ==> (#[trigger] kept@[j]) != *key && old(
                        self,
                    ).keys().contains(kept@[j]),
                forall|k: FlowKey|
                    #[trigger] old(self).keys().take(i as int).contains(k) && k != *key
                        ==> kept@.contains(k),
            decreases n - i,
        {
            let cur = self.flows[i];
            let ghost t0 = old(self).keys().take(i as int);
            let ghost t1 = old(self).keys().take(i as int + 1);
            let ghost kept0 = kept@;
            if cur != *key {
                kept.push(cur);
                proof {
                    assert(kept@.last() == cur);
                    assert(old(self).keys()[i as int] == cur);
                    assert(old(self).keys().contains(cur));
                }
            }
            proof {
                assert forall|k: FlowKey| #[trigger] t1.contains(k) && k != *key implies
                    kept@.contains(k) by {
                    let idx = choose|idx: int| 0 <= idx < t1.len() && t1[idx] == k;
                    if idx < i as int {
                        assert(t0[idx] == k);
                        assert(t0.contains(k));
                        assert(kept0.contains(k));
                        let jdx = choose|jdx: int| 0 <= jdx < kept0.len() && kept0[jdx] == k;
                        assert(kept@[jdx] == k);
                        assert(kept@.contains(k));
                    } else {
                        assert(k == cur);
                        assert(kept@[kept@.len() - 1] == cur);
                        assert(kept@.contains(k));
                    }
                }
            }
            i = i + 1;
        }
        proof {
            assert(old(self).keys().take(n as int) =~= old(self).keys());
        }
        self.flows = kept;
        proof {
            assert forall|k: FlowKey| #[trigger] self.flows@.contains(k) implies old(
                self,
            ).keys().contains(k) && k != *key by {
                let idx = choose|idx: int| 0 <= idx < self.flows@.len() && self.flows@[idx] == k;
            }
            if self.flows@.contains(*key) {
                let idx = choose|idx: int|
                    0 <= idx < self.flows@.len() && self.flows@[idx] == *key;
                assert(false);
            }
        }
    }

    /// Whether the flow is live.
    pub fn contains(&self, key: &FlowKey) -> (r: bool)
        ensures
            r == self.spec_contains(*key),
    {
        let n: usize = self.flows.len();
        let mut i: usize = 0;
        while i < n
            invariant
                i <= n,
                n == self.keys().len(),
                forall|j: int| 0 <= j < i ==> (#[trigger] self.keys()[j]) != *key,
            decreases n - i,
        {
            if self.flows[i] == *key {
                proof {
                    assert(self.keys().contains(*key));
                }
                return true;
            }
            i = i + 1;
        }
        proof {
            if self.keys().contains(*key) {
                let idx = choose|idx: int|
                    0 <= idx < self.keys().len() && self.keys()[idx] == *key;
                assert(false);
            }
        }
        false
    }
}

/// Whether the frame's next-protocol field names ICMP of either family.
pub open spec fn is_icmp_proto(s: Seq<u8>) -> bool {
    ip_proto(s) == PROTO_ICMP || ip_proto(s) == PROTO_ICMPV6
}

/// What the packet task does with one frame off the TCP queue.
pub enum TcpFrameAction {
    /// The frame or its TCP header does not parse: drop it, recoverably.
    Drop,
    /// ICMP rides the engine's ingress; the engine answers echo requests.
    ForwardIcmp,
    /// An ordinary packet — among them a repeated first handshake packet of
    /// a flow that is already live: to the engine's ingress.
    Forward,
    /// The first handshake packet of a new flow: manufacture an engine
    /// socket listening on `dst`, publish a new connection, then forward.
    Accept(FlowKey),
}

/// The packet task's whole decision for one ingress frame, given which
/// flows are live: only a first handshake packet of a flow that is not yet
/// live opens a connection; one of a live flow is forwarded like any other
/// packet, so a retransmitted handshake never duplicates a connection.
pub fn classify_tcp_frame(frame: &[u8], flows: &FlowTable) -> (r: TcpFrameAction)
    ensures
        r is Drop <==> !ip_ok(frame@) || (!is_icmp_proto(frame@) && !tcp_ok(ip_payload(frame@))),
        r is ForwardIcmp <==> ip_ok(frame@) && is_icmp_proto(frame@),
        r is Accept <==> ip_ok(frame@) && !is_icmp_proto(frame@) && tcp_ok(ip_payload(frame@))
            && tcp_syn(ip_payload(frame@)) && !tcp_ack(ip_payload(frame@)) && !flows.spec_contains(
            spec_flow_key(frame@),
        ),
        r is Forward <==> ip_ok(frame@) && !is_icmp_proto(frame@) && tcp_ok(ip_payload(frame@)) && (
        !(tcp_syn(ip_payload(frame@)) && !tcp_ack(ip_payload(frame@))) || flows.spec_contains(
            spec_flow_key(frame@),
        )),
        r matches TcpFrameAction::Accept(key) ==> key == spec_flow_key(frame@),
{
    let packet = match IpPacket::new_checked(frame) {
        Ok(p) => p,
        Err(_) => {
            return TcpFrameAction::Drop;
        },
    };
    let proto = packet.protocol();
    if proto == PROTO_ICMP || proto == PROTO_ICMPV6 {
        return TcpFrameAction::ForwardIcmp;
    }
    let src_ip = packet.src_addr();
    let dst_ip = packet.dst_addr();
    let header = match parse_tcp_header(packet.payload()) {
        Some(h) => h,
        None => {
            return TcpFrameAction::Drop;
        },
    };
    if header.syn && !header.ack {
        let key = FlowKey {
            src: SocketAddrRepr { addr: src_ip, port: header.src_port },
            dst: SocketAddrRepr { addr: dst_ip, port: header.dst_port },
        };
        proof {
            assert(key == spec_flow_key(frame@));
        }
        if flows.contains(&key) {
            TcpFrameAction::Forward
        } else {
            TcpFrameAction::Accept(key)
        }
    } else {
        TcpFrameAction::Forward
    }
}

/// A process-local record of one accepted connection's endpoints: what the
/// handle reports as its local and remote address.
pub struct TcpStream {
    src_addr: SocketAddrRepr,
    dst_addr: SocketAddrRepr,
}

impl TcpStream {
    pub closed spec fn spec_local_addr(self) -> SocketAddrRepr {
        self.src_addr
    }

    pub closed spec fn spec_remote_addr(self) -> SocketAddrRepr {
        self.dst_addr
    }

    /// A handle for the flow a first handshake packet named: the connecting
    /// peer is the local end, the address it connected to the remote end.
    pub fn new(key: &FlowKey) -> (r: TcpStream)
        ensures
            r.spec_local_addr() == key.src,
            r.spec_remote_addr() == key.dst,
    {
        TcpStream { src_addr: key.src, dst_addr: key.dst }
    }

    pub fn local_addr(&self) -> (r: &SocketAddrRepr)
        ensures
            *r == self.spec_local_addr(),
    {
        &self.src_addr
    }

    pub fn remote_addr(&self) -> (r: &SocketAddrRepr)
        ensures
            *r == self.spec_remote_addr(),
    {
        &self.dst_addr
    }
}

/// Law: a handle published for an accepted first handshake packet reports
/// exactly the endpoints that packet named — the connecting peer as its
/// local address, the connected-to address as its remote — for every
/// accepted frame. The premises are what `classify_tcp_frame` and
/// `TcpStream::new` ensure of the key and the handle.
pub proof fn lemma_accepted_endpoints(f: Seq<u8>, key: FlowKey, stream: TcpStream)
    requires
        key == spec_flow_key(f),
        stream.spec_local_addr() == key.src,
        stream.spec_remote_addr() == key.dst,
    ensures
        stream.spec_local_addr().addr == ip_src(f),
        stream.spec_local_addr().port == tcp_src_port(ip_payload(f)) as u16,
        stream.spec_remote_addr().addr == ip_dst(f),
        stream.spec_remote_addr().port == tcp_dst_port(ip_payload(f)) as u16,
{
}

} // verus!
