use vstd::prelude::*;
use crate::error::StackError;
use crate::filter::{IpFilter, IpFilters};
use crate::packet::{
    ip_dst, ip_ok, ip_proto, ip_src, AnyIpPktFrame, IpPacket, PROTO_ICMP, PROTO_ICMPV6, PROTO_TCP,
    PROTO_UDP,
};

verus! {

/// The per-protocol ingress queue a classified frame is bound for.
#[derive(Clone, Copy, Debug, PartialEq, Eq, Structural)]
pub enum QueueId {
    Tcp,
    Udp,
    /// ICMP shares the TCP queue: the engine behind it answers echoes.
    Icmp,
}

/// Which queue, if any, a next-protocol value is routed to.
pub open spec fn classify_proto(p: u8) -> Option<QueueId> {
    if p == PROTO_TCP {
        Some(QueueId::Tcp)
    } else if p == PROTO_UDP {
        Some(QueueId::Udp)
    } else if p == PROTO_ICMP || p == PROTO_ICMPV6 {
        Some(QueueId::Icmp)
    } else {
        None
    }
}

/// Configuration for a stack: which protocols get queues, how large the
/// queues are, and the ingress filter chain.
pub struct StackBuilder {
    enable_udp: bool,
    enable_tcp: bool,
    enable_icmp: bool,
    stack_buffer_size: usize,
    udp_buffer_size: usize,
    tcp_buffer_size: usize,
    ip_filters: IpFilters,
}

impl Default for StackBuilder {
    /// All protocols off, the documented queue capacities, and the
    /// non-broadcast filter chain.
    fn default() -> (r: StackBuilder)
        ensures
            !r.spec_enable_udp() && !r.spec_enable_tcp() && !r.spec_enable_icmp(),
            r.spec_stack_buffer_size() == 1024,
            r.spec_udp_buffer_size() == 512,
            r.spec_tcp_buffer_size() == 512,
            r.spec_ip_filters().rules() =~= seq![IpFilter::NonBroadcast],
    {
        StackBuilder {
            enable_udp: false,
            enable_tcp: false,
            enable_icmp: false,
            stack_buffer_size: 1024,
            udp_buffer_size: 512,
            tcp_buffer_size: 512,
            ip_filters: IpFilters::with_non_broadcast(),
        }
    }
}

impl StackBuilder {
    pub closed spec fn spec_enable_udp(self) -> bool {
        self.enable_udp
    }

    pub closed spec fn spec_enable_tcp(self) -> bool {
        self.enable_tcp
    }

    pub closed spec fn spec_enable_icmp(self) -> bool {
        self.enable_icmp
    }

    pub closed spec fn spec_stack_buffer_size(self) -> int {
        self.stack_buffer_size as int
    }

    pub closed spec fn spec_udp_buffer_size(self) -> int {
        self.udp_buffer_size as int
    }

    pub closed spec fn spec_tcp_buffer_size(self) -> int {
        self.tcp_buffer_size as int
    }

    pub closed spec fn spec_ip_filters(self) -> IpFilters {
        self.ip_filters
    }

    /// Everything but the named option is as it was.
    pub open spec fn same_but_toggles(
        pre: StackBuilder,
        post: StackBuilder,
    ) -> bool {
        &&& post.spec_stack_buffer_size() == pre.spec_stack_buffer_size()
        &&& post.spec_udp_buffer_size() == pre.spec_udp_buffer_size()
        &&& post.spec_tcp_buffer_size() == pre.spec_tcp_buffer_size()
        &&& post.spec_ip_filters() == pre.spec_ip_filters()
    }

    pub fn enable_udp(self, enable: bool) -> (r: StackBuilder)
        ensures
            r.spec_enable_udp() == enable,
            r.spec_enable_tcp() == self.spec_enable_tcp(),
            r.spec_enable_icmp() == self.spec_enable_icmp(),
            Self::same_but_toggles(self, r),
    {
        StackBuilder { enable_udp: enable, ..self }
    }

    pub fn enable_tcp(self, enable: bool) -> (r: StackBuilder)
        ensures
            r.spec_enable_tcp() == enable,
            r.spec_enable_udp() == self.spec_enable_udp(),
            r.spec_enable_icmp() == self.spec_enable_icmp(),
            Self::same_but_toggles(self, r),
    {
        StackBuilder { enable_tcp: enable, ..self }
    }

    pub fn enable_icmp(self, enable: bool) -> (r: StackBuilder)
        ensures
            r.spec_enable_icmp() == enable,
            r.spec_enable_udp() == self.spec_enable_udp(),
            r.spec_enable_tcp() == self.spec_enable_tcp(),
            Self::same_but_toggles(self, r),
    {
        StackBuilder { enable_icmp: enable, ..self }
    }

    pub fn stack_buffer_size(self, size: usize) -> (r: StackBuilder)
        ensures
            r.spec_stack_buffer_size() == size,
            r.spec_udp_buffer_size() == self.spec_udp_buffer_size(),
            r.spec_tcp_buffer_size() == self.spec_tcp_buffer_size(),
            r.spec_ip_filters() == self.spec_ip_filters(),
            r.spec_enable_udp() == self.spec_enable_udp(),
            r.spec_enable_tcp() == self.spec_enable_tcp(),
            r.spec_enable_icmp() == self.spec_enable_icmp(),
    {
        StackBuilder { stack_buffer_size: size, ..self }
    }

    pub fn udp_buffer_size(self, size: usize) -> (r: StackBuilder)
        ensures
            r.spec_udp_buffer_size() == size,
            r.spec_stack_buffer_size() == self.spec_stack_buffer_size(),
            r.spec_tcp_buffer_size() == self.spec_tcp_buffer_size(),
            r.spec_ip_filters() == self.spec_ip_filters(),
            r.spec_enable_udp() == self.spec_enable_udp(),
            r.spec_enable_tcp() == self.spec_enable_tcp(),
            r.spec_enable_icmp() == self.spec_enable_icmp(),
    {
        StackBuilder { udp_buffer_size: size, ..self }
    }

    pub fn tcp_buffer_size(self, size: usize) -> (r: StackBuilder)
        ensures
            r.spec_tcp_buffer_size() == size,
            r.spec_stack_buffer_size() == self.spec_stack_buffer_size(),
            r.spec_udp_buffer_size() == self.spec_udp_buffer_size(),
            r.spec_ip_filters() == self.spec_ip_filters(),
            r.spec_enable_udp() == self.spec_enable_udp(),
            r.spec_enable_tcp() == self.spec_enable_tcp(),
            r.spec_enable_icmp() == self.spec_enable_icmp(),
    {
        StackBuilder { tcp_buffer_size: size, ..self }
    }

    /// Replaces the whole filter chain.
    pub fn set_ip_filters(self, filters: IpFilters) -> (r: StackBuilder)
        ensures
            r.spec_ip_filters() == filters,
            r.spec_stack_buffer_size() == self.spec_stack_buffer_size(),
            r.spec_udp_buffer_size() == self.spec_udp_buffer_size(),
            r.spec_tcp_buffer_size() == self.spec_tcp_buffer_size(),
            r.spec_enable_udp() == self.spec_enable_udp(),
            r.spec_enable_tcp() == self.spec_enable_tcp(),
            r.spec_enable_icmp() == self.spec_enable_icmp(),
    {
        StackBuilder { ip_filters: filters, ..self }
    }

    /// Appends one rule to the filter chain.
    pub fn add_ip_filter(self, filter: IpFilter) -> (r: StackBuilder)
        ensures
            r.spec_ip_filters().rules() == self.spec_ip_filters().rules().push(filter),
            r.spec_stack_buffer_size() == self.spec_stack_buffer_size(),
            r.spec_udp_buffer_size() == self.spec_udp_buffer_size(),
            r.spec_tcp_buffer_size() == self.spec_tcp_buffer_size(),
            r.spec_enable_udp() == self.spec_enable_udp(),
            r.spec_enable_tcp() == self.spec_enable_tcp(),
            r.spec_enable_icmp() == self.spec_enable_icmp(),
    {
        let mut filters = self.ip_filters;
        filters.add(filter);
        StackBuilder { ip_filters: filters, ..self }
    }

    /// Checks the configuration and returns the stack core. Fails exactly
    /// when ICMP is asked for without TCP, whose engine answers it.
    pub fn build(self) -> (r: Result<Stack, StackError>)
        ensures
            r is Err <==> self.spec_enable_icmp() && !self.spec_enable_tcp(),
            r matches Err(e) ==> e == StackError::IcmpRequiresTcp,
            r matches Ok(st) ==> {
                &&& st.wf()
                &&& st.sink_view() is None
                &&& st.spec_ip_filters() == self.spec_ip_filters()
                &&& st.spec_enable_udp() == self.spec_enable_udp()
                &&& st.spec_enable_tcp() == self.spec_enable_tcp()
                &&& st.spec_enable_icmp() == self.spec_enable_icmp()
                &&& st.spec_stack_buffer_size() == self.spec_stack_buffer_size()
                &&& st.spec_udp_buffer_size() == self.spec_udp_buffer_size()
                &&& st.spec_tcp_buffer_size() == self.spec_tcp_buffer_size()
            },
    {
        if self.enable_icmp && !self.enable_tcp {
            return Err(StackError::IcmpRequiresTcp);
        }
        Ok(
            Stack {
                ip_filters: self.ip_filters,
                sink_buf: None,
                enable_udp: self.enable_udp,
                enable_tcp: self.enable_tcp,
                enable_icmp: self.enable_icmp,
                stack_buffer_size: self.stack_buffer_size,
                udp_buffer_size: self.udp_buffer_size,
                tcp_buffer_size: self.tcp_buffer_size,
            },
        )
    }
}

/// The frame-level core of the stack: the ingress sink's one-frame buffer
/// and classification, and the configuration the surrounding queues are
/// built from.
pub struct Stack {
    ip_filters: IpFilters,
    sink_buf: Option<(AnyIpPktFrame, QueueId)>,
    enable_udp: bool,
    enable_tcp: bool,
    enable_icmp: bool,
    stack_buffer_size: usize,
    udp_buffer_size: usize,
    tcp_buffer_size: usize,
}

impl Stack {
    pub closed spec fn spec_ip_filters(self) -> IpFilters {
        self.ip_filters
    }

    /// The classified frame waiting for a queue slot, if any.
    pub closed spec fn sink_view(self) -> Option<(Seq<u8>, QueueId)> {
        match self.sink_buf {
            Some((f, q)) => Some((f@, q)),
            None => None,
        }
    }

    pub closed spec fn spec_enable_udp(self) -> bool {
        self.enable_udp
    }

    pub closed spec fn spec_enable_tcp(self) -> bool {
        self.enable_tcp
    }

    pub closed spec fn spec_enable_icmp(self) -> bool {
        self.enable_icmp
    }

    pub closed spec fn spec_stack_buffer_size(self) -> int {
        self.stack_buffer_size as int
    }

    pub closed spec fn spec_udp_buffer_size(self) -> int {
        self.udp_buffer_size as int
    }

    pub closed spec fn spec_tcp_buffer_size(self) -> int {
        self.tcp_buffer_size as int
    }

    /// Whether the queue exists under this configuration.
    pub open spec fn spec_queue_enabled(self, q: QueueId) -> bool {
        match q {
            QueueId::Tcp => self.spec_enable_tcp(),
            QueueId::Udp => self.spec_enable_udp(),
            QueueId::Icmp => self.spec_enable_icmp(),
        }
    }

    /// What the sink may hold: only a frame that parses, that every filter
    /// allows, and whose protocol routes to the queue it is bound for.
    pub closed spec fn wf(self) -> bool {
        self.sink_buf matches Some((f, q)) ==> {
            &&& ip_ok(f@)
            &&& self.ip_filters.spec_allowed(ip_src(f@), ip_dst(f@))
            &&& classify_proto(ip_proto(f@)) == Some(q)
        }
    }

    /// Law (filter totality): the sink only ever holds frames the filter
    /// chain allows, so a rejected frame is observable by no protocol
    /// queue, handle or listener downstream of it.
    pub proof fn lemma_filter_totality(self, f: Seq<u8>, q: QueueId)
        requires
            self.wf(),
            self.sink_view() == Some((f, q)),
        ensures
            ip_ok(f),
            self.spec_ip_filters().spec_allowed(ip_src(f), ip_dst(f)),
            classify_proto(ip_proto(f)) == Some(q),
    {
    }

    /// The sink can take a frame exactly when its one-frame buffer is
    /// free.
    pub fn poll_ready(&self) -> (r: bool)
        ensures
            r <==> self.sink_view() is None,
    {
        self.sink_buf.is_none()
    }

    /// Accepts one frame from the device: parses, filters, classifies, and
    /// buffers it for its queue. An empty frame, a filtered frame and an
    /// unrouted protocol are consumed without effect; a malformed header is
    /// an invalid-input error; nothing is ever enqueued for a frame the
    /// filter rejects.
    pub fn start_send(&mut self, frame: AnyIpPktFrame) -> (r: Result<(), StackError>)
        requires
            old(self).wf(),
        ensures
            final(self).wf(),
            final(self).spec_ip_filters() == old(self).spec_ip_filters(),
            final(self).spec_enable_udp() == old(self).spec_enable_udp(),
            final(self).spec_enable_tcp() == old(self).spec_enable_tcp(),
            final(self).spec_enable_icmp() == old(self).spec_enable_icmp(),
            final(self).spec_stack_buffer_size() == old(self).spec_stack_buffer_size(),
            final(self).spec_udp_buffer_size() == old(self).spec_udp_buffer_size(),
            final(self).spec_tcp_buffer_size() == old(self).spec_tcp_buffer_size(),
            r is Err <==> frame@.len() > 0 && !ip_ok(frame@),
            r matches Err(e) ==> e == StackError::InvalidInput,
            r is Err ==> final(self).sink_view() == old(self).sink_view(),
            frame@.len() == 0 ==> final(self).sink_view() == old(self).sink_view(),
            frame@.len() > 0 && ip_ok(frame@) && !old(self).spec_ip_filters().spec_allowed(
                ip_src(frame@),
                ip_dst(frame@),
            ) ==> final(self).sink_view() == old(self).sink_view(),
            frame@.len() > 0 && ip_ok(frame@) && old(self).spec_ip_filters().spec_allowed(
                ip_src(frame@),
                ip_dst(frame@),
            ) ==> final(self).sink_view() == (match classify_proto(ip_proto(frame@)) {
                Some(q) => Some((frame@, q)),
                None => old(self).sink_view(),
            }),
    {
        if frame.len() == 0 {
            return Ok(());
        }
        let (src_ip, dst_ip, proto) = {
            let packet = match IpPacket::new_checked(frame.as_slice()) {
                Ok(p) => p,
                Err(_) => {
                    return Err(StackError::InvalidInput);
                },
            };
            (packet.src_addr(), packet.dst_addr(), packet.protocol())
        };
        if !self.ip_filters.is_allowed(&src_ip, &dst_ip) {
            return Ok(());
        }
        if proto == PROTO_TCP {
            self.sink_buf = Some((frame, QueueId::Tcp));
        } else if proto == PROTO_UDP {
            self.sink_buf = Some((frame, QueueId::Udp));
        } else if proto == PROTO_ICMP || proto == PROTO_ICMPV6 {
            self.sink_buf = Some((frame, QueueId::Icmp));
        }
        Ok(())
    }

    /// Hands the buffered frame out for its queue. A frame bound for a
    /// queue this configuration never built is dropped: nobody consumes
    /// that protocol.
    pub fn take_sink_item(&mut self) -> (r: Option<(AnyIpPktFrame, QueueId)>)
        requires
            old(self).wf(),
        ensures
            final(self).wf(),
            final(self).spec_ip_filters() == old(self).spec_ip_filters(),
            final(self).spec_enable_udp() == old(self).spec_enable_udp(),
            final(self).spec_enable_tcp() == old(self).spec_enable_tcp(),
            final(self).spec_enable_icmp() == old(self).spec_enable_icmp(),
            final(self).spec_stack_buffer_size() == old(self).spec_stack_buffer_size(),
            final(self).spec_udp_buffer_size() == old(self).spec_udp_buffer_size(),
            final(self).spec_tcp_buffer_size() == old(self).spec_tcp_buffer_size(),
            final(self).sink_view() is None,
            r is Some <==> (old(self).sink_view() matches Some((f, q)) && old(
                self,
            ).spec_queue_enabled(q)),
            r matches Some((f, q)) ==> {
                &&& old(self).sink_view() == Some((f@, q))
                &&& ip_ok(f@)
                &&& old(self).spec_ip_filters().spec_allowed(ip_src(f@), ip_dst(f@))
                &&& classify_proto(ip_proto(f@)) == Some(q)
            },
    {
        let item = self.sink_buf.take();
        match item {
            None => None,
            Some((f, q)) => {
                let enabled = match q {
                    QueueId::Tcp => self.enable_tcp,
                    QueueId::Udp => self.enable_udp,
                    QueueId::Icmp => self.enable_icmp,
                };
                if enabled {
                    Some((f, q))
                } else {
                    None
                }
            },
        }
    }

    /// Puts a frame taken out back, after its queue reported no free slot;
    /// the sink then reports pending until the slot opens.
    pub fn put_back(&mut self, frame: AnyIpPktFrame, q: QueueId)
        requires
            old(self).wf(),
            ip_ok(frame@),
            old(self).spec_ip_filters().spec_allowed(ip_src(frame@), ip_dst(frame@)),
            classify_proto(ip_proto(frame@)) == Some(q),
        ensures
            final(self).wf(),
            final(self).spec_ip_filters() == old(self).spec_ip_filters(),
            final(self).spec_enable_udp() == old(self).spec_enable_udp(),
            final(self).spec_enable_tcp() == old(self).spec_enable_tcp(),
            final(self).spec_enable_icmp() == old(self).spec_enable_icmp(),
            final(self).spec_stack_buffer_size() == old(self).spec_stack_buffer_size(),
            final(self).spec_udp_buffer_size() == old(self).spec_udp_buffer_size(),
            final(self).spec_tcp_buffer_size() == old(self).spec_tcp_buffer_size(),
            final(self).sink_view() == Some((frame@, q)),
    {
        self.sink_buf = Some((frame, q));
    }

    pub fn tcp_enabled(&self) -> (r: bool)
        ensures
            r == self.spec_enable_tcp(),
    {
        self.enable_tcp
    }

    pub fn udp_enabled(&self) -> (r: bool)
        ensures
            r == self.spec_enable_udp(),
    {
        self.enable_udp
    }

    pub fn icmp_enabled(&self) -> (r: bool)
        ensures
            r == self.spec_enable_icmp(),
    {
        self.enable_icmp
    }

    pub fn stack_queue_capacity(&self) -> (r: usize)
        ensures
            r == self.spec_stack_buffer_size(),
    {
        self.stack_buffer_size
    }

    pub fn udp_queue_capacity(&self) -> (r: usize)
        ensures
            r == self.spec_udp_buffer_size(),
    {
        self.udp_buffer_size
    }

    pub fn tcp_queue_capacity(&self) -> (r: usize)
        ensures
            r == self.spec_tcp_buffer_size(),
    {
        self.tcp_buffer_size
    }
}

} // verus!
