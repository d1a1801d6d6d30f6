use vstd::prelude::*;
use crate::addr::IpAddrRepr;

verus! {

/// One ingress rule over the `(source, destination)` address pair of a
/// frame.
#[derive(Clone, Copy, Debug)]
pub enum IpFilter {
    /// Rejects broadcast, multicast and unspecified addresses on either end.
    NonBroadcast,
    /// Rejects every frame whose source is the given address.
    RejectSrc(IpAddrRepr),
    /// Rejects every frame whose destination is the given address.
    RejectDst(IpAddrRepr),
}

impl IpFilter {
    /// Whether this rule lets the address pair through.
    pub open spec fn spec_allows(self, src: IpAddrRepr, dst: IpAddrRepr) -> bool {
        match self {
            IpFilter::NonBroadcast => src.spec_is_routable() && dst.spec_is_routable(),
            IpFilter::RejectSrc(a) => src != a,
            IpFilter::RejectDst(a) => dst != a,
        }
    }

    pub fn allows(&self, src: &IpAddrRepr, dst: &IpAddrRepr) -> (r: bool)
        ensures
            r == self.spec_allows(*src, *dst),
    {
        match self {
            IpFilter::NonBroadcast => src.is_routable() && dst.is_routable(),
            IpFilter::RejectSrc(a) => *src != *a,
            IpFilter::RejectDst(a) => *dst != *a,
        }
    }
}

/// The conjunctive ingress filter chain: a frame is allowed exactly when
/// every registered rule allows its address pair.
pub struct IpFilters {
    filters: Vec<IpFilter>,
}

impl IpFilters {
    /// The registered rules, in order.
    pub closed spec fn rules(self) -> Seq<IpFilter> {
        self.filters@
    }

    /// Whether the whole chain lets the address pair through.
    pub open spec fn spec_allowed(self, src: IpAddrRepr, dst: IpAddrRepr) -> bool {
        forall|i: int|
            0 <= i < self.rules().len() ==> (#[trigger] self.rules()[i]).spec_allows(src, dst)
    }

    /// An empty chain, which allows everything.
    pub fn new() -> (r: IpFilters)
        ensures
            r.rules().len() == 0,
    {
        IpFilters { filters: Vec::new() }
    }

    /// The default chain: the single non-broadcast rule.
    pub fn with_non_broadcast() -> (r: IpFilters)
        ensures
            r.rules() =~= seq![IpFilter::NonBroadcast],
    {
        let mut v: Vec<IpFilter> = Vec::new();
        v.push(IpFilter::NonBroadcast);
        IpFilters { filters: v }
    }

    pub fn add(&mut self, filter: IpFilter)
        ensures
            final(self).rules() == old(self).rules().push(filter),
    {
        self.filters.push(filter);
    }

    pub fn add_all(&mut self, filters: Vec<IpFilter>)
        ensures
            final(self).rules() == old(self).rules() + filters@,
    {
        let mut rest = filters;
        self.filters.append(&mut rest);
    }

    pub fn is_allowed(&self, src: &IpAddrRepr, dst: &IpAddrRepr) -> (r: bool)
        ensures
            r == self.spec_allowed(*src, *dst),
    {
        let n: usize = self.filters.len();
        let mut i: usize = 0;
        while i < n
            invariant
                i <= n,
                n == self.rules().len(),
                forall|j: int| 0 <= j < i ==> (#[trigger] self.rules()[j]).spec_allows(*src, *dst),
            decreases n - i,
        {
            if !self.filters[i].allows(src, dst) {
                return false;
            }
            i = i + 1;
        }
        true
    }
}

impl Default for IpFilters {
    /// The same empty chain `new` returns.
    fn default() -> (r: IpFilters)
        ensures
            r.rules().len() == 0,
    {
        IpFilters::new()
    }
}

} // verus!
