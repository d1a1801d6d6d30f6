use vstd::prelude::*;

verus! {

broadcast use vstd::array::group_array_axioms;

/// An IP address held as plain bytes in network order, so that every rule
/// about it can be stated over the bytes themselves.
#[derive(Clone, Copy, Debug, Eq)]
pub enum IpAddrRepr {
    V4([u8; 4]),
    V6([u8; 16]),
}

/// A transport endpoint: an IP address and a port.
#[derive(Clone, Copy, Debug, Eq)]
pub struct SocketAddrRepr {
    pub addr: IpAddrRepr,
    pub port: u16,
}

impl PartialEq for IpAddrRepr {
    fn eq(&self, other: &IpAddrRepr) -> (r: bool) {
        match (self, other) {
            (IpAddrRepr::V4(a), IpAddrRepr::V4(b)) => {
                let r = a[0] == b[0] && a[1] == b[1] && a[2] == b[2] && a[3] == b[3];
                proof {
                    if r {
                        assert(*a =~= *b);
                    } else {
                        assert(*self != *other) by {
                            if *self == *other {
                                assert(*a =~= *b);
                            }
                        }
                    }
                }
                r
            },
            (IpAddrRepr::V6(a), IpAddrRepr::V6(b)) => {
                let mut i: usize = 0;
                while i < 16
                    invariant
                        i <= 16,
                        *self == IpAddrRepr::V6(*a),
                        *other == IpAddrRepr::V6(*b),
                        forall|j: int| 0 <= j < i ==> a[j] == b[j],
                    decreases 16 - i,
                {
                    if a[i] != b[i] {
                        proof {
                            assert(*self != *other) by {
                                if *self == *other {
                                    assert(*a =~= *b);
                                }
                            }
                        }
                        return false;
                    }
                    i = i + 1;
                }
                proof {
                    assert(*a =~= *b);
                }
                true
            },
            _ => false,
        }
    }
}

impl vstd::std_specs::cmp::PartialEqSpecImpl for IpAddrRepr {
    open spec fn obeys_eq_spec() -> bool {
        true
    }

    open spec fn eq_spec(&self, other: &IpAddrRepr) -> bool {
        *self == *other
    }
}

impl PartialEq for SocketAddrRepr {
    fn eq(&self, other: &SocketAddrRepr) -> (r: bool) {
        self.addr == other.addr && self.port == other.port
    }
}

impl vstd::std_specs::cmp::PartialEqSpecImpl for SocketAddrRepr {
    open spec fn obeys_eq_spec() -> bool {
        true
    }

    open spec fn eq_spec(&self, other: &SocketAddrRepr) -> bool {
        *self == *other
    }
}

impl IpAddrRepr {
    pub open spec fn is_v4(self) -> bool {
        self is V4
    }

    pub open spec fn is_v6(self) -> bool {
        self is V6
    }

    /// Both addresses belong to the same IP version.
    pub open spec fn same_version(self, other: IpAddrRepr) -> bool {
        self.is_v4() == other.is_v4()
    }

    pub open spec fn spec_is_broadcast(self) -> bool {
        match self {
            IpAddrRepr::V4(b) => b[0] == 255 && b[1] == 255 && b[2] == 255 && b[3] == 255,
            IpAddrRepr::V6(_) => false,
        }
    }

    pub open spec fn spec_is_multicast(self) -> bool {
        match self {
            IpAddrRepr::V4(b) => 224 <= b[0] <= 239,
            IpAddrRepr::V6(b) => b[0] == 255,
        }
    }

    pub open spec fn spec_is_unspecified(self) -> bool {
        match self {
            IpAddrRepr::V4(b) => b[0] == 0 && b[1] == 0 && b[2] == 0 && b[3] == 0,
            IpAddrRepr::V6(b) => forall|i: int| 0 <= i < 16 ==> (#[trigger] b@[i]) == 0,
        }
    }

    /// An address the default ingress filter lets through: neither broadcast,
    /// nor multicast, nor unspecified.
    pub open spec fn spec_is_routable(self) -> bool {
        !self.spec_is_broadcast() && !self.spec_is_multicast() && !self.spec_is_unspecified()
    }

    pub fn is_broadcast(&self) -> (r: bool)
        ensures
            r == self.spec_is_broadcast(),
    {
        match self {
            IpAddrRepr::V4(b) => b[0] == 255 && b[1] == 255 && b[2] == 255 && b[3] == 255,
            IpAddrRepr::V6(_) => false,
        }
    }

    pub fn is_multicast(&self) -> (r: bool)
        ensures
            r == self.spec_is_multicast(),
    {
        match self {
            IpAddrRepr::V4(b) => 224 <= b[0] && b[0] <= 239,
            IpAddrRepr::V6(b) => b[0] == 255,
        }
    }

    pub fn is_unspecified(&self) -> (r: bool)
        ensures
            r == self.spec_is_unspecified(),
    {
        match self {
            IpAddrRepr::V4(b) => b[0] == 0 && b[1] == 0 && b[2] == 0 && b[3] == 0,
            IpAddrRepr::V6(b) => {
                let mut i: usize = 0;
                while i < 16
                    invariant
                        i <= 16,
                        *self == IpAddrRepr::V6(*b),
                        forall|j: int| 0 <= j < i ==> (#[trigger] b@[j]) == 0,
                    decreases 16 - i,
                {
                    if b[i] != 0 {
                        proof {
                            assert((*self)->V6_0 == *b);
                            assert((*self)->V6_0@[i as int] != 0);
                            assert(!self.spec_is_unspecified());
                        }
                        return false;
                    }
                    i = i + 1;
                }
                true
            },
        }
    }

    pub fn is_routable(&self) -> (r: bool)
        ensures
            r == self.spec_is_routable(),
    {
        !self.is_broadcast() && !self.is_multicast() && !self.is_unspecified()
    }
}

} // verus!
