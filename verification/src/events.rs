use vstd::prelude::*;

verus! {

/// Addresses are the 48-bit BLE MAC-equivalent, held in the low bits of a
/// `u64`; every value stays below this bound.
pub const ADDRESS_LIMIT: u64 = 0x1000000000000;

/// A fixed-width identifier for a peripheral, immutable once observed.
#[derive(Clone, Copy, PartialEq, Eq, Structural, Debug, Hash)]
pub struct DeviceAddress {
    bits: u64,
}

/// The numeric value of a six-octet, big-endian address.
pub open spec fn octets_value(o: [u8; 6]) -> int {
    o[0] * 0x10000000000 + o[1] * 0x100000000 + o[2] * 0x1000000 + o[3] * 0x10000 + o[4] * 0x100
        + o[5]
}

impl DeviceAddress {
    /// The address as an unsigned number.
    pub closed spec fn value(self) -> u64 {
        self.bits
    }

    /// Well-formed addresses fit in 48 bits.
    pub open spec fn wf(self) -> bool {
        self.value() < ADDRESS_LIMIT
    }

    /// Builds an address from its numeric value; values that do not fit in
    /// 48 bits are rejected.
    pub fn new(bits: u64) -> (r: Option<DeviceAddress>)
        ensures
            bits < ADDRESS_LIMIT ==> (r matches Some(a) && a.value() == bits && a.wf()),
            bits >= ADDRESS_LIMIT ==> r is None,
    {
        if bits < ADDRESS_LIMIT {
            Some(DeviceAddress { bits })
        } else {
            None
        }
    }

    /// Builds an address from its six octets, most significant first.
    pub fn from_octets(o: [u8; 6]) -> (r: DeviceAddress)
        ensures
            r.wf(),
            r.value() as int == octets_value(o),
    {
        let bits: u64 = (o[0] as u64) * 0x10000000000 + (o[1] as u64) * 0x100000000 + (o[2]
            as u64) * 0x1000000 + (o[3] as u64) * 0x10000 + (o[4] as u64) * 0x100 + (o[5] as u64);
        DeviceAddress { bits }
    }

    /// The numeric value of the address.
    pub fn bits(&self) -> (b: u64)
        ensures
            b == self.value(),
    {
        self.bits
    }
}

/// One lifecycle notification about a peripheral, produced by the platform
/// callback and consumed exactly once by the consumer loop.
#[derive(Clone, Copy, PartialEq, Eq, Structural, Debug)]
pub enum DiscoveryEvent {
    Discovered(DeviceAddress),
    Updated(DeviceAddress),
    Lost(DeviceAddress),
    Connected(DeviceAddress),
    Disconnected(DeviceAddress),
}

impl DiscoveryEvent {
    /// The peripheral this event is about.
    pub open spec fn address(self) -> DeviceAddress {
        match self {
            DiscoveryEvent::Discovered(a) => a,
            DiscoveryEvent::Updated(a) => a,
            DiscoveryEvent::Lost(a) => a,
            DiscoveryEvent::Connected(a) => a,
            DiscoveryEvent::Disconnected(a) => a,
        }
    }

    /// Returns the peripheral this event is about.
    pub fn addr(&self) -> (a: DeviceAddress)
        ensures
            a == self.address(),
    {
        match self {
            DiscoveryEvent::Discovered(a) => *a,
            DiscoveryEvent::Updated(a) => *a,
            DiscoveryEvent::Lost(a) => *a,
            DiscoveryEvent::Connected(a) => *a,
            DiscoveryEvent::Disconnected(a) => *a,
        }
    }
}

} // verus!
