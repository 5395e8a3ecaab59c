//! CPU / PPU address decoding: devices register mapping functions that
//! select which addresses they answer, and the bus resolves an address to
//! the (masked) address and device that should see it.
use vstd::prelude::*;

verus! {

#[derive(Debug, Clone, Copy, PartialEq, Eq, Structural)]
pub enum BusKind {
    Cpu,
    Ppu,
}

#[derive(Clone, Copy, Debug, PartialEq, Eq, Structural)]
pub enum DeviceKind {
    CpuRam,
    Ppu,
    Mapper,
    Input,
    Apu,
    PulseOne,
    PulseTwo,
    Noise,
    Triangle,
    Dmc,
    Debug,
}

/// Matches exactly one address.
#[derive(Debug, Copy, Clone)]
pub struct Address(pub u16);

/// Matches when `addr & self.0 != 0`, yielding `addr & self.1`.
#[derive(Debug, Copy, Clone)]
pub struct AndAndMask(pub u16, pub u16);

/// Matches when `addr` has no bits outside `self.0`, yielding `addr & self.0`.
#[derive(Debug, Copy, Clone)]
pub struct NotAndMask(pub u16);

/// Matches when `addr & self.0 == self.1`, yielding `addr & self.2`.
#[derive(Debug, Copy, Clone)]
pub struct AndEqualsAndMask(pub u16, pub u16, pub u16);

/// Matches `self.0 <= addr < self.1`, yielding `addr & self.2`.
#[derive(Debug, Copy, Clone)]
pub struct RangeAndMask(pub u16, pub u16, pub u16);

#[derive(Debug, Copy, Clone)]
pub enum MappingFn {
    Address(Address),
    AndAndMask(AndAndMask),
    NotAndMask(NotAndMask),
    AndEqualsAndMask(AndEqualsAndMask),
    RangeAndMask(RangeAndMask),
}

impl Address {
    pub open spec fn spec_map(self, addr: u16) -> Option<u16> {
        if self.0 == addr { Some(addr) } else { None }
    }

    fn map(&self, addr: u16) -> (r: Option<u16>)
        ensures r == self.spec_map(addr),
    {
        if self.0 == addr {
            Some(addr)
        } else {
            None
        }
    }
}

impl AndAndMask {
    pub open spec fn spec_map(self, addr: u16) -> Option<u16> {
        if addr & self.0 != 0 { Some(addr & self.1) } else { None }
    }

    fn map(&self, addr: u16) -> (r: Option<u16>)
        ensures r == self.spec_map(addr),
    {
        if addr & self.0 != 0 {
            Some(addr & self.1)
        } else {
            None
        }
    }
}

impl NotAndMask {
    pub open spec fn spec_map(self, addr: u16) -> Option<u16> {
        if addr & (!self.0) == 0 { Some(addr & self.0) } else { None }
    }

    fn map(&self, addr: u16) -> (r: Option<u16>)
        ensures r == self.spec_map(addr),
    {
        if addr & (!self.0) == 0 {
            Some(addr & self.0)
        } else {
            None
        }
    }
}

impl AndEqualsAndMask {
    pub open spec fn spec_map(self, addr: u16) -> Option<u16> {
        if addr & self.0 == self.1 { Some(addr & self.2) } else { None }
    }

    fn map(&self, addr: u16) -> (r: Option<u16>)
        ensures r == self.spec_map(addr),
    {
        if addr & self.0 == self.1 {
            Some(addr & self.2)
        } else {
            None
        }
    }
}

impl RangeAndMask {
    pub open spec fn spec_map(self, addr: u16) -> Option<u16> {
        if self.0 <= addr && addr < self.1 { Some(addr & self.2) } else { None }
    }

    fn map(&self, addr: u16) -> (r: Option<u16>)
        ensures r == self.spec_map(addr),
    {
        if addr >= self.0 && addr < self.1 {
            Some(addr & self.2)
        } else {
            None
        }
    }
}

impl MappingFn {
    pub open spec fn spec_map(self, addr: u16) -> Option<u16> {
        match self {
            MappingFn::Address(a) => a.spec_map(addr),
            MappingFn::AndAndMask(a) => a.spec_map(addr),
            MappingFn::NotAndMask(a) => a.spec_map(addr),
            MappingFn::AndEqualsAndMask(a) => a.spec_map(addr),
            MappingFn::RangeAndMask(a) => a.spec_map(addr),
        }
    }

    fn map(&self, address: u16) -> (r: Option<u16>)
        ensures r == self.spec_map(address),
    {
        match self {
            MappingFn::Address(a) => a.map(address),
            MappingFn::AndAndMask(a) => a.map(address),
            MappingFn::NotAndMask(a) => a.map(address),
            MappingFn::AndEqualsAndMask(a) => a.map(address),
            MappingFn::RangeAndMask(a) => a.map(address),
        }
    }
}

impl vstd::std_specs::convert::FromSpecImpl<Address> for MappingFn {
    open spec fn obeys_from_spec() -> bool {
        true
    }

    open spec fn from_spec(v: Address) -> Self {
        MappingFn::Address(v)
    }
}

impl From<Address> for MappingFn {
    fn from(value: Address) -> (r: Self) {
        MappingFn::Address(value)
    }
}

impl vstd::std_specs::convert::FromSpecImpl<AndAndMask> for MappingFn {
    open spec fn obeys_from_spec() -> bool {
        true
    }

    open spec fn from_spec(v: AndAndMask) -> Self {
        MappingFn::AndAndMask(v)
    }
}

impl From<AndAndMask> for MappingFn {
    fn from(value: AndAndMask) -> (r: Self) {
        MappingFn::AndAndMask(value)
    }
}

impl vstd::std_specs::convert::FromSpecImpl<NotAndMask> for MappingFn {
    open spec fn obeys_from_spec() -> bool {
        true
    }

    open spec fn from_spec(v: NotAndMask) -> Self {
        MappingFn::NotAndMask(v)
    }
}

impl From<NotAndMask> for MappingFn {
    fn from(value: NotAndMask) -> (r: Self) {
        MappingFn::NotAndMask(value)
    }
}

impl vstd::std_specs::convert::FromSpecImpl<AndEqualsAndMask> for MappingFn {
    open spec fn obeys_from_spec() -> bool {
        true
    }

    open spec fn from_spec(v: AndEqualsAndMask) -> Self {
        MappingFn::AndEqualsAndMask(v)
    }
}

impl From<AndEqualsAndMask> for MappingFn {
    fn from(value: AndEqualsAndMask) -> (r: Self) {
        MappingFn::AndEqualsAndMask(value)
    }
}

impl vstd::std_specs::convert::FromSpecImpl<RangeAndMask> for MappingFn {
    open spec fn obeys_from_spec() -> bool {
        true
    }

    open spec fn from_spec(v: RangeAndMask) -> Self {
        MappingFn::RangeAndMask(v)
    }
}

impl From<RangeAndMask> for MappingFn {
    fn from(value: RangeAndMask) -> (r: Self) {
        MappingFn::RangeAndMask(value)
    }
}

/// The first registered mapping that accepts `addr`, with the address it yields.
pub open spec fn first_match(s: Seq<(MappingFn, DeviceKind)>, addr: u16) -> Option<(u16, DeviceKind)>
    decreases s.len(),
{
    if s.len() == 0 {
        None
    } else {
        let prev = first_match(s.drop_last(), addr);
        if prev is Some {
            prev
        } else {
            match s.last().0.spec_map(addr) {
                Some(a) => Some((a, s.last().1)),
                None => None,
            }
        }
    }
}

/// Every registered mapping that accepts `addr`, in registration order.
pub open spec fn all_matches(s: Seq<(MappingFn, DeviceKind)>, addr: u16) -> Seq<(u16, DeviceKind)>
    decreases s.len(),
{
    if s.len() == 0 {
        Seq::empty()
    } else {
        let prev = all_matches(s.drop_last(), addr);
        match s.last().0.spec_map(addr) {
            Some(a) => prev.push((a, s.last().1)),
            None => prev,
        }
    }
}

struct DeviceMapping {
    mappings: Vec<(MappingFn, DeviceKind)>,
}

impl DeviceMapping {
    fn new() -> (r: Self)
        ensures r.mappings@ == Seq::<(MappingFn, DeviceKind)>::empty(),
    {
        Self { mappings: Vec::new() }
    }

    fn insert(&mut self, map_fn: MappingFn, device: DeviceKind)
        ensures final(self).mappings@ == old(self).mappings@.push((map_fn, device)),
    {
        self.mappings.push((map_fn, device))
    }

    fn map(&self, addr: u16) -> (r: Option<(u16, DeviceKind)>)
        ensures r == first_match(self.mappings@, addr),
    {
        let mut i: usize = 0;
        while i < self.mappings.len()
            invariant
                i <= self.mappings.len(),
                first_match(self.mappings@.take(i as int), addr) is None,
            decreases self.mappings.len() - i,
        {
            assert(self.mappings@.take(i + 1).drop_last() =~= self.mappings@.take(i as int));
            let (map_fn, device) = self.mappings[i];
            if let Some(a) = map_fn.map(addr) {
                proof { lemma_first_match_prefix(self.mappings@, (i + 1) as int, addr); }
                return Some((a, device));
            }
            i += 1;
        }
        assert(self.mappings@.take(i as int) =~= self.mappings@);
        None
    }

    fn iter(&self, addr: u16) -> (r: Vec<(u16, DeviceKind)>)
        ensures r@ == all_matches(self.mappings@, addr),
    {
        let mut out: Vec<(u16, DeviceKind)> = Vec::new();
        let mut i: usize = 0;
        while i < self.mappings.len()
            invariant
                i <= self.mappings.len(),
                out@ == all_matches(self.mappings@.take(i as int), addr),
            decreases self.mappings.len() - i,
        {
            assert(self.mappings@.take(i + 1).drop_last() =~= self.mappings@.take(i as int));
            let (map_fn, device) = self.mappings[i];
            if let Some(a) = map_fn.map(addr) {
                out.push((a, device));
            }
            i += 1;
        }
        assert(self.mappings@.take(i as int) =~= self.mappings@);
        out
    }
}

/// Once a prefix has a match, every longer prefix reports that same match.
proof fn lemma_first_match_prefix(s: Seq<(MappingFn, DeviceKind)>, n: int, addr: u16)
    requires
        0 <= n <= s.len(),
        first_match(s.take(n), addr) is Some,
    ensures
        first_match(s, addr) == first_match(s.take(n), addr),
    decreases s.len() - n,
{
    if n < s.len() {
        assert(s.take(n + 1).drop_last() =~= s.take(n));
        lemma_first_match_prefix(s, n + 1, addr);
    } else {
        assert(s.take(n) =~= s);
    }
}

pub struct AddressBus {
    read_mapping: DeviceMapping,
    write_mapping: DeviceMapping,
    block_size: u16,
    mask: u16,
    pub open_bus: u8,
}

impl AddressBus {
    /// Reads see the first device registered for an address.
    pub closed spec fn reads(&self) -> Seq<(MappingFn, DeviceKind)> {
        self.read_mapping.mappings@
    }

    /// Writes reach every device registered for an address.
    pub closed spec fn writes(&self) -> Seq<(MappingFn, DeviceKind)> {
        self.write_mapping.mappings@
    }

    pub closed spec fn spec_block_size(&self) -> u16 {
        self.block_size
    }

    pub closed spec fn spec_mask(&self) -> u16 {
        self.mask
    }

    pub closed spec fn spec_open_bus(&self) -> u8 {
        self.open_bus
    }

    /// The address the mapping functions see: the block offset and the
    /// bits outside `mask` cleared.
    pub open spec fn decoded(&self, addr: u16) -> u16 {
        (addr & !((self.spec_block_size() - 1) as u16)) & self.spec_mask()
    }

    pub fn new(block_size: u32, mask: u16) -> (r: AddressBus)
        requires
            block_size < 16,
        ensures
            r.reads() == Seq::<(MappingFn, DeviceKind)>::empty(),
            r.writes() == Seq::<(MappingFn, DeviceKind)>::empty(),
            r.spec_block_size() == 1u16 << block_size,
            r.spec_block_size() >= 1,
            r.spec_mask() == mask,
            r.spec_open_bus() == 0,
    {
        let bs: u16 = 1u16 << block_size;
        assert(1u16 << block_size >= 1) by (bit_vector)
            requires block_size < 16;
        AddressBus {
            read_mapping: DeviceMapping::new(),
            write_mapping: DeviceMapping::new(),
            block_size: bs,
            open_bus: 0,
            mask,
        }
    }

    pub fn register_read(&mut self, device: DeviceKind, addr_val: MappingFn)
        ensures
            final(self).reads() == old(self).reads().push((addr_val, device)),
            final(self).writes() == old(self).writes(),
            final(self).spec_block_size() == old(self).spec_block_size(),
            final(self).spec_mask() == old(self).spec_mask(),
            final(self).spec_open_bus() == old(self).spec_open_bus(),
    {
        self.read_mapping.insert(addr_val, device);
    }

    pub fn register_write(&mut self, device: DeviceKind, addr_val: MappingFn)
        ensures
            final(self).writes() == old(self).writes().push((addr_val, device)),
            final(self).reads() == old(self).reads(),
            final(self).spec_block_size() == old(self).spec_block_size(),
            final(self).spec_mask() == old(self).spec_mask(),
            final(self).spec_open_bus() == old(self).spec_open_bus(),
    {
        self.write_mapping.insert(addr_val, device);
    }

    pub fn read_addr(&self, addr: u16) -> (r: Option<(u16, DeviceKind)>)
        requires
            self.spec_block_size() >= 1,
        ensures
            r == first_match(self.reads(), self.decoded(addr)),
    {
        let addr = (addr & !(self.block_size - 1)) & self.mask;
        self.read_mapping.map(addr)
    }

    pub fn write_addrs(&self, addr: u16) -> (r: Vec<(u16, DeviceKind)>)
        requires
            self.spec_block_size() >= 1,
        ensures
            r@ == all_matches(self.writes(), self.decoded(addr)),
    {
        let addr = (addr & !(self.block_size - 1)) & self.mask;
        self.write_mapping.iter(addr)
    }
}

} // verus!
