//! Cartridge boards: bank switching, nametable mirroring and the extra
//! hardware (IRQ counters, audio) that each board carries.
use vstd::prelude::*;

pub mod action53;
pub mod axrom;
pub mod bf909x;
pub mod bxrom;
pub mod cnrom;
pub mod fds;
pub mod fds_sound;
pub mod fme7;
pub mod j87;
pub mod mapper_031;
pub mod mmc1;
pub mod mmc2;
pub mod mmc3;
pub mod namco163;
pub mod namco175_340;
pub mod nina001;
pub mod nina006;
pub mod nrom;
pub mod uxrom;
pub mod vrc4;
pub mod vrc6;
pub mod vrc7;
pub mod vrc7_sound;
pub mod vrc_irq;

use nrom::Nrom;
use axrom::Axrom;
use bxrom::Bxrom;
use cnrom::Cnrom;
use j87::J87;
use nina006::Nina006;
use uxrom::Uxrom;
use nina001::Nina001;
use bf909x::Bf909x;
use mapper_031::Mapper031;
use mmc1::Mmc1;
use action53::Action53;
use mmc2::Mmc2;
use namco175_340::Namco175_340;
use vrc4::Vrc4;
use mmc3::Mmc3;
use fme7::Fme7;
use vrc6::Vrc6;
use namco163::Namco163;
use vrc7::Vrc7;
use fds::Fds;
use mmc2::Mmc2Variant;
use namco175_340::NamcoVariant;
use vrc4::{vrc4_number, Vrc4Variant};
use mmc3::Mmc3Variant;
use vrc6::Vrc6Variant;
use vrc7::Vrc7Variant;

use crate::bus::{AddressBus, BusKind};
use crate::cartridge::{CartMirroring, INes};
use crate::memory::{mapped_address, Memory};
use crate::ppu::PpuFetchKind;

verus! {

/// Battery-backed RAM contents, as saved and restored by a frontend.
#[derive(Debug, Clone)]
pub struct SaveWram(Vec<u8>);

impl View for SaveWram {
    type V = Seq<u8>;

    closed spec fn view(&self) -> Seq<u8> {
        self.0@
    }
}

impl SaveWram {
    pub fn from_bytes(bytes: Vec<u8>) -> (r: Self)
        ensures
            r@ == bytes@,
    {
        Self(bytes)
    }

    pub fn to_bytes(self) -> (r: Vec<u8>)
        ensures
            r@ == self@,
    {
        self.0
    }
}

} // verus!

verus! {

#[derive(Debug, Copy, Clone, PartialEq, Eq, Structural)]
pub enum FdsInput {
    SetDisk(Option<usize>),
}

#[derive(Debug, Copy, Clone, PartialEq, Eq, Structural)]
pub enum MapperInput {
    Fds(FdsInput),
}

} // verus!


verus! {

#[derive(Debug, Copy, Clone, PartialEq, Eq, Structural)]
pub enum Nametable {
    InternalA,
    InternalB,
    External,
}

#[derive(Debug, Copy, Clone, PartialEq, Eq, Structural)]
pub enum Mirroring {
    Horizontal,
    Vertical,
    Single(Nametable),
    FourScreen,
}

impl Mirroring {
    /// The nametable a PPU address selects. Pattern-table addresses go to
    /// the cartridge; horizontal mirroring splits on A11, vertical on A10,
    /// four-screen gives the cartridge the upper two pages.
    pub open spec fn spec_ppu_fetch(self, address: u16) -> Nametable {
        if address & 0x2000 != 0 {
            match self {
                Mirroring::Single(n) => n,
                Mirroring::Horizontal => if address & 0x800 != 0 {
                    Nametable::InternalA
                } else {
                    Nametable::InternalB
                },
                Mirroring::Vertical => if address & 0x400 != 0 {
                    Nametable::InternalA
                } else {
                    Nametable::InternalB
                },
                Mirroring::FourScreen => if address & 0xc00 == 0 {
                    Nametable::InternalA
                } else if address & 0xc00 == 0x400 {
                    Nametable::InternalB
                } else {
                    Nametable::External
                },
            }
        } else {
            Nametable::External
        }
    }

    fn ppu_fetch(&self, address: u16) -> (r: Nametable)
        ensures
            r == self.spec_ppu_fetch(address),
    {
        if address & 0x2000 != 0 {
            match self {
                Mirroring::Single(n) => *n,
                Mirroring::Horizontal => {
                    if address & 0x800 != 0 {
                        Nametable::InternalA
                    } else {
                        Nametable::InternalB
                    }
                },
                Mirroring::Vertical => {
                    if address & 0x400 != 0 {
                        Nametable::InternalA
                    } else {
                        Nametable::InternalB
                    }
                },
                Mirroring::FourScreen => {
                    let q = address & 0xc00;
                    if q == 0x000 {
                        Nametable::InternalA
                    } else if q == 0x400 {
                        Nametable::InternalB
                    } else {
                        Nametable::External
                    }
                },
            }
        } else {
            Nametable::External
        }
    }
}

/// Mirroring that a board can switch at run time.
#[derive(Debug, Clone, Copy, PartialEq, Eq, Structural)]
pub struct SimpleMirroring {
    pub mirroring: Mirroring,
}

impl SimpleMirroring {
    pub fn new(mirroring: Mirroring) -> (r: Self)
        ensures
            r.mirroring == mirroring,
    {
        Self { mirroring }
    }

    pub fn internal_a(&mut self)
        ensures
            final(self).mirroring == Mirroring::Single(Nametable::InternalA),
    {
        self.mirroring = Mirroring::Single(Nametable::InternalA);
    }

    pub fn internal_b(&mut self)
        ensures
            final(self).mirroring == Mirroring::Single(Nametable::InternalB),
    {
        self.mirroring = Mirroring::Single(Nametable::InternalB);
    }

    pub fn horizontal(&mut self)
        ensures
            final(self).mirroring == Mirroring::Horizontal,
    {
        self.mirroring = Mirroring::Horizontal;
    }

    pub fn vertical(&mut self)
        ensures
            final(self).mirroring == Mirroring::Vertical,
    {
        self.mirroring = Mirroring::Vertical;
    }

    pub fn set(&mut self, mirroring: Mirroring)
        ensures
            final(self).mirroring == mirroring,
    {
        self.mirroring = mirroring;
    }

    pub fn ppu_fetch(&self, address: u16) -> (r: Nametable)
        ensures
            r == self.mirroring.spec_ppu_fetch(address),
    {
        self.mirroring.ppu_fetch(address)
    }
}

/// The byte at offset `addr` of bank `bank` in `mem`, wrapping at its end.
pub open spec fn banked(mem: Seq<u8>, bank: usize, bank_size: usize, addr: u16) -> u8 {
    mem[(mapped_address(bank, bank_size, addr) as int) % (mem.len() as int)]
}

/// The index a banked write lands on.
pub open spec fn banked_index(mem: Seq<u8>, bank: usize, bank_size: usize, addr: u16) -> int {
    (mapped_address(bank, bank_size, addr) as int) % (mem.len() as int)
}

/// A cartridge board as the CPU and PPU buses see it.
pub trait Mapper: Sized {
    /// The board's memories are usable (non-empty where they are read).
    spec fn wf(&self) -> bool;

    /// The addresses the board answers reads on (those it registers).
    spec fn readable(&self, bus: BusKind, addr: u16) -> bool;

    /// The addresses the board accepts writes on.
    spec fn writable(&self, bus: BusKind, addr: u16) -> bool;

    /// The PPU addresses the board resolves a nametable for.
    spec fn fetchable(&self, address: u16) -> bool;

    /// The frontend inputs the board can take.
    spec fn accepts(&self, input: MapperInput) -> bool;

    /// What a side-effect-free read of `addr` on `bus` returns.
    spec fn spec_peek(&self, bus: BusKind, addr: u16) -> u8;

    /// Which nametable serves a PPU address.
    spec fn spec_nametable(&self, address: u16) -> Nametable;

    fn register(&self, cpu: &mut AddressBus)
        requires
            self.wf(),
    ;

    fn peek(&self, bus: BusKind, addr: u16) -> (r: u8)
        requires
            self.wf(),
            self.readable(bus, addr),
        ensures
            r == self.spec_peek(bus, addr),
    ;

    fn read(&mut self, bus: BusKind, addr: u16) -> (r: u8)
        requires
            old(self).wf(),
            old(self).readable(bus, addr),
        ensures
            final(self).wf(),
        default_ensures
            r == old(self).spec_peek(bus, addr),
            *final(self) == *old(self),
    {
        self.peek(bus, addr)
    }

    fn write(&mut self, bus: BusKind, addr: u16, value: u8)
        requires
            old(self).wf(),
            old(self).writable(bus, addr),
        ensures
            final(self).wf(),
    ;

    fn get_irq(&self) -> (r: bool)
        default_ensures
            !r,
    {
        false
    }

    fn tick(&mut self)
        requires
            old(self).wf(),
        ensures
            final(self).wf(),
        default_ensures
            *final(self) == *old(self),
    {
    }

    fn peek_ppu_fetch(&self, address: u16, kind: PpuFetchKind) -> (r: Nametable)
        requires
            self.fetchable(address),
        ensures
            r == self.spec_nametable(address),
    ;

    fn ppu_fetch(&mut self, address: u16, kind: PpuFetchKind) -> (r: Nametable)
        requires
            old(self).wf(),
            old(self).fetchable(address),
        ensures
            final(self).wf(),
        default_ensures
            r == old(self).spec_nametable(address),
            *final(self) == *old(self),
    {
        self.peek_ppu_fetch(address, kind)
    }

    fn get_sample(&self) -> (r: Option<i16>)
        requires
            self.wf(),
        default_ensures
            r is None,
    {
        None
    }

    fn power(&mut self)
        requires
            old(self).wf(),
        ensures
            final(self).wf(),
        default_ensures
            *final(self) == *old(self),
    {
    }

    fn input(&mut self, input: MapperInput)
        requires
            old(self).wf(),
            old(self).accepts(input),
        ensures
            final(self).wf(),
        default_ensures
            *final(self) == *old(self),
    {
    }

    fn save_wram(&self) -> (r: Option<SaveWram>)
        default_ensures
            r is None,
    {
        None
    }
}

} // verus!

verus! {

/// The boards this crate implements.
pub enum Board {
    Nrom(Nrom),
    Axrom(Axrom),
    Bxrom(Bxrom),
    Cnrom(Cnrom),
    J87(J87),
    Nina006(Nina006),
    Uxrom(Uxrom),
    Nina001(Nina001),
    Bf909x(Bf909x),
    Mapper031(Mapper031),
    Mmc1(Mmc1),
    Action53(Action53),
    Mmc2(Mmc2),
    Namco175_340(Namco175_340),
    Vrc4(Vrc4),
    Mmc3(Mmc3),
    Fme7(Fme7),
    Vrc6(Vrc6),
    Namco163(Namco163),
    Vrc7(Vrc7),
    Fds(Fds),
}

/// A cartridge board behind a uniform interface.
pub struct RcMapper(pub Board);

impl RcMapper {
    pub open spec fn wf(&self) -> bool {
        match &self.0 {
            Board::Nrom(m) => m.wf(),
            Board::Axrom(m) => m.wf(),
            Board::Bxrom(m) => m.wf(),
            Board::Cnrom(m) => m.wf(),
            Board::J87(m) => m.wf(),
            Board::Nina006(m) => m.wf(),
            Board::Uxrom(m) => m.wf(),
            Board::Nina001(m) => m.wf(),
            Board::Bf909x(m) => m.wf(),
            Board::Mapper031(m) => m.wf(),
            Board::Mmc1(m) => m.wf(),
            Board::Action53(m) => m.wf(),
            Board::Mmc2(m) => m.wf(),
            Board::Namco175_340(m) => m.wf(),
            Board::Vrc4(m) => m.wf(),
            Board::Mmc3(m) => m.wf(),
            Board::Fme7(m) => m.wf(),
            Board::Vrc6(m) => m.wf(),
            Board::Namco163(m) => m.wf(),
            Board::Vrc7(m) => m.wf(),
            Board::Fds(m) => m.wf(),
        }
    }

    pub open spec fn readable(&self, bus: BusKind, addr: u16) -> bool {
        match &self.0 {
            Board::Nrom(m) => m.readable(bus, addr),
            Board::Axrom(m) => m.readable(bus, addr),
            Board::Bxrom(m) => m.readable(bus, addr),
            Board::Cnrom(m) => m.readable(bus, addr),
            Board::J87(m) => m.readable(bus, addr),
            Board::Nina006(m) => m.readable(bus, addr),
            Board::Uxrom(m) => m.readable(bus, addr),
            Board::Nina001(m) => m.readable(bus, addr),
            Board::Bf909x(m) => m.readable(bus, addr),
            Board::Mapper031(m) => m.readable(bus, addr),
            Board::Mmc1(m) => m.readable(bus, addr),
            Board::Action53(m) => m.readable(bus, addr),
            Board::Mmc2(m) => m.readable(bus, addr),
            Board::Namco175_340(m) => m.readable(bus, addr),
            Board::Vrc4(m) => m.readable(bus, addr),
            Board::Mmc3(m) => m.readable(bus, addr),
            Board::Fme7(m) => m.readable(bus, addr),
            Board::Vrc6(m) => m.readable(bus, addr),
            Board::Namco163(m) => m.readable(bus, addr),
            Board::Vrc7(m) => m.readable(bus, addr),
            Board::Fds(m) => m.readable(bus, addr),
        }
    }

    pub open spec fn writable(&self, bus: BusKind, addr: u16) -> bool {
        match &self.0 {
            Board::Nrom(m) => m.writable(bus, addr),
            Board::Axrom(m) => m.writable(bus, addr),
            Board::Bxrom(m) => m.writable(bus, addr),
            Board::Cnrom(m) => m.writable(bus, addr),
            Board::J87(m) => m.writable(bus, addr),
            Board::Nina006(m) => m.writable(bus, addr),
            Board::Uxrom(m) => m.writable(bus, addr),
            Board::Nina001(m) => m.writable(bus, addr),
            Board::Bf909x(m) => m.writable(bus, addr),
            Board::Mapper031(m) => m.writable(bus, addr),
            Board::Mmc1(m) => m.writable(bus, addr),
            Board::Action53(m) => m.writable(bus, addr),
            Board::Mmc2(m) => m.writable(bus, addr),
            Board::Namco175_340(m) => m.writable(bus, addr),
            Board::Vrc4(m) => m.writable(bus, addr),
            Board::Mmc3(m) => m.writable(bus, addr),
            Board::Fme7(m) => m.writable(bus, addr),
            Board::Vrc6(m) => m.writable(bus, addr),
            Board::Namco163(m) => m.writable(bus, addr),
            Board::Vrc7(m) => m.writable(bus, addr),
            Board::Fds(m) => m.writable(bus, addr),
        }
    }

    pub open spec fn accepts(&self, input: MapperInput) -> bool {
        match &self.0 {
            Board::Nrom(m) => m.accepts(input),
            Board::Axrom(m) => m.accepts(input),
            Board::Bxrom(m) => m.accepts(input),
            Board::Cnrom(m) => m.accepts(input),
            Board::J87(m) => m.accepts(input),
            Board::Nina006(m) => m.accepts(input),
            Board::Uxrom(m) => m.accepts(input),
            Board::Nina001(m) => m.accepts(input),
            Board::Bf909x(m) => m.accepts(input),
            Board::Mapper031(m) => m.accepts(input),
            Board::Mmc1(m) => m.accepts(input),
            Board::Action53(m) => m.accepts(input),
            Board::Mmc2(m) => m.accepts(input),
            Board::Namco175_340(m) => m.accepts(input),
            Board::Vrc4(m) => m.accepts(input),
            Board::Mmc3(m) => m.accepts(input),
            Board::Fme7(m) => m.accepts(input),
            Board::Vrc6(m) => m.accepts(input),
            Board::Namco163(m) => m.accepts(input),
            Board::Vrc7(m) => m.accepts(input),
            Board::Fds(m) => m.accepts(input),
        }
    }

    pub open spec fn fetchable(&self, address: u16) -> bool {
        match &self.0 {
            Board::Nrom(m) => m.fetchable(address),
            Board::Axrom(m) => m.fetchable(address),
            Board::Bxrom(m) => m.fetchable(address),
            Board::Cnrom(m) => m.fetchable(address),
            Board::J87(m) => m.fetchable(address),
            Board::Nina006(m) => m.fetchable(address),
            Board::Uxrom(m) => m.fetchable(address),
            Board::Nina001(m) => m.fetchable(address),
            Board::Bf909x(m) => m.fetchable(address),
            Board::Mapper031(m) => m.fetchable(address),
            Board::Mmc1(m) => m.fetchable(address),
            Board::Action53(m) => m.fetchable(address),
            Board::Mmc2(m) => m.fetchable(address),
            Board::Namco175_340(m) => m.fetchable(address),
            Board::Vrc4(m) => m.fetchable(address),
            Board::Mmc3(m) => m.fetchable(address),
            Board::Fme7(m) => m.fetchable(address),
            Board::Vrc6(m) => m.fetchable(address),
            Board::Namco163(m) => m.fetchable(address),
            Board::Vrc7(m) => m.fetchable(address),
            Board::Fds(m) => m.fetchable(address),
        }
    }

    pub open spec fn spec_peek(&self, bus: BusKind, addr: u16) -> u8 {
        match &self.0 {
            Board::Nrom(m) => m.spec_peek(bus, addr),
            Board::Axrom(m) => m.spec_peek(bus, addr),
            Board::Bxrom(m) => m.spec_peek(bus, addr),
            Board::Cnrom(m) => m.spec_peek(bus, addr),
            Board::J87(m) => m.spec_peek(bus, addr),
            Board::Nina006(m) => m.spec_peek(bus, addr),
            Board::Uxrom(m) => m.spec_peek(bus, addr),
            Board::Nina001(m) => m.spec_peek(bus, addr),
            Board::Bf909x(m) => m.spec_peek(bus, addr),
            Board::Mapper031(m) => m.spec_peek(bus, addr),
            Board::Mmc1(m) => m.spec_peek(bus, addr),
            Board::Action53(m) => m.spec_peek(bus, addr),
            Board::Mmc2(m) => m.spec_peek(bus, addr),
            Board::Namco175_340(m) => m.spec_peek(bus, addr),
            Board::Vrc4(m) => m.spec_peek(bus, addr),
            Board::Mmc3(m) => m.spec_peek(bus, addr),
            Board::Fme7(m) => m.spec_peek(bus, addr),
            Board::Vrc6(m) => m.spec_peek(bus, addr),
            Board::Namco163(m) => m.spec_peek(bus, addr),
            Board::Vrc7(m) => m.spec_peek(bus, addr),
            Board::Fds(m) => m.spec_peek(bus, addr),
        }
    }

    pub open spec fn spec_nametable(&self, address: u16) -> Nametable {
        match &self.0 {
            Board::Nrom(m) => m.spec_nametable(address),
            Board::Axrom(m) => m.spec_nametable(address),
            Board::Bxrom(m) => m.spec_nametable(address),
            Board::Cnrom(m) => m.spec_nametable(address),
            Board::J87(m) => m.spec_nametable(address),
            Board::Nina006(m) => m.spec_nametable(address),
            Board::Uxrom(m) => m.spec_nametable(address),
            Board::Nina001(m) => m.spec_nametable(address),
            Board::Bf909x(m) => m.spec_nametable(address),
            Board::Mapper031(m) => m.spec_nametable(address),
            Board::Mmc1(m) => m.spec_nametable(address),
            Board::Action53(m) => m.spec_nametable(address),
            Board::Mmc2(m) => m.spec_nametable(address),
            Board::Namco175_340(m) => m.spec_nametable(address),
            Board::Vrc4(m) => m.spec_nametable(address),
            Board::Mmc3(m) => m.spec_nametable(address),
            Board::Fme7(m) => m.spec_nametable(address),
            Board::Vrc6(m) => m.spec_nametable(address),
            Board::Namco163(m) => m.spec_nametable(address),
            Board::Vrc7(m) => m.spec_nametable(address),
            Board::Fds(m) => m.spec_nametable(address),
        }
    }

    /// The board's number: its iNES mapper (variants of one number told
    /// apart by a thousands digit).
    pub open spec fn board_number(&self) -> int {
        match &self.0 {
            Board::Nrom(_) => 0,
            Board::Axrom(_) => 7,
            Board::Bxrom(_) => 2034,
            Board::Cnrom(_) => 3,
            Board::J87(_) => 87,
            Board::Nina006(_) => 79,
            Board::Uxrom(_) => 2,
            Board::Nina001(_) => 1034,
            Board::Bf909x(_) => 71,
            Board::Mapper031(_) => 31,
            Board::Mmc1(_) => 1,
            Board::Action53(_) => 28,
            Board::Mmc2(m) => if m.variant() is Mmc4 { 10 } else { 9 },
            Board::Namco175_340(_) => 210,
            Board::Vrc4(m) => vrc4_number(m.variant()),
            Board::Mmc3(_) => 4,
            Board::Fme7(_) => 69,
            Board::Vrc6(m) => if m.variant() is B { 26 } else { 24 },
            Board::Namco163(_) => 19,
            Board::Vrc7(_) => 85,
            Board::Fds(_) => 20,
        }
    }

    /// What a write does to the board behind the handle: that board's own
    /// write, and the board stays the same kind.
    pub open spec fn written(&self, new: &RcMapper, bus: BusKind, addr: u16, value: u8) -> bool {
        match (self.0, new.0) {
            (Board::Nrom(a), Board::Nrom(b)) => a.wrote(&b, bus, addr, value),
            (Board::Axrom(a), Board::Axrom(b)) => a.wrote(&b, bus, addr, value),
            (Board::Bxrom(a), Board::Bxrom(b)) => a.wrote(&b, bus, addr, value),
            (Board::Cnrom(a), Board::Cnrom(b)) => a.wrote(&b, bus, addr, value),
            (Board::J87(a), Board::J87(b)) => a.wrote(&b, bus, addr, value),
            (Board::Nina006(a), Board::Nina006(b)) => a.wrote(&b, bus, addr, value),
            (Board::Uxrom(a), Board::Uxrom(b)) => a.wrote(&b, bus, addr, value),
            (Board::Nina001(a), Board::Nina001(b)) => a.wrote(&b, bus, addr, value),
            (Board::Bf909x(a), Board::Bf909x(b)) => a.wrote(&b, bus, addr, value),
            (Board::Mapper031(a), Board::Mapper031(b)) => a.wrote(&b, bus, addr, value),
            (Board::Mmc1(a), Board::Mmc1(b)) => a.wrote(&b, bus, addr, value),
            (Board::Action53(a), Board::Action53(b)) => a.wrote(&b, bus, addr, value),
            (Board::Mmc2(a), Board::Mmc2(b)) => a.wrote(&b, bus, addr, value),
            (Board::Namco175_340(a), Board::Namco175_340(b)) => a.wrote(&b, bus, addr, value),
            (Board::Vrc4(a), Board::Vrc4(b)) => a.wrote(&b, bus, addr, value),
            (Board::Mmc3(a), Board::Mmc3(b)) => a.wrote(&b, bus, addr, value),
            (Board::Fme7(a), Board::Fme7(b)) => a.wrote(&b, bus, addr, value),
            (Board::Vrc6(a), Board::Vrc6(b)) => a.wrote(&b, bus, addr, value),
            (Board::Namco163(a), Board::Namco163(b)) => a.wrote(&b, bus, addr, value),
            (Board::Vrc7(a), Board::Vrc7(b)) => a.wrote(&b, bus, addr, value),
            (Board::Fds(a), Board::Fds(b)) => a.wrote(&b, bus, addr, value),
            _ => false,
        }
    }

    /// What a read returns and does: the board's own read; boards without
    /// side effects answer their `peek` and stay as they were.
    pub open spec fn was_read(&self, new: &RcMapper, r: u8, bus: BusKind, addr: u16) -> bool {
        match (self.0, new.0) {
            (Board::Nrom(a), Board::Nrom(b)) => r == a.spec_peek(bus, addr) && b == a,
            (Board::Axrom(a), Board::Axrom(b)) => r == a.spec_peek(bus, addr) && b == a,
            (Board::Bxrom(a), Board::Bxrom(b)) => r == a.spec_peek(bus, addr) && b == a,
            (Board::Cnrom(a), Board::Cnrom(b)) => r == a.spec_peek(bus, addr) && b == a,
            (Board::J87(a), Board::J87(b)) => r == a.spec_peek(bus, addr) && b == a,
            (Board::Nina006(a), Board::Nina006(b)) => r == a.spec_peek(bus, addr) && b == a,
            (Board::Uxrom(a), Board::Uxrom(b)) => r == a.spec_peek(bus, addr) && b == a,
            (Board::Nina001(a), Board::Nina001(b)) => r == a.spec_peek(bus, addr) && b == a,
            (Board::Bf909x(a), Board::Bf909x(b)) => r == a.spec_peek(bus, addr) && b == a,
            (Board::Mapper031(a), Board::Mapper031(b)) => r == a.spec_peek(bus, addr) && b == a,
            (Board::Mmc1(a), Board::Mmc1(b)) => r == a.spec_peek(bus, addr) && b == a,
            (Board::Action53(a), Board::Action53(b)) => r == a.spec_peek(bus, addr) && b == a,
            (Board::Mmc2(a), Board::Mmc2(b)) => a.was_read(&b, r, bus, addr),
            (Board::Namco175_340(a), Board::Namco175_340(b)) => r == a.spec_peek(bus, addr) && b == a,
            (Board::Vrc4(a), Board::Vrc4(b)) => r == a.spec_peek(bus, addr) && b == a,
            (Board::Mmc3(a), Board::Mmc3(b)) => r == a.spec_peek(bus, addr) && b == a,
            (Board::Fme7(a), Board::Fme7(b)) => r == a.spec_peek(bus, addr) && b == a,
            (Board::Vrc6(a), Board::Vrc6(b)) => r == a.spec_peek(bus, addr) && b == a,
            (Board::Namco163(a), Board::Namco163(b)) => a.was_read(&b, r, bus, addr),
            (Board::Vrc7(a), Board::Vrc7(b)) => r == a.spec_peek(bus, addr) && b == a,
            (Board::Fds(a), Board::Fds(b)) => a.was_read(&b, r, bus, addr),
            _ => false,
        }
    }

    /// What a cycle does: the board's own tick; boards without a clock stay
    /// as they were.
    pub open spec fn ticked_to(&self, new: &RcMapper) -> bool {
        match (self.0, new.0) {
            (Board::Nrom(a), Board::Nrom(b)) => b == a,
            (Board::Axrom(a), Board::Axrom(b)) => b == a,
            (Board::Bxrom(a), Board::Bxrom(b)) => b == a,
            (Board::Cnrom(a), Board::Cnrom(b)) => b == a,
            (Board::J87(a), Board::J87(b)) => b == a,
            (Board::Nina006(a), Board::Nina006(b)) => b == a,
            (Board::Uxrom(a), Board::Uxrom(b)) => b == a,
            (Board::Nina001(a), Board::Nina001(b)) => b == a,
            (Board::Bf909x(a), Board::Bf909x(b)) => b == a,
            (Board::Mapper031(a), Board::Mapper031(b)) => b == a,
            (Board::Mmc1(a), Board::Mmc1(b)) => a.ticked_to(&b),
            (Board::Action53(a), Board::Action53(b)) => b == a,
            (Board::Mmc2(a), Board::Mmc2(b)) => b == a,
            (Board::Namco175_340(a), Board::Namco175_340(b)) => b == a,
            (Board::Vrc4(a), Board::Vrc4(b)) => a.ticked_to(&b),
            (Board::Mmc3(a), Board::Mmc3(b)) => a.ticked_to(&b),
            (Board::Fme7(a), Board::Fme7(b)) => a.ticked_to(&b),
            (Board::Vrc6(a), Board::Vrc6(b)) => a.ticked_to(&b),
            (Board::Namco163(a), Board::Namco163(b)) => a.ticked_to(&b),
            (Board::Vrc7(a), Board::Vrc7(b)) => a.ticked_to(&b),
            (Board::Fds(a), Board::Fds(b)) => a.ticked_to(&b),
            _ => false,
        }
    }

    /// The IRQ line: the board's own; boards without an IRQ source hold it
    /// low.
    pub open spec fn irq_is(&self, r: bool) -> bool {
        match self.0 {
            Board::Nrom(a) => !r,
            Board::Axrom(a) => !r,
            Board::Bxrom(a) => !r,
            Board::Cnrom(a) => !r,
            Board::J87(a) => !r,
            Board::Nina006(a) => !r,
            Board::Uxrom(a) => !r,
            Board::Nina001(a) => !r,
            Board::Bf909x(a) => !r,
            Board::Mapper031(a) => !r,
            Board::Mmc1(a) => !r,
            Board::Action53(a) => !r,
            Board::Mmc2(a) => !r,
            Board::Namco175_340(a) => !r,
            Board::Vrc4(a) => a.irq_is(r),
            Board::Mmc3(a) => a.irq_is(r),
            Board::Fme7(a) => a.irq_is(r),
            Board::Vrc6(a) => a.irq_is(r),
            Board::Namco163(a) => a.irq_is(r),
            Board::Vrc7(a) => a.irq_is(r),
            Board::Fds(a) => a.irq_is(r),
        }
    }

    /// The audio sample: the board's sound chip's; boards without one have
    /// none.
    pub open spec fn sample_is(&self, r: Option<i16>) -> bool {
        match self.0 {
            Board::Nrom(a) => r is None,
            Board::Axrom(a) => r is None,
            Board::Bxrom(a) => r is None,
            Board::Cnrom(a) => r is None,
            Board::J87(a) => r is None,
            Board::Nina006(a) => r is None,
            Board::Uxrom(a) => r is None,
            Board::Nina001(a) => r is None,
            Board::Bf909x(a) => r is None,
            Board::Mapper031(a) => r is None,
            Board::Mmc1(a) => r is None,
            Board::Action53(a) => r is None,
            Board::Mmc2(a) => r is None,
            Board::Namco175_340(a) => r is None,
            Board::Vrc4(a) => r is None,
            Board::Mmc3(a) => r is None,
            Board::Fme7(a) => a.sample_is(r),
            Board::Vrc6(a) => a.sample_is(r),
            Board::Namco163(a) => a.sample_is(r),
            Board::Vrc7(a) => a.sample_is(r),
            Board::Fds(a) => a.sample_is(r),
        }
    }

    /// The battery-backed RAM: the board's own; boards without one have
    /// none.
    pub open spec fn wram_is(&self, r: Option<SaveWram>) -> bool {
        match self.0 {
            Board::Nrom(a) => r is None,
            Board::Axrom(a) => r is None,
            Board::Bxrom(a) => r is None,
            Board::Cnrom(a) => r is None,
            Board::J87(a) => r is None,
            Board::Nina006(a) => r is None,
            Board::Uxrom(a) => r is None,
            Board::Nina001(a) => a.wram_is(r),
            Board::Bf909x(a) => r is None,
            Board::Mapper031(a) => r is None,
            Board::Mmc1(a) => a.wram_is(r),
            Board::Action53(a) => r is None,
            Board::Mmc2(a) => a.wram_is(r),
            Board::Namco175_340(a) => a.wram_is(r),
            Board::Vrc4(a) => a.wram_is(r),
            Board::Mmc3(a) => a.wram_is(r),
            Board::Fme7(a) => a.wram_is(r),
            Board::Vrc6(a) => a.wram_is(r),
            Board::Namco163(a) => a.wram_is(r),
            Board::Vrc7(a) => a.wram_is(r),
            Board::Fds(a) => r is None,
        }
    }

    /// Adds the board's CPU-bus mappings after those already there.
    pub fn register(&self, cpu: &mut AddressBus)
        requires
            self.wf(),
        ensures
            old(cpu).reads().is_prefix_of(final(cpu).reads()),
            old(cpu).writes().is_prefix_of(final(cpu).writes()),
    {
        match &self.0 {
            Board::Nrom(m) => m.register(cpu),
            Board::Axrom(m) => m.register(cpu),
            Board::Bxrom(m) => m.register(cpu),
            Board::Cnrom(m) => m.register(cpu),
            Board::J87(m) => m.register(cpu),
            Board::Nina006(m) => m.register(cpu),
            Board::Uxrom(m) => m.register(cpu),
            Board::Nina001(m) => m.register(cpu),
            Board::Bf909x(m) => m.register(cpu),
            Board::Mapper031(m) => m.register(cpu),
            Board::Mmc1(m) => m.register(cpu),
            Board::Action53(m) => m.register(cpu),
            Board::Mmc2(m) => m.register(cpu),
            Board::Namco175_340(m) => m.register(cpu),
            Board::Vrc4(m) => m.register(cpu),
            Board::Mmc3(m) => m.register(cpu),
            Board::Fme7(m) => m.register(cpu),
            Board::Vrc6(m) => m.register(cpu),
            Board::Namco163(m) => m.register(cpu),
            Board::Vrc7(m) => m.register(cpu),
            Board::Fds(m) => m.register(cpu),
        }
    }

    pub fn peek(&self, bus: BusKind, addr: u16) -> (r: u8)
        requires
            self.wf(),
            self.readable(bus, addr),
        ensures
            r == self.spec_peek(bus, addr),
    {
        match &self.0 {
            Board::Nrom(m) => m.peek(bus, addr),
            Board::Axrom(m) => m.peek(bus, addr),
            Board::Bxrom(m) => m.peek(bus, addr),
            Board::Cnrom(m) => m.peek(bus, addr),
            Board::J87(m) => m.peek(bus, addr),
            Board::Nina006(m) => m.peek(bus, addr),
            Board::Uxrom(m) => m.peek(bus, addr),
            Board::Nina001(m) => m.peek(bus, addr),
            Board::Bf909x(m) => m.peek(bus, addr),
            Board::Mapper031(m) => m.peek(bus, addr),
            Board::Mmc1(m) => m.peek(bus, addr),
            Board::Action53(m) => m.peek(bus, addr),
            Board::Mmc2(m) => m.peek(bus, addr),
            Board::Namco175_340(m) => m.peek(bus, addr),
            Board::Vrc4(m) => m.peek(bus, addr),
            Board::Mmc3(m) => m.peek(bus, addr),
            Board::Fme7(m) => m.peek(bus, addr),
            Board::Vrc6(m) => m.peek(bus, addr),
            Board::Namco163(m) => m.peek(bus, addr),
            Board::Vrc7(m) => m.peek(bus, addr),
            Board::Fds(m) => m.peek(bus, addr),
        }
    }

    pub fn read(&mut self, bus: BusKind, addr: u16) -> (r: u8)
        requires
            old(self).wf(),
            old(self).readable(bus, addr),
        ensures
            old(self).was_read(&*final(self), r, bus, addr),
            final(self).wf(),
            final(self).board_number() == old(self).board_number(),
            (bus is Ppu || !(old(self).0 is Fds || old(self).0 is Namco163)) ==> r == old(self).spec_peek(bus, addr),
    {
        match &mut self.0 {
            Board::Nrom(m) => m.read(bus, addr),
            Board::Axrom(m) => m.read(bus, addr),
            Board::Bxrom(m) => m.read(bus, addr),
            Board::Cnrom(m) => m.read(bus, addr),
            Board::J87(m) => m.read(bus, addr),
            Board::Nina006(m) => m.read(bus, addr),
            Board::Uxrom(m) => m.read(bus, addr),
            Board::Nina001(m) => m.read(bus, addr),
            Board::Bf909x(m) => m.read(bus, addr),
            Board::Mapper031(m) => m.read(bus, addr),
            Board::Mmc1(m) => m.read(bus, addr),
            Board::Action53(m) => m.read(bus, addr),
            Board::Mmc2(m) => m.read(bus, addr),
            Board::Namco175_340(m) => m.read(bus, addr),
            Board::Vrc4(m) => m.read(bus, addr),
            Board::Mmc3(m) => m.read(bus, addr),
            Board::Fme7(m) => m.read(bus, addr),
            Board::Vrc6(m) => m.read(bus, addr),
            Board::Namco163(m) => m.read(bus, addr),
            Board::Vrc7(m) => m.read(bus, addr),
            Board::Fds(m) => m.read(bus, addr),
        }
    }

    pub fn write(&mut self, bus: BusKind, addr: u16, value: u8)
        requires
            old(self).wf(),
            old(self).writable(bus, addr),
        ensures
            old(self).written(&*final(self), bus, addr, value),
            final(self).wf(),
            final(self).board_number() == old(self).board_number(),
    {
        match &mut self.0 {
            Board::Nrom(m) => m.write(bus, addr, value),
            Board::Axrom(m) => m.write(bus, addr, value),
            Board::Bxrom(m) => m.write(bus, addr, value),
            Board::Cnrom(m) => m.write(bus, addr, value),
            Board::J87(m) => m.write(bus, addr, value),
            Board::Nina006(m) => m.write(bus, addr, value),
            Board::Uxrom(m) => m.write(bus, addr, value),
            Board::Nina001(m) => m.write(bus, addr, value),
            Board::Bf909x(m) => m.write(bus, addr, value),
            Board::Mapper031(m) => m.write(bus, addr, value),
            Board::Mmc1(m) => m.write(bus, addr, value),
            Board::Action53(m) => m.write(bus, addr, value),
            Board::Mmc2(m) => m.write(bus, addr, value),
            Board::Namco175_340(m) => m.write(bus, addr, value),
            Board::Vrc4(m) => m.write(bus, addr, value),
            Board::Mmc3(m) => m.write(bus, addr, value),
            Board::Fme7(m) => m.write(bus, addr, value),
            Board::Vrc6(m) => m.write(bus, addr, value),
            Board::Namco163(m) => m.write(bus, addr, value),
            Board::Vrc7(m) => m.write(bus, addr, value),
            Board::Fds(m) => m.write(bus, addr, value),
        }
    }

    pub fn peek_ppu_fetch(&self, address: u16, kind: PpuFetchKind) -> (r: Nametable)
        requires
            self.fetchable(address),
        ensures
            r == self.spec_nametable(address),
    {
        match &self.0 {
            Board::Nrom(m) => m.peek_ppu_fetch(address, kind),
            Board::Axrom(m) => m.peek_ppu_fetch(address, kind),
            Board::Bxrom(m) => m.peek_ppu_fetch(address, kind),
            Board::Cnrom(m) => m.peek_ppu_fetch(address, kind),
            Board::J87(m) => m.peek_ppu_fetch(address, kind),
            Board::Nina006(m) => m.peek_ppu_fetch(address, kind),
            Board::Uxrom(m) => m.peek_ppu_fetch(address, kind),
            Board::Nina001(m) => m.peek_ppu_fetch(address, kind),
            Board::Bf909x(m) => m.peek_ppu_fetch(address, kind),
            Board::Mapper031(m) => m.peek_ppu_fetch(address, kind),
            Board::Mmc1(m) => m.peek_ppu_fetch(address, kind),
            Board::Action53(m) => m.peek_ppu_fetch(address, kind),
            Board::Mmc2(m) => m.peek_ppu_fetch(address, kind),
            Board::Namco175_340(m) => m.peek_ppu_fetch(address, kind),
            Board::Vrc4(m) => m.peek_ppu_fetch(address, kind),
            Board::Mmc3(m) => m.peek_ppu_fetch(address, kind),
            Board::Fme7(m) => m.peek_ppu_fetch(address, kind),
            Board::Vrc6(m) => m.peek_ppu_fetch(address, kind),
            Board::Namco163(m) => m.peek_ppu_fetch(address, kind),
            Board::Vrc7(m) => m.peek_ppu_fetch(address, kind),
            Board::Fds(m) => m.peek_ppu_fetch(address, kind),
        }
    }

    pub fn ppu_fetch(&mut self, address: u16, kind: PpuFetchKind) -> (r: Nametable)
        requires
            old(self).wf(),
            old(self).fetchable(address),
        ensures
            final(self).wf(),
            final(self).board_number() == old(self).board_number(),
            r == old(self).spec_nametable(address),
            forall|b: BusKind, x: u16| #[trigger] final(self).spec_peek(b, x) == old(self).spec_peek(b, x),
            forall|b: BusKind, x: u16| #[trigger] final(self).readable(b, x) == old(self).readable(b, x),
            forall|x: u16| #[trigger] final(self).spec_nametable(x) == old(self).spec_nametable(x),
    {
        match &mut self.0 {
            Board::Nrom(m) => m.ppu_fetch(address, kind),
            Board::Axrom(m) => m.ppu_fetch(address, kind),
            Board::Bxrom(m) => m.ppu_fetch(address, kind),
            Board::Cnrom(m) => m.ppu_fetch(address, kind),
            Board::J87(m) => m.ppu_fetch(address, kind),
            Board::Nina006(m) => m.ppu_fetch(address, kind),
            Board::Uxrom(m) => m.ppu_fetch(address, kind),
            Board::Nina001(m) => m.ppu_fetch(address, kind),
            Board::Bf909x(m) => m.ppu_fetch(address, kind),
            Board::Mapper031(m) => m.ppu_fetch(address, kind),
            Board::Mmc1(m) => m.ppu_fetch(address, kind),
            Board::Action53(m) => m.ppu_fetch(address, kind),
            Board::Mmc2(m) => m.ppu_fetch(address, kind),
            Board::Namco175_340(m) => m.ppu_fetch(address, kind),
            Board::Vrc4(m) => m.ppu_fetch(address, kind),
            Board::Mmc3(m) => m.ppu_fetch(address, kind),
            Board::Fme7(m) => m.ppu_fetch(address, kind),
            Board::Vrc6(m) => m.ppu_fetch(address, kind),
            Board::Namco163(m) => m.ppu_fetch(address, kind),
            Board::Vrc7(m) => m.ppu_fetch(address, kind),
            Board::Fds(m) => m.ppu_fetch(address, kind),
        }
    }

    /// The board's IRQ line; only boards with an IRQ source raise it.
    pub fn get_irq(&self) -> (r: bool)
        ensures
            self.irq_is(r),
            r ==> (self.0 is Mmc3 || self.0 is Fme7 || self.0 is Vrc4 || self.0 is Vrc6 || self.0 is Namco163
                || self.0 is Vrc7 || self.0 is Fds),
    {
        match &self.0 {
            Board::Nrom(m) => m.get_irq(),
            Board::Axrom(m) => m.get_irq(),
            Board::Bxrom(m) => m.get_irq(),
            Board::Cnrom(m) => m.get_irq(),
            Board::J87(m) => m.get_irq(),
            Board::Nina006(m) => m.get_irq(),
            Board::Uxrom(m) => m.get_irq(),
            Board::Nina001(m) => m.get_irq(),
            Board::Bf909x(m) => m.get_irq(),
            Board::Mapper031(m) => m.get_irq(),
            Board::Mmc1(m) => m.get_irq(),
            Board::Action53(m) => m.get_irq(),
            Board::Mmc2(m) => m.get_irq(),
            Board::Namco175_340(m) => m.get_irq(),
            Board::Vrc4(m) => m.get_irq(),
            Board::Mmc3(m) => m.get_irq(),
            Board::Fme7(m) => m.get_irq(),
            Board::Vrc6(m) => m.get_irq(),
            Board::Namco163(m) => m.get_irq(),
            Board::Vrc7(m) => m.get_irq(),
            Board::Fds(m) => m.get_irq(),
        }
    }

    pub fn tick(&mut self)
        requires
            old(self).wf(),
        ensures
            old(self).ticked_to(&*final(self)),
            final(self).wf(),
            final(self).board_number() == old(self).board_number(),
            !(old(self).0 is Fds || old(self).0 is Fme7 || old(self).0 is Mmc1 || old(self).0 is Mmc3
                || old(self).0 is Namco163 || old(self).0 is Vrc4 || old(self).0 is Vrc6 || old(self).0 is Vrc7)
                ==> *final(self) == *old(self),
    {
        match &mut self.0 {
            Board::Nrom(m) => m.tick(),
            Board::Axrom(m) => m.tick(),
            Board::Bxrom(m) => m.tick(),
            Board::Cnrom(m) => m.tick(),
            Board::J87(m) => m.tick(),
            Board::Nina006(m) => m.tick(),
            Board::Uxrom(m) => m.tick(),
            Board::Nina001(m) => m.tick(),
            Board::Bf909x(m) => m.tick(),
            Board::Mapper031(m) => m.tick(),
            Board::Mmc1(m) => m.tick(),
            Board::Action53(m) => m.tick(),
            Board::Mmc2(m) => m.tick(),
            Board::Namco175_340(m) => m.tick(),
            Board::Vrc4(m) => m.tick(),
            Board::Mmc3(m) => m.tick(),
            Board::Fme7(m) => m.tick(),
            Board::Vrc6(m) => m.tick(),
            Board::Namco163(m) => m.tick(),
            Board::Vrc7(m) => m.tick(),
            Board::Fds(m) => m.tick(),
        }
    }

    /// The board's audio sample; only boards with a sound chip have one.
    pub fn get_sample(&self) -> (r: Option<i16>)
        requires
            self.wf(),
        ensures
            self.sample_is(r),
            r is Some ==> (self.0 is Fme7 || self.0 is Vrc6 || self.0 is Namco163 || self.0 is Vrc7 || self.0 is Fds),
    {
        match &self.0 {
            Board::Nrom(m) => m.get_sample(),
            Board::Axrom(m) => m.get_sample(),
            Board::Bxrom(m) => m.get_sample(),
            Board::Cnrom(m) => m.get_sample(),
            Board::J87(m) => m.get_sample(),
            Board::Nina006(m) => m.get_sample(),
            Board::Uxrom(m) => m.get_sample(),
            Board::Nina001(m) => m.get_sample(),
            Board::Bf909x(m) => m.get_sample(),
            Board::Mapper031(m) => m.get_sample(),
            Board::Mmc1(m) => m.get_sample(),
            Board::Action53(m) => m.get_sample(),
            Board::Mmc2(m) => m.get_sample(),
            Board::Namco175_340(m) => m.get_sample(),
            Board::Vrc4(m) => m.get_sample(),
            Board::Mmc3(m) => m.get_sample(),
            Board::Fme7(m) => m.get_sample(),
            Board::Vrc6(m) => m.get_sample(),
            Board::Namco163(m) => m.get_sample(),
            Board::Vrc7(m) => m.get_sample(),
            Board::Fds(m) => m.get_sample(),
        }
    }

    pub fn power(&mut self)
        requires
            old(self).wf(),
        ensures
            final(self).wf(),
            final(self).board_number() == old(self).board_number(),
            !(old(self).0 is Mapper031) ==> *final(self) == *old(self),
    {
        match &mut self.0 {
            Board::Nrom(m) => m.power(),
            Board::Axrom(m) => m.power(),
            Board::Bxrom(m) => m.power(),
            Board::Cnrom(m) => m.power(),
            Board::J87(m) => m.power(),
            Board::Nina006(m) => m.power(),
            Board::Uxrom(m) => m.power(),
            Board::Nina001(m) => m.power(),
            Board::Bf909x(m) => m.power(),
            Board::Mapper031(m) => m.power(),
            Board::Mmc1(m) => m.power(),
            Board::Action53(m) => m.power(),
            Board::Mmc2(m) => m.power(),
            Board::Namco175_340(m) => m.power(),
            Board::Vrc4(m) => m.power(),
            Board::Mmc3(m) => m.power(),
            Board::Fme7(m) => m.power(),
            Board::Vrc6(m) => m.power(),
            Board::Namco163(m) => m.power(),
            Board::Vrc7(m) => m.power(),
            Board::Fds(m) => m.power(),
        }
    }

    pub fn input(&mut self, input: MapperInput)
        requires
            old(self).wf(),
            old(self).accepts(input),
        ensures
            final(self).wf(),
            final(self).board_number() == old(self).board_number(),
            !(old(self).0 is Fds) ==> *final(self) == *old(self),
    {
        match &mut self.0 {
            Board::Nrom(m) => m.input(input),
            Board::Axrom(m) => m.input(input),
            Board::Bxrom(m) => m.input(input),
            Board::Cnrom(m) => m.input(input),
            Board::J87(m) => m.input(input),
            Board::Nina006(m) => m.input(input),
            Board::Uxrom(m) => m.input(input),
            Board::Nina001(m) => m.input(input),
            Board::Bf909x(m) => m.input(input),
            Board::Mapper031(m) => m.input(input),
            Board::Mmc1(m) => m.input(input),
            Board::Action53(m) => m.input(input),
            Board::Mmc2(m) => m.input(input),
            Board::Namco175_340(m) => m.input(input),
            Board::Vrc4(m) => m.input(input),
            Board::Mmc3(m) => m.input(input),
            Board::Fme7(m) => m.input(input),
            Board::Vrc6(m) => m.input(input),
            Board::Namco163(m) => m.input(input),
            Board::Vrc7(m) => m.input(input),
            Board::Fds(m) => m.input(input),
        }
    }

    /// The battery-backed RAM to keep; only boards that can carry a
    /// battery have any.
    pub fn save_wram(&self) -> (r: Option<SaveWram>)
        ensures
            self.wram_is(r),
            r is Some ==> (self.0 is Fme7 || self.0 is Mmc1 || self.0 is Mmc2 || self.0 is Mmc3 || self.0 is Namco163
                || self.0 is Namco175_340 || self.0 is Nina001 || self.0 is Vrc4 || self.0 is Vrc6
                || self.0 is Vrc7),
    {
        match &self.0 {
            Board::Nrom(m) => m.save_wram(),
            Board::Axrom(m) => m.save_wram(),
            Board::Bxrom(m) => m.save_wram(),
            Board::Cnrom(m) => m.save_wram(),
            Board::J87(m) => m.save_wram(),
            Board::Nina006(m) => m.save_wram(),
            Board::Uxrom(m) => m.save_wram(),
            Board::Nina001(m) => m.save_wram(),
            Board::Bf909x(m) => m.save_wram(),
            Board::Mapper031(m) => m.save_wram(),
            Board::Mmc1(m) => m.save_wram(),
            Board::Action53(m) => m.save_wram(),
            Board::Mmc2(m) => m.save_wram(),
            Board::Namco175_340(m) => m.save_wram(),
            Board::Vrc4(m) => m.save_wram(),
            Board::Mmc3(m) => m.save_wram(),
            Board::Fme7(m) => m.save_wram(),
            Board::Vrc6(m) => m.save_wram(),
            Board::Namco163(m) => m.save_wram(),
            Board::Vrc7(m) => m.save_wram(),
            Board::Fds(m) => m.save_wram(),
        }
    }
}

/// What a board's constructor needs of the image.
pub open spec fn ines_constructible(cart: &INes) -> bool {
    match cart.mapper {
        1 | 65 | 2 | 71 | 232 => cart.prg_rom@.len() >= 0x4000,
        210 | 4 | 206 | 69 | 24 | 26 | 19 | 85 => cart.prg_rom@.len() >= 0x2000,
        21 | 22 | 23 | 25 => cart.prg_rom@.len() >= 0x4000,
        _ => true,
    }

}

/// The MMC3 flavour an iNES header names: submapper 1 of mapper 4 is the
/// MMC6, submapper 4 the alternative IRQ; everything else a plain MMC3.
pub open spec fn mmc3_variant_of(cart: &INes) -> Mmc3Variant {
    if cart.mapper == 4 {
        match cart.submapper {
            Some(1) => Mmc3Variant::Mmc6,
            Some(4) => Mmc3Variant::Mmc3AltIrq,
            _ => Mmc3Variant::Mmc3,
        }
    } else {
        Mmc3Variant::Mmc3
    }
}

/// The VRC2/VRC4 wiring an iNES header names (mappers 21, 22, 23, 25).
pub open spec fn vrc4_variant_of(cart: &INes) -> Vrc4Variant {
    if cart.mapper == 21 {
        match cart.submapper {
            Some(2) => Vrc4Variant::Vrc4c,
            _ => Vrc4Variant::Vrc4a,
        }
    } else if cart.mapper == 22 {
        Vrc4Variant::Vrc2a
    } else if cart.mapper == 23 {
        match cart.submapper {
            Some(1) => Vrc4Variant::Vrc4f,
            Some(2) => Vrc4Variant::Vrc4e,
            _ => Vrc4Variant::Vrc2b,
        }
    } else {
        match cart.submapper {
            Some(2) => Vrc4Variant::Vrc4d,
            Some(3) => Vrc4Variant::Vrc2c,
            _ => Vrc4Variant::Vrc4b,
        }
    }
}

/// The Namco 175/340 chip a mapper 210 header names.
pub open spec fn namco_variant_of(cart: &INes) -> NamcoVariant {
    match cart.submapper {
        Some(1) => NamcoVariant::Namco175,
        Some(2) => NamcoVariant::Namco340,
        _ => NamcoVariant::Unspecified,
    }
}

/// The VRC7 wiring a mapper 85 header names.
pub open spec fn vrc7_variant_of(cart: &INes) -> Vrc7Variant {
    match cart.submapper {
        Some(1) => Vrc7Variant::Vrc7b,
        Some(2) => Vrc7Variant::Vrc7a,
        _ => Vrc7Variant::Undefined,
    }
}

/// A board built over an iNES image: the board the header names, in the
/// flavour it names, as its constructor brings it up at power-on from the
/// image (registers, banks, RAM), holding the image's PRG ROM (and its CHR
/// ROM, for the boards that always read CHR from the image).
pub open spec fn built_from(r: RcMapper, cart: &INes) -> bool {
    let prg = cart.prg_rom@;
    let chr = cart.chr_rom@;
    match r.0 {
        Board::Nrom(b) => b.powered_on(*cart) && b.prg() == prg && (cart.chr_ram_bytes == 0 ==> b.chr() == chr),
        Board::Axrom(b) => b.powered_on(*cart) && b.prg() == prg,
        Board::Bxrom(b) => b.powered_on(*cart) && b.prg() == prg,
        Board::Cnrom(b) => b.powered_on(*cart) && b.prg() == prg && b.chr() == chr,
        Board::J87(b) => b.powered_on(*cart) && b.prg() == prg && b.chr() == chr,
        Board::Nina006(b) => b.powered_on(*cart) && b.prg() == prg && b.chr() == chr,
        Board::Uxrom(b) => b.powered_on(*cart) && b.prg() == prg,
        Board::Nina001(b) => b.powered_on(*cart) && b.prg() == prg && b.chr() == chr,
        Board::Bf909x(b) => b.powered_on(*cart) && b.prg() == prg && (!b.has_chr_ram() ==> b.chr() == chr),
        Board::Mapper031(b) => b.powered_on(*cart) && b.prg() == prg && (!b.has_chr_ram() ==> b.chr() == chr),
        Board::Mmc1(b) => b.powered_on(*cart) && b.prg() == prg,
        Board::Action53(b) => b.powered_on(*cart) && b.prg() == prg && (!b.has_chr_ram() ==> b.chr() == chr),
        Board::Mmc2(b) => b.powered_on(*cart, if cart.mapper == 9 { Mmc2Variant::Mmc2 } else { Mmc2Variant::Mmc4 }) && b.prg() == prg && b.chr() == chr && b.variant() == if cart.mapper == 9 {
            Mmc2Variant::Mmc2
        } else {
            Mmc2Variant::Mmc4
        },
        Board::Namco175_340(b) => b.powered_on(*cart, namco_variant_of(cart)) && b.prg() == prg && b.chr() == chr && b.variant() == namco_variant_of(cart),
        Board::Vrc4(b) => b.powered_on(*cart, vrc4_variant_of(cart)) && b.prg() == prg && b.chr() == chr && b.variant() == vrc4_variant_of(cart),
        Board::Mmc3(b) => b.powered_on(*cart, mmc3_variant_of(cart)) && b.prg() == prg && (!b.has_chr_ram() ==> b.chr() == chr) && b.variant()
            == mmc3_variant_of(cart),
        Board::Fme7(b) => b.powered_on(*cart) && b.prg() == prg && (!b.has_chr_ram() ==> b.chr() == chr),
        Board::Vrc6(b) => b.powered_on(*cart, if cart.mapper == 24 { Vrc6Variant::A } else { Vrc6Variant::B }) && b.prg() == prg && b.chr() == chr && b.variant() == if cart.mapper == 24 {
            Vrc6Variant::A
        } else {
            Vrc6Variant::B
        },
        Board::Namco163(b) => b.powered_on(*cart) && b.prg() == prg && b.chr() == chr,
        Board::Vrc7(b) => b.powered_on(*cart, vrc7_variant_of(cart)) && b.prg() == prg && b.chr() == chr && b.variant() == vrc7_variant_of(cart),
        Board::Fds(_) => false,
    }
}

/// The board an iNES image selects; numbers without a board here get NROM.
pub open spec fn board_of(cart: &INes) -> int {
    match cart.mapper {
        1 | 65 => 1,
        2 => 2,
        3 | 148 => 3,
        4 | 206 => 4,
        7 => 7,
        9 => 9,
        10 => 10,
        19 => 19,
        21 => 21,
        22 => 22,
        23 => 23,
        24 => 24,
        25 => 25,
        26 => 26,
        28 => 28,
        31 => 31,
        34 => match cart.submapper {
            Some(1) => 1034,
            Some(2) => 2034,
            _ => if cart.chr_rom@.len() > 8 * 1024 || cart.chr_ram_bytes == 0 { 1034 } else { 2034 },
        },
        69 => 69,
        71 | 232 => 71,
        79 | 146 => 79,
        85 => 85,
        87 => 87,
        210 => 210,
        _ => 0,
    }

}

/// What the selected board needs of the image to run: PRG ROM and a
/// source of CHR data, and for some boards a minimum of PRG banks.
pub open spec fn ines_usable(cart: &INes) -> bool {
    match cart.mapper {
        1 | 65 => true,
        2 => Uxrom::usable(cart),
        3 | 148 => Cnrom::usable(cart),
        4 | 206 => Mmc3::usable(cart),
        7 => Axrom::usable(cart),
        9 => Mmc2::usable(cart, Mmc2Variant::Mmc2),
        10 => Mmc2::usable(cart, Mmc2Variant::Mmc4),
        19 | 21 | 22 | 23 | 24 | 25 | 26 | 210 => cart.chr_rom@.len() > 0,
        28 => Action53::usable(cart),
        31 => Mapper031::usable(cart),
        34 => match cart.submapper {
            Some(1) => Nina001::usable(cart),
            Some(2) => Bxrom::usable(cart),
            _ => if cart.chr_rom@.len() > 8 * 1024 || cart.chr_ram_bytes == 0 {
                Nina001::usable(cart)
            } else {
                Bxrom::usable(cart)
            },
        },
        69 => cart.chr_ram_bytes > 0 || cart.chr_rom@.len() > 0,
        71 | 232 => Bf909x::usable(cart),
        79 | 146 => Nina006::usable(cart),
        85 => cart.chr_ram_bytes > 0 || cart.chr_rom@.len() > 0,
        87 => J87::usable(cart),
        _ => Nrom::usable(cart),
    }

}

impl RcMapper {
    /// Whether the board answers PPU reads at `addr`: the VRC2/4 and the
    /// Namco 175/340 decode only the pattern tables.
    pub fn ppu_readable(&self, addr: u16) -> (r: bool)
        ensures
            r == self.readable(BusKind::Ppu, addr),
    {
        match &self.0 {
            Board::Vrc4(_) => addr < 0x2000,
            Board::Namco175_340(_) => (addr / 0x400) % 16 < 8,
            _ => true,
        }
    }
}

/// Every board resolves a nametable for any PPU address and takes PPU
/// writes anywhere.
pub proof fn lemma_ppu_bus(m: &RcMapper, a: u16)
    requires
        a < 0x4000,
    ensures
        m.fetchable(a),
        m.writable(BusKind::Ppu, a),
{
    assert(a < 0x4000 ==> (a & 0x2000 != 0 || a < 0x2000)) by (bit_vector);
}

/// Builds the disk system for an FDS image.
pub fn fds(disk: crate::cartridge::Fds) -> (r: RcMapper)
    ensures
        r.board_number() == 20,
        r.0 matches Board::Fds(b) && b.powered_on(disk),
        (disk.bios@.len() >= 0x2000 && disk.disk_sides@.len() > 0 && fds::sides_ok(disk.disk_sides@))
            ==> r.wf(),
{
    RcMapper(Board::Fds(Fds::new(disk)))
}

/// Builds the board for an iNES image.
pub fn ines(cart: INes) -> (r: RcMapper)
    requires
        ines_constructible(&cart),
    ensures
        r.board_number() == board_of(&cart),
        built_from(r, &cart),
        ines_usable(&cart) ==> r.wf(),
{
    let m = cart.mapper;
    if m == 1 || m == 65 {
        RcMapper(Board::Mmc1(Mmc1::new(cart)))
    } else if m == 2 {
        RcMapper(Board::Uxrom(Uxrom::new(cart)))
    } else if m == 3 || m == 148 {
        RcMapper(Board::Cnrom(Cnrom::new(cart)))
    } else if m == 4 || m == 206 {
        let variant = if m == 4 {
            match cart.submapper {
                Some(1) => Mmc3Variant::Mmc6,
                Some(4) => Mmc3Variant::Mmc3AltIrq,
                _ => Mmc3Variant::Mmc3,
            }
        } else {
            Mmc3Variant::Mmc3
        };
        RcMapper(Board::Mmc3(Mmc3::new(cart, variant)))
    } else if m == 7 {
        RcMapper(Board::Axrom(Axrom::new(cart)))
    } else if m == 9 {
        RcMapper(Board::Mmc2(Mmc2::new(cart, Mmc2Variant::Mmc2)))
    } else if m == 10 {
        RcMapper(Board::Mmc2(Mmc2::new(cart, Mmc2Variant::Mmc4)))
    } else if m == 19 {
        RcMapper(Board::Namco163(Namco163::new(cart)))
    } else if m == 21 || m == 22 || m == 23 || m == 25 {
        let variant = if m == 21 {
            match cart.submapper {
                Some(2) => Vrc4Variant::Vrc4c,
                _ => Vrc4Variant::Vrc4a,
            }
        } else if m == 22 {
            Vrc4Variant::Vrc2a
        } else if m == 23 {
            match cart.submapper {
                Some(1) => Vrc4Variant::Vrc4f,
                Some(2) => Vrc4Variant::Vrc4e,
                _ => Vrc4Variant::Vrc2b,
            }
        } else {
            match cart.submapper {
                Some(2) => Vrc4Variant::Vrc4d,
                Some(3) => Vrc4Variant::Vrc2c,
                _ => Vrc4Variant::Vrc4b,
            }
        };
        RcMapper(Board::Vrc4(Vrc4::new(cart, variant)))
    } else if m == 24 {
        RcMapper(Board::Vrc6(Vrc6::new(cart, Vrc6Variant::A)))
    } else if m == 26 {
        RcMapper(Board::Vrc6(Vrc6::new(cart, Vrc6Variant::B)))
    } else if m == 28 {
        RcMapper(Board::Action53(Action53::new(cart)))
    } else if m == 31 {
        RcMapper(Board::Mapper031(Mapper031::new(cart)))
    } else if m == 34 {
        match cart.submapper {
            Some(1) => RcMapper(Board::Nina001(Nina001::new(cart))),
            Some(2) => RcMapper(Board::Bxrom(Bxrom::new(cart))),
            _ => {
                if cart.chr_rom.len() > 8 * 1024 || cart.chr_ram_bytes == 0 {
                    RcMapper(Board::Nina001(Nina001::new(cart)))
                } else {
                    RcMapper(Board::Bxrom(Bxrom::new(cart)))
                }
            },
        }
    } else if m == 69 {
        RcMapper(Board::Fme7(Fme7::new(cart)))
    } else if m == 71 || m == 232 {
        RcMapper(Board::Bf909x(Bf909x::new(cart)))
    } else if m == 79 || m == 146 {
        RcMapper(Board::Nina006(Nina006::new(cart)))
    } else if m == 210 {
        let variant = match cart.submapper {
            Some(1) => NamcoVariant::Namco175,
            Some(2) => NamcoVariant::Namco340,
            _ => NamcoVariant::Unspecified,
        };
        RcMapper(Board::Namco175_340(Namco175_340::new(cart, variant)))
    } else if m == 85 {
        let variant = match cart.submapper {
            Some(1) => Vrc7Variant::Vrc7b,
            Some(2) => Vrc7Variant::Vrc7a,
            _ => Vrc7Variant::Undefined,
        };
        RcMapper(Board::Vrc7(Vrc7::new(cart, variant)))
    } else if m == 87 {
        RcMapper(Board::J87(J87::new(cart)))
    } else {
        RcMapper(Board::Nrom(Nrom::new(cart)))
    }

}

} // verus!
