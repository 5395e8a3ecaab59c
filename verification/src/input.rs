//! Standard controllers on $4016/$4017: the strobe latches both pads and
//! each read shifts out one button, A first.
use vstd::prelude::*;

use crate::bus::{Address, AddressBus, AndEqualsAndMask, DeviceKind, MappingFn};
use crate::mapper::MapperInput;

verus! {

/// A device that reports its state as one byte.
pub trait InputDevice {
    fn to_byte(&self) -> u8;
}

#[derive(Debug, Copy, Clone, PartialEq, Eq, Structural)]
pub struct Controller {
    pub a: bool,
    pub b: bool,
    pub select: bool,
    pub start: bool,
    pub up: bool,
    pub down: bool,
    pub left: bool,
    pub right: bool,
}

/// The byte a pad reports: A in bit 0, then B, Select, Start, Up, Down,
/// Left, and Right in bit 7.
pub open spec fn pad_byte(c: Controller) -> u8 {
    (if c.a { 0x01u8 } else { 0u8 }) | (if c.b { 0x02u8 } else { 0u8 }) | (if c.select { 0x04u8 } else {
        0u8
    }) | (if c.start { 0x08u8 } else { 0u8 }) | (if c.up { 0x10u8 } else { 0u8 }) | (if c.down {
        0x20u8
    } else {
        0u8
    }) | (if c.left { 0x40u8 } else { 0u8 }) | (if c.right { 0x80u8 } else { 0u8 })
}

/// Bit `k` of a byte.
pub open spec fn bit(v: u8, k: u8) -> bool {
    (v >> k) & 1 == 1
}

impl Controller {
    /// No buttons pressed.
    pub fn new() -> (r: Controller)
        ensures
            r == (Controller {
                a: false,
                b: false,
                select: false,
                start: false,
                up: false,
                down: false,
                left: false,
                right: false,
            }),
    {
        Controller {
            a: false,
            b: false,
            select: false,
            start: false,
            up: false,
            down: false,
            left: false,
            right: false,
        }
    }
}

impl InputDevice for Controller {
    fn to_byte(&self) -> (r: u8)
        ensures
            r == pad_byte(*self),
            bit(r, 0) == self.a,
            bit(r, 1) == self.b,
            bit(r, 2) == self.select,
            bit(r, 3) == self.start,
            bit(r, 4) == self.up,
            bit(r, 5) == self.down,
            bit(r, 6) == self.left,
            bit(r, 7) == self.right,
    {
        let value: u8 = (if self.a { 0x01u8 } else { 0u8 }) | (if self.b { 0x02u8 } else { 0u8 }) | (
        if self.select {
            0x04u8
        } else {
            0u8
        }) | (if self.start { 0x08u8 } else { 0u8 }) | (if self.up { 0x10u8 } else { 0u8 }) | (
        if self.down {
            0x20u8
        } else {
            0u8
        }) | (if self.left { 0x40u8 } else { 0u8 }) | (if self.right { 0x80u8 } else { 0u8 });
        let (a, b, sl, st, u, d, l, ri) = (
            self.a,
            self.b,
            self.select,
            self.start,
            self.up,
            self.down,
            self.left,
            self.right,
        );
        assert({
            &&& ((value >> 0u8) & 1 == 1) == a
            &&& ((value >> 1u8) & 1 == 1) == b
            &&& ((value >> 2u8) & 1 == 1) == sl
            &&& ((value >> 3u8) & 1 == 1) == st
            &&& ((value >> 4u8) & 1 == 1) == u
            &&& ((value >> 5u8) & 1 == 1) == d
            &&& ((value >> 6u8) & 1 == 1) == l
            &&& ((value >> 7u8) & 1 == 1) == ri
        }) by (bit_vector)
            requires
                value == (if a { 0x01u8 } else { 0u8 }) | (if b { 0x02u8 } else { 0u8 }) | (if sl {
                    0x04u8
                } else {
                    0u8
                }) | (if st { 0x08u8 } else { 0u8 }) | (if u { 0x10u8 } else { 0u8 }) | (if d {
                    0x20u8
                } else {
                    0u8
                }) | (if l { 0x40u8 } else { 0u8 }) | (if ri { 0x80u8 } else { 0u8 }),
        ;
        value
    }
}

/// A source of user input polled by the machine.
pub trait InputSource: Sized {
    /// The two pads as they are held right now.
    spec fn spec_pads(&self) -> (Controller, Controller);

    /// The source as it stands after one sample of the pads.
    spec fn spec_strobed(&self) -> Self;

    /// Samples both pads.
    fn strobe(&mut self) -> (r: (Controller, Controller))
        ensures
            r == old(self).spec_pads(),
            *final(self) == old(self).spec_strobed(),
    ;

    fn power(&mut self) -> bool;

    fn reset(&mut self) -> bool;

    fn mapper(&mut self) -> Option<MapperInput>;
}

pub struct Input {
    current_tick: u32,
    strobe: bool,
    did_stobe: bool,
    read_counter: [u32; 2],
    read_shifter: [u8; 2],
    input_buffer: [u8; 2],
}

/// The byte read from a port: bit 0 is the next button (or 1 once all
/// eight have been read), bits 5..7 come from the open bus.
pub open spec fn port_value(counter: u32, shifter: u8, open_bus: u8) -> u8 {
    (if counter == 0 { 1u8 } else { shifter & 1 }) | (open_bus & 0xe0)
}

impl Input {
    pub closed spec fn spec_counters(&self) -> Seq<u32> {
        self.read_counter@
    }

    pub closed spec fn spec_shifters(&self) -> Seq<u8> {
        self.read_shifter@
    }

    pub closed spec fn spec_buffer(&self) -> Seq<u8> {
        self.input_buffer@
    }

    pub closed spec fn spec_strobe(&self) -> bool {
        self.strobe
    }

    pub closed spec fn spec_latched(&self) -> bool {
        self.did_stobe
    }

    pub closed spec fn spec_tick(&self) -> u32 {
        self.current_tick
    }

    pub closed spec fn wf(&self) -> bool {
        self.read_counter@[0] <= 8 && self.read_counter@[1] <= 8
    }

    pub fn new() -> (r: Input)
        ensures
            r.wf(),
            r.spec_counters() == seq![0u32, 0],
            r.spec_shifters() == seq![0u8, 0],
            r.spec_buffer() == seq![0u8, 0],
            !r.spec_strobe(),
            !r.spec_latched(),
            r.spec_tick() == 0,
    {
        Input {
            current_tick: 0,
            strobe: false,
            did_stobe: false,
            read_counter: [0, 0],
            read_shifter: [0, 0],
            input_buffer: [0, 0],
        }
    }

    pub fn register(&self, cpu: &mut AddressBus)
        ensures
            final(cpu).reads() == old(cpu).reads().push(
                (MappingFn::AndEqualsAndMask(AndEqualsAndMask(0xf01f, 0x4016, 0x4016)), DeviceKind::Input),
            ).push(
                (MappingFn::AndEqualsAndMask(AndEqualsAndMask(0xf01f, 0x4017, 0x4017)), DeviceKind::Input),
            ),
            final(cpu).writes() == old(cpu).writes().push(
                (MappingFn::Address(Address(0x4016)), DeviceKind::Input),
            ),
    {
        cpu.register_read(DeviceKind::Input, AndEqualsAndMask(0xf01f, 0x4016, 0x4016).into());
        cpu.register_read(DeviceKind::Input, AndEqualsAndMask(0xf01f, 0x4017, 0x4017).into());
        cpu.register_write(DeviceKind::Input, Address(0x4016).into());
    }

    /// What a read would return, without shifting.
    pub fn peek(&self, addr: u16, open_bus: u8) -> (r: u8)
        ensures
            r == if addr == 0x4016 {
                port_value(self.spec_counters()[0], self.spec_shifters()[0], open_bus)
            } else if addr == 0x4017 {
                port_value(self.spec_counters()[1], self.spec_shifters()[1], open_bus)
            } else {
                open_bus | (open_bus & 0xe0)
            },
    {
        let value = if addr == 0x4016 {
            if self.read_counter[0] == 0 {
                0x01
            } else {
                self.read_shifter[0] & 1
            }
        } else if addr == 0x4017 {
            if self.read_counter[1] == 0 {
                0x01
            } else {
                self.read_shifter[1] & 1
            }
        } else {
            open_bus
        };

        value | (open_bus & 0xe0)
    }

    /// Reads a port: returns the next button and shifts it out.
    pub fn read(&mut self, addr: u16, open_bus: u8) -> (r: u8)
        requires
            old(self).wf(),
        ensures
            final(self).wf(),
            r == old(self).peek_spec(addr, open_bus),
            ({
                let p: int = if addr == 0x4016 { 0 } else { 1 };
                if (addr == 0x4016 || addr == 0x4017) && old(self).spec_counters()[p] != 0 {
                    final(self).spec_counters() == old(self).spec_counters().update(
                        p,
                        (old(self).spec_counters()[p] - 1) as u32,
                    ) && final(self).spec_shifters() == old(self).spec_shifters().update(
                        p,
                        old(self).spec_shifters()[p] >> 1,
                    )
                } else {
                    final(self).spec_counters() == old(self).spec_counters()
                        && final(self).spec_shifters() == old(self).spec_shifters()
                }
            }),
            final(self).spec_buffer() == old(self).spec_buffer(),
            final(self).spec_strobe() == old(self).spec_strobe(),
            final(self).spec_latched() == old(self).spec_latched(),
            final(self).spec_tick() == old(self).spec_tick(),
    {
        let value = if addr == 0x4016 {
            if self.read_counter[0] == 0 {
                0x01
            } else {
                let value = self.read_shifter[0] & 1;
                self.read_shifter[0] = self.read_shifter[0] >> 1;
                self.read_counter[0] = self.read_counter[0] - 1;
                value
            }
        } else if addr == 0x4017 {
            if self.read_counter[1] == 0 {
                0x01
            } else {
                let value = self.read_shifter[1] & 1;
                self.read_shifter[1] = self.read_shifter[1] >> 1;
                self.read_counter[1] = self.read_counter[1] - 1;
                value
            }
        } else {
            open_bus
        };

        value | (open_bus & 0xe0)
    }

    pub closed spec fn peek_spec(&self, addr: u16, open_bus: u8) -> u8 {
        if addr == 0x4016 {
            port_value(self.read_counter@[0], self.read_shifter@[0], open_bus)
        } else if addr == 0x4017 {
            port_value(self.read_counter@[1], self.read_shifter@[1], open_bus)
        } else {
            open_bus | (open_bus & 0xe0)
        }
    }

    /// Writing bit 0 set holds the strobe high; clearing it loads the
    /// shift registers from the latched pads.
    pub fn write(&mut self, addr: u16, value: u8)
        requires
            addr == 0x4016,
        ensures
            value & 0x01 == 1 ==> final(self).spec_strobe() && !final(self).spec_latched()
                && final(self).spec_shifters() == old(self).spec_shifters(),
            value & 0x01 != 1 ==> !final(self).spec_strobe() && final(self).spec_latched()
                == old(self).spec_latched() && final(self).spec_shifters() == old(self).spec_buffer(),
            final(self).spec_counters() == old(self).spec_counters(),
            final(self).spec_buffer() == old(self).spec_buffer(),
            final(self).spec_tick() == old(self).spec_tick(),
            old(self).wf() ==> final(self).wf(),
    {
        if value & 0x01 == 1 {
            self.strobe = true;
            self.did_stobe = false;
        } else {
            self.strobe = false;
            self.read_shifter = self.input_buffer;
        }
    }

    /// On even cycles with the strobe high the pads are latched once and
    /// both ports are rearmed for eight reads. The source is sampled (one
    /// `strobe`) on the first such cycle after the strobe went high, and is
    /// left untouched on every other cycle.
    pub fn tick<I: InputSource>(&mut self, input_source: &mut I)
        requires
            old(self).spec_tick() < u32::MAX,
        ensures
            final(self).spec_tick() == old(self).spec_tick() + 1,
            final(self).spec_strobe() == old(self).spec_strobe(),
            final(self).spec_shifters() == old(self).spec_shifters(),
            ({
                let fires = old(self).spec_strobe() && (old(self).spec_tick() + 1) % 2 == 0;
                &&& fires ==> final(self).spec_counters() == seq![8u32, 8] && final(self).spec_latched()
                &&& fires && !old(self).spec_latched() ==> final(self).spec_buffer() == seq![
                    pad_byte(old(input_source).spec_pads().0),
                    pad_byte(old(input_source).spec_pads().1),
                ]
                &&& fires && !old(self).spec_latched() ==> *final(input_source) == old(
                    input_source,
                ).spec_strobed()
                &&& !(fires && !old(self).spec_latched()) ==> *final(input_source) == *old(input_source)
                &&& !(fires && !old(self).spec_latched()) ==> final(self).spec_buffer() == old(
                    self,
                ).spec_buffer()
                &&& !fires ==> final(self).spec_counters() == old(self).spec_counters()
                    && final(self).spec_latched() == old(self).spec_latched()
            }),
            old(self).wf() || (old(self).spec_strobe() && (old(self).spec_tick() + 1) % 2 == 0)
                ==> final(self).wf(),
    {
        self.current_tick += 1;
        let c = self.current_tick;
        proof { crate::bits::lemma_u32(c); }
        if self.strobe && c & 1 == 0 {
            if !self.did_stobe {
                let (p1, p2) = input_source.strobe();
                self.input_buffer = [p1.to_byte(), p2.to_byte()];
                assert(self.input_buffer@ =~= seq![pad_byte(p1), pad_byte(p2)]);
                self.did_stobe = true;
            }
            self.read_counter = [8, 8];
            assert(self.read_counter@ =~= seq![8u32, 8]);
        }
    }
}

pub struct SimpleInput {
    power: bool,
    reset: bool,
    mapper: Option<MapperInput>,
    player_one: Controller,
    player_two: Controller,
}

#[derive(Debug, Copy, Clone)]
pub enum UserInput {
    PlayerOne(Controller),
    PlayerTwo(Controller),
    Mapper(MapperInput),
    Power,
    Reset,
}

impl SimpleInput {
    pub closed spec fn spec_power(&self) -> bool {
        self.power
    }

    pub closed spec fn spec_reset(&self) -> bool {
        self.reset
    }

    pub closed spec fn spec_mapper(&self) -> Option<MapperInput> {
        self.mapper
    }

    pub closed spec fn spec_players(&self) -> (Controller, Controller) {
        (self.player_one, self.player_two)
    }

    pub fn new() -> (r: Self)
        ensures
            !r.spec_power(),
            !r.spec_reset(),
            r.spec_mapper() is None,
            r.spec_players() == (Controller::new_spec(), Controller::new_spec()),
    {
        Self {
            power: false,
            reset: false,
            mapper: None,
            player_one: Controller::new(),
            player_two: Controller::new(),
        }
    }

    /// Records a user action: pad states replace the current ones, power
    /// and reset requests stay pending until polled.
    pub fn handle_input(&mut self, input: UserInput)
        ensures
            match input {
                UserInput::PlayerOne(c) => final(self).spec_players() == (c, old(self).spec_players().1)
                    && final(self).spec_power() == old(self).spec_power() && final(self).spec_reset()
                    == old(self).spec_reset() && final(self).spec_mapper() == old(self).spec_mapper(),
                UserInput::PlayerTwo(c) => final(self).spec_players() == (old(self).spec_players().0, c)
                    && final(self).spec_power() == old(self).spec_power() && final(self).spec_reset()
                    == old(self).spec_reset() && final(self).spec_mapper() == old(self).spec_mapper(),
                UserInput::Mapper(m) => final(self).spec_mapper() == Some(m) && final(self).spec_players()
                    == old(self).spec_players() && final(self).spec_power() == old(self).spec_power()
                    && final(self).spec_reset() == old(self).spec_reset(),
                UserInput::Power => final(self).spec_power() && final(self).spec_players() == old(
                    self,
                ).spec_players() && final(self).spec_reset() == old(self).spec_reset()
                    && final(self).spec_mapper() == old(self).spec_mapper(),
                UserInput::Reset => final(self).spec_reset() && final(self).spec_players() == old(
                    self,
                ).spec_players() && final(self).spec_power() == old(self).spec_power()
                    && final(self).spec_mapper() == old(self).spec_mapper(),
            },
    {
        match input {
            UserInput::PlayerOne(controller) => self.player_one = controller,
            UserInput::PlayerTwo(controller) => self.player_two = controller,
            UserInput::Mapper(mapper_input) => self.mapper = Some(mapper_input),
            UserInput::Power => self.power = true,
            UserInput::Reset => self.reset = true,
        }
    }
}

impl Controller {
    pub open spec fn new_spec() -> Controller {
        Controller {
            a: false,
            b: false,
            select: false,
            start: false,
            up: false,
            down: false,
            left: false,
            right: false,
        }
    }
}

impl InputSource for SimpleInput {
    open spec fn spec_pads(&self) -> (Controller, Controller) {
        self.spec_players()
    }

    /// Sampling the pads leaves the requests and the pads as they were.
    open spec fn spec_strobed(&self) -> Self {
        *self
    }

    fn strobe(&mut self) -> (r: (Controller, Controller))
        ensures
            r == old(self).spec_players(),
            *final(self) == *old(self),
    {
        (self.player_one, self.player_two)
    }

    /// Takes a pending power request.
    fn power(&mut self) -> (r: bool)
        ensures
            r == old(self).spec_power(),
            !final(self).spec_power(),
            final(self).spec_reset() == old(self).spec_reset(),
            final(self).spec_players() == old(self).spec_players(),
            final(self).spec_mapper() == old(self).spec_mapper(),
    {
        let power = self.power;
        self.power = false;
        power
    }

    /// Takes a pending reset request.
    fn reset(&mut self) -> (r: bool)
        ensures
            r == old(self).spec_reset(),
            !final(self).spec_reset(),
            final(self).spec_power() == old(self).spec_power(),
            final(self).spec_players() == old(self).spec_players(),
            final(self).spec_mapper() == old(self).spec_mapper(),
    {
        let reset = self.reset;
        self.reset = false;
        reset
    }

    /// Takes a pending mapper input.
    fn mapper(&mut self) -> (r: Option<MapperInput>)
        ensures
            r == old(self).spec_mapper(),
            final(self).spec_mapper() is None,
            final(self).spec_power() == old(self).spec_power(),
            final(self).spec_reset() == old(self).spec_reset(),
            final(self).spec_players() == old(self).spec_players(),
    {
        self.mapper.take()
    }
}

/// Reading a latched pad `k` times shifts out its first `k` buttons: the
/// next read sees bit `k` of the pad byte.
pub proof fn lemma_serial_order(b: u8, k: u8)
    requires
        k < 8,
    ensures
        ((b >> k) & 1 == 1) == bit(b, k),
        (b >> k) >> 1u8 == b >> ((k + 1) as u8),
{
    assert((b >> k) >> 1u8 == b >> ((k + 1) as u8)) by (bit_vector)
        requires k < 8;
}

} // verus!
