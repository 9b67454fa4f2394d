//! The registers of the four DMA channels.
use vstd::prelude::*;
use vstd::array::{spec_array_fill_for_copy_type, spec_array_update};
use crate::bits::{hi8, le16, lo8, spec_hi8, spec_le16, spec_lo8, tabulate};
use crate::ppu::lcd::{align2, spec_align2};

verus! {

/// How a DMA address moves from one unit to the next.
#[derive(Clone, Copy, PartialEq, Eq, Structural, Debug)]
pub enum AddrControl {
    Increment,
    Decrement,
    Fixed,
    IncReload,
}

/// The event that starts a DMA channel.
#[derive(Clone, Copy, PartialEq, Eq, Structural, Debug)]
pub enum StartTiming {
    Immediate,
    VBlank,
    HBlank,
    Special,
}

impl AddrControl {
    /// The two-bit code of the mode.
    pub open spec fn spec_raw(self) -> u16 {
        match self {
            AddrControl::Increment => 0,
            AddrControl::Decrement => 1,
            AddrControl::Fixed => 2,
            AddrControl::IncReload => 3,
        }
    }

    /// The two-bit code of the mode.
    #[verifier::when_used_as_spec(spec_raw)]
    pub fn raw(self) -> (r: u16)
        ensures
            r == self.spec_raw(),
            r < 4,
    {
        match self {
            AddrControl::Increment => 0,
            AddrControl::Decrement => 1,
            AddrControl::Fixed => 2,
            AddrControl::IncReload => 3,
        }
    }

    /// The mode that a code names; codes above 3 count as 3.
    pub open spec fn spec_from_raw(raw: u16) -> AddrControl {
        if raw == 0 {
            AddrControl::Increment
        } else if raw == 1 {
            AddrControl::Decrement
        } else if raw == 2 {
            AddrControl::Fixed
        } else {
            AddrControl::IncReload
        }
    }

    /// The mode that a code names; codes above 3 count as 3.
    #[verifier::when_used_as_spec(spec_from_raw)]
    pub fn from_raw(raw: u16) -> (r: AddrControl)
        ensures
            r == Self::spec_from_raw(raw),
    {
        if raw == 0 {
            AddrControl::Increment
        } else if raw == 1 {
            AddrControl::Decrement
        } else if raw == 2 {
            AddrControl::Fixed
        } else {
            AddrControl::IncReload
        }
    }

    /// An address after one unit of `delta` bytes was transferred: up,
    /// down or unchanged, modulo 2^32.
    pub open spec fn spec_step(self, address: u32, delta: u32) -> u32 {
        match self {
            AddrControl::Increment => address.wrapping_add(delta),
            AddrControl::IncReload => address.wrapping_add(delta),
            AddrControl::Decrement => address.wrapping_sub(delta),
            AddrControl::Fixed => address,
        }
    }

    /// An address after one unit of `delta` bytes was transferred.
    #[verifier::when_used_as_spec(spec_step)]
    pub fn step(self, address: u32, delta: u32) -> (r: u32)
        ensures
            r == self.spec_step(address, delta),
    {
        match self {
            AddrControl::Increment => address.wrapping_add(delta),
            AddrControl::IncReload => address.wrapping_add(delta),
            AddrControl::Decrement => address.wrapping_sub(delta),
            AddrControl::Fixed => address,
        }
    }
}

impl StartTiming {
    /// The two-bit code of the timing.
    pub open spec fn spec_raw(self) -> u16 {
        match self {
            StartTiming::Immediate => 0,
            StartTiming::VBlank => 1,
            StartTiming::HBlank => 2,
            StartTiming::Special => 3,
        }
    }

    /// The two-bit code of the timing.
    #[verifier::when_used_as_spec(spec_raw)]
    pub fn raw(self) -> (r: u16)
        ensures
            r == self.spec_raw(),
            r < 4,
    {
        match self {
            StartTiming::Immediate => 0,
            StartTiming::VBlank => 1,
            StartTiming::HBlank => 2,
            StartTiming::Special => 3,
        }
    }

    /// The timing that a code names; codes above 3 count as 3.
    pub open spec fn spec_from_raw(raw: u16) -> StartTiming {
        if raw == 0 {
            StartTiming::Immediate
        } else if raw == 1 {
            StartTiming::VBlank
        } else if raw == 2 {
            StartTiming::HBlank
        } else {
            StartTiming::Special
        }
    }

    /// The timing that a code names; codes above 3 count as 3.
    #[verifier::when_used_as_spec(spec_from_raw)]
    pub fn from_raw(raw: u16) -> (r: StartTiming)
        ensures
            r == Self::spec_from_raw(raw),
    {
        if raw == 0 {
            StartTiming::Immediate
        } else if raw == 1 {
            StartTiming::VBlank
        } else if raw == 2 {
            StartTiming::HBlank
        } else {
            StartTiming::Special
        }
    }
}

/// `w` for a set flag, 0 for a clear one.
pub open spec fn spec_weight(b: bool, w: u16) -> u16 {
    if b {
        w
    } else {
        0
    }
}

/// `w` for a set flag, 0 for a clear one.
#[verifier::when_used_as_spec(spec_weight)]
pub fn weight(b: bool, w: u16) -> (r: u16)
    ensures
        r == spec_weight(b, w),
{
    if b {
        w
    } else {
        0
    }
}

/// One DMA channel.
#[derive(Clone, Copy, Debug)]
pub struct DMA {
    pub src: u32,
    pub dst: u32,
    pub word_count: u16,
    pub src_addr_ctrl: AddrControl,
    pub dst_addr_ctrl: AddrControl,
    pub start_timing: StartTiming,
    pub repeat: bool,
    /// 32-bit units where set, 16-bit units where clear.
    pub transfer_type: bool,
    pub pak_drq: bool,
    pub dma_irq: bool,
    pub enable: bool,
    /// The enable bit went from 0 to 1 and no transfer has looked at it yet.
    pub enable_edge: bool,
}

impl DMA {
    /// A disabled channel with every register zero.
    pub open spec fn idle() -> DMA {
        DMA {
            src: 0,
            dst: 0,
            word_count: 0,
            src_addr_ctrl: AddrControl::Increment,
            dst_addr_ctrl: AddrControl::Increment,
            start_timing: StartTiming::Immediate,
            repeat: false,
            transfer_type: false,
            pak_drq: false,
            dma_irq: false,
            enable: false,
            enable_edge: false,
        }
    }

    /// A disabled channel with every register zero.
    pub fn new() -> (d: DMA)
        ensures
            d == Self::idle(),
    {
        DMA {
            src: 0,
            dst: 0,
            word_count: 0,
            src_addr_ctrl: AddrControl::Increment,
            dst_addr_ctrl: AddrControl::Increment,
            start_timing: StartTiming::Immediate,
            repeat: false,
            transfer_type: false,
            pak_drq: false,
            dma_irq: false,
            enable: false,
            enable_edge: false,
        }
    }

    /// The channel after a write of `value` to its control register: bits
    /// 5 and 6 are the destination mode, 7 and 8 the source mode, 9 repeat,
    /// 10 the unit size, 11 the cartridge request, 12 and 13 the timing, 14
    /// the interrupt and 15 the enable. An enable bit that goes from 0 to 1
    /// is remembered as an edge.
    pub open spec fn apply_dma_cnt_spec(self, value: u16) -> DMA {
        let enable = value / 0x8000 == 1;
        DMA {
            dst_addr_ctrl: AddrControl::spec_from_raw((value / 0x20) % 4),
            src_addr_ctrl: AddrControl::spec_from_raw((value / 0x80) % 4),
            start_timing: StartTiming::spec_from_raw((value / 0x1000) % 4),
            repeat: (value / 0x200) % 2 == 1,
            transfer_type: (value / 0x400) % 2 == 1,
            pak_drq: (value / 0x800) % 2 == 1,
            dma_irq: (value / 0x4000) % 2 == 1,
            enable,
            enable_edge: self.enable_edge || (enable && !self.enable),
            ..self
        }
    }

    /// Update the control bits from a write to DMAxCNT_H.
    pub fn apply_dma_cnt(&mut self, value: u16)
        ensures
            *final(self) == old(self).apply_dma_cnt_spec(value),
    {
        let enable = value / 0x8000 == 1;
        self.dst_addr_ctrl = AddrControl::from_raw((value / 0x20) % 4);
        self.src_addr_ctrl = AddrControl::from_raw((value / 0x80) % 4);
        self.start_timing = StartTiming::from_raw((value / 0x1000) % 4);
        self.repeat = (value / 0x200) % 2 == 1;
        self.transfer_type = (value / 0x400) % 2 == 1;
        self.pak_drq = (value / 0x800) % 2 == 1;
        self.dma_irq = (value / 0x4000) % 2 == 1;
        self.enable_edge = self.enable_edge || (enable && !self.enable);
        self.enable = enable;
    }

    /// The mode fields of the control register: the timing in bits 12 and
    /// 13, the source mode in bits 7 and 8, the destination mode in bits 5
    /// and 6.
    pub open spec fn spec_control_modes(&self) -> u16 {
        (0x1000 * self.start_timing.spec_raw() + 0x80 * self.src_addr_ctrl.spec_raw() + 0x20
            * self.dst_addr_ctrl.spec_raw()) as u16
    }

    /// The flags of the control register: enable in bit 15, the interrupt
    /// in bit 14, the cartridge request in bit 11, the unit size in bit 10
    /// and repeat in bit 9.
    pub open spec fn spec_control_flags(&self) -> u16 {
        (spec_weight(self.enable, 0x8000) + spec_weight(self.dma_irq, 0x4000) + spec_weight(
            self.pak_drq,
            0x800,
        ) + spec_weight(self.transfer_type, 0x400) + spec_weight(self.repeat, 0x200)) as u16
    }

    /// The control register as the bus reads it.
    pub open spec fn spec_control(&self) -> u16 {
        (self.spec_control_flags() + self.spec_control_modes()) as u16
    }

    fn control_modes(&self) -> (r: u16)
        ensures
            r == self.spec_control_modes(),
            r <= 0x31E0,
    {
        let timing: u16 = self.start_timing.raw();
        let source: u16 = self.src_addr_ctrl.raw();
        let target: u16 = self.dst_addr_ctrl.raw();
        0x1000 * timing + 0x80 * source + 0x20 * target
    }

    fn control_flags(&self) -> (r: u16)
        ensures
            r == self.spec_control_flags(),
            r <= 0xCE00,
    {
        let a: u16 = weight(self.enable, 0x8000);
        let b: u16 = weight(self.dma_irq, 0x4000);
        let c: u16 = weight(self.pak_drq, 0x800);
        let d: u16 = weight(self.transfer_type, 0x400);
        let e: u16 = weight(self.repeat, 0x200);
        a + b + c + d + e
    }

    /// The control register as the bus reads it.
    #[verifier::when_used_as_spec(spec_control)]
    pub fn control(&self) -> (r: u16)
        ensures
            r == self.spec_control(),
    {
        self.control_flags() + self.control_modes()
    }

    /// The number of units of a transfer: the word count, and the largest
    /// count of the channel where the register holds 0.
    pub open spec fn spec_units(&self, ch: usize) -> u16 {
        if self.word_count != 0 {
            self.word_count
        } else if ch == 3 {
            0xFFFF
        } else {
            0x3FFF
        }
    }

    /// The number of units of a transfer.
    #[verifier::when_used_as_spec(spec_units)]
    pub fn units(&self, ch: usize) -> (r: u16)
        ensures
            r == self.spec_units(ch),
    {
        if self.word_count != 0 {
            self.word_count
        } else if ch == 3 {
            0xFFFF
        } else {
            0x3FFF
        }
    }
}

/// The channels of `base` without their enable edges, as a function of the
/// channel number.
pub open spec fn without_edge(base: [DMA; 4]) -> spec_fn(int) -> DMA {
    |i: int| DMA { enable_edge: false, ..base[i] }
}

/// The four DMA channels.
#[derive(Clone, Copy, Debug)]
pub struct DMAChannels(pub [DMA; 4]);

/// The channel that the register at `address` (an offset into the I/O
/// region from 0xB0 to 0xDF) belongs to.
pub open spec fn spec_channel_of(address: u32) -> usize {
    ((address - 0xB0) / 12) as usize
}

/// The channel that the register at `address` belongs to.
#[verifier::when_used_as_spec(spec_channel_of)]
pub fn channel_of(address: u32) -> (r: usize)
    requires
        0xB0 <= address <= 0xDF,
    ensures
        r == spec_channel_of(address),
        r < 4,
{
    ((address - 0xB0) / 12) as usize
}

/// The offset of the register at `address` within its channel: 0 and 2 are
/// the halves of the source address, 4 and 6 those of the destination, 8 is
/// the word count and 10 the control register.
pub open spec fn spec_register_of(address: u32) -> u32 {
    ((address - 0xB0) % 12) as u32
}

/// The offset of the register at `address` within its channel.
#[verifier::when_used_as_spec(spec_register_of)]
pub fn register_of(address: u32) -> (r: u32)
    requires
        0xB0 <= address <= 0xDF,
    ensures
        r == spec_register_of(address),
{
    (address - 0xB0) % 12
}

/// The bits of the upper half of an address register that exist: 11, and
/// 12 for channel 3.
pub open spec fn spec_high_mask(ch: usize) -> u32 {
    if ch == 3 {
        0xFFF
    } else {
        0x7FF
    }
}

/// The bits of the upper half of an address register that exist.
#[verifier::when_used_as_spec(spec_high_mask)]
pub fn high_mask(ch: usize) -> (r: u32)
    ensures
        r == spec_high_mask(ch),
{
    if ch == 3 {
        0xFFF
    } else {
        0x7FF
    }
}

impl DMAChannels {
    /// Four disabled channels with every register zero.
    pub open spec fn power_on() -> DMAChannels {
        DMAChannels(spec_array_fill_for_copy_type::<DMA, 4>(DMA::idle()))
    }

    /// Four disabled channels.
    pub fn new() -> (d: DMAChannels)
        ensures
            d == Self::power_on(),
    {
        DMAChannels([DMA::new(); 4])
    }

    /// Whether any channel has an enable edge that no transfer has looked at.
    pub open spec fn any_enable_edge(&self) -> bool {
        self.0[0].enable_edge || self.0[1].enable_edge || self.0[2].enable_edge || self.0[3].enable_edge
    }

    /// Whether any channel has an enable edge that no transfer has looked at.
    pub fn has_enable_edge(&self) -> (r: bool)
        ensures
            r == self.any_enable_edge(),
    {
        self.0[0].enable_edge || self.0[1].enable_edge || self.0[2].enable_edge || self.0[3].enable_edge
    }

    /// The channels with every enable edge forgotten.
    pub open spec fn edges_cleared(self) -> DMAChannels {
        DMAChannels(tabulate(self.0, 0, 4, without_edge(self.0)))
    }

    /// Forget every enable edge.
    pub fn clear_edges(&mut self)
        ensures
            *final(self) == old(self).edges_cleared(),
    {
        let base = self.0;
        let mut channels = base;
        let mut i: usize = 0;
        while i < 4
            invariant
                i <= 4,
                channels == tabulate(base, 0, i as nat, without_edge(base)),
            decreases 4 - i,
        {
            let mut dma = base[i];
            dma.enable_edge = false;
            channels[i] = dma;
            i += 1;
        }
        self.0 = channels;
    }

    /// What a 16-bit read at `address` returns: the control register of a
    /// channel, and 0 for every other register, none of which can be read.
    pub open spec fn read16_spec(&self, address: u32) -> u16 {
        if 0xB0 <= address <= 0xDF && spec_register_of(address) == 10 {
            self.0[spec_channel_of(address) as int].spec_control()
        } else {
            0
        }
    }

    /// Read a DMA register as the bus sees it.
    pub fn read16(&self, address: u32) -> (r: u16)
        ensures
            r == self.read16_spec(address),
    {
        if 0xB0 <= address && address <= 0xDF && register_of(address) == 10 {
            self.0[channel_of(address)].control()
        } else {
            0
        }
    }

    /// What a byte read at `address` returns.
    pub open spec fn read8_spec(&self, address: u32) -> u8 {
        if address % 2 == 0 {
            spec_lo8(self.read16_spec(address))
        } else {
            spec_hi8(self.read16_spec(spec_align2(address)))
        }
    }

    /// Read one byte of a DMA register as the bus sees it.
    pub fn read8(&self, address: u32) -> (r: u8)
        ensures
            r == self.read8_spec(address),
    {
        if address % 2 == 0 {
            lo8(self.read16(address))
        } else {
            hi8(self.read16(align2(address)))
        }
    }

    /// The halfword that the register at `address` holds, whether the bus
    /// can read it or not.
    pub open spec fn raw_read16_spec(&self, address: u32) -> u16 {
        if 0xB0 <= address <= 0xDF {
            let dma = self.0[spec_channel_of(address) as int];
            let reg = spec_register_of(address);
            if reg == 0 {
                (dma.src % 0x1_0000) as u16
            } else if reg == 2 {
                (dma.src / 0x1_0000) as u16
            } else if reg == 4 {
                (dma.dst % 0x1_0000) as u16
            } else if reg == 6 {
                (dma.dst / 0x1_0000) as u16
            } else if reg == 8 {
                dma.word_count
            } else if reg == 10 {
                dma.spec_control()
            } else {
                0
            }
        } else {
            0
        }
    }

    /// Read the halfword behind a register without going through the bus.
    pub fn raw_read16(&self, address: u32) -> (r: u16)
        ensures
            r == self.raw_read16_spec(address),
    {
        if 0xB0 <= address && address <= 0xDF {
            let dma = self.0[channel_of(address)];
            let reg = register_of(address);
            if reg == 0 {
                (dma.src % 0x1_0000) as u16
            } else if reg == 2 {
                (dma.src / 0x1_0000) as u16
            } else if reg == 4 {
                (dma.dst % 0x1_0000) as u16
            } else if reg == 6 {
                (dma.dst / 0x1_0000) as u16
            } else if reg == 8 {
                dma.word_count
            } else if reg == 10 {
                dma.control()
            } else {
                0
            }
        } else {
            0
        }
    }

    /// The channel after a 16-bit write of `value` to its register at
    /// offset `reg`. A write to the lower half of an address sets the
    /// address to `value`; a write to the upper half adds the bits of
    /// `value` that exist there to the address; the word count keeps 14
    /// bits, and 16 for channel 3.
    pub open spec fn register_written(dma: DMA, ch: usize, reg: u32, value: u16) -> DMA {
        if reg == 0 {
            DMA { src: value as u32, ..dma }
        } else if reg == 2 {
            DMA { src: dma.src | ((value as u32 & spec_high_mask(ch)) << 16), ..dma }
        } else if reg == 4 {
            DMA { dst: value as u32, ..dma }
        } else if reg == 6 {
            DMA { dst: dma.dst | ((value as u32 & spec_high_mask(ch)) << 16), ..dma }
        } else if reg == 8 {
            DMA { word_count: if ch == 3 { value } else { value % 0x4000 }, ..dma }
        } else if reg == 10 {
            dma.apply_dma_cnt_spec(value)
        } else {
            dma
        }
    }

    /// The channels after a 16-bit write of `value` at `address`.
    pub open spec fn write16_spec(self, address: u32, value: u16) -> DMAChannels {
        if 0xB0 <= address <= 0xDF {
            let ch = spec_channel_of(address);
            DMAChannels(
                spec_array_update(
                    self.0,
                    ch as int,
                    Self::register_written(self.0[ch as int], ch, spec_register_of(address), value),
                ),
            )
        } else {
            self
        }
    }

    /// Write a DMA register as the bus does.
    pub fn write16(&mut self, address: u32, value: u16)
        ensures
            *final(self) == old(self).write16_spec(address, value),
    {
        if 0xB0 <= address && address <= 0xDF {
            let ch = channel_of(address);
            let reg = register_of(address);
            let mut dma = self.0[ch];
            if reg == 0 {
                dma.src = value as u32;
            } else if reg == 2 {
                dma.src = dma.src | ((value as u32 & high_mask(ch)) << 16);
            } else if reg == 4 {
                dma.dst = value as u32;
            } else if reg == 6 {
                dma.dst = dma.dst | ((value as u32 & high_mask(ch)) << 16);
            } else if reg == 8 {
                dma.word_count = if ch == 3 { value } else { value % 0x4000 };
            } else if reg == 10 {
                dma.apply_dma_cnt(value);
            }
            self.0[ch] = dma;
        }
    }

    /// The channels after a byte write: the halfword register that holds
    /// the byte is written with the new byte beside the byte that was there.
    pub open spec fn write8_spec(self, address: u32, value: u8) -> DMAChannels {
        let old = self.raw_read16_spec(spec_align2(address));
        if address % 2 == 0 {
            self.write16_spec(address, spec_le16(value, spec_hi8(old)))
        } else {
            self.write16_spec(spec_align2(address), spec_le16(spec_lo8(old), value))
        }
    }

    /// Write one byte of a DMA register as the bus does.
    pub fn write8(&mut self, address: u32, value: u8)
        ensures
            *final(self) == old(self).write8_spec(address, value),
    {
        let old = self.raw_read16(align2(address));
        if address % 2 == 0 {
            self.write16(address, le16(value, hi8(old)));
        } else {
            self.write16(align2(address), le16(lo8(old), value));
        }
    }
}

} // verus!
