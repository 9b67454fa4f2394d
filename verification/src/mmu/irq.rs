//! The interrupt registers: master enable, per-source enable and the
//! per-source request flags.
use vstd::prelude::*;
use crate::bits::{bit16, lemma_with_bit16, spec_bit16, spec_with_bit16, with_bit16};

verus! {

/// The fourteen interrupt sources, in the order of their bits in IE and IF.
#[derive(Clone, Copy, PartialEq, Eq, Structural, Debug)]
pub enum Interrupt {
    VBlank,
    HBlank,
    VCount,
    Timer0,
    Timer1,
    Timer2,
    Timer3,
    Serial,
    DMA0,
    DMA1,
    DMA2,
    DMA3,
    Keypad,
    GamePak,
}

impl Interrupt {
    /// The bit of IE and IF that belongs to the source.
    pub open spec fn spec_index(self) -> u16 {
        match self {
            Interrupt::VBlank => 0,
            Interrupt::HBlank => 1,
            Interrupt::VCount => 2,
            Interrupt::Timer0 => 3,
            Interrupt::Timer1 => 4,
            Interrupt::Timer2 => 5,
            Interrupt::Timer3 => 6,
            Interrupt::Serial => 7,
            Interrupt::DMA0 => 8,
            Interrupt::DMA1 => 9,
            Interrupt::DMA2 => 10,
            Interrupt::DMA3 => 11,
            Interrupt::Keypad => 12,
            Interrupt::GamePak => 13,
        }
    }

    /// The bit of IE and IF that belongs to the source.
    #[verifier::when_used_as_spec(spec_index)]
    pub fn index(self) -> (r: u16)
        ensures
            r == self.spec_index(),
            r < 14,
    {
        match self {
            Interrupt::VBlank => 0,
            Interrupt::HBlank => 1,
            Interrupt::VCount => 2,
            Interrupt::Timer0 => 3,
            Interrupt::Timer1 => 4,
            Interrupt::Timer2 => 5,
            Interrupt::Timer3 => 6,
            Interrupt::Serial => 7,
            Interrupt::DMA0 => 8,
            Interrupt::DMA1 => 9,
            Interrupt::DMA2 => 10,
            Interrupt::DMA3 => 11,
            Interrupt::Keypad => 12,
            Interrupt::GamePak => 13,
        }
    }

    /// The overflow interrupt of timer `id`; ids above 3 count as 3.
    pub open spec fn spec_timer(id: usize) -> Interrupt {
        if id == 0 {
            Interrupt::Timer0
        } else if id == 1 {
            Interrupt::Timer1
        } else if id == 2 {
            Interrupt::Timer2
        } else {
            Interrupt::Timer3
        }
    }

    /// The overflow interrupt of timer `id`; ids above 3 count as 3.
    #[verifier::when_used_as_spec(spec_timer)]
    pub fn timer(id: usize) -> (r: Interrupt)
        ensures
            r == Self::spec_timer(id),
    {
        if id == 0 {
            Interrupt::Timer0
        } else if id == 1 {
            Interrupt::Timer1
        } else if id == 2 {
            Interrupt::Timer2
        } else {
            Interrupt::Timer3
        }
    }

    /// The completion interrupt of DMA channel `ch`; channels above 3 count as 3.
    pub open spec fn spec_dma(ch: usize) -> Interrupt {
        if ch == 0 {
            Interrupt::DMA0
        } else if ch == 1 {
            Interrupt::DMA1
        } else if ch == 2 {
            Interrupt::DMA2
        } else {
            Interrupt::DMA3
        }
    }

    /// The completion interrupt of DMA channel `ch`; channels above 3 count as 3.
    #[verifier::when_used_as_spec(spec_dma)]
    pub fn dma(ch: usize) -> (r: Interrupt)
        ensures
            r == Self::spec_dma(ch),
    {
        if ch == 0 {
            Interrupt::DMA0
        } else if ch == 1 {
            Interrupt::DMA1
        } else if ch == 2 {
            Interrupt::DMA2
        } else {
            Interrupt::DMA3
        }
    }
}

/// Interrupt Master Enable register.
#[derive(Clone, Copy, Debug)]
pub struct IME(pub u32);

impl IME {
    /// The whole register.
    pub open spec fn spec_ime(&self) -> u32 {
        self.0
    }

    /// The whole register.
    #[verifier::when_used_as_spec(spec_ime)]
    pub fn ime(&self) -> (r: u32)
        ensures
            r == self.0,
    {
        self.0
    }

    /// Whether interrupts are enabled at all: bit 0.
    pub open spec fn spec_enabled(&self) -> bool {
        self.0 % 2 == 1
    }

    /// Whether interrupts are enabled at all: bit 0.
    #[verifier::when_used_as_spec(spec_enabled)]
    pub fn enabled(&self) -> (r: bool)
        ensures
            r == self.spec_enabled(),
    {
        self.0 % 2 == 1
    }

    /// The register with bit 0 set to `v` and the other bits as they are.
    pub open spec fn with_enabled(self, v: bool) -> IME {
        IME((self.0 - self.0 % 2 + if v { 1int } else { 0int }) as u32)
    }

    /// Set or clear the master enable bit.
    pub fn set_enabled(&mut self, v: bool)
        ensures
            *final(self) == old(self).with_enabled(v),
            final(self).spec_enabled() == v,
    {
        self.0 = self.0 - self.0 % 2 + if v { 1 } else { 0 };
    }
}

/// Interrupt Enable register.
#[derive(Clone, Copy, Debug)]
pub struct IE(pub u16);

impl IE {
    /// The whole register.
    pub open spec fn spec_ie(&self) -> u16 {
        self.0
    }

    /// The whole register.
    #[verifier::when_used_as_spec(spec_ie)]
    pub fn ie(&self) -> (r: u16)
        ensures
            r == self.0,
    {
        self.0
    }

    /// Whether the source is enabled.
    pub open spec fn spec_has(&self, irq: Interrupt) -> bool {
        spec_bit16(self.0, irq.spec_index())
    }

    /// Whether the source is enabled.
    #[verifier::when_used_as_spec(spec_has)]
    pub fn has(&self, irq: Interrupt) -> (r: bool)
        ensures
            r == self.spec_has(irq),
    {
        bit16(self.0, irq.index())
    }
}

/// Interrupt Request Flags register.
#[derive(Clone, Copy, Debug)]
pub struct IF(pub u16);

impl IF {
    /// The whole register.
    pub open spec fn spec_iff(&self) -> u16 {
        self.0
    }

    /// The whole register.
    #[verifier::when_used_as_spec(spec_iff)]
    pub fn iff(&self) -> (r: u16)
        ensures
            r == self.0,
    {
        self.0
    }

    /// Whether the source has a request pending.
    pub open spec fn spec_has(&self, irq: Interrupt) -> bool {
        spec_bit16(self.0, irq.spec_index())
    }

    /// Whether the source has a request pending.
    #[verifier::when_used_as_spec(spec_has)]
    pub fn has(&self, irq: Interrupt) -> (r: bool)
        ensures
            r == self.spec_has(irq),
    {
        bit16(self.0, irq.index())
    }

    /// The register with the flag of `irq` set to `v`.
    pub open spec fn with(self, irq: Interrupt, v: bool) -> IF {
        IF(spec_with_bit16(self.0, irq.spec_index(), v))
    }

    /// Set or clear the request flag of one source.
    pub fn set(&mut self, irq: Interrupt, v: bool)
        ensures
            *final(self) == old(self).with(irq, v),
    {
        self.0 = with_bit16(self.0, irq.index(), v);
    }

    /// Set or clear the vertical blank request.
    pub fn set_vblank(&mut self, v: bool)
        ensures
            *final(self) == old(self).with(Interrupt::VBlank, v),
    {
        self.set(Interrupt::VBlank, v);
    }

    /// Set or clear the horizontal blank request.
    pub fn set_hblank(&mut self, v: bool)
        ensures
            *final(self) == old(self).with(Interrupt::HBlank, v),
    {
        self.set(Interrupt::HBlank, v);
    }

    /// Set or clear the line counter match request.
    pub fn set_vcount(&mut self, v: bool)
        ensures
            *final(self) == old(self).with(Interrupt::VCount, v),
    {
        self.set(Interrupt::VCount, v);
    }

    /// Raise the overflow request of timer `id`.
    pub fn set_timer(&mut self, id: usize)
        ensures
            *final(self) == old(self).with(Interrupt::spec_timer(id), true),
    {
        self.set(Interrupt::timer(id), true);
    }

    /// Raise the completion request of DMA channel `ch`.
    pub fn set_dma(&mut self, ch: usize)
        ensures
            *final(self) == old(self).with(Interrupt::spec_dma(ch), true),
    {
        self.set(Interrupt::dma(ch), true);
    }
}

/// A raised request reads as pending, and raising or clearing one request
/// leaves every other source as it was.
pub proof fn lemma_request_flags(iff: IF, irq: Interrupt, v: bool, other: Interrupt)
    ensures
        iff.with(irq, v).spec_has(other) == (if other == irq { v } else { iff.spec_has(other) }),
{
    lemma_with_bit16(iff.0, irq.spec_index(), v, other.spec_index());
}

} // verus!
