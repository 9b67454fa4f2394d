//! The memory bus and the devices mapped into it.
use vstd::prelude::*;
use crate::bits::{hi8, le16, lo8, spec_hi8, spec_le16, spec_lo8};

pub mod bus;
pub mod dma;
pub mod dma_laws;
pub mod game_pak;
pub mod io;
pub mod irq;
pub mod laws;
pub mod timer;
pub mod transfer;

verus! {

/// A byte-addressed device. Wider accesses are made of byte accesses,
/// lowest address and lowest byte first.
pub trait Mcu: Sized {
    /// What the device needs to hold of itself between accesses.
    spec fn inv(&self) -> bool;

    /// The byte that a read at `address` returns.
    spec fn peek8(&self, address: u32) -> u8;

    /// The device after a write of `value` at `address`.
    spec fn poke8(self, address: u32, value: u8) -> Self;

    fn read8(&self, address: u32) -> (r: u8)
        requires
            self.inv(),
        ensures
            r == self.peek8(address),
    ;

    fn write8(&mut self, address: u32, value: u8)
        requires
            old(self).inv(),
        ensures
            *final(self) == old(self).poke8(address, value),
            final(self).inv(),
    ;

    fn read16(&self, address: u32) -> (r: u16)
        requires
            self.inv(),
        ensures
            r == spec_le16(self.peek8(address), self.peek8(address.wrapping_add(1))),
    {
        le16(self.read8(address), self.read8(address.wrapping_add(1)))
    }

    fn write16(&mut self, address: u32, value: u16)
        requires
            old(self).inv(),
        ensures
            *final(self) == old(self).poke8(address, spec_lo8(value)).poke8(
                address.wrapping_add(1),
                spec_hi8(value),
            ),
            final(self).inv(),
    {
        self.write8(address, lo8(value));
        self.write8(address.wrapping_add(1), hi8(value));
    }

    fn read32(&self, address: u32) -> (r: u32)
        requires
            self.inv(),
        ensures
            r == spec_le16(self.peek8(address), self.peek8(address.wrapping_add(1))) + 0x1_0000 * spec_le16(
                self.peek8(address.wrapping_add(2)),
                self.peek8(address.wrapping_add(2).wrapping_add(1)),
            ),
    {
        let low = self.read16(address);
        let high = self.read16(address.wrapping_add(2));
        low as u32 + 0x1_0000 * (high as u32)
    }

    fn write32(&mut self, address: u32, value: u32)
        requires
            old(self).inv(),
        ensures
            *final(self) == old(self).poke8(address, spec_lo8((value % 0x1_0000) as u16)).poke8(
                address.wrapping_add(1),
                spec_hi8((value % 0x1_0000) as u16),
            ).poke8(address.wrapping_add(2), spec_lo8((value / 0x1_0000) as u16)).poke8(
                address.wrapping_add(2).wrapping_add(1),
                spec_hi8((value / 0x1_0000) as u16),
            ),
            final(self).inv(),
    {
        self.write16(address, (value % 0x1_0000) as u16);
        self.write16(address.wrapping_add(2), (value / 0x1_0000) as u16);
    }
}

/// The halfword that a 16-bit read at `address` returns: the byte there is
/// the low byte, the byte after it the high byte.
pub open spec fn peek16<M: Mcu>(m: &M, address: u32) -> u16 {
    spec_le16(m.peek8(address), m.peek8(address.wrapping_add(1)))
}

/// The word that a 32-bit read at `address` returns: the halfword there is
/// the low half, the halfword after it the high half.
pub open spec fn peek32<M: Mcu>(m: &M, address: u32) -> u32 {
    (peek16(m, address) + 0x1_0000 * peek16(m, address.wrapping_add(2))) as u32
}

/// The device after a 16-bit write: the low byte goes to `address`, then
/// the high byte to the address after it.
pub open spec fn poke16<M: Mcu>(m: M, address: u32, value: u16) -> M {
    m.poke8(address, spec_lo8(value)).poke8(address.wrapping_add(1), spec_hi8(value))
}

/// The device after a 32-bit write: the low half goes to `address`, then
/// the high half to the address two after it.
pub open spec fn poke32<M: Mcu>(m: M, address: u32, value: u32) -> M {
    poke16(
        poke16(m, address, (value % 0x1_0000) as u16),
        address.wrapping_add(2),
        (value / 0x1_0000) as u16,
    )
}

} // verus!
