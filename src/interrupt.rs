use vstd::prelude::*;

verus! {

/// The five interrupt sources, in priority order.
#[derive(Clone, Copy, PartialEq, Eq, Debug, Structural)]
pub enum Interrupt {
    /// The PPU enters V-Blank
    VBlank,
    /// The STAT interrupt line rose
    LcdcStatus,
    /// TIMA overflowed
    TimerOverflow,
    /// A serial transfer completed
    SerialTransferCompletion,
    /// A joypad line went low
    Input,
}

impl Interrupt {
    /// The bit of IF and IE that belongs to this source.
    pub open spec fn bit_spec(self) -> u8 {
        match self {
            Interrupt::VBlank => 0,
            Interrupt::LcdcStatus => 1,
            Interrupt::TimerOverflow => 2,
            Interrupt::SerialTransferCompletion => 3,
            Interrupt::Input => 4,
        }
    }

    /// The fixed vector the processor calls when servicing this source.
    pub open spec fn vector_spec(self) -> u16 {
        match self {
            Interrupt::VBlank => 0x40,
            Interrupt::LcdcStatus => 0x48,
            Interrupt::TimerOverflow => 0x50,
            Interrupt::SerialTransferCompletion => 0x58,
            Interrupt::Input => 0x60,
        }
    }

    /// The address to jump to when the interrupt is serviced.
    pub fn jump_address(&self) -> (r: u16)
        ensures
            r == self.vector_spec(),
    {
        match self {
            Interrupt::VBlank => 0x40,
            Interrupt::LcdcStatus => 0x48,
            Interrupt::TimerOverflow => 0x50,
            Interrupt::SerialTransferCompletion => 0x58,
            Interrupt::Input => 0x60,
        }
    }

    /// The bit of the IF and IE registers for this interrupt.
    pub fn if_ie_bit(&self) -> (r: u8)
        ensures
            r == self.bit_spec(),
            r < 5,
    {
        match self {
            Interrupt::VBlank => 0,
            Interrupt::LcdcStatus => 1,
            Interrupt::TimerOverflow => 2,
            Interrupt::SerialTransferCompletion => 3,
            Interrupt::Input => 4,
        }
    }
}

} // verus!
