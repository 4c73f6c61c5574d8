//! The XPS UART Lite as seen with its status and control bits counted from
//! the most significant end of each 32-bit word.

use vstd::prelude::*;
use crate::bus::{read_one, tested_word_bits, wrote_one, Access, LoggedBus, RegisterBus};
use crate::lite::{receive_moves, CTRL, RX, STAT, TX};

verus! {

/// Status: the receive FIFO holds data.
pub const RX_FIFO_VALID: u32 = 0x8000_0000;
/// Status: the receive FIFO is full.
pub const RX_FIFO_FULL: u32 = 0x4000_0000;
/// Status: the transmit FIFO is empty.
pub const TX_FIFO_EMPTY: u32 = 0x2000_0000;
/// Status: the transmit FIFO is full.
pub const TX_FIFO_FULL: u32 = 0x1000_0000;
/// Status: interrupts are enabled.
pub const INTERRUPT_ENABLED: u32 = 0x0800_0000;
/// Status: received data was lost to an overrun.
pub const OVERRUN_ERROR: u32 = 0x0400_0000;
/// Status: a framing error was seen.
pub const FRAME_ERROR: u32 = 0x0200_0000;
/// Status: a parity error was seen.
pub const PARITY_ERROR: u32 = 0x0100_0000;

/// Control: enable interrupts.
pub const ENABLE_INTERRUPT: u32 = 0x0800_0000;
/// Control: reset the receive FIFO.
pub const RESET_RX_FIFO: u32 = 0x4000_0000;
/// Control: reset the transmit FIFO.
pub const RESET_TX_FIFO: u32 = 0x8000_0000;

/// The control word for a FIFO reset: `reset` plus the interrupt enable when
/// asked for.
pub open spec fn reset_word(reset: u32, enable_interrupt: bool) -> u32 {
    if enable_interrupt {
        reset | ENABLE_INTERRUPT
    } else {
        reset
    }
}

/// The accesses of a receive attempt that reads status `s`: the receive FIFO
/// is read, giving `d`, only when it holds data.
pub open spec fn receive_ops(s: u32, d: u32) -> Seq<Access<u32>> {
    if s & RX_FIFO_VALID != 0 {
        seq![Access::Read(STAT, s), Access::Read(RX, d)]
    } else {
        seq![Access::Read(STAT, s)]
    }
}

/// # MMIO version of the XPS UART Lite.
pub struct MmioUartXPS<B> {
    reg: LoggedBus<B, u32>,
}

impl<B: RegisterBus<u32>> MmioUartXPS<B> {
    /// The register accesses made so far, oldest first.
    pub closed spec fn accesses(&self) -> Seq<Access<u32>> {
        self.reg.accesses()
    }

    /// The register block.
    pub closed spec fn bus(&self) -> B {
        self.reg.bus()
    }

    /// Creates a driver for the register block `reg`.
    pub fn new(reg: B) -> (r: Self)
        ensures
            r.bus() == reg,
            r.accesses() == Seq::<Access<u32>>::empty(),
    {
        MmioUartXPS { reg: LoggedBus::new(reg) }
    }

    /// Points the driver at another register block.
    pub fn set_base_address(&mut self, reg: B)
        ensures
            final(self).bus() == reg,
            final(self).accesses() == old(self).accesses(),
    {
        self.reg.replace(reg);
    }

    /// The register block.
    pub fn registers(&self) -> (r: &B)
        ensures
            *r == self.bus(),
    {
        self.reg.get_ref()
    }

    /// The register block, for access that the driver does not log.
    pub fn registers_mut(&mut self) -> (r: &mut B)
        ensures
            *r == old(self).bus(),
            final(self).bus() == *final(r),
            final(self).accesses() == old(self).accesses(),
    {
        self.reg.get_mut()
    }

    /// Reads a byte: `None` when the receive FIFO holds no data, in which
    /// case the FIFO is not read. The byte is the receive word's low byte.
    pub fn read_byte(&mut self) -> (r: Option<u8>)
        ensures
            exists|s: u32, d: u32| #![trigger receive_ops(s, d)]
                {
                    &&& final(self).accesses() == old(self).accesses() + receive_ops(s, d)
                    &&& receive_moves(old(self).bus(), s & RX_FIFO_VALID != 0, s, d, final(self).bus())
                    &&& r == if s & RX_FIFO_VALID != 0 {
                        Some((d % 256) as u8)
                    } else {
                        None
                    }
                },
    {
        let s = self.read_stat();
        let ghost b1 = self.bus();
        if s & RX_FIFO_VALID != 0 {
            let d = self.read_rx();
            assert(final(self).accesses() == old(self).accesses() + receive_ops(s, d));
            assert(old(self).bus().read_spec(STAT, s, b1));
            assert(receive_moves(old(self).bus(), true, s, d, final(self).bus()));
            Some((d % 256) as u8)
        } else {
            assert(final(self).accesses() == old(self).accesses() + receive_ops(s, 0));
            assert(old(self).bus().read_spec(STAT, s, b1));
            assert(receive_moves(old(self).bus(), false, s, 0, final(self).bus()));
            None
        }
    }

    /// Writes a byte to the transmit FIFO without looking at the status.
    pub fn write_byte(&mut self, value: u8)
        ensures
            wrote_one(old(self).accesses(), final(self).accesses(), old(self).bus(), final(self).bus(), TX, value as u32),
    {
        self.write_tx(value as u32)
    }

    /// Reads the receive FIFO.
    pub fn read_rx(&mut self) -> (r: u32)
        ensures
            read_one(old(self).accesses(), final(self).accesses(), old(self).bus(), final(self).bus(), RX, r),
    {
        self.reg.read(RX)
    }

    /// Writes the transmit FIFO.
    pub fn write_tx(&mut self, value: u32)
        ensures
            wrote_one(old(self).accesses(), final(self).accesses(), old(self).bus(), final(self).bus(), TX, value),
    {
        self.reg.write(TX, value)
    }

    /// Reads the status register.
    pub fn read_stat(&mut self) -> (r: u32)
        ensures
            read_one(old(self).accesses(), final(self).accesses(), old(self).bus(), final(self).bus(), STAT, r),
    {
        self.reg.read(STAT)
    }

    /// Writes the control register.
    pub fn write_ctrl(&mut self, value: u32)
        ensures
            wrote_one(old(self).accesses(), final(self).accesses(), old(self).bus(), final(self).bus(), CTRL, value),
    {
        self.reg.write(CTRL, value)
    }

    /// Enables interrupts.
    pub fn enable_interrupt(&mut self)
        ensures
            wrote_one(old(self).accesses(), final(self).accesses(), old(self).bus(), final(self).bus(), CTRL, ENABLE_INTERRUPT),
    {
        self.write_ctrl(ENABLE_INTERRUPT)
    }

    /// Resets the receive FIFO, enabling interrupts as well when asked to.
    pub fn clear_rx_fifo(&mut self, enable_interrupt: bool)
        ensures
            wrote_one(old(self).accesses(), final(self).accesses(), old(self).bus(), final(self).bus(), CTRL, reset_word(RESET_RX_FIFO, enable_interrupt)),
    {
        if enable_interrupt {
            self.write_ctrl((RESET_RX_FIFO) | ENABLE_INTERRUPT)
        } else {
            self.write_ctrl(RESET_RX_FIFO)
        }
    }

    /// Resets the transmit FIFO, enabling interrupts as well when asked to.
    pub fn clear_tx_fifo(&mut self, enable_interrupt: bool)
        ensures
            wrote_one(old(self).accesses(), final(self).accesses(), old(self).bus(), final(self).bus(), CTRL, reset_word(RESET_TX_FIFO, enable_interrupt)),
    {
        if enable_interrupt {
            self.write_ctrl((RESET_TX_FIFO) | ENABLE_INTERRUPT)
        } else {
            self.write_ctrl(RESET_TX_FIFO)
        }
    }

    /// Resets both FIFOs, enabling interrupts as well when asked to.
    pub fn clear_fifo(&mut self, enable_interrupt: bool)
        ensures
            wrote_one(old(self).accesses(), final(self).accesses(), old(self).bus(), final(self).bus(), CTRL, reset_word(RESET_RX_FIFO | RESET_TX_FIFO, enable_interrupt)),
    {
        if enable_interrupt {
            self.write_ctrl((RESET_RX_FIFO | RESET_TX_FIFO) | ENABLE_INTERRUPT)
        } else {
            self.write_ctrl(RESET_RX_FIFO | RESET_TX_FIFO)
        }
    }

    /// Whether the receive FIFO holds data.
    pub fn is_rx_fifo_valid(&mut self) -> (r: bool)
        ensures
            tested_word_bits(old(self).accesses(), final(self).accesses(), old(self).bus(), final(self).bus(), STAT, RX_FIFO_VALID, r),
    {
        self.reg.test_word_bits(STAT, RX_FIFO_VALID)
    }

    /// Whether the receive FIFO is full.
    pub fn is_rx_fifo_full(&mut self) -> (r: bool)
        ensures
            tested_word_bits(old(self).accesses(), final(self).accesses(), old(self).bus(), final(self).bus(), STAT, RX_FIFO_FULL, r),
    {
        self.reg.test_word_bits(STAT, RX_FIFO_FULL)
    }

    /// Whether the transmit FIFO is empty.
    pub fn is_tx_fifo_empty(&mut self) -> (r: bool)
        ensures
            tested_word_bits(old(self).accesses(), final(self).accesses(), old(self).bus(), final(self).bus(), STAT, TX_FIFO_EMPTY, r),
    {
        self.reg.test_word_bits(STAT, TX_FIFO_EMPTY)
    }

    /// Whether the transmit FIFO is full.
    pub fn is_tx_fifo_full(&mut self) -> (r: bool)
        ensures
            tested_word_bits(old(self).accesses(), final(self).accesses(), old(self).bus(), final(self).bus(), STAT, TX_FIFO_FULL, r),
    {
        self.reg.test_word_bits(STAT, TX_FIFO_FULL)
    }

    /// Whether interrupts are enabled.
    pub fn is_interrupt_enabled(&mut self) -> (r: bool)
        ensures
            tested_word_bits(old(self).accesses(), final(self).accesses(), old(self).bus(), final(self).bus(), STAT, INTERRUPT_ENABLED, r),
    {
        self.reg.test_word_bits(STAT, INTERRUPT_ENABLED)
    }

    /// Whether received data was lost to an overrun.
    pub fn is_overrun_error(&mut self) -> (r: bool)
        ensures
            tested_word_bits(old(self).accesses(), final(self).accesses(), old(self).bus(), final(self).bus(), STAT, OVERRUN_ERROR, r),
    {
        self.reg.test_word_bits(STAT, OVERRUN_ERROR)
    }

    /// Whether a framing error was seen.
    pub fn is_frame_error(&mut self) -> (r: bool)
        ensures
            tested_word_bits(old(self).accesses(), final(self).accesses(), old(self).bus(), final(self).bus(), STAT, FRAME_ERROR, r),
    {
        self.reg.test_word_bits(STAT, FRAME_ERROR)
    }

    /// Whether a parity error was seen.
    pub fn is_parity_error(&mut self) -> (r: bool)
        ensures
            tested_word_bits(old(self).accesses(), final(self).accesses(), old(self).bus(), final(self).bus(), STAT, PARITY_ERROR, r),
    {
        self.reg.test_word_bits(STAT, PARITY_ERROR)
    }
}

} // verus!
