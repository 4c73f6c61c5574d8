//! The Xilinx UART Lite soft cores: XPS UART Lite and AXI UART Lite.
//!
//! Four 32-bit slots: receive FIFO, transmit FIFO, status and control. The
//! status and control fields sit in the low byte on the AXI core; the XPS
//! driver handles the same fields in reversed bit order, bit `i` of a field
//! byte standing at bit `31 - i` of the word.

use vstd::prelude::*;
use crate::bus::{
    lemma_repeated_push, read_field, read_one, repeated, tested_word_bits, wrote_one, Access,
    LoggedBus, RegisterBus,
};

verus! {

/// Slot of the receive FIFO.
pub const RX: usize = 0;
/// Slot of the transmit FIFO.
pub const TX: usize = 1;
/// Slot of the status register.
pub const STAT: usize = 2;
/// Slot of the control register.
pub const CTRL: usize = 3;

/// Status: the receive FIFO holds data.
pub const STATUS_RX_FIFO_VALID: u8 = 0b0000_0001;
/// Status: the receive FIFO is full.
pub const STATUS_RX_FIFO_FULL: u8 = 0b0000_0010;
/// Status: the transmit FIFO is empty.
pub const STATUS_TX_FIFO_EMPTY: u8 = 0b0000_0100;
/// Status: the transmit FIFO is full.
pub const STATUS_TX_FIFO_FULL: u8 = 0b0000_1000;
/// Status: interrupts are enabled.
pub const STATUS_INTERRUPT_ENABLED: u8 = 0b0001_0000;
/// Status: received data was lost to an overrun.
pub const STATUS_OVERRUN_ERROR: u8 = 0b0010_0000;
/// Status: a framing error was seen.
pub const STATUS_FRAME_ERROR: u8 = 0b0100_0000;
/// Status: a parity error was seen.
pub const STATUS_PARITY_ERROR: u8 = 0b1000_0000;

/// Control: enable interrupts.
pub const CONTROL_ENABLE_INTERRUPT: u8 = 0b0001_0000;
/// Control: reset the receive FIFO.
pub const CONTROL_RESET_RX_FIFO: u8 = 0b0000_0010;
/// Control: reset the transmit FIFO.
pub const CONTROL_RESET_TX_FIFO: u8 = 0b0000_0001;

/// Whether bit `i` of `x` is set.
pub open spec fn bit(x: u32, i: u32) -> bool {
    (x >> i) & 1u32 == 1u32
}

/// `r` holds the bits of `x` in reverse order: bit `i` of `r` is bit
/// `31 - i` of `x`.
pub open spec fn bits_reversed(x: u32, r: u32) -> bool {
    forall|i: u32| i < 32 ==> #[trigger] bit(r, i) == bit(x, (31 - i) as u32)
}

/// `b` is the high byte of `x` in reverse order: bit `i` of `b` is bit
/// `31 - i` of `x`.
pub open spec fn msb_first(b: u8, x: u32) -> bool {
    forall|i: u32| i < 8 ==> #[trigger] bit(b as u32, i) == bit(x, (31 - i) as u32)
}

/// Relies on `u32::reverse_bits`: the least significant bit becomes the most
/// significant, the second least the second most, and so on.
#[verifier::external_body]
fn reverse_bits(x: u32) -> (r: u32)
    ensures
        bits_reversed(x, r),
{
    x.reverse_bits()
}

/// The control byte for a FIFO reset: `reset` plus the interrupt enable when
/// asked for.
pub open spec fn reset_control(reset: u8, enable_interrupt: bool) -> u8 {
    if enable_interrupt {
        CONTROL_ENABLE_INTERRUPT | reset
    } else {
        reset
    }
}

fn control_byte(reset: u8, enable_interrupt: bool) -> (r: u8)
    ensures
        r == reset_control(reset, enable_interrupt),
{
    if enable_interrupt {
        CONTROL_ENABLE_INTERRUPT | reset
    } else {
        reset
    }
}

proof fn lemma_low_byte_bits(b: u8, x: u32, r: u32)
    requires
        bits_reversed(x, r),
        b == (r % 256) as u8,
    ensures
        msb_first(b, x),
{
    assert forall|i: u32| i < 8 implies #[trigger] bit(b as u32, i) == bit(x, (31 - i) as u32) by {
        assert(bit(r, i) == bit(x, (31 - i) as u32));
        assert(i < 8 && b == (r % 256) as u8 ==> (bit(b as u32, i) == bit(r, i))) by (bit_vector);
    }
}

proof fn lemma_status_bits(b: u8, x: u32)
    requires
        msb_first(b, x),
    ensures
        (b & 0x01u8 != 0) == (x & 0x8000_0000u32 != 0),
        (b & 0x02u8 != 0) == (x & 0x4000_0000u32 != 0),
        (b & 0x04u8 != 0) == (x & 0x2000_0000u32 != 0),
        (b & 0x08u8 != 0) == (x & 0x1000_0000u32 != 0),
        (b & 0x10u8 != 0) == (x & 0x0800_0000u32 != 0),
        (b & 0x20u8 != 0) == (x & 0x0400_0000u32 != 0),
        (b & 0x40u8 != 0) == (x & 0x0200_0000u32 != 0),
        (b & 0x80u8 != 0) == (x & 0x0100_0000u32 != 0),
{
    let w = b as u32;
    assert(bit(w, 0) == bit(x, 31));
    assert(bit(w, 1) == bit(x, 30));
    assert(bit(w, 2) == bit(x, 29));
    assert(bit(w, 3) == bit(x, 28));
    assert(bit(w, 4) == bit(x, 27));
    assert(bit(w, 5) == bit(x, 26));
    assert(bit(w, 6) == bit(x, 25));
    assert(bit(w, 7) == bit(x, 24));
    assert({
        &&& (b & 0x01u8 != 0) == (x & 0x8000_0000u32 != 0)
        &&& (b & 0x02u8 != 0) == (x & 0x4000_0000u32 != 0)
        &&& (b & 0x04u8 != 0) == (x & 0x2000_0000u32 != 0)
        &&& (b & 0x08u8 != 0) == (x & 0x1000_0000u32 != 0)
        &&& (b & 0x10u8 != 0) == (x & 0x0800_0000u32 != 0)
        &&& (b & 0x20u8 != 0) == (x & 0x0400_0000u32 != 0)
        &&& (b & 0x40u8 != 0) == (x & 0x0200_0000u32 != 0)
        &&& (b & 0x80u8 != 0) == (x & 0x0100_0000u32 != 0)
    }) by (bit_vector)
        requires
            w == b as u32,
            bit(w, 0) == bit(x, 31),
            bit(w, 1) == bit(x, 30),
            bit(w, 2) == bit(x, 29),
            bit(w, 3) == bit(x, 28),
            bit(w, 4) == bit(x, 27),
            bit(w, 5) == bit(x, 26),
            bit(w, 6) == bit(x, 25),
            bit(w, 7) == bit(x, 24),
    ;
}

/// The status byte of the AXI core: the low byte of the status word.
pub open spec fn axi_status(stat: u32) -> u8 {
    (stat % 256) as u8
}

/// The accesses of an AXI receive attempt that reads status `s`: the receive
/// FIFO is read, giving `d`, only when it holds data.
pub open spec fn axi_receive_ops(s: u32, d: u32) -> Seq<Access<u32>> {
    if axi_status(s) & STATUS_RX_FIFO_VALID != 0 {
        seq![Access::Read(STAT, s), Access::Read(RX, d)]
    } else {
        seq![Access::Read(STAT, s)]
    }
}

/// The states that a receive attempt takes a register block through, from
/// `b0` to `b2`: a read of the status `s`, then, when `valid`, a read of the
/// receive FIFO giving `d`.
pub open spec fn receive_moves<B: RegisterBus<u32>>(b0: B, valid: bool, s: u32, d: u32, b2: B) -> bool {
    exists|b1: B|
        #[trigger] b0.read_spec(STAT, s, b1) && if valid {
            b1.read_spec(RX, d, b2)
        } else {
            b1 == b2
        }
}

/// The accesses of AXI receive attempts that read statuses `st` and data `dt`.
pub open spec fn axi_receive_run(st: Seq<u32>, dt: Seq<u32>) -> Seq<Access<u32>> {
    repeated(|s: u32, d: u32| axi_receive_ops(s, d), st, dt)
}

/// The accesses of an AXI transmit attempt of `b` that reads status `s`: the
/// byte is written only when the transmit FIFO is not full.
pub open spec fn axi_transmit_ops(s: u32, b: u8) -> Seq<Access<u32>> {
    if axi_status(s) & STATUS_TX_FIFO_FULL != 0 {
        seq![Access::Read(STAT, s)]
    } else {
        seq![Access::Read(STAT, s), Access::Write(TX, b as u32)]
    }
}

/// The accesses of AXI transmit attempts that read statuses `st` for bytes `bs`.
pub open spec fn axi_transmit_run(st: Seq<u32>, bs: Seq<u8>) -> Seq<Access<u32>> {
    repeated(|s: u32, b: u8| axi_transmit_ops(s, b), st, bs)
}

/// The accesses of an XPS receive attempt that reads status `s`: the receive
/// FIFO is read, giving `d`, only when it holds data.
pub open spec fn xps_receive_ops(s: u32, d: u32) -> Seq<Access<u32>> {
    if s & 0x8000_0000u32 != 0 {
        seq![Access::Read(STAT, s), Access::Read(RX, d)]
    } else {
        seq![Access::Read(STAT, s)]
    }
}

/// # MMIO version of the XPS UART Lite.
pub struct MmioUartXpsLite<B> {
    reg: LoggedBus<B, u32>,
}

impl<B: RegisterBus<u32>> MmioUartXpsLite<B> {
    /// The register accesses made so far, oldest first.
    pub closed spec fn accesses(&self) -> Seq<Access<u32>> {
        self.reg.accesses()
    }

    /// The register block.
    pub closed spec fn bus(&self) -> B {
        self.reg.bus()
    }

    /// Creates a driver for the register block `reg`.
    pub fn new(reg: B) -> (r: Self)
        ensures
            r.bus() == reg,
            r.accesses() == Seq::<Access<u32>>::empty(),
    {
        MmioUartXpsLite { reg: LoggedBus::new(reg) }
    }

    /// Points the driver at another register block.
    pub fn set_base_address(&mut self, reg: B)
        ensures
            final(self).bus() == reg,
            final(self).accesses() == old(self).accesses(),
    {
        self.reg.replace(reg);
    }

    /// The register block.
    pub fn registers(&self) -> (r: &B)
        ensures
            *r == self.bus(),
    {
        self.reg.get_ref()
    }

    /// The register block, for access that the driver does not log.
    pub fn registers_mut(&mut self) -> (r: &mut B)
        ensures
            *r == old(self).bus(),
            final(self).bus() == *final(r),
            final(self).accesses() == old(self).accesses(),
    {
        self.reg.get_mut()
    }

    /// Reads the receive FIFO.
    pub fn read_rx(&mut self) -> (r: u32)
        ensures
            read_one(old(self).accesses(), final(self).accesses(), old(self).bus(), final(self).bus(), RX, r),
    {
        self.reg.read(RX)
    }

    /// Writes the transmit FIFO.
    pub fn write_tx(&mut self, value: u32)
        ensures
            wrote_one(old(self).accesses(), final(self).accesses(), old(self).bus(), final(self).bus(), TX, value),
    {
        self.reg.write(TX, value)
    }

    /// Reads the status register.
    pub fn read_stat(&mut self) -> (r: u32)
        ensures
            read_one(old(self).accesses(), final(self).accesses(), old(self).bus(), final(self).bus(), STAT, r),
    {
        self.reg.read(STAT)
    }

    /// Writes the control register.
    pub fn write_ctrl(&mut self, value: u32)
        ensures
            wrote_one(old(self).accesses(), final(self).accesses(), old(self).bus(), final(self).bus(), CTRL, value),
    {
        self.reg.write(CTRL, value)
    }

    /// Gets the status byte: the status word's bits in reverse order, so that
    /// bit `i` of the byte is bit `31 - i` of the word.
    pub fn status(&mut self) -> (r: u8)
        ensures
            read_field(old(self).accesses(), final(self).accesses(), old(self).bus(), final(self).bus(), STAT, |s: u32| msb_first(r, s), true),
    {
        let s = self.reg.read(STAT);
        let w = reverse_bits(s);
        let r = (w % 256) as u8;
        proof {
            lemma_low_byte_bits(r, s, w);
        }
        assert((|x: u32| msb_first(r, x))(s));
        r
    }

    /// Reads a byte: `None` when the receive FIFO holds no data, in which
    /// case the FIFO is not read. The byte is the receive word's top eight
    /// bits in reverse order.
    pub fn read_byte(&mut self) -> (r: Option<u8>)
        ensures
            exists|s: u32, d: u32| #![trigger xps_receive_ops(s, d)]
                {
                    &&& final(self).accesses() == old(self).accesses() + xps_receive_ops(s, d)
                    &&& receive_moves(old(self).bus(), s & 0x8000_0000u32 != 0, s, d, final(self).bus())
                    &&& if s & 0x8000_0000u32 != 0 {
                        r matches Some(b) && msb_first(b, d)
                    } else {
                        r is None
                    }
                },
    {
        let s = self.reg.read(STAT);
        let ghost b1 = self.bus();
        let w = reverse_bits(s);
        let st = (w % 256) as u8;
        proof {
            lemma_low_byte_bits(st, s, w);
            lemma_status_bits(st, s);
        }
        if st & STATUS_RX_FIFO_VALID != 0 {
            let d = self.reg.read(RX);
            let dw = reverse_bits(d);
            let b = (dw % 256) as u8;
            proof {
                lemma_low_byte_bits(b, d, dw);
            }
            assert(final(self).accesses() == old(self).accesses() + xps_receive_ops(s, d));
            assert(old(self).bus().read_spec(STAT, s, b1));
            assert(receive_moves(old(self).bus(), true, s, d, final(self).bus()));
            Some(b)
        } else {
            assert(final(self).accesses() == old(self).accesses() + xps_receive_ops(s, 0));
            assert(old(self).bus().read_spec(STAT, s, b1));
            assert(receive_moves(old(self).bus(), false, s, 0, final(self).bus()));
            None
        }
    }

    /// Writes a byte to the transmit FIFO, its bits in reverse order across
    /// the word, without looking at the status.
    pub fn write_byte(&mut self, value: u8)
        ensures
            exists|w: u32| #![trigger old(self).accesses().push(Access::Write(TX, w))]
                wrote_one(old(self).accesses(), final(self).accesses(), old(self).bus(), final(self).bus(), TX, w)
                    && bits_reversed(value as u32, w),
    {
        let w = reverse_bits(value as u32);
        self.reg.write(TX, w);
        assert(final(self).accesses() == old(self).accesses().push(Access::Write(TX, w)));
    }

    /// Writes the control byte `c` in reversed bit order.
    fn write_control(&mut self, c: u8)
        ensures
            exists|w: u32| #![trigger old(self).accesses().push(Access::Write(CTRL, w))]
                wrote_one(old(self).accesses(), final(self).accesses(), old(self).bus(), final(self).bus(), CTRL, w)
                    && bits_reversed(c as u32, w),
    {
        let w = reverse_bits(c as u32);
        self.reg.write(CTRL, w);
        assert(final(self).accesses() == old(self).accesses().push(Access::Write(CTRL, w)));
    }

    /// Enables interrupts.
    pub fn enable_interrupt(&mut self)
        ensures
            exists|w: u32| #![trigger old(self).accesses().push(Access::Write(CTRL, w))]
                wrote_one(old(self).accesses(), final(self).accesses(), old(self).bus(), final(self).bus(), CTRL, w)
                    && bits_reversed(CONTROL_ENABLE_INTERRUPT as u32, w),
    {
        self.write_control(CONTROL_ENABLE_INTERRUPT);
    }

    /// Disables interrupts: a control word with no bit set.
    pub fn disable_interrupt(&mut self)
        ensures
            exists|w: u32| #![trigger old(self).accesses().push(Access::Write(CTRL, w))]
                wrote_one(old(self).accesses(), final(self).accesses(), old(self).bus(), final(self).bus(), CTRL, w)
                    && bits_reversed(0u32, w),
    {
        self.write_control(0);
    }

    /// Resets the receive FIFO, enabling interrupts as well when asked to.
    pub fn clear_rx_fifo(&mut self, enable_interrupt: bool)
        ensures
            exists|w: u32| #![trigger old(self).accesses().push(Access::Write(CTRL, w))]
                wrote_one(old(self).accesses(), final(self).accesses(), old(self).bus(), final(self).bus(), CTRL, w)
                    && bits_reversed(reset_control(CONTROL_RESET_RX_FIFO, enable_interrupt) as u32, w),
    {
        let c = control_byte(CONTROL_RESET_RX_FIFO, enable_interrupt);
        self.write_control(c);
    }

    /// Resets the transmit FIFO, enabling interrupts as well when asked to.
    pub fn clear_tx_fifo(&mut self, enable_interrupt: bool)
        ensures
            exists|w: u32| #![trigger old(self).accesses().push(Access::Write(CTRL, w))]
                wrote_one(old(self).accesses(), final(self).accesses(), old(self).bus(), final(self).bus(), CTRL, w)
                    && bits_reversed(reset_control(CONTROL_RESET_TX_FIFO, enable_interrupt) as u32, w),
    {
        let c = control_byte(CONTROL_RESET_TX_FIFO, enable_interrupt);
        self.write_control(c);
    }

    /// Resets both FIFOs, enabling interrupts as well when asked to.
    pub fn clear_fifo(&mut self, enable_interrupt: bool)
        ensures
            exists|w: u32| #![trigger old(self).accesses().push(Access::Write(CTRL, w))]
                wrote_one(old(self).accesses(), final(self).accesses(), old(self).bus(), final(self).bus(), CTRL, w)
                    && bits_reversed(reset_control(CONTROL_RESET_RX_FIFO | CONTROL_RESET_TX_FIFO, enable_interrupt) as u32, w),
    {
        let c = control_byte(CONTROL_RESET_RX_FIFO | CONTROL_RESET_TX_FIFO, enable_interrupt);
        self.write_control(c);
    }

    /// Whether the receive FIFO holds data: bit 31 of the status word.
    pub fn is_rx_fifo_valid(&mut self) -> (r: bool)
        ensures
            tested_word_bits(old(self).accesses(), final(self).accesses(), old(self).bus(), final(self).bus(), STAT, 0x80000000u32, r),
    {
        let st = self.status();
        proof {
            let s = choose|s: u32| read_one(old(self).accesses(), final(self).accesses(), old(self).bus(), final(self).bus(), STAT, s)
                && msb_first(st, s);
            lemma_status_bits(st, s);
            assert(old(self).accesses().push(Access::Read(STAT, s)) == final(self).accesses());
        }
        st & STATUS_RX_FIFO_VALID != 0
    }

    /// Whether the receive FIFO is full: bit 30 of the status word.
    pub fn is_rx_fifo_full(&mut self) -> (r: bool)
        ensures
            tested_word_bits(old(self).accesses(), final(self).accesses(), old(self).bus(), final(self).bus(), STAT, 0x40000000u32, r),
    {
        let st = self.status();
        proof {
            let s = choose|s: u32| read_one(old(self).accesses(), final(self).accesses(), old(self).bus(), final(self).bus(), STAT, s)
                && msb_first(st, s);
            lemma_status_bits(st, s);
            assert(old(self).accesses().push(Access::Read(STAT, s)) == final(self).accesses());
        }
        st & STATUS_RX_FIFO_FULL != 0
    }

    /// Whether the transmit FIFO is empty: bit 29 of the status word.
    pub fn is_tx_fifo_empty(&mut self) -> (r: bool)
        ensures
            tested_word_bits(old(self).accesses(), final(self).accesses(), old(self).bus(), final(self).bus(), STAT, 0x20000000u32, r),
    {
        let st = self.status();
        proof {
            let s = choose|s: u32| read_one(old(self).accesses(), final(self).accesses(), old(self).bus(), final(self).bus(), STAT, s)
                && msb_first(st, s);
            lemma_status_bits(st, s);
            assert(old(self).accesses().push(Access::Read(STAT, s)) == final(self).accesses());
        }
        st & STATUS_TX_FIFO_EMPTY != 0
    }

    /// Whether the transmit FIFO is full: bit 28 of the status word.
    pub fn is_tx_fifo_full(&mut self) -> (r: bool)
        ensures
            tested_word_bits(old(self).accesses(), final(self).accesses(), old(self).bus(), final(self).bus(), STAT, 0x10000000u32, r),
    {
        let st = self.status();
        proof {
            let s = choose|s: u32| read_one(old(self).accesses(), final(self).accesses(), old(self).bus(), final(self).bus(), STAT, s)
                && msb_first(st, s);
            lemma_status_bits(st, s);
            assert(old(self).accesses().push(Access::Read(STAT, s)) == final(self).accesses());
        }
        st & STATUS_TX_FIFO_FULL != 0
    }

    /// Whether interrupts are enabled: bit 27 of the status word.
    pub fn is_interrupt_enabled(&mut self) -> (r: bool)
        ensures
            tested_word_bits(old(self).accesses(), final(self).accesses(), old(self).bus(), final(self).bus(), STAT, 0x8000000u32, r),
    {
        let st = self.status();
        proof {
            let s = choose|s: u32| read_one(old(self).accesses(), final(self).accesses(), old(self).bus(), final(self).bus(), STAT, s)
                && msb_first(st, s);
            lemma_status_bits(st, s);
            assert(old(self).accesses().push(Access::Read(STAT, s)) == final(self).accesses());
        }
        st & STATUS_INTERRUPT_ENABLED != 0
    }

    /// Whether received data was lost to an overrun: bit 26 of the status word.
    pub fn is_overrun_error(&mut self) -> (r: bool)
        ensures
            tested_word_bits(old(self).accesses(), final(self).accesses(), old(self).bus(), final(self).bus(), STAT, 0x4000000u32, r),
    {
        let st = self.status();
        proof {
            let s = choose|s: u32| read_one(old(self).accesses(), final(self).accesses(), old(self).bus(), final(self).bus(), STAT, s)
                && msb_first(st, s);
            lemma_status_bits(st, s);
            assert(old(self).accesses().push(Access::Read(STAT, s)) == final(self).accesses());
        }
        st & STATUS_OVERRUN_ERROR != 0
    }

    /// Whether a framing error was seen: bit 25 of the status word.
    pub fn is_frame_error(&mut self) -> (r: bool)
        ensures
            tested_word_bits(old(self).accesses(), final(self).accesses(), old(self).bus(), final(self).bus(), STAT, 0x2000000u32, r),
    {
        let st = self.status();
        proof {
            let s = choose|s: u32| read_one(old(self).accesses(), final(self).accesses(), old(self).bus(), final(self).bus(), STAT, s)
                && msb_first(st, s);
            lemma_status_bits(st, s);
            assert(old(self).accesses().push(Access::Read(STAT, s)) == final(self).accesses());
        }
        st & STATUS_FRAME_ERROR != 0
    }

    /// Whether a parity error was seen: bit 24 of the status word.
    pub fn is_parity_error(&mut self) -> (r: bool)
        ensures
            tested_word_bits(old(self).accesses(), final(self).accesses(), old(self).bus(), final(self).bus(), STAT, 0x1000000u32, r),
    {
        let st = self.status();
        proof {
            let s = choose|s: u32| read_one(old(self).accesses(), final(self).accesses(), old(self).bus(), final(self).bus(), STAT, s)
                && msb_first(st, s);
            lemma_status_bits(st, s);
            assert(old(self).accesses().push(Access::Read(STAT, s)) == final(self).accesses());
        }
        st & STATUS_PARITY_ERROR != 0
    }
}

/// # MMIO version of the AXI UART Lite.
pub struct MmioUartAxiLite<B> {
    reg: LoggedBus<B, u32>,
}

impl<B: RegisterBus<u32>> MmioUartAxiLite<B> {
    /// The register accesses made so far, oldest first.
    pub closed spec fn accesses(&self) -> Seq<Access<u32>> {
        self.reg.accesses()
    }

    /// The register block.
    pub closed spec fn bus(&self) -> B {
        self.reg.bus()
    }

    /// Creates a driver for the register block `reg`.
    pub fn new(reg: B) -> (r: Self)
        ensures
            r.bus() == reg,
            r.accesses() == Seq::<Access<u32>>::empty(),
    {
        MmioUartAxiLite { reg: LoggedBus::new(reg) }
    }

    /// Points the driver at another register block.
    pub fn set_base_address(&mut self, reg: B)
        ensures
            final(self).bus() == reg,
            final(self).accesses() == old(self).accesses(),
    {
        self.reg.replace(reg);
    }

    /// The register block.
    pub fn registers(&self) -> (r: &B)
        ensures
            *r == self.bus(),
    {
        self.reg.get_ref()
    }

    /// The register block, for access that the driver does not log.
    pub fn registers_mut(&mut self) -> (r: &mut B)
        ensures
            *r == old(self).bus(),
            final(self).bus() == *final(r),
            final(self).accesses() == old(self).accesses(),
    {
        self.reg.get_mut()
    }

    /// Reads the receive FIFO.
    pub fn read_rx(&mut self) -> (r: u32)
        ensures
            read_one(old(self).accesses(), final(self).accesses(), old(self).bus(), final(self).bus(), RX, r),
    {
        self.reg.read(RX)
    }

    /// Writes the transmit FIFO.
    pub fn write_tx(&mut self, value: u32)
        ensures
            wrote_one(old(self).accesses(), final(self).accesses(), old(self).bus(), final(self).bus(), TX, value),
    {
        self.reg.write(TX, value)
    }

    /// Reads the status register.
    pub fn read_stat(&mut self) -> (r: u32)
        ensures
            read_one(old(self).accesses(), final(self).accesses(), old(self).bus(), final(self).bus(), STAT, r),
    {
        self.reg.read(STAT)
    }

    /// Writes the control register.
    pub fn write_ctrl(&mut self, value: u32)
        ensures
            wrote_one(old(self).accesses(), final(self).accesses(), old(self).bus(), final(self).bus(), CTRL, value),
    {
        self.reg.write(CTRL, value)
    }

    /// Gets the status byte: the low byte of the status word.
    pub fn status(&mut self) -> (r: u8)
        ensures
            read_field(old(self).accesses(), final(self).accesses(), old(self).bus(), final(self).bus(), STAT, |s: u32| axi_status(s), r),
    {
        let s = self.reg.read(STAT);
        let r = (s % 256) as u8;
        assert(r == (|x: u32| axi_status(x))(s));
        r
    }

    /// Reads a byte: `None` when the receive FIFO holds no data, in which
    /// case the FIFO is not read.
    pub fn read_byte(&mut self) -> (r: Option<u8>)
        ensures
            exists|s: u32, d: u32| #![trigger axi_receive_ops(s, d)]
                {
                    &&& final(self).accesses() == old(self).accesses() + axi_receive_ops(s, d)
                    &&& receive_moves(
                        old(self).bus(),
                        axi_status(s) & STATUS_RX_FIFO_VALID != 0,
                        s,
                        d,
                        final(self).bus(),
                    )
                    &&& r == if axi_status(s) & STATUS_RX_FIFO_VALID != 0 {
                        Some((d % 256) as u8)
                    } else {
                        None
                    }
                },
    {
        let s = self.reg.read(STAT);
        let ghost b1 = self.bus();
        if (s % 256) as u8 & STATUS_RX_FIFO_VALID != 0 {
            let d = self.reg.read(RX);
            assert(final(self).accesses() == old(self).accesses() + axi_receive_ops(s, d));
            assert(old(self).bus().read_spec(STAT, s, b1));
            assert(receive_moves(old(self).bus(), true, s, d, final(self).bus()));
            Some((d % 256) as u8)
        } else {
            assert(final(self).accesses() == old(self).accesses() + axi_receive_ops(s, 0));
            assert(old(self).bus().read_spec(STAT, s, b1));
            assert(receive_moves(old(self).bus(), false, s, 0, final(self).bus()));
            None
        }
    }

    /// Writes a byte to the transmit FIFO without looking at the status.
    pub fn write_byte(&mut self, value: u8)
        ensures
            wrote_one(old(self).accesses(), final(self).accesses(), old(self).bus(), final(self).bus(), TX, value as u32),
    {
        self.reg.write(TX, value as u32);
    }

    /// Reads bytes into `buf` while the receive FIFO holds data; returns how
    /// many were read. Each attempt reads the status, and the FIFO only when
    /// it holds data; the first attempt that finds it empty ends the run.
    pub fn read(&mut self, buf: &mut [u8]) -> (r: usize)
        ensures
            r <= old(buf)@.len(),
            final(buf)@.len() == old(buf)@.len(),
            final(buf)@.subrange(r as int, old(buf)@.len() as int) == old(buf)@.subrange(
                r as int,
                old(buf)@.len() as int,
            ),
            exists|st: Seq<u32>, dt: Seq<u32>| #![trigger axi_receive_run(st, dt)]
                {
                    &&& st.len() == dt.len()
                    &&& st.len() == if r < old(buf)@.len() { r + 1 } else { r as int }
                    &&& final(self).accesses() == old(self).accesses() + axi_receive_run(st, dt)
                    &&& forall|i: int| 0 <= i < r ==> axi_status(#[trigger] st[i]) & STATUS_RX_FIFO_VALID != 0
                        && final(buf)@[i] == (dt[i] % 256) as u8
                    &&& r < old(buf)@.len() ==> axi_status(st[r as int]) & STATUS_RX_FIFO_VALID == 0
                },
    {
        let len = buf.len();
        let mut count: usize = 0;
        let mut done = false;
        let ghost mut st: Seq<u32> = Seq::empty();
        let ghost mut dt: Seq<u32> = Seq::empty();
        assert(axi_receive_run(st, dt) =~= Seq::<Access<u32>>::empty());
        while !done && count < len
            invariant
                len == old(buf)@.len(),
                buf@.len() == len,
                count <= len,
                st.len() == dt.len(),
                st.len() == if done { count + 1 } else { count as int },
                done ==> count < len && axi_status(st[count as int]) & STATUS_RX_FIFO_VALID == 0,
                self.accesses() == old(self).accesses() + axi_receive_run(st, dt),
                forall|i: int| 0 <= i < count ==> axi_status(#[trigger] st[i]) & STATUS_RX_FIFO_VALID != 0,
                forall|i: int| 0 <= i < count ==> buf@[i] == (#[trigger] dt[i] % 256) as u8,
                forall|i: int| count <= i < len ==> buf@[i] == old(buf)@[i],
            decreases len - count + if done { 0int } else { 1int },
        {
            let ghost before = self.accesses();
            let s = self.reg.read(STAT);
            if (s % 256) as u8 & STATUS_RX_FIFO_VALID != 0 {
                let d = self.reg.read(RX);
                buf[count] = (d % 256) as u8;
                proof {
                    lemma_repeated_push(|s: u32, d: u32| axi_receive_ops(s, d), st, dt, s, d);
                    assert(self.accesses() == before + axi_receive_ops(s, d));
                    let st0 = st;
                    let dt0 = dt;
                    st = st.push(s);
                    dt = dt.push(d);
                    assert forall|i: int| 0 <= i <= count implies axi_status(#[trigger] st[i])
                        & STATUS_RX_FIFO_VALID != 0 by {
                        if i < count {
                            assert(st[i] == st0[i]);
                        }
                    }
                    assert forall|i: int| 0 <= i <= count implies buf@[i] == (#[trigger] dt[i] % 256) as u8 by {
                        if i < count {
                            assert(dt[i] == dt0[i]);
                        }
                    }
                }
                count = count + 1;
            } else {
                proof {
                    lemma_repeated_push(|s: u32, d: u32| axi_receive_ops(s, d), st, dt, s, 0);
                    assert(self.accesses() == before + axi_receive_ops(s, 0));
                    let st0 = st;
                    let dt0 = dt;
                    st = st.push(s);
                    dt = dt.push(0);
                    assert forall|i: int| 0 <= i < count implies axi_status(#[trigger] st[i])
                        & STATUS_RX_FIFO_VALID != 0 by {
                        assert(st[i] == st0[i]);
                    }
                    assert forall|i: int| 0 <= i < count implies buf@[i] == (#[trigger] dt[i] % 256) as u8 by {
                        assert(dt[i] == dt0[i]);
                    }
                }
                done = true;
            }
        }
        assert(buf@.subrange(count as int, len as int) =~= old(buf)@.subrange(count as int, len as int));
        count
    }

    /// Writes bytes from `buf` while the transmit FIFO is not full; returns
    /// how many were written. Each attempt reads the status, and writes the
    /// byte only when the FIFO is not full; the first attempt that finds it
    /// full ends the run.
    pub fn write(&mut self, buf: &[u8]) -> (r: usize)
        ensures
            r <= buf@.len(),
            exists|st: Seq<u32>| #![trigger axi_transmit_run(st, buf@.take(st.len() as int))]
                {
                    &&& st.len() == if r < buf@.len() { r + 1 } else { r as int }
                    &&& final(self).accesses() == old(self).accesses() + axi_transmit_run(st, buf@.take(st.len() as int))
                    &&& forall|i: int| 0 <= i < r ==> axi_status(#[trigger] st[i]) & STATUS_TX_FIFO_FULL == 0
                    &&& r < buf@.len() ==> axi_status(st[r as int]) & STATUS_TX_FIFO_FULL != 0
                },
    {
        let len = buf.len();
        let mut count: usize = 0;
        let mut done = false;
        let ghost mut st: Seq<u32> = Seq::empty();
        assert(axi_transmit_run(st, buf@.take(0)) =~= Seq::<Access<u32>>::empty());
        while !done && count < len
            invariant
                len == buf@.len(),
                count <= len,
                st.len() == if done { count + 1 } else { count as int },
                done ==> count < len && axi_status(st[count as int]) & STATUS_TX_FIFO_FULL != 0,
                self.accesses() == old(self).accesses() + axi_transmit_run(st, buf@.take(st.len() as int)),
                forall|i: int| 0 <= i < count ==> axi_status(#[trigger] st[i]) & STATUS_TX_FIFO_FULL == 0,
            decreases len - count + if done { 0int } else { 1int },
        {
            let ghost before = self.accesses();
            let s = self.reg.read(STAT);
            let b = buf[count];
            proof {
                lemma_repeated_push(|s: u32, b: u8| axi_transmit_ops(s, b), st, buf@.take(st.len() as int), s, b);
                assert(buf@.take(st.len() as int).push(b) =~= buf@.take(st.len() + 1 as int));
            }
            if (s % 256) as u8 & STATUS_TX_FIFO_FULL != 0 {
                proof {
                    assert(self.accesses() == before + axi_transmit_ops(s, b));
                    let st0 = st;
                    st = st.push(s);
                    assert forall|i: int| 0 <= i < count implies axi_status(#[trigger] st[i])
                        & STATUS_TX_FIFO_FULL == 0 by {
                        assert(st[i] == st0[i]);
                    }
                }
                done = true;
            } else {
                self.reg.write(TX, b as u32);
                proof {
                    assert(self.accesses() == before + axi_transmit_ops(s, b));
                    let st0 = st;
                    st = st.push(s);
                    assert forall|i: int| 0 <= i <= count implies axi_status(#[trigger] st[i])
                        & STATUS_TX_FIFO_FULL == 0 by {
                        if i < count {
                            assert(st[i] == st0[i]);
                        }
                    }
                }
                count = count + 1;
            }
        }
        count
    }

    /// Enables interrupts.
    pub fn enable_interrupt(&mut self)
        ensures
            wrote_one(old(self).accesses(), final(self).accesses(), old(self).bus(), final(self).bus(), CTRL, CONTROL_ENABLE_INTERRUPT as u32),
    {
        self.reg.write(CTRL, CONTROL_ENABLE_INTERRUPT as u32);
    }

    /// Disables interrupts: a control word with no bit set.
    pub fn disable_interrupt(&mut self)
        ensures
            wrote_one(old(self).accesses(), final(self).accesses(), old(self).bus(), final(self).bus(), CTRL, 0u32),
    {
        self.reg.write(CTRL, 0);
    }

    /// Resets the receive FIFO, enabling interrupts as well when asked to.
    pub fn clear_rx_fifo(&mut self, enable_interrupt: bool)
        ensures
            wrote_one(old(self).accesses(), final(self).accesses(), old(self).bus(), final(self).bus(), CTRL, reset_control(CONTROL_RESET_RX_FIFO, enable_interrupt) as u32),
    {
        let c = control_byte(CONTROL_RESET_RX_FIFO, enable_interrupt);
        self.reg.write(CTRL, c as u32);
    }

    /// Resets the transmit FIFO, enabling interrupts as well when asked to.
    pub fn clear_tx_fifo(&mut self, enable_interrupt: bool)
        ensures
            wrote_one(old(self).accesses(), final(self).accesses(), old(self).bus(), final(self).bus(), CTRL, reset_control(CONTROL_RESET_TX_FIFO, enable_interrupt) as u32),
    {
        let c = control_byte(CONTROL_RESET_TX_FIFO, enable_interrupt);
        self.reg.write(CTRL, c as u32);
    }

    /// Resets both FIFOs, enabling interrupts as well when asked to.
    pub fn clear_fifo(&mut self, enable_interrupt: bool)
        ensures
            wrote_one(old(self).accesses(), final(self).accesses(), old(self).bus(), final(self).bus(), CTRL, reset_control(CONTROL_RESET_RX_FIFO | CONTROL_RESET_TX_FIFO, enable_interrupt) as u32),
    {
        let c = control_byte(CONTROL_RESET_RX_FIFO | CONTROL_RESET_TX_FIFO, enable_interrupt);
        self.reg.write(CTRL, c as u32);
    }

    /// Whether the receive FIFO holds data: bit 0 of the status word.
    pub fn is_rx_fifo_valid(&mut self) -> (r: bool)
        ensures
            tested_word_bits(old(self).accesses(), final(self).accesses(), old(self).bus(), final(self).bus(), STAT, STATUS_RX_FIFO_VALID as u32, r),
    {
        let s = self.reg.read(STAT);
        assert(((s % 256) as u8 & STATUS_RX_FIFO_VALID != 0) == (s & (STATUS_RX_FIFO_VALID as u32) != 0)) by (bit_vector);
        (s % 256) as u8 & STATUS_RX_FIFO_VALID != 0
    }

    /// Whether the receive FIFO is full: bit 1 of the status word.
    pub fn is_rx_fifo_full(&mut self) -> (r: bool)
        ensures
            tested_word_bits(old(self).accesses(), final(self).accesses(), old(self).bus(), final(self).bus(), STAT, STATUS_RX_FIFO_FULL as u32, r),
    {
        let s = self.reg.read(STAT);
        assert(((s % 256) as u8 & STATUS_RX_FIFO_FULL != 0) == (s & (STATUS_RX_FIFO_FULL as u32) != 0)) by (bit_vector);
        (s % 256) as u8 & STATUS_RX_FIFO_FULL != 0
    }

    /// Whether the transmit FIFO is empty: bit 2 of the status word.
    pub fn is_tx_fifo_empty(&mut self) -> (r: bool)
        ensures
            tested_word_bits(old(self).accesses(), final(self).accesses(), old(self).bus(), final(self).bus(), STAT, STATUS_TX_FIFO_EMPTY as u32, r),
    {
        let s = self.reg.read(STAT);
        assert(((s % 256) as u8 & STATUS_TX_FIFO_EMPTY != 0) == (s & (STATUS_TX_FIFO_EMPTY as u32) != 0)) by (bit_vector);
        (s % 256) as u8 & STATUS_TX_FIFO_EMPTY != 0
    }

    /// Whether the transmit FIFO is full: bit 3 of the status word.
    pub fn is_tx_fifo_full(&mut self) -> (r: bool)
        ensures
            tested_word_bits(old(self).accesses(), final(self).accesses(), old(self).bus(), final(self).bus(), STAT, STATUS_TX_FIFO_FULL as u32, r),
    {
        let s = self.reg.read(STAT);
        assert(((s % 256) as u8 & STATUS_TX_FIFO_FULL != 0) == (s & (STATUS_TX_FIFO_FULL as u32) != 0)) by (bit_vector);
        (s % 256) as u8 & STATUS_TX_FIFO_FULL != 0
    }

    /// Whether interrupts are enabled: bit 4 of the status word.
    pub fn is_interrupt_enabled(&mut self) -> (r: bool)
        ensures
            tested_word_bits(old(self).accesses(), final(self).accesses(), old(self).bus(), final(self).bus(), STAT, STATUS_INTERRUPT_ENABLED as u32, r),
    {
        let s = self.reg.read(STAT);
        assert(((s % 256) as u8 & STATUS_INTERRUPT_ENABLED != 0) == (s & (STATUS_INTERRUPT_ENABLED as u32) != 0)) by (bit_vector);
        (s % 256) as u8 & STATUS_INTERRUPT_ENABLED != 0
    }

    /// Whether received data was lost to an overrun: bit 5 of the status word.
    pub fn is_overrun_error(&mut self) -> (r: bool)
        ensures
            tested_word_bits(old(self).accesses(), final(self).accesses(), old(self).bus(), final(self).bus(), STAT, STATUS_OVERRUN_ERROR as u32, r),
    {
        let s = self.reg.read(STAT);
        assert(((s % 256) as u8 & STATUS_OVERRUN_ERROR != 0) == (s & (STATUS_OVERRUN_ERROR as u32) != 0)) by (bit_vector);
        (s % 256) as u8 & STATUS_OVERRUN_ERROR != 0
    }

    /// Whether a framing error was seen: bit 6 of the status word.
    pub fn is_frame_error(&mut self) -> (r: bool)
        ensures
            tested_word_bits(old(self).accesses(), final(self).accesses(), old(self).bus(), final(self).bus(), STAT, STATUS_FRAME_ERROR as u32, r),
    {
        let s = self.reg.read(STAT);
        assert(((s % 256) as u8 & STATUS_FRAME_ERROR != 0) == (s & (STATUS_FRAME_ERROR as u32) != 0)) by (bit_vector);
        (s % 256) as u8 & STATUS_FRAME_ERROR != 0
    }

    /// Whether a parity error was seen: bit 7 of the status word.
    pub fn is_parity_error(&mut self) -> (r: bool)
        ensures
            tested_word_bits(old(self).accesses(), final(self).accesses(), old(self).bus(), final(self).bus(), STAT, STATUS_PARITY_ERROR as u32, r),
    {
        let s = self.reg.read(STAT);
        assert(((s % 256) as u8 & STATUS_PARITY_ERROR != 0) == (s & (STATUS_PARITY_ERROR as u32) != 0)) by (bit_vector);
        (s % 256) as u8 & STATUS_PARITY_ERROR != 0
    }
}

} // verus!
