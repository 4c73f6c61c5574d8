//! The SiFive UART (`sifive,uart0`): seven 32-bit registers, with the FIFO
//! state in bit 31 of the data registers.

use vstd::prelude::*;
use crate::bus::{
    lemma_repeated_push, read_field, read_one, repeated, rmw, tested_word_bits, updated, wrote_one,
    Access, LoggedBus, RegisterBus,
};

verus! {

/// Slot of the transmit data register.
pub const TXDATA: usize = 0;
/// Slot of the receive data register.
pub const RXDATA: usize = 1;
/// Slot of the transmit control register.
pub const TXCTRL: usize = 2;
/// Slot of the receive control register.
pub const RXCTRL: usize = 3;
/// Slot of the interrupt enable register.
pub const IE: usize = 4;
/// Slot of the interrupt pending register.
pub const IP: usize = 5;
/// Slot of the baud rate divisor register.
pub const DIV: usize = 6;

/// Transmit data: the transmit FIFO is full.
pub const TXDATA_FULL: u32 = 0x8000_0000;
/// Receive data: the receive FIFO is empty; the word carries no data.
pub const RXDATA_EMPTY: u32 = 0x8000_0000;
/// Transmit or receive control: the direction is enabled.
pub const CTRL_ENABLE: u32 = 0b01;
/// Transmit or receive control: the number of stop bits.
pub const CTRL_NSTOP: u32 = 0b10;
/// Interrupt enable / pending: receive watermark.
pub const INTERRUPT_RXWM: u32 = 0b10;
/// Interrupt enable / pending: transmit watermark.
pub const INTERRUPT_TXWM: u32 = 0b01;
/// The interrupt bits that the registers define.
pub const INTERRUPT_ALL: u32 = 0b11;

/// The result of a receive attempt that read the receive data word `v`: its
/// low byte, unless the word says that the FIFO is empty.
pub open spec fn received(v: u32) -> Option<u8> {
    if v & RXDATA_EMPTY == 0 {
        Some((v % 256) as u8)
    } else {
        None
    }
}

/// The accesses of a receive attempt: a single read of the receive data word.
pub open spec fn receive_ops(v: u32, unused: u32) -> Seq<Access<u32>> {
    seq![Access::Read(RXDATA, v)]
}

/// The accesses of receive attempts that read the words `vs`.
pub open spec fn receive_run(vs: Seq<u32>) -> Seq<Access<u32>> {
    repeated(|v: u32, u: u32| receive_ops(v, u), vs, vs)
}

/// The accesses of a transmit attempt of `b` that reads the transmit data
/// word `s`: the byte is written only when the FIFO is not full.
pub open spec fn transmit_ops(s: u32, b: u8) -> Seq<Access<u32>> {
    if s & TXDATA_FULL != 0 {
        seq![Access::Read(TXDATA, s)]
    } else {
        seq![Access::Read(TXDATA, s), Access::Write(TXDATA, b as u32)]
    }
}

/// The accesses of transmit attempts that read the words `st` for bytes `bs`.
pub open spec fn transmit_run(st: Seq<u32>, bs: Seq<u8>) -> Seq<Access<u32>> {
    repeated(|s: u32, b: u8| transmit_ops(s, b), st, bs)
}

/// # MMIO version of the SiFive UART.
pub struct MmioUartSifive<B> {
    reg: LoggedBus<B, u32>,
}

impl<B: RegisterBus<u32>> MmioUartSifive<B> {
    /// The register accesses made so far, oldest first.
    pub closed spec fn accesses(&self) -> Seq<Access<u32>> {
        self.reg.accesses()
    }

    /// The register block.
    pub closed spec fn bus(&self) -> B {
        self.reg.bus()
    }

    /// Creates a driver for the register block `reg`.
    pub fn new(reg: B) -> (r: Self)
        ensures
            r.bus() == reg,
            r.accesses() == Seq::<Access<u32>>::empty(),
    {
        MmioUartSifive { reg: LoggedBus::new(reg) }
    }

    /// Points the driver at another register block.
    pub fn set_base_address(&mut self, reg: B)
        ensures
            final(self).bus() == reg,
            final(self).accesses() == old(self).accesses(),
    {
        self.reg.replace(reg);
    }

    /// The register block.
    pub fn registers(&self) -> (r: &B)
        ensures
            *r == self.bus(),
    {
        self.reg.get_ref()
    }

    /// The register block, for access that the driver does not log.
    pub fn registers_mut(&mut self) -> (r: &mut B)
        ensures
            *r == old(self).bus(),
            final(self).bus() == *final(r),
            final(self).accesses() == old(self).accesses(),
    {
        self.reg.get_mut()
    }

    /// Reads a byte: `None` when the receive data word says that the FIFO is
    /// empty. The word is read once; its low byte is the data.
    pub fn read_byte(&mut self) -> (r: Option<u8>)
        ensures
            read_field(old(self).accesses(), final(self).accesses(), old(self).bus(), final(self).bus(), RXDATA, |v: u32| received(v), r),
    {
        let v = self.reg.read(RXDATA);
        let r = if v & RXDATA_EMPTY == 0 {
            Some((v % 256) as u8)
        } else {
            None
        };
        assert(r == (|x: u32| received(x))(v));
        r
    }

    /// Writes a byte to the transmit FIFO without looking at its state.
    pub fn write_byte(&mut self, value: u8)
        ensures
            wrote_one(old(self).accesses(), final(self).accesses(), old(self).bus(), final(self).bus(), TXDATA, value as u32),
    {
        self.write_tx(value as u32)
    }

    /// Whether the transmit FIFO is full.
    pub fn is_tx_fifo_full(&mut self) -> (r: bool)
        ensures
            tested_word_bits(old(self).accesses(), final(self).accesses(), old(self).bus(), final(self).bus(), TXDATA, TXDATA_FULL, r),
    {
        self.reg.test_word_bits(TXDATA, TXDATA_FULL)
    }

    /// Gets the interrupt enable bits that the registers define.
    pub fn read_ie(&mut self) -> (r: u32)
        ensures
            read_field(old(self).accesses(), final(self).accesses(), old(self).bus(), final(self).bus(), IE, |v: u32| v & INTERRUPT_ALL, r),
    {
        let v = self.reg.read(IE);
        assert((v & INTERRUPT_ALL) == (|x: u32| x & INTERRUPT_ALL)(v));
        v & INTERRUPT_ALL
    }

    /// Gets the interrupt pending bits that the registers define.
    pub fn read_ip(&mut self) -> (r: u32)
        ensures
            read_field(old(self).accesses(), final(self).accesses(), old(self).bus(), final(self).bus(), IP, |v: u32| v & INTERRUPT_ALL, r),
    {
        let v = self.reg.read(IP);
        assert((v & INTERRUPT_ALL) == (|x: u32| x & INTERRUPT_ALL)(v));
        v & INTERRUPT_ALL
    }

    /// Whether the receive watermark interrupt is enabled.
    pub fn is_read_interrupt_enabled(&mut self) -> (r: bool)
        ensures
            tested_word_bits(old(self).accesses(), final(self).accesses(), old(self).bus(), final(self).bus(), IE, INTERRUPT_RXWM, r),
    {
        self.reg.test_word_bits(IE, INTERRUPT_RXWM)
    }

    /// Whether the transmit watermark interrupt is enabled.
    pub fn is_write_interrupt_enabled(&mut self) -> (r: bool)
        ensures
            tested_word_bits(old(self).accesses(), final(self).accesses(), old(self).bus(), final(self).bus(), IE, INTERRUPT_TXWM, r),
    {
        self.reg.test_word_bits(IE, INTERRUPT_TXWM)
    }

    /// Enables the transmitter.
    pub fn enable_write(&mut self)
        ensures
            updated(old(self).accesses(), final(self).accesses(), old(self).bus(), final(self).bus(), TXCTRL, |v: u32| v | CTRL_ENABLE),
    {
        self.reg.set_word_bits(TXCTRL, CTRL_ENABLE)
    }

    /// Enables the receiver.
    pub fn enable_read(&mut self)
        ensures
            updated(old(self).accesses(), final(self).accesses(), old(self).bus(), final(self).bus(), RXCTRL, |v: u32| v | CTRL_ENABLE),
    {
        self.reg.set_word_bits(RXCTRL, CTRL_ENABLE)
    }

    /// Disables the transmitter.
    pub fn disable_write(&mut self)
        ensures
            updated(old(self).accesses(), final(self).accesses(), old(self).bus(), final(self).bus(), TXCTRL, |v: u32| v & !CTRL_ENABLE),
    {
        self.reg.clear_word_bits(TXCTRL, CTRL_ENABLE)
    }

    /// Disables the receiver.
    pub fn disable_read(&mut self)
        ensures
            updated(old(self).accesses(), final(self).accesses(), old(self).bus(), final(self).bus(), RXCTRL, |v: u32| v & !CTRL_ENABLE),
    {
        self.reg.clear_word_bits(RXCTRL, CTRL_ENABLE)
    }

    /// Disables all interrupts.
    pub fn disable_interrupt(&mut self)
        ensures
            wrote_one(old(self).accesses(), final(self).accesses(), old(self).bus(), final(self).bus(), IE, 0u32),
    {
        self.write_ie(0)
    }

    /// Enables the receive watermark interrupt, keeping the other defined bits.
    pub fn enable_read_interrupt(&mut self)
        ensures
            updated(
                old(self).accesses(),
                final(self).accesses(),
                old(self).bus(),
                final(self).bus(),
                IE,
                |v: u32| (v & INTERRUPT_ALL) | INTERRUPT_RXWM,
            ),
    {
        let v = self.reg.write_word_field(IE, INTERRUPT_ALL, INTERRUPT_RXWM);
        assert(final(self).accesses() == old(self).accesses().push(Access::Read(IE, v)).push(
            Access::Write(IE, (|x: u32| (x & INTERRUPT_ALL) | INTERRUPT_RXWM)(v)),
        ));
    }

    /// Enables the transmit watermark interrupt, keeping the other defined bits.
    pub fn enable_write_interrupt(&mut self)
        ensures
            updated(
                old(self).accesses(),
                final(self).accesses(),
                old(self).bus(),
                final(self).bus(),
                IE,
                |v: u32| (v & INTERRUPT_ALL) | INTERRUPT_TXWM,
            ),
    {
        let v = self.reg.write_word_field(IE, INTERRUPT_ALL, INTERRUPT_TXWM);
        assert(final(self).accesses() == old(self).accesses().push(Access::Read(IE, v)).push(
            Access::Write(IE, (|x: u32| (x & INTERRUPT_ALL) | INTERRUPT_TXWM)(v)),
        ));
    }

    /// Reads bytes into `buf` while the receive FIFO holds data; returns how
    /// many were read. Each attempt reads the receive data word once; the
    /// first word that says the FIFO is empty ends the run.
    pub fn read(&mut self, buf: &mut [u8]) -> (r: usize)
        ensures
            r <= old(buf)@.len(),
            final(buf)@.len() == old(buf)@.len(),
            final(buf)@.subrange(r as int, old(buf)@.len() as int) == old(buf)@.subrange(
                r as int,
                old(buf)@.len() as int,
            ),
            exists|vs: Seq<u32>| #![trigger receive_run(vs)]
                {
                    &&& vs.len() == if r < old(buf)@.len() { r + 1 } else { r as int }
                    &&& final(self).accesses() == old(self).accesses() + receive_run(vs)
                    &&& forall|i: int| 0 <= i < r ==> received(#[trigger] vs[i]) == Some(final(buf)@[i])
                    &&& r < old(buf)@.len() ==> received(vs[r as int]) is None
                },
    {
        let len = buf.len();
        let mut count: usize = 0;
        let mut done = false;
        let ghost mut vs: Seq<u32> = Seq::empty();
        assert(receive_run(vs) =~= Seq::<Access<u32>>::empty());
        while !done && count < len
            invariant
                len == old(buf)@.len(),
                buf@.len() == len,
                count <= len,
                vs.len() == if done { count + 1 } else { count as int },
                done ==> count < len && received(vs[count as int]) is None,
                self.accesses() == old(self).accesses() + receive_run(vs),
                forall|i: int| 0 <= i < count ==> received(#[trigger] vs[i]) == Some(buf@[i]),
                forall|i: int| count <= i < len ==> buf@[i] == old(buf)@[i],
            decreases len - count + if done { 0int } else { 1int },
        {
            let ghost before = self.accesses();
            let v = self.reg.read(RXDATA);
            proof {
                lemma_repeated_push(|v: u32, u: u32| receive_ops(v, u), vs, vs, v, v);
                assert(self.accesses() == before + receive_ops(v, v));
            }
            if v & RXDATA_EMPTY == 0 {
                buf[count] = (v % 256) as u8;
                proof {
                    let vs0 = vs;
                    vs = vs.push(v);
                    assert forall|i: int| 0 <= i <= count implies received(#[trigger] vs[i]) == Some(buf@[i]) by {
                        if i < count {
                            assert(vs[i] == vs0[i]);
                        }
                    }
                }
                count = count + 1;
            } else {
                proof {
                    let vs0 = vs;
                    vs = vs.push(v);
                    assert forall|i: int| 0 <= i < count implies received(#[trigger] vs[i]) == Some(buf@[i]) by {
                        assert(vs[i] == vs0[i]);
                    }
                }
                done = true;
            }
        }
        assert(buf@.subrange(count as int, len as int) =~= old(buf)@.subrange(count as int, len as int));
        count
    }

    /// Writes bytes from `buf` while the transmit FIFO is not full; returns
    /// how many were written. Each attempt reads the transmit data word, and
    /// writes the byte only when the FIFO is not full; the first attempt that
    /// finds it full ends the run.
    pub fn write(&mut self, buf: &[u8]) -> (r: usize)
        ensures
            r <= buf@.len(),
            exists|st: Seq<u32>| #![trigger transmit_run(st, buf@.take(st.len() as int))]
                {
                    &&& st.len() == if r < buf@.len() { r + 1 } else { r as int }
                    &&& final(self).accesses() == old(self).accesses() + transmit_run(st, buf@.take(st.len() as int))
                    &&& forall|i: int| 0 <= i < r ==> #[trigger] st[i] & TXDATA_FULL == 0
                    &&& r < buf@.len() ==> st[r as int] & TXDATA_FULL != 0
                },
    {
        let len = buf.len();
        let mut count: usize = 0;
        let mut done = false;
        let ghost mut st: Seq<u32> = Seq::empty();
        assert(transmit_run(st, buf@.take(0)) =~= Seq::<Access<u32>>::empty());
        while !done && count < len
            invariant
                len == buf@.len(),
                count <= len,
                st.len() == if done { count + 1 } else { count as int },
                done ==> count < len && st[count as int] & TXDATA_FULL != 0,
                self.accesses() == old(self).accesses() + transmit_run(st, buf@.take(st.len() as int)),
                forall|i: int| 0 <= i < count ==> #[trigger] st[i] & TXDATA_FULL == 0,
            decreases len - count + if done { 0int } else { 1int },
        {
            let ghost before = self.accesses();
            let s = self.reg.read(TXDATA);
            let b = buf[count];
            proof {
                lemma_repeated_push(|s: u32, b: u8| transmit_ops(s, b), st, buf@.take(st.len() as int), s, b);
                assert(buf@.take(st.len() as int).push(b) =~= buf@.take(st.len() + 1 as int));
            }
            if s & TXDATA_FULL != 0 {
                proof {
                    assert(self.accesses() == before + transmit_ops(s, b));
                    let st0 = st;
                    st = st.push(s);
                    assert forall|i: int| 0 <= i < count implies #[trigger] st[i] & TXDATA_FULL == 0 by {
                        assert(st[i] == st0[i]);
                    }
                }
                done = true;
            } else {
                self.write_byte(b);
                proof {
                    assert(self.accesses() == before + transmit_ops(s, b));
                    let st0 = st;
                    st = st.push(s);
                    assert forall|i: int| 0 <= i <= count implies #[trigger] st[i] & TXDATA_FULL == 0 by {
                        if i < count {
                            assert(st[i] == st0[i]);
                        }
                    }
                }
                count = count + 1;
            }
        }
        count
    }

    /// Reads the receive data register.
    pub fn read_rx(&mut self) -> (r: u32)
        ensures
            read_one(old(self).accesses(), final(self).accesses(), old(self).bus(), final(self).bus(), RXDATA, r),
    {
        self.reg.read(RXDATA)
    }

    /// Reads the transmit data register.
    pub fn read_tx(&mut self) -> (r: u32)
        ensures
            read_one(old(self).accesses(), final(self).accesses(), old(self).bus(), final(self).bus(), TXDATA, r),
    {
        self.reg.read(TXDATA)
    }

    /// Writes the transmit data register.
    pub fn write_tx(&mut self, value: u32)
        ensures
            wrote_one(old(self).accesses(), final(self).accesses(), old(self).bus(), final(self).bus(), TXDATA, value),
    {
        self.reg.write(TXDATA, value)
    }

    /// Reads the receive control register.
    pub fn read_rxctrl(&mut self) -> (r: u32)
        ensures
            read_one(old(self).accesses(), final(self).accesses(), old(self).bus(), final(self).bus(), RXCTRL, r),
    {
        self.reg.read(RXCTRL)
    }

    /// Writes the receive control register.
    pub fn write_rxctrl(&mut self, value: u32)
        ensures
            wrote_one(old(self).accesses(), final(self).accesses(), old(self).bus(), final(self).bus(), RXCTRL, value),
    {
        self.reg.write(RXCTRL, value)
    }

    /// Reads the transmit control register.
    pub fn read_txctrl(&mut self) -> (r: u32)
        ensures
            read_one(old(self).accesses(), final(self).accesses(), old(self).bus(), final(self).bus(), TXCTRL, r),
    {
        self.reg.read(TXCTRL)
    }

    /// Writes the transmit control register.
    pub fn write_txctrl(&mut self, value: u32)
        ensures
            wrote_one(old(self).accesses(), final(self).accesses(), old(self).bus(), final(self).bus(), TXCTRL, value),
    {
        self.reg.write(TXCTRL, value)
    }

    /// Writes the interrupt enable register.
    pub fn write_ie(&mut self, value: u32)
        ensures
            wrote_one(old(self).accesses(), final(self).accesses(), old(self).bus(), final(self).bus(), IE, value),
    {
        self.reg.write(IE, value)
    }

    /// Reads the baud rate divisor register.
    pub fn read_div(&mut self) -> (r: u32)
        ensures
            read_one(old(self).accesses(), final(self).accesses(), old(self).bus(), final(self).bus(), DIV, r),
    {
        self.reg.read(DIV)
    }

    /// Writes the baud rate divisor register.
    pub fn write_div(&mut self, value: u32)
        ensures
            wrote_one(old(self).accesses(), final(self).accesses(), old(self).bus(), final(self).bus(), DIV, value),
    {
        self.reg.write(DIV, value)
    }
}

} // verus!
