//! The AXI UART 16550 soft core: the 16550 register set on 32-bit slots.
//!
//! The registers are handled as 32-bit words. Their fields sit in the low
//! byte and are read and set with the 8250 encodings of `fields`; setting a
//! field keeps the upper bytes of the word.

use vstd::prelude::*;
use crate::bus::{
    read_field, read_one, rmw, tested_word_bits, updated, wrote_one, Access, LoggedBus,
    RegisterBus,
};
use crate::fields::{
    decode_interrupt_type, decode_parity, decode_stop_bits, decode_word_length, decoded_parity,
    divisor_high, divisor_low, divisor_of, encode_parity, encode_stop_bits, encode_word_length,
    interrupt_type_of, lemma_parity_round_trip as lemma_byte_parity_round_trip,
    lemma_word_length_round_trip as lemma_byte_word_length_round_trip, stop_bits_of, with_parity,
    with_stop_bits, with_word_length, word_length_of, LineControlError, IER_DLH, IER_MSI,
    IER_RDAI, IER_RLSI, IER_THREI, IIR_FCR, LCR, LCR_DLAB, LSR, LSR_BI, LSR_DHRE, LSR_DR, LSR_FE,
    LSR_OE, LSR_PE, LSR_RFE, LSR_THRE, MCR, MSR, MSR_CD, MSR_CTS, MSR_DCTS, MSR_DDCD, MSR_DDSR,
    MSR_DSR, MSR_RI, MSR_TERI, RBR_THR_DLL, SCRATCH,
};
pub use crate::fields::{InterruptType, Parity};
use crate::uart8250::TransmitError;
use vstd::arithmetic::div_mod::lemma_div_denominator;

verus! {

/// The low byte of a register word, where its fields sit.
pub open spec fn low_byte(v: u32) -> u8 {
    (v % 256) as u8
}

/// `v` with its low byte replaced by `b`.
pub open spec fn with_low_byte(v: u32, b: u8) -> u32 {
    (v & 0xffff_ff00u32) | (b as u32)
}

/// The word's low byte is the byte put there, and putting it again changes
/// nothing.
pub proof fn lemma_low_byte(v: u32, b: u8)
    ensures
        low_byte(with_low_byte(v, b)) == b,
        with_low_byte(with_low_byte(v, b), b) == with_low_byte(v, b),
        with_low_byte(v, b) & 0xffff_ff00u32 == v & 0xffff_ff00u32,
{
    assert(((((v & 0xffff_ff00u32) | (b as u32)) % 256) as u8 == b) && ((((v & 0xffff_ff00u32)
        | (b as u32)) & 0xffff_ff00u32) | (b as u32)) == (v & 0xffff_ff00u32) | (b as u32)
        && (((v & 0xffff_ff00u32) | (b as u32)) & 0xffff_ff00u32) == v & 0xffff_ff00u32)
        by (bit_vector);
}

/// `lcr` with the parity field of its low byte set to `p`.
pub open spec fn with_parity_word(lcr: u32, p: Parity) -> u32 {
    with_low_byte(lcr, with_parity(low_byte(lcr), p))
}

/// `lcr` with the stop bit field of its low byte set for `n` stop bits.
pub open spec fn with_stop_bits_word(lcr: u32, n: u32) -> u32 {
    with_low_byte(lcr, with_stop_bits(low_byte(lcr), n as u8))
}

/// `lcr` with the word length field of its low byte set for `n`-bit words.
pub open spec fn with_word_length_word(lcr: u32, n: u32) -> u32 {
    with_low_byte(lcr, with_word_length(low_byte(lcr), n as u8))
}

/// Setting the parity and decoding it gives back the parity set; setting it
/// twice gives the same word as setting it once; the bits outside the field
/// are kept.
pub proof fn lemma_parity_round_trip(lcr: u32, p: Parity)
    ensures
        decoded_parity(low_byte(with_parity_word(lcr, p))) == Ok::<Parity, LineControlError>(p),
        with_parity_word(with_parity_word(lcr, p), p) == with_parity_word(lcr, p),
        with_parity_word(lcr, p) & 0xffff_ff00u32 == lcr & 0xffff_ff00u32,
{
    let x = with_parity(low_byte(lcr), p);
    lemma_low_byte(lcr, x);
    lemma_byte_parity_round_trip(low_byte(lcr), p);
}

/// Setting the word length to a length from 5 to 8 and reading it gives back
/// that length; the bits outside the field are kept.
pub proof fn lemma_word_length_round_trip(lcr: u32, n: u32)
    requires
        5 <= n <= 8,
    ensures
        word_length_of(low_byte(with_word_length_word(lcr, n))) as u32 == n,
        with_word_length_word(lcr, n) & 0xffff_ff00u32 == lcr & 0xffff_ff00u32,
{
    let x = with_word_length(low_byte(lcr), n as u8);
    lemma_low_byte(lcr, x);
    lemma_byte_word_length_round_trip(low_byte(lcr), n as u8);
}

/// The accesses that program divisor `d`: read the line control word `a`,
/// set DLAB, write the low then the high latch byte, and write `a` back with
/// DLAB clear.
pub open spec fn divisor_ops(d: int, a: u32) -> Seq<Access<u32>> {
    seq![
        Access::Read(LCR, a),
        Access::Write(LCR, a | 0x80u32),
        Access::Write(RBR_THR_DLL, divisor_low(d) as u32),
        Access::Write(IER_DLH, divisor_high(d) as u32),
        Access::Write(LCR, a & !0x80u32),
    ]
}

/// The states that the accesses of `divisor_ops(d, a)` take a register block
/// through, from `b0` to `b5`.
pub open spec fn divisor_moves<B: RegisterBus<u32>>(b0: B, d: int, a: u32, b5: B) -> bool {
    exists|b1: B, b2: B, b3: B, b4: B|
        {
            &&& #[trigger] b0.read_spec(LCR, a, b1)
            &&& #[trigger] b1.write_spec(LCR, a | 0x80u32, b2)
            &&& #[trigger] b2.write_spec(RBR_THR_DLL, divisor_low(d) as u32, b3)
            &&& #[trigger] b3.write_spec(IER_DLH, divisor_high(d) as u32, b4)
            &&& #[trigger] b4.write_spec(LCR, a & !0x80u32, b5)
        }
}

/// The accesses of initialisation with divisor `d`: program the divisor
/// (reading `a`); eight data bits, no parity, one stop bit; FIFO on; modem
/// control off; then set the received-data-available enable (reading `c`).
pub open spec fn init_ops(d: int, a: u32, c: u32) -> Seq<Access<u32>> {
    divisor_ops(d, a) + seq![
        Access::Write(LCR, 0b0000_0011u32),
        Access::Write(IIR_FCR, 0b0000_0001u32),
        Access::Write(MCR, 0u32),
        Access::Read(IER_DLH, c),
        Access::Write(IER_DLH, c | 1u32),
    ]
}

/// The states that the accesses of `init_ops(d, a, c)` take a register block
/// through, from `b0` to `b10`.
pub open spec fn init_moves<B: RegisterBus<u32>>(b0: B, d: int, a: u32, c: u32, b10: B) -> bool {
    exists|b5: B, b6: B, b7: B, b8: B, b9: B|
        {
            &&& #[trigger] divisor_moves(b0, d, a, b5)
            &&& #[trigger] b5.write_spec(LCR, 0b0000_0011u32, b6)
            &&& #[trigger] b6.write_spec(IIR_FCR, 0b0000_0001u32, b7)
            &&& #[trigger] b7.write_spec(MCR, 0u32, b8)
            &&& #[trigger] b8.read_spec(IER_DLH, c, b9)
            &&& #[trigger] b9.write_spec(IER_DLH, c | 1u32, b10)
        }
}

/// The accesses of a receive attempt that reads status `s`: the receiver
/// buffer is read, giving `d`, only when the data ready bit is set.
pub open spec fn receive_ops(s: u32, d: u32) -> Seq<Access<u32>> {
    if s & 1u32 != 0 {
        seq![Access::Read(LSR, s), Access::Read(RBR_THR_DLL, d)]
    } else {
        seq![Access::Read(LSR, s)]
    }
}

/// The states that the accesses of `receive_ops(s, d)` take a register block
/// through, from `b0` to `b2`.
pub open spec fn receive_moves<B: RegisterBus<u32>>(b0: B, s: u32, d: u32, b2: B) -> bool {
    exists|b1: B|
        #[trigger] b0.read_spec(LSR, s, b1) && if s & 1u32 != 0 {
            b1.read_spec(RBR_THR_DLL, d, b2)
        } else {
            b1 == b2
        }
}

/// The result of a receive attempt that read status `s` and then data `d`:
/// the low byte of `d` when data was ready.
pub open spec fn receive_result(s: u32, d: u32) -> Option<u8> {
    if s & 1u32 != 0 {
        Some(low_byte(d))
    } else {
        None
    }
}

/// The accesses of a transmit attempt of `byte` that reads status `s`: the
/// byte is written only when the transmitter holding register is empty.
pub open spec fn transmit_ops(s: u32, byte: u8) -> Seq<Access<u32>> {
    if s & 0x20u32 != 0 {
        seq![Access::Read(LSR, s), Access::Write(RBR_THR_DLL, byte as u32)]
    } else {
        seq![Access::Read(LSR, s)]
    }
}

/// The states that the accesses of `transmit_ops(s, byte)` take a register
/// block through, from `b0` to `b2`.
pub open spec fn transmit_moves<B: RegisterBus<u32>>(b0: B, s: u32, byte: u8, b2: B) -> bool {
    exists|b1: B|
        #[trigger] b0.read_spec(LSR, s, b1) && if s & 0x20u32 != 0 {
            b1.write_spec(RBR_THR_DLL, byte as u32, b2)
        } else {
            b1 == b2
        }
}

/// The result of a transmit attempt that read status `s`.
pub open spec fn transmit_result(s: u32) -> Result<(), TransmitError> {
    if s & 0x20u32 != 0 {
        Ok(())
    } else {
        Err(TransmitError::BufferFull)
    }
}

/// # MMIO version of the AXI UART 16550.
pub struct MmioUartAxi16550<B> {
    reg: LoggedBus<B, u32>,
}

impl<B: RegisterBus<u32>> MmioUartAxi16550<B> {
    /// The register accesses made so far, oldest first.
    pub closed spec fn accesses(&self) -> Seq<Access<u32>> {
        self.reg.accesses()
    }

    /// The register block.
    pub closed spec fn bus(&self) -> B {
        self.reg.bus()
    }

    /// Creates a driver for the register block `reg`.
    pub fn new(reg: B) -> (r: Self)
        ensures
            r.bus() == reg,
            r.accesses() == Seq::<Access<u32>>::empty(),
    {
        MmioUartAxi16550 { reg: LoggedBus::new(reg) }
    }

    /// Points the driver at another register block.
    pub fn set_base_address(&mut self, reg: B)
        ensures
            final(self).bus() == reg,
            final(self).accesses() == old(self).accesses(),
    {
        self.reg.replace(reg);
    }

    /// The register block.
    pub fn registers(&self) -> (r: &B)
        ensures
            *r == self.bus(),
    {
        self.reg.get_ref()
    }

    /// The register block, for access that the driver does not log.
    pub fn registers_mut(&mut self) -> (r: &mut B)
        ensures
            *r == old(self).bus(),
            final(self).bus() == *final(r),
            final(self).accesses() == old(self).accesses(),
    {
        self.reg.get_mut()
    }

    /// Initialises the UART: divisor for `baud_rate` from `clock`, eight data
    /// bits, no parity, one stop bit, FIFO enabled, modem control cleared, and
    /// the received data available interrupt enabled.
    pub fn init(&mut self, clock: usize, baud_rate: usize)
        requires
            baud_rate > 0,
        ensures
            exists|a: u32, c: u32| #![trigger init_ops(divisor_of(clock, baud_rate), a, c)]
                {
                    &&& final(self).accesses() == old(self).accesses() + init_ops(
                        divisor_of(clock, baud_rate),
                        a,
                        c,
                    )
                    &&& init_moves(old(self).bus(), divisor_of(clock, baud_rate), a, c, final(self).bus())
                },
    {
        let ghost d = divisor_of(clock, baud_rate);
        let a = self.program_divisor(clock, baud_rate);
        let ghost b5 = self.bus();
        self.write_lcr(0b0000_0011);
        let ghost b6 = self.bus();
        self.write_fcr(0b0000_0001);
        let ghost b7 = self.bus();
        self.write_mcr(0);
        let ghost b8 = self.bus();
        let c = self.reg.read(IER_DLH);
        let ghost b9 = self.bus();
        self.reg.write(IER_DLH, c | 1);
        assert(final(self).accesses() == old(self).accesses() + init_ops(d, a, c));
        assert(divisor_moves(old(self).bus(), d, a, b5));
        assert(b9.write_spec(IER_DLH, c | 1u32, final(self).bus()));
        assert(init_moves(old(self).bus(), d, a, c, final(self).bus()));
    }

    /// Reads a byte: `None` when the data ready bit (LSR bit 0) is clear, in
    /// which case the receiver buffer is not read.
    pub fn read_byte(&mut self) -> (r: Option<u8>)
        ensures
            exists|s: u32, d: u32| #![trigger receive_ops(s, d)]
                {
                    &&& final(self).accesses() == old(self).accesses() + receive_ops(s, d)
                    &&& receive_moves(old(self).bus(), s, d, final(self).bus())
                    &&& r == receive_result(s, d)
                },
    {
        let s = self.reg.read(LSR);
        let ghost b1 = self.bus();
        if s & 1 != 0 {
            let d = self.read_rbr();
            assert(final(self).accesses() == old(self).accesses() + receive_ops(s, d));
            assert(old(self).bus().read_spec(LSR, s, b1));
            assert(receive_moves(old(self).bus(), s, d, final(self).bus()));
            Some((d % 256) as u8)
        } else {
            assert(final(self).accesses() == old(self).accesses() + receive_ops(s, 0));
            assert(old(self).bus().read_spec(LSR, s, b1));
            assert(receive_moves(old(self).bus(), s, 0, final(self).bus()));
            None
        }
    }

    /// Writes a byte: fails with `BufferFull`, writing nothing, when the
    /// transmitter holding register empty bit (LSR bit 5) is clear.
    pub fn write_byte(&mut self, byte: u8) -> (r: Result<(), TransmitError>)
        ensures
            exists|s: u32| #![trigger transmit_ops(s, byte)]
                {
                    &&& final(self).accesses() == old(self).accesses() + transmit_ops(s, byte)
                    &&& transmit_moves(old(self).bus(), s, byte, final(self).bus())
                    &&& r == transmit_result(s)
                },
    {
        let s = self.reg.read(LSR);
        let ghost b1 = self.bus();
        if s & (LSR_THRE as u32) != 0 {
            self.write_thr(byte as u32);
            assert(final(self).accesses() == old(self).accesses() + transmit_ops(s, byte));
            assert(old(self).bus().read_spec(LSR, s, b1));
            assert(transmit_moves(old(self).bus(), s, byte, final(self).bus()));
            Ok(())
        } else {
            assert(final(self).accesses() == old(self).accesses() + transmit_ops(s, byte));
            assert(old(self).bus().read_spec(LSR, s, b1));
            assert(transmit_moves(old(self).bus(), s, byte, final(self).bus()));
            Err(TransmitError::BufferFull)
        }
    }

    /// Sets DLAB, writes the divisor for `baud_rate` from `clock` to the
    /// divisor latch, low byte first, then writes back the line control word
    /// read at the start, with DLAB clear.
    pub fn set_divisor(&mut self, clock: usize, baud_rate: usize)
        requires
            baud_rate > 0,
        ensures
            exists|a: u32| #![trigger divisor_ops(divisor_of(clock, baud_rate), a)]
                {
                    &&& final(self).accesses() == old(self).accesses() + divisor_ops(
                        divisor_of(clock, baud_rate),
                        a,
                    )
                    &&& divisor_moves(old(self).bus(), divisor_of(clock, baud_rate), a, final(self).bus())
                },
    {
        self.program_divisor(clock, baud_rate);
    }

    /// The body of `set_divisor`; returns the line control word read.
    fn program_divisor(&mut self, clock: usize, baud_rate: usize) -> (a: u32)
        requires
            baud_rate > 0,
        ensures
            final(self).accesses() == old(self).accesses() + divisor_ops(divisor_of(clock, baud_rate), a),
            divisor_moves(old(self).bus(), divisor_of(clock, baud_rate), a, final(self).bus()),
    {
        let a = self.reg.read(LCR);
        let ghost b1 = self.bus();
        self.write_lcr(a | 0x80);
        let divisor = clock / 16 / baud_rate;
        proof {
            lemma_div_denominator(clock as int, 16, baud_rate as int);
        }
        self.write_dll((divisor % 256) as u32);
        self.write_dlh(((divisor / 256) % 256) as u32);
        let ghost b4 = self.bus();
        self.write_lcr(a & !0x80);
        assert(final(self).accesses() == old(self).accesses() + divisor_ops(
            divisor_of(clock, baud_rate),
            a,
        ));
        assert(old(self).bus().read_spec(LCR, a, b1));
        assert(b4.write_spec(LCR, a & !0x80u32, final(self).bus()));
        a
    }

    /// Reads IIR bits 3:1 to get the pending interrupt: `None` when bit 0
    /// says that no interrupt is pending. Cause codes 4, 5 and 7 report as
    /// `Reserved`.
    pub fn read_interrupt_type(&mut self) -> (r: Option<InterruptType>)
        ensures
            read_field(
                old(self).accesses(),
                final(self).accesses(),
                old(self).bus(),
                final(self).bus(),
                IIR_FCR,
                |v: u32| interrupt_type_of(low_byte(v)),
                r,
            ),
    {
        let iir = self.reg.read(IIR_FCR);
        let r = decode_interrupt_type((iir % 256) as u8);
        assert(r == (|v: u32| interrupt_type_of(low_byte(v)))(iir));
        r
    }

    /// Gets the parity from LCR bits 5:3; an error when the field holds a
    /// code that names no parity mode.
    pub fn get_parity(&mut self) -> (r: Result<Parity, LineControlError>)
        ensures
            read_field(
                old(self).accesses(),
                final(self).accesses(),
                old(self).bus(),
                final(self).bus(),
                LCR,
                |v: u32| decoded_parity(low_byte(v)),
                r,
            ),
    {
        let lcr = self.reg.read(LCR);
        let r = decode_parity((lcr % 256) as u8);
        assert(r == (|v: u32| decoded_parity(low_byte(v)))(lcr));
        r
    }

    /// Sets the parity field of LCR, keeping its other bits.
    pub fn set_parity(&mut self, parity: Parity)
        ensures
            updated(
                old(self).accesses(),
                final(self).accesses(),
                old(self).bus(),
                final(self).bus(),
                LCR,
                |v: u32| with_parity_word(v, parity),
            ),
    {
        let v = self.reg.read(LCR);
        let ghost b1 = self.bus();
        let x = encode_parity((v % 256) as u8, parity);
        self.write_lcr((v & 0xffff_ff00) | (x as u32));
        assert(old(self).bus().read_spec(LCR, v, b1));
        assert(rmw(
            old(self).accesses(),
            final(self).accesses(),
            old(self).bus(),
            final(self).bus(),
            LCR,
            v,
            (|y: u32| with_parity_word(y, parity))(v),
        ));
    }

    /// Gets the number of stop bits: 1, or 2 (1.5 with five-bit words).
    pub fn get_stop_bit(&mut self) -> (r: u32)
        ensures
            read_field(
                old(self).accesses(),
                final(self).accesses(),
                old(self).bus(),
                final(self).bus(),
                LCR,
                |v: u32| stop_bits_of(low_byte(v)) as u32,
                r,
            ),
    {
        let lcr = self.reg.read(LCR);
        let r = decode_stop_bits((lcr % 256) as u8) as u32;
        assert(r == (|v: u32| stop_bits_of(low_byte(v)) as u32)(lcr));
        r
    }

    /// Sets the number of stop bits; only 1 and 2 are accepted, and any other
    /// count leaves the register untouched.
    pub fn set_stop_bit(&mut self, stop_bit: u32) -> (r: Result<(), LineControlError>)
        ensures
            stop_bit == 1 || stop_bit == 2 ==> r == Ok::<(), LineControlError>(()) && updated(
                old(self).accesses(),
                final(self).accesses(),
                old(self).bus(),
                final(self).bus(),
                LCR,
                |v: u32| with_stop_bits_word(v, stop_bit),
            ),
            !(stop_bit == 1 || stop_bit == 2) ==> r == Err::<(), LineControlError>(
                LineControlError::InvalidStopBits,
            ) && final(self).accesses() == old(self).accesses() && final(self).bus() == old(
                self,
            ).bus(),
    {
        if stop_bit == 1 || stop_bit == 2 {
            let v = self.reg.read(LCR);
            let ghost b1 = self.bus();
            let x = encode_stop_bits((v % 256) as u8, stop_bit as u8);
            self.write_lcr((v & 0xffff_ff00) | (x as u32));
            assert(old(self).bus().read_spec(LCR, v, b1));
            assert(rmw(
                old(self).accesses(),
                final(self).accesses(),
                old(self).bus(),
                final(self).bus(),
                LCR,
                v,
                (|y: u32| with_stop_bits_word(y, stop_bit))(v),
            ));
            Ok(())
        } else {
            Err(LineControlError::InvalidStopBits)
        }
    }

    /// Gets the word length, 5 to 8 bits.
    pub fn get_word_length(&mut self) -> (r: u32)
        ensures
            read_field(
                old(self).accesses(),
                final(self).accesses(),
                old(self).bus(),
                final(self).bus(),
                LCR,
                |v: u32| word_length_of(low_byte(v)) as u32,
                r,
            ),
    {
        let lcr = self.reg.read(LCR);
        let r = decode_word_length((lcr % 256) as u8) as u32;
        assert(r == (|v: u32| word_length_of(low_byte(v)) as u32)(lcr));
        r
    }

    /// Sets the word length; only 5 to 8 bits are accepted, and any other
    /// length leaves the register untouched.
    pub fn set_word_length(&mut self, length: u32) -> (r: Result<(), LineControlError>)
        ensures
            5 <= length <= 8 ==> r == Ok::<(), LineControlError>(()) && updated(
                old(self).accesses(),
                final(self).accesses(),
                old(self).bus(),
                final(self).bus(),
                LCR,
                |v: u32| with_word_length_word(v, length),
            ),
            !(5 <= length <= 8) ==> r == Err::<(), LineControlError>(
                LineControlError::InvalidWordLength,
            ) && final(self).accesses() == old(self).accesses() && final(self).bus() == old(
                self,
            ).bus(),
    {
        if 5 <= length && length <= 8 {
            let v = self.reg.read(LCR);
            let ghost b1 = self.bus();
            let x = encode_word_length((v % 256) as u8, length as u8);
            self.write_lcr((v & 0xffff_ff00) | (x as u32));
            assert(old(self).bus().read_spec(LCR, v, b1));
            assert(rmw(
                old(self).accesses(),
                final(self).accesses(),
                old(self).bus(),
                final(self).bus(),
                LCR,
                v,
                (|y: u32| with_word_length_word(y, length))(v),
            ));
            Ok(())
        } else {
            Err(LineControlError::InvalidWordLength)
        }
    }

    /// Gets the interrupt enable flags: the low four bits of IER.
    pub fn ier(&mut self) -> (r: u8)
        ensures
            read_field(
                old(self).accesses(),
                final(self).accesses(),
                old(self).bus(),
                final(self).bus(),
                IER_DLH,
                |v: u32| (v & 0x0fu32) as u8,
                r,
            ),
    {
        let v = self.reg.read(IER_DLH);
        let r = (v & 0x0f) as u8;
        assert(r == (|x: u32| (x & 0x0fu32) as u8)(v));
        r
    }

    /// Sets the interrupt enable flags: the low four bits of `flags`.
    pub fn set_ier(&mut self, flags: u8)
        ensures
            wrote_one(
                old(self).accesses(),
                final(self).accesses(),
                old(self).bus(),
                final(self).bus(),
                IER_DLH,
                (flags & 0x0fu8) as u32,
            ),
    {
        self.write_ier((flags & 0x0f) as u32)
    }

    /// Whether an interrupt is pending (IIR bit 0 clear).
    pub fn is_interrupt_pending(&mut self) -> (r: bool)
        ensures
            read_field(
                old(self).accesses(),
                final(self).accesses(),
                old(self).bus(),
                final(self).bus(),
                IIR_FCR,
                |v: u32| v & 1u32 == 0,
                r,
            ),
    {
        let v = self.reg.read(IIR_FCR);
        let r = v & 1 == 0;
        assert(r == (|x: u32| x & 1u32 == 0)(v));
        r
    }

    /// Whether the modem status interrupt (IER[3]) is enabled.
    pub fn is_modem_status_interrupt_enabled(&mut self) -> (r: bool)
        ensures
            tested_word_bits(old(self).accesses(), final(self).accesses(), old(self).bus(), final(self).bus(), IER_DLH, IER_MSI as u32, r),
    {
        self.reg.test_word_bits(IER_DLH, IER_MSI as u32)
    }

    /// Flips the modem status interrupt (IER[3]).
    pub fn toggle_modem_status_interrupt(&mut self)
        ensures
            updated(old(self).accesses(), final(self).accesses(), old(self).bus(), final(self).bus(), IER_DLH, |v: u32| v ^ IER_MSI as u32),
    {
        self.reg.toggle_word_bits(IER_DLH, IER_MSI as u32)
    }

    /// Enables the modem status interrupt (IER[3]).
    pub fn enable_modem_status_interrupt(&mut self)
        ensures
            updated(old(self).accesses(), final(self).accesses(), old(self).bus(), final(self).bus(), IER_DLH, |v: u32| v | IER_MSI as u32),
    {
        self.reg.set_word_bits(IER_DLH, IER_MSI as u32)
    }

    /// Disables the modem status interrupt (IER[3]).
    pub fn disable_modem_status_interrupt(&mut self)
        ensures
            updated(old(self).accesses(), final(self).accesses(), old(self).bus(), final(self).bus(), IER_DLH, |v: u32| v & !(IER_MSI as u32)),
    {
        self.reg.clear_word_bits(IER_DLH, IER_MSI as u32)
    }

    /// Whether the receiver line status interrupt (IER[2]) is enabled.
    pub fn is_receiver_line_status_interrupt_enabled(&mut self) -> (r: bool)
        ensures
            tested_word_bits(old(self).accesses(), final(self).accesses(), old(self).bus(), final(self).bus(), IER_DLH, IER_RLSI as u32, r),
    {
        self.reg.test_word_bits(IER_DLH, IER_RLSI as u32)
    }

    /// Flips the receiver line status interrupt (IER[2]).
    pub fn toggle_receiver_line_status_interrupt(&mut self)
        ensures
            updated(old(self).accesses(), final(self).accesses(), old(self).bus(), final(self).bus(), IER_DLH, |v: u32| v ^ IER_RLSI as u32),
    {
        self.reg.toggle_word_bits(IER_DLH, IER_RLSI as u32)
    }

    /// Enables the receiver line status interrupt (IER[2]).
    pub fn enable_receiver_line_status_interrupt(&mut self)
        ensures
            updated(old(self).accesses(), final(self).accesses(), old(self).bus(), final(self).bus(), IER_DLH, |v: u32| v | IER_RLSI as u32),
    {
        self.reg.set_word_bits(IER_DLH, IER_RLSI as u32)
    }

    /// Disables the receiver line status interrupt (IER[2]).
    pub fn disable_receiver_line_status_interrupt(&mut self)
        ensures
            updated(old(self).accesses(), final(self).accesses(), old(self).bus(), final(self).bus(), IER_DLH, |v: u32| v & !(IER_RLSI as u32)),
    {
        self.reg.clear_word_bits(IER_DLH, IER_RLSI as u32)
    }

    /// Whether the transmitter holding register empty interrupt (IER[1]) is enabled.
    pub fn is_transmitter_holding_register_empty_interrupt_enabled(&mut self) -> (r: bool)
        ensures
            tested_word_bits(old(self).accesses(), final(self).accesses(), old(self).bus(), final(self).bus(), IER_DLH, IER_THREI as u32, r),
    {
        self.reg.test_word_bits(IER_DLH, IER_THREI as u32)
    }

    /// Flips the transmitter holding register empty interrupt (IER[1]).
    pub fn toggle_transmitter_holding_register_empty_interrupt(&mut self)
        ensures
            updated(old(self).accesses(), final(self).accesses(), old(self).bus(), final(self).bus(), IER_DLH, |v: u32| v ^ IER_THREI as u32),
    {
        self.reg.toggle_word_bits(IER_DLH, IER_THREI as u32)
    }

    /// Enables the transmitter holding register empty interrupt (IER[1]).
    pub fn enable_transmitter_holding_register_empty_interrupt(&mut self)
        ensures
            updated(old(self).accesses(), final(self).accesses(), old(self).bus(), final(self).bus(), IER_DLH, |v: u32| v | IER_THREI as u32),
    {
        self.reg.set_word_bits(IER_DLH, IER_THREI as u32)
    }

    /// Disables the transmitter holding register empty interrupt (IER[1]).
    pub fn disable_transmitter_holding_register_empty_interrupt(&mut self)
        ensures
            updated(old(self).accesses(), final(self).accesses(), old(self).bus(), final(self).bus(), IER_DLH, |v: u32| v & !(IER_THREI as u32)),
    {
        self.reg.clear_word_bits(IER_DLH, IER_THREI as u32)
    }

    /// Whether the received data available interrupt (IER[0]) is enabled.
    pub fn is_received_data_available_interrupt_enabled(&mut self) -> (r: bool)
        ensures
            tested_word_bits(old(self).accesses(), final(self).accesses(), old(self).bus(), final(self).bus(), IER_DLH, IER_RDAI as u32, r),
    {
        self.reg.test_word_bits(IER_DLH, IER_RDAI as u32)
    }

    /// Flips the received data available interrupt (IER[0]).
    pub fn toggle_received_data_available_interrupt(&mut self)
        ensures
            updated(old(self).accesses(), final(self).accesses(), old(self).bus(), final(self).bus(), IER_DLH, |v: u32| v ^ IER_RDAI as u32),
    {
        self.reg.toggle_word_bits(IER_DLH, IER_RDAI as u32)
    }

    /// Enables the received data available interrupt (IER[0]).
    pub fn enable_received_data_available_interrupt(&mut self)
        ensures
            updated(old(self).accesses(), final(self).accesses(), old(self).bus(), final(self).bus(), IER_DLH, |v: u32| v | IER_RDAI as u32),
    {
        self.reg.set_word_bits(IER_DLH, IER_RDAI as u32)
    }

    /// Disables the received data available interrupt (IER[0]).
    pub fn disable_received_data_available_interrupt(&mut self)
        ensures
            updated(old(self).accesses(), final(self).accesses(), old(self).bus(), final(self).bus(), IER_DLH, |v: u32| v & !(IER_RDAI as u32)),
    {
        self.reg.clear_word_bits(IER_DLH, IER_RDAI as u32)
    }

    /// Whether the divisor latch access bit (LCR[7]) is enabled.
    pub fn is_divisor_latch_accessible(&mut self) -> (r: bool)
        ensures
            tested_word_bits(old(self).accesses(), final(self).accesses(), old(self).bus(), final(self).bus(), LCR, LCR_DLAB as u32, r),
    {
        self.reg.test_word_bits(LCR, LCR_DLAB as u32)
    }

    /// Flips the divisor latch access bit (LCR[7]).
    pub fn toggle_divisor_latch_accessible(&mut self)
        ensures
            updated(old(self).accesses(), final(self).accesses(), old(self).bus(), final(self).bus(), LCR, |v: u32| v ^ LCR_DLAB as u32),
    {
        self.reg.toggle_word_bits(LCR, LCR_DLAB as u32)
    }

    /// Enables the divisor latch access bit (LCR[7]).
    pub fn enable_divisor_latch_accessible(&mut self)
        ensures
            updated(old(self).accesses(), final(self).accesses(), old(self).bus(), final(self).bus(), LCR, |v: u32| v | LCR_DLAB as u32),
    {
        self.reg.set_word_bits(LCR, LCR_DLAB as u32)
    }

    /// Disables the divisor latch access bit (LCR[7]).
    pub fn disable_divisor_latch_accessible(&mut self)
        ensures
            updated(old(self).accesses(), final(self).accesses(), old(self).bus(), final(self).bus(), LCR, |v: u32| v & !(LCR_DLAB as u32)),
    {
        self.reg.clear_word_bits(LCR, LCR_DLAB as u32)
    }

    /// Whether there is an error in the received FIFO (LSR[7]).
    pub fn is_received_fifo_error(&mut self) -> (r: bool)
        ensures
            tested_word_bits(old(self).accesses(), final(self).accesses(), old(self).bus(), final(self).bus(), LSR, LSR_RFE as u32, r),
    {
        self.reg.test_word_bits(LSR, LSR_RFE as u32)
    }

    /// Whether the data holding registers are empty (LSR[6]).
    pub fn is_data_holding_registers_empty(&mut self) -> (r: bool)
        ensures
            tested_word_bits(old(self).accesses(), final(self).accesses(), old(self).bus(), final(self).bus(), LSR, LSR_DHRE as u32, r),
    {
        self.reg.test_word_bits(LSR, LSR_DHRE as u32)
    }

    /// Whether the transmitter holding register is empty (LSR[5]).
    pub fn is_transmitter_holding_register_empty(&mut self) -> (r: bool)
        ensures
            tested_word_bits(old(self).accesses(), final(self).accesses(), old(self).bus(), final(self).bus(), LSR, LSR_THRE as u32, r),
    {
        self.reg.test_word_bits(LSR, LSR_THRE as u32)
    }

    /// Whether a break was received (LSR[4]).
    pub fn is_break_interrupt(&mut self) -> (r: bool)
        ensures
            tested_word_bits(old(self).accesses(), final(self).accesses(), old(self).bus(), final(self).bus(), LSR, LSR_BI as u32, r),
    {
        self.reg.test_word_bits(LSR, LSR_BI as u32)
    }

    /// Whether a framing error was seen (LSR[3]).
    pub fn is_framing_error(&mut self) -> (r: bool)
        ensures
            tested_word_bits(old(self).accesses(), final(self).accesses(), old(self).bus(), final(self).bus(), LSR, LSR_FE as u32, r),
    {
        self.reg.test_word_bits(LSR, LSR_FE as u32)
    }

    /// Whether a parity error was seen (LSR[2]).
    pub fn is_parity_error(&mut self) -> (r: bool)
        ensures
            tested_word_bits(old(self).accesses(), final(self).accesses(), old(self).bus(), final(self).bus(), LSR, LSR_PE as u32, r),
    {
        self.reg.test_word_bits(LSR, LSR_PE as u32)
    }

    /// Whether received data was lost to an overrun (LSR[1]).
    pub fn is_overrun_error(&mut self) -> (r: bool)
        ensures
            tested_word_bits(old(self).accesses(), final(self).accesses(), old(self).bus(), final(self).bus(), LSR, LSR_OE as u32, r),
    {
        self.reg.test_word_bits(LSR, LSR_OE as u32)
    }

    /// Whether received data is ready (LSR[0]).
    pub fn is_data_ready(&mut self) -> (r: bool)
        ensures
            tested_word_bits(old(self).accesses(), final(self).accesses(), old(self).bus(), final(self).bus(), LSR, LSR_DR as u32, r),
    {
        self.reg.test_word_bits(LSR, LSR_DR as u32)
    }

    /// Whether carrier detect is asserted (MSR[7]).
    pub fn is_carrier_detect(&mut self) -> (r: bool)
        ensures
            tested_word_bits(old(self).accesses(), final(self).accesses(), old(self).bus(), final(self).bus(), MSR, MSR_CD as u32, r),
    {
        self.reg.test_word_bits(MSR, MSR_CD as u32)
    }

    /// Whether ring indicator is asserted (MSR[6]).
    pub fn is_ring_indicator(&mut self) -> (r: bool)
        ensures
            tested_word_bits(old(self).accesses(), final(self).accesses(), old(self).bus(), final(self).bus(), MSR, MSR_RI as u32, r),
    {
        self.reg.test_word_bits(MSR, MSR_RI as u32)
    }

    /// Whether data set ready is asserted (MSR[5]).
    pub fn is_data_set_ready(&mut self) -> (r: bool)
        ensures
            tested_word_bits(old(self).accesses(), final(self).accesses(), old(self).bus(), final(self).bus(), MSR, MSR_DSR as u32, r),
    {
        self.reg.test_word_bits(MSR, MSR_DSR as u32)
    }

    /// Whether clear to send is asserted (MSR[4]).
    pub fn is_clear_to_send(&mut self) -> (r: bool)
        ensures
            tested_word_bits(old(self).accesses(), final(self).accesses(), old(self).bus(), final(self).bus(), MSR, MSR_CTS as u32, r),
    {
        self.reg.test_word_bits(MSR, MSR_CTS as u32)
    }

    /// Whether carrier detect changed (MSR[3]).
    pub fn is_delta_data_carrier_detect(&mut self) -> (r: bool)
        ensures
            tested_word_bits(old(self).accesses(), final(self).accesses(), old(self).bus(), final(self).bus(), MSR, MSR_DDCD as u32, r),
    {
        self.reg.test_word_bits(MSR, MSR_DDCD as u32)
    }

    /// Whether the ring indicator had a trailing edge (MSR[2]).
    pub fn is_trailing_edge_ring_indicator(&mut self) -> (r: bool)
        ensures
            tested_word_bits(old(self).accesses(), final(self).accesses(), old(self).bus(), final(self).bus(), MSR, MSR_TERI as u32, r),
    {
        self.reg.test_word_bits(MSR, MSR_TERI as u32)
    }

    /// Whether data set ready changed (MSR[1]).
    pub fn is_delta_data_set_ready(&mut self) -> (r: bool)
        ensures
            tested_word_bits(old(self).accesses(), final(self).accesses(), old(self).bus(), final(self).bus(), MSR, MSR_DDSR as u32, r),
    {
        self.reg.test_word_bits(MSR, MSR_DDSR as u32)
    }

    /// Whether clear to send changed (MSR[0]).
    pub fn is_delta_clear_to_send(&mut self) -> (r: bool)
        ensures
            tested_word_bits(old(self).accesses(), final(self).accesses(), old(self).bus(), final(self).bus(), MSR, MSR_DCTS as u32, r),
    {
        self.reg.test_word_bits(MSR, MSR_DCTS as u32)
    }

    /// Whether the FIFOs are enabled (IIR[7:6] not zero).
    pub fn is_fifo_enabled(&mut self) -> (r: bool)
        ensures
            tested_word_bits(old(self).accesses(), final(self).accesses(), old(self).bus(), final(self).bus(), IIR_FCR, 0b1100_0000u8 as u32, r),
    {
        self.reg.test_word_bits(IIR_FCR, 0b1100_0000u8 as u32)
    }

    /// Writes the transmitter holding register (slot 0, DLAB clear).
    pub fn write_thr(&mut self, value: u32)
        ensures
            wrote_one(old(self).accesses(), final(self).accesses(), old(self).bus(), final(self).bus(), RBR_THR_DLL, value),
    {
        self.reg.write(RBR_THR_DLL, value)
    }

    /// Reads the receiver buffer register (slot 0, DLAB clear).
    pub fn read_rbr(&mut self) -> (r: u32)
        ensures
            read_one(old(self).accesses(), final(self).accesses(), old(self).bus(), final(self).bus(), RBR_THR_DLL, r),
    {
        self.reg.read(RBR_THR_DLL)
    }

    /// Reads the divisor latch low byte (slot 0, DLAB set).
    pub fn read_dll(&mut self) -> (r: u32)
        ensures
            read_one(old(self).accesses(), final(self).accesses(), old(self).bus(), final(self).bus(), RBR_THR_DLL, r),
    {
        self.reg.read(RBR_THR_DLL)
    }

    /// Writes the divisor latch low byte (slot 0, DLAB set).
    pub fn write_dll(&mut self, value: u32)
        ensures
            wrote_one(old(self).accesses(), final(self).accesses(), old(self).bus(), final(self).bus(), RBR_THR_DLL, value),
    {
        self.reg.write(RBR_THR_DLL, value)
    }

    /// Reads the divisor latch high byte (slot 1, DLAB set).
    pub fn read_dlh(&mut self) -> (r: u32)
        ensures
            read_one(old(self).accesses(), final(self).accesses(), old(self).bus(), final(self).bus(), IER_DLH, r),
    {
        self.reg.read(IER_DLH)
    }

    /// Writes the divisor latch high byte (slot 1, DLAB set).
    pub fn write_dlh(&mut self, value: u32)
        ensures
            wrote_one(old(self).accesses(), final(self).accesses(), old(self).bus(), final(self).bus(), IER_DLH, value),
    {
        self.reg.write(IER_DLH, value)
    }

    /// Reads the interrupt enable register.
    pub fn read_ier(&mut self) -> (r: u32)
        ensures
            read_one(old(self).accesses(), final(self).accesses(), old(self).bus(), final(self).bus(), IER_DLH, r),
    {
        self.reg.read(IER_DLH)
    }

    /// Writes the interrupt enable register.
    pub fn write_ier(&mut self, value: u32)
        ensures
            wrote_one(old(self).accesses(), final(self).accesses(), old(self).bus(), final(self).bus(), IER_DLH, value),
    {
        self.reg.write(IER_DLH, value)
    }

    /// Reads the interrupt identification register.
    pub fn read_iir(&mut self) -> (r: u32)
        ensures
            read_one(old(self).accesses(), final(self).accesses(), old(self).bus(), final(self).bus(), IIR_FCR, r),
    {
        self.reg.read(IIR_FCR)
    }

    /// Reads slot 2, which reads as the interrupt identification register, not the FIFO control register.
    pub fn read_fcr(&mut self) -> (r: u32)
        ensures
            read_one(old(self).accesses(), final(self).accesses(), old(self).bus(), final(self).bus(), IIR_FCR, r),
    {
        self.reg.read(IIR_FCR)
    }

    /// Writes the FIFO control register.
    pub fn write_fcr(&mut self, value: u32)
        ensures
            wrote_one(old(self).accesses(), final(self).accesses(), old(self).bus(), final(self).bus(), IIR_FCR, value),
    {
        self.reg.write(IIR_FCR, value)
    }

    /// Reads the line control register.
    pub fn read_lcr(&mut self) -> (r: u32)
        ensures
            read_one(old(self).accesses(), final(self).accesses(), old(self).bus(), final(self).bus(), LCR, r),
    {
        self.reg.read(LCR)
    }

    /// Writes the line control register.
    pub fn write_lcr(&mut self, value: u32)
        ensures
            wrote_one(old(self).accesses(), final(self).accesses(), old(self).bus(), final(self).bus(), LCR, value),
    {
        self.reg.write(LCR, value)
    }

    /// Reads the modem control register.
    pub fn read_mcr(&mut self) -> (r: u32)
        ensures
            read_one(old(self).accesses(), final(self).accesses(), old(self).bus(), final(self).bus(), MCR, r),
    {
        self.reg.read(MCR)
    }

    /// Writes the modem control register.
    pub fn write_mcr(&mut self, value: u32)
        ensures
            wrote_one(old(self).accesses(), final(self).accesses(), old(self).bus(), final(self).bus(), MCR, value),
    {
        self.reg.write(MCR, value)
    }

    /// Reads the line status register.
    pub fn read_lsr(&mut self) -> (r: u32)
        ensures
            read_one(old(self).accesses(), final(self).accesses(), old(self).bus(), final(self).bus(), LSR, r),
    {
        self.reg.read(LSR)
    }

    /// Reads the modem status register.
    pub fn read_msr(&mut self) -> (r: u32)
        ensures
            read_one(old(self).accesses(), final(self).accesses(), old(self).bus(), final(self).bus(), MSR, r),
    {
        self.reg.read(MSR)
    }

    /// Reads the scratch register.
    pub fn read_sr(&mut self) -> (r: u32)
        ensures
            read_one(old(self).accesses(), final(self).accesses(), old(self).bus(), final(self).bus(), SCRATCH, r),
    {
        self.reg.read(SCRATCH)
    }

    /// Writes the scratch register.
    pub fn write_sr(&mut self, value: u32)
        ensures
            wrote_one(old(self).accesses(), final(self).accesses(), old(self).bus(), final(self).bus(), SCRATCH, value),
    {
        self.reg.write(SCRATCH, value)
    }
}

} // verus!
