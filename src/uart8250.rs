//! The 8250/16550-compatible UART.
//!
//! The driver owns its register block and records each access it makes in a
//! ghost log. Every operation states the exact accesses it appends to that
//! log and how its result follows from the values it read.

use vstd::prelude::*;
use crate::bus::{
    read_field, read_one, rmw, tested_bits, updated, wrote_one, Access, LoggedBus, RegisterBus,
};
use vstd::arithmetic::div_mod::lemma_div_denominator;
use crate::fields::{
    decode_fifo_info, decode_interrupt_type, decode_parity, decode_stop_bits, decode_word_length,
    decoded_parity, lemma_byte_fields, with_dlab, without_dlab, divisor_high, divisor_low, divisor_of, encode_parity, encode_stop_bits,
    encode_word_length, fifo_info_of, interrupt_type_of, stop_bits_of, with_parity,
    with_stop_bits, with_word_length, word_length_of, ChipFifoInfo, InterruptType,
    LineControlError, Parity, IER_DLH, IER_LPM, IER_MSI, IER_RDAI, IER_RLSI, IER_SM, IER_THREI,
    IIR_FCR, IIR_FIFO64, LCR, LCR_DLAB, LSR, LSR_BI, LSR_DHRE, LSR_DR, LSR_FE, LSR_OE, LSR_PE,
    LSR_RFE, LSR_THRE, MCR, MSR, MSR_CD, MSR_CTS, MSR_DCTS, MSR_DDCD, MSR_DDSR, MSR_DSR, MSR_RI,
    MSR_TERI, RBR_THR_DLL, SCRATCH,
};

verus! {

/// The transmit path could not take a byte.
#[derive(Clone, Copy, Debug, PartialEq, Eq, Structural)]
pub enum TransmitError {
    /// The transmit buffer is full, try again later.
    BufferFull,
}

impl TransmitError {
    /// A short description of the error.
    pub fn as_str(&self) -> (r: &'static str)
        ensures
            r@ == "UART buffer full"@,
    {
        proof {
            reveal_strlit("UART buffer full");
        }
        match self {
            TransmitError::BufferFull => "UART buffer full",
        }
    }
}

/// The accesses that program divisor `d`: read the line control value `a`,
/// set DLAB, write the low then the high latch byte, and write `a` back with
/// DLAB clear.
pub open spec fn divisor_ops(d: int, a: u8) -> Seq<Access<u8>> {
    seq![
        Access::Read(LCR, a),
        Access::Write(LCR, with_dlab(a)),
        Access::Write(RBR_THR_DLL, divisor_low(d)),
        Access::Write(IER_DLH, divisor_high(d)),
        Access::Write(LCR, without_dlab(a)),
    ]
}

/// The states that the accesses of `divisor_ops(d, a)` take a register block
/// through, from `b0` to `b5`.
pub open spec fn divisor_moves<B: RegisterBus<u8>>(b0: B, d: int, a: u8, b5: B) -> bool {
    exists|b1: B, b2: B, b3: B, b4: B|
        {
            &&& #[trigger] b0.read_spec(LCR, a, b1)
            &&& #[trigger] b1.write_spec(LCR, with_dlab(a), b2)
            &&& #[trigger] b2.write_spec(RBR_THR_DLL, divisor_low(d), b3)
            &&& #[trigger] b3.write_spec(IER_DLH, divisor_high(d), b4)
            &&& #[trigger] b4.write_spec(LCR, without_dlab(a), b5)
        }
}

/// The accesses of initialisation with divisor `d`: program the divisor
/// (reading `a`); eight data bits, no parity, one stop bit; FIFO on; modem
/// control off; then set the received-data-available enable (reading `c`
/// from the interrupt enable register).
pub open spec fn init_ops(d: int, a: u8, c: u8) -> Seq<Access<u8>> {
    divisor_ops(d, a) + seq![
        Access::Write(LCR, 0b0000_0011u8),
        Access::Write(IIR_FCR, 0b0000_0001u8),
        Access::Write(MCR, 0u8),
        Access::Read(IER_DLH, c),
        Access::Write(IER_DLH, c | IER_RDAI),
    ]
}

/// The states that the accesses of `init_ops(d, a, c)` take a register
/// block through, from `b0` to `b10`.
pub open spec fn init_moves<B: RegisterBus<u8>>(b0: B, d: int, a: u8, c: u8, b10: B) -> bool {
    exists|b5: B, b6: B, b7: B, b8: B, b9: B|
        {
            &&& #[trigger] divisor_moves(b0, d, a, b5)
            &&& #[trigger] b5.write_spec(LCR, 0b0000_0011u8, b6)
            &&& #[trigger] b6.write_spec(IIR_FCR, 0b0000_0001u8, b7)
            &&& #[trigger] b7.write_spec(MCR, 0u8, b8)
            &&& #[trigger] b8.read_spec(IER_DLH, c, b9)
            &&& #[trigger] b9.write_spec(IER_DLH, c | IER_RDAI, b10)
        }
}

/// The accesses of a receive attempt that reads status `s`: the receiver
/// buffer is read, giving `d`, only when the data ready bit is set.
pub open spec fn receive_ops(s: u8, d: u8) -> Seq<Access<u8>> {
    if s % 2 == 1 {
        seq![Access::Read(LSR, s), Access::Read(RBR_THR_DLL, d)]
    } else {
        seq![Access::Read(LSR, s)]
    }
}

/// The states that the accesses of `receive_ops(s, d)` take a register block
/// through, from `b0` to `b2`.
pub open spec fn receive_moves<B: RegisterBus<u8>>(b0: B, s: u8, d: u8, b2: B) -> bool {
    exists|b1: B|
        #[trigger] b0.read_spec(LSR, s, b1) && if s % 2 == 1 {
            b1.read_spec(RBR_THR_DLL, d, b2)
        } else {
            b1 == b2
        }
}

/// The result of a receive attempt that read status `s` and then data `d`.
pub open spec fn receive_result(s: u8, d: u8) -> Option<u8> {
    if s % 2 == 1 {
        Some(d)
    } else {
        None
    }
}

/// The accesses of a transmit attempt of `byte` that reads status `s`: the
/// byte is written only when the transmitter holding register is empty.
pub open spec fn transmit_ops(s: u8, byte: u8) -> Seq<Access<u8>> {
    if (s / 32) % 2 == 1 {
        seq![Access::Read(LSR, s), Access::Write(RBR_THR_DLL, byte)]
    } else {
        seq![Access::Read(LSR, s)]
    }
}

/// The states that the accesses of `transmit_ops(s, byte)` take a register
/// block through, from `b0` to `b2`.
pub open spec fn transmit_moves<B: RegisterBus<u8>>(b0: B, s: u8, byte: u8, b2: B) -> bool {
    exists|b1: B|
        #[trigger] b0.read_spec(LSR, s, b1) && if (s / 32) % 2 == 1 {
            b1.write_spec(RBR_THR_DLL, byte, b2)
        } else {
            b1 == b2
        }
}

/// The result of a transmit attempt that read status `s`.
pub open spec fn transmit_result(s: u8) -> Result<(), TransmitError> {
    if (s / 32) % 2 == 1 {
        Ok(())
    } else {
        Err(TransmitError::BufferFull)
    }
}

/// # MMIO version of an 8250 UART.
///
/// The register block `B` presents the eight byte-wide registers by slot.
pub struct MmioUart8250<B> {
    reg: LoggedBus<B, u8>,
}

impl<B: RegisterBus<u8>> MmioUart8250<B> {
    /// The register accesses made so far, oldest first.
    pub closed spec fn accesses(&self) -> Seq<Access<u8>> {
        self.reg.accesses()
    }

    /// The register block.
    pub closed spec fn bus(&self) -> B {
        self.reg.bus()
    }

    /// Creates a driver for the register block `reg`.
    pub fn new(reg: B) -> (r: Self)
        ensures
            r.bus() == reg,
            r.accesses() == Seq::<Access<u8>>::empty(),
    {
        MmioUart8250 { reg: LoggedBus::new(reg) }
    }

    /// Points the driver at another register block.
    pub fn set_base_address(&mut self, reg: B)
        ensures
            final(self).bus() == reg,
            final(self).accesses() == old(self).accesses(),
    {
        self.reg.replace(reg);
    }

    /// The register block.
    pub fn registers(&self) -> (r: &B)
        ensures
            *r == self.bus(),
    {
        self.reg.get_ref()
    }

    /// The register block, for access that the driver does not log.
    pub fn registers_mut(&mut self) -> (r: &mut B)
        ensures
            *r == old(self).bus(),
            final(self).bus() == *final(r),
            final(self).accesses() == old(self).accesses(),
    {
        self.reg.get_mut()
    }

    /// Reads IIR bits 3:1 to get the pending interrupt: `None` when bit 0
    /// says that no interrupt is pending. Cause codes 4, 5 and 7 report as
    /// `Reserved`.
    pub fn read_interrupt_type(&mut self) -> (r: Option<InterruptType>)
        ensures
            read_field(
                old(self).accesses(),
                final(self).accesses(),
                old(self).bus(),
                final(self).bus(),
                IIR_FCR,
                |v: u8| interrupt_type_of(v),
                r,
            ),
    {
        let iir = self.reg.read(IIR_FCR);
        let r = decode_interrupt_type(iir);
        assert(r == (|v: u8| interrupt_type_of(v))(iir));
        r
    }

    /// Reads IIR bits 7:6 to get the FIFO state.
    pub fn read_fifo_status(&mut self) -> (r: ChipFifoInfo)
        ensures
            read_field(
                old(self).accesses(),
                final(self).accesses(),
                old(self).bus(),
                final(self).bus(),
                IIR_FCR,
                |v: u8| fifo_info_of(v),
                r,
            ),
    {
        let iir = self.reg.read(IIR_FCR);
        let r = decode_fifo_info(iir);
        assert(r == (|v: u8| fifo_info_of(v))(iir));
        r
    }

    /// Gets the parity of the line protocol from LCR bits 5:3; an error when
    /// the field holds a code that names no parity mode.
    pub fn get_parity(&mut self) -> (r: Result<Parity, LineControlError>)
        ensures
            read_field(
                old(self).accesses(),
                final(self).accesses(),
                old(self).bus(),
                final(self).bus(),
                LCR,
                |v: u8| decoded_parity(v),
                r,
            ),
    {
        let lcr = self.reg.read(LCR);
        let r = decode_parity(lcr);
        assert(r == (|v: u8| decoded_parity(v))(lcr));
        r
    }

    /// Sets the parity field of LCR, keeping its other bits.
    pub fn set_parity(&mut self, parity: Parity)
        ensures
            updated(
                old(self).accesses(),
                final(self).accesses(),
                old(self).bus(),
                final(self).bus(),
                LCR,
                |v: u8| with_parity(v, parity),
            ),
    {
        let v = self.reg.read(LCR);
        let ghost b1 = self.bus();
        self.write_lcr(encode_parity(v, parity));
        assert(old(self).bus().read_spec(LCR, v, b1));
        assert(rmw(
            old(self).accesses(),
            final(self).accesses(),
            old(self).bus(),
            final(self).bus(),
            LCR,
            v,
            (|x: u8| with_parity(x, parity))(v),
        ));
    }

    /// Gets the number of stop bits: 1, or 2 (which stands for 1.5 with
    /// five-bit words).
    pub fn get_stop_bit(&mut self) -> (r: u8)
        ensures
            read_field(
                old(self).accesses(),
                final(self).accesses(),
                old(self).bus(),
                final(self).bus(),
                LCR,
                |v: u8| stop_bits_of(v),
                r,
            ),
    {
        let lcr = self.reg.read(LCR);
        let r = decode_stop_bits(lcr);
        assert(r == (|v: u8| stop_bits_of(v))(lcr));
        r
    }

    /// Sets the number of stop bits; only 1 and 2 are accepted, and any other
    /// count leaves the register untouched.
    pub fn set_stop_bit(&mut self, stop_bit: u8) -> (r: Result<(), LineControlError>)
        ensures
            stop_bit == 1 || stop_bit == 2 ==> r == Ok::<(), LineControlError>(()) && updated(
                old(self).accesses(),
                final(self).accesses(),
                old(self).bus(),
                final(self).bus(),
                LCR,
                |v: u8| with_stop_bits(v, stop_bit),
            ),
            !(stop_bit == 1 || stop_bit == 2) ==> r == Err::<(), LineControlError>(
                LineControlError::InvalidStopBits,
            ) && final(self).accesses() == old(self).accesses() && final(self).bus() == old(
                self,
            ).bus(),
    {
        if stop_bit == 1 || stop_bit == 2 {
            let v = self.reg.read(LCR);
            let ghost b1 = self.bus();
            self.write_lcr(encode_stop_bits(v, stop_bit));
            assert(old(self).bus().read_spec(LCR, v, b1));
            assert(rmw(
                old(self).accesses(),
                final(self).accesses(),
                old(self).bus(),
                final(self).bus(),
                LCR,
                v,
                (|x: u8| with_stop_bits(x, stop_bit))(v),
            ));
            Ok(())
        } else {
            Err(LineControlError::InvalidStopBits)
        }
    }

    /// Gets the word length, 5 to 8 bits.
    pub fn get_word_length(&mut self) -> (r: u8)
        ensures
            read_field(
                old(self).accesses(),
                final(self).accesses(),
                old(self).bus(),
                final(self).bus(),
                LCR,
                |v: u8| word_length_of(v),
                r,
            ),
    {
        let lcr = self.reg.read(LCR);
        let r = decode_word_length(lcr);
        assert(r == (|v: u8| word_length_of(v))(lcr));
        r
    }

    /// Sets the word length; only 5 to 8 bits are accepted, and any other
    /// length leaves the register untouched.
    pub fn set_word_length(&mut self, length: u8) -> (r: Result<(), LineControlError>)
        ensures
            5 <= length <= 8 ==> r == Ok::<(), LineControlError>(()) && updated(
                old(self).accesses(),
                final(self).accesses(),
                old(self).bus(),
                final(self).bus(),
                LCR,
                |v: u8| with_word_length(v, length),
            ),
            !(5 <= length <= 8) ==> r == Err::<(), LineControlError>(
                LineControlError::InvalidWordLength,
            ) && final(self).accesses() == old(self).accesses() && final(self).bus() == old(
                self,
            ).bus(),
    {
        if 5 <= length && length <= 8 {
            let v = self.reg.read(LCR);
            let ghost b1 = self.bus();
            self.write_lcr(encode_word_length(v, length));
            assert(old(self).bus().read_spec(LCR, v, b1));
            assert(rmw(
                old(self).accesses(),
                final(self).accesses(),
                old(self).bus(),
                final(self).bus(),
                LCR,
                v,
                (|x: u8| with_word_length(x, length))(v),
            ));
            Ok(())
        } else {
            Err(LineControlError::InvalidWordLength)
        }
    }

    /// Reads a byte: `None` when the data ready bit (LSR bit 0) is clear, in
    /// which case the receiver buffer is not read.
    pub fn read_byte(&mut self) -> (r: Option<u8>)
        ensures
            exists|s: u8, d: u8| #![trigger receive_ops(s, d)]
                {
                    &&& final(self).accesses() == old(self).accesses() + receive_ops(s, d)
                    &&& receive_moves(old(self).bus(), s, d, final(self).bus())
                    &&& r == receive_result(s, d)
                },
    {
        let s = self.reg.read(LSR);
        let ghost b1 = self.bus();
        proof {
            lemma_byte_fields(s);
        }
        if s & LSR_DR != 0 {
            let d = self.read_rbr();
            assert(final(self).accesses() == old(self).accesses() + receive_ops(s, d));
            assert(old(self).bus().read_spec(LSR, s, b1));
            assert(receive_moves(old(self).bus(), s, d, final(self).bus()));
            Some(d)
        } else {
            assert(final(self).accesses() == old(self).accesses() + receive_ops(s, 0));
            assert(old(self).bus().read_spec(LSR, s, b1));
            assert(receive_moves(old(self).bus(), s, 0, final(self).bus()));
            None
        }
    }

    /// Writes a byte: fails with `BufferFull`, writing nothing, when the
    /// transmitter holding register empty bit (LSR bit 5) is clear.
    pub fn write_byte(&mut self, byte: u8) -> (r: Result<(), TransmitError>)
        ensures
            exists|s: u8| #![trigger transmit_ops(s, byte)]
                {
                    &&& final(self).accesses() == old(self).accesses() + transmit_ops(s, byte)
                    &&& transmit_moves(old(self).bus(), s, byte, final(self).bus())
                    &&& r == transmit_result(s)
                },
    {
        let s = self.reg.read(LSR);
        let ghost b1 = self.bus();
        proof {
            lemma_byte_fields(s);
        }
        if s & LSR_THRE != 0 {
            self.write_thr(byte);
            assert(final(self).accesses() == old(self).accesses() + transmit_ops(s, byte));
            assert(old(self).bus().read_spec(LSR, s, b1));
            assert(transmit_moves(old(self).bus(), s, byte, final(self).bus()));
            Ok(())
        } else {
            assert(final(self).accesses() == old(self).accesses() + transmit_ops(s, byte));
            assert(old(self).bus().read_spec(LSR, s, b1));
            assert(transmit_moves(old(self).bus(), s, byte, final(self).bus()));
            Err(TransmitError::BufferFull)
        }
    }

    /// Initialises the UART: divisor for `baud_rate` from `clock`, eight data
    /// bits, no parity, one stop bit, FIFO enabled, modem control cleared, and
    /// the received data available interrupt enabled. The transmitter holding
    /// register empty interrupt is left as it was.
    pub fn init(&mut self, clock: usize, baud_rate: usize)
        requires
            baud_rate > 0,
        ensures
            exists|a: u8, c: u8| #![trigger init_ops(divisor_of(clock, baud_rate), a, c)]
                {
                    &&& final(self).accesses() == old(self).accesses() + init_ops(
                        divisor_of(clock, baud_rate),
                        a,
                        c,
                    )
                    &&& init_moves(old(self).bus(), divisor_of(clock, baud_rate), a, c, final(self).bus())
                },
    {
        let ghost d = divisor_of(clock, baud_rate);
        let a = self.program_divisor(clock, baud_rate);
        let ghost b5 = self.bus();
        self.write_lcr(0b0000_0011);
        let ghost b6 = self.bus();
        self.write_fcr(0b0000_0001);
        let ghost b7 = self.bus();
        self.write_mcr(0);
        let ghost b8 = self.bus();
        let c = self.reg.read(IER_DLH);
        let ghost b9 = self.bus();
        self.reg.write(IER_DLH, c | IER_RDAI);
        assert(final(self).accesses() == old(self).accesses() + init_ops(d, a, c));
        assert(divisor_moves(old(self).bus(), d, a, b5));
        assert(b9.write_spec(IER_DLH, c | IER_RDAI, final(self).bus()));
        assert(init_moves(old(self).bus(), d, a, c, final(self).bus()));
    }

    /// Sets DLAB, writes the divisor for `baud_rate` from `clock` to the
    /// divisor latch, low byte first, then writes back the line control value
    /// read at the start, with DLAB clear.
    pub fn set_divisor(&mut self, clock: usize, baud_rate: usize)
        requires
            baud_rate > 0,
        ensures
            exists|a: u8| #![trigger divisor_ops(divisor_of(clock, baud_rate), a)]
                {
                    &&& final(self).accesses() == old(self).accesses() + divisor_ops(
                        divisor_of(clock, baud_rate),
                        a,
                    )
                    &&& divisor_moves(old(self).bus(), divisor_of(clock, baud_rate), a, final(self).bus())
                },
    {
        self.program_divisor(clock, baud_rate);
    }

    /// The body of `set_divisor`; returns the line control value read.
    fn program_divisor(&mut self, clock: usize, baud_rate: usize) -> (a: u8)
        requires
            baud_rate > 0,
        ensures
            final(self).accesses() == old(self).accesses() + divisor_ops(divisor_of(clock, baud_rate), a),
            divisor_moves(old(self).bus(), divisor_of(clock, baud_rate), a, final(self).bus()),
    {
        let a = self.reg.read(LCR);
        let ghost b1 = self.bus();
        proof {
            lemma_byte_fields(a);
        }
        self.write_lcr(a | LCR_DLAB);
        let ghost b2 = self.bus();
        let divisor = clock / 16 / baud_rate;
        proof {
            lemma_div_denominator(clock as int, 16, baud_rate as int);
        }
        self.write_dll((divisor % 256) as u8);
        let ghost b3 = self.bus();
        self.write_dlh(((divisor / 256) % 256) as u8);
        let ghost b4 = self.bus();
        self.write_lcr(a & !LCR_DLAB);
        assert(final(self).accesses() == old(self).accesses() + divisor_ops(
            divisor_of(clock, baud_rate),
            a,
        ));
        assert(old(self).bus().read_spec(LCR, a, b1));
        assert(b4.write_spec(LCR, without_dlab(a), final(self).bus()));
        a
    }

    /// Writes the transmitter holding register (slot 0, DLAB clear).
    fn write_thr(&mut self, value: u8)
        ensures
            wrote_one(old(self).accesses(), final(self).accesses(), old(self).bus(), final(self).bus(), RBR_THR_DLL, value),
    {
        self.reg.write(RBR_THR_DLL, value)
    }

    /// Reads the receiver buffer register (slot 0, DLAB clear).
    fn read_rbr(&mut self) -> (v: u8)
        ensures
            read_one(old(self).accesses(), final(self).accesses(), old(self).bus(), final(self).bus(), RBR_THR_DLL, v),
    {
        self.reg.read(RBR_THR_DLL)
    }

    /// Writes the divisor latch low byte (slot 0, DLAB set).
    fn write_dll(&mut self, value: u8)
        ensures
            wrote_one(old(self).accesses(), final(self).accesses(), old(self).bus(), final(self).bus(), RBR_THR_DLL, value),
    {
        self.reg.write(RBR_THR_DLL, value)
    }

    /// Writes the divisor latch high byte (slot 1, DLAB set).
    fn write_dlh(&mut self, value: u8)
        ensures
            wrote_one(old(self).accesses(), final(self).accesses(), old(self).bus(), final(self).bus(), IER_DLH, value),
    {
        self.reg.write(IER_DLH, value)
    }

    /// Writes the FIFO control register.
    fn write_fcr(&mut self, value: u8)
        ensures
            wrote_one(old(self).accesses(), final(self).accesses(), old(self).bus(), final(self).bus(), IIR_FCR, value),
    {
        self.reg.write(IIR_FCR, value)
    }

    /// Writes the line control register.
    fn write_lcr(&mut self, value: u8)
        ensures
            wrote_one(old(self).accesses(), final(self).accesses(), old(self).bus(), final(self).bus(), LCR, value),
    {
        self.reg.write(LCR, value)
    }

    /// Writes the modem control register.
    fn write_mcr(&mut self, value: u8)
        ensures
            wrote_one(old(self).accesses(), final(self).accesses(), old(self).bus(), final(self).bus(), MCR, value),
    {
        self.reg.write(MCR, value)
    }

    /// Whether low power mode (16750) (IER[5]) is enabled.
    pub fn is_low_power_mode_enabled(&mut self) -> (r: bool)
        ensures
            tested_bits(old(self).accesses(), final(self).accesses(), old(self).bus(), final(self).bus(), IER_DLH, IER_LPM, r),
    {
        self.reg.test_bits(IER_DLH, IER_LPM)
    }

    /// Enables low power mode (16750) (IER[5]).
    pub fn enable_low_power_mode(&mut self)
        ensures
            updated(old(self).accesses(), final(self).accesses(), old(self).bus(), final(self).bus(), IER_DLH, |v: u8| v | IER_LPM),
    {
        self.reg.set_bits(IER_DLH, IER_LPM);
    }

    /// Disables low power mode (16750) (IER[5]).
    pub fn disable_low_power_mode(&mut self)
        ensures
            updated(old(self).accesses(), final(self).accesses(), old(self).bus(), final(self).bus(), IER_DLH, |v: u8| v & !IER_LPM),
    {
        self.reg.clear_bits(IER_DLH, IER_LPM);
    }

    /// Whether sleep mode (16750) (IER[4]) is enabled.
    pub fn is_sleep_mode_enabled(&mut self) -> (r: bool)
        ensures
            tested_bits(old(self).accesses(), final(self).accesses(), old(self).bus(), final(self).bus(), IER_DLH, IER_SM, r),
    {
        self.reg.test_bits(IER_DLH, IER_SM)
    }

    /// Enables sleep mode (16750) (IER[4]).
    pub fn enable_sleep_mode(&mut self)
        ensures
            updated(old(self).accesses(), final(self).accesses(), old(self).bus(), final(self).bus(), IER_DLH, |v: u8| v | IER_SM),
    {
        self.reg.set_bits(IER_DLH, IER_SM);
    }

    /// Disables sleep mode (16750) (IER[4]).
    pub fn disable_sleep_mode(&mut self)
        ensures
            updated(old(self).accesses(), final(self).accesses(), old(self).bus(), final(self).bus(), IER_DLH, |v: u8| v & !IER_SM),
    {
        self.reg.clear_bits(IER_DLH, IER_SM);
    }

    /// Whether the modem status interrupt (IER[3]) is enabled.
    pub fn is_modem_status_interrupt_enabled(&mut self) -> (r: bool)
        ensures
            tested_bits(old(self).accesses(), final(self).accesses(), old(self).bus(), final(self).bus(), IER_DLH, IER_MSI, r),
    {
        self.reg.test_bits(IER_DLH, IER_MSI)
    }

    /// Enables the modem status interrupt (IER[3]).
    pub fn enable_modem_status_interrupt(&mut self)
        ensures
            updated(old(self).accesses(), final(self).accesses(), old(self).bus(), final(self).bus(), IER_DLH, |v: u8| v | IER_MSI),
    {
        self.reg.set_bits(IER_DLH, IER_MSI);
    }

    /// Disables the modem status interrupt (IER[3]).
    pub fn disable_modem_status_interrupt(&mut self)
        ensures
            updated(old(self).accesses(), final(self).accesses(), old(self).bus(), final(self).bus(), IER_DLH, |v: u8| v & !IER_MSI),
    {
        self.reg.clear_bits(IER_DLH, IER_MSI);
    }

    /// Whether the receiver line status interrupt (IER[2]) is enabled.
    pub fn is_receiver_line_status_interrupt_enabled(&mut self) -> (r: bool)
        ensures
            tested_bits(old(self).accesses(), final(self).accesses(), old(self).bus(), final(self).bus(), IER_DLH, IER_RLSI, r),
    {
        self.reg.test_bits(IER_DLH, IER_RLSI)
    }

    /// Enables the receiver line status interrupt (IER[2]).
    pub fn enable_receiver_line_status_interrupt(&mut self)
        ensures
            updated(old(self).accesses(), final(self).accesses(), old(self).bus(), final(self).bus(), IER_DLH, |v: u8| v | IER_RLSI),
    {
        self.reg.set_bits(IER_DLH, IER_RLSI);
    }

    /// Disables the receiver line status interrupt (IER[2]).
    pub fn disable_receiver_line_status_interrupt(&mut self)
        ensures
            updated(old(self).accesses(), final(self).accesses(), old(self).bus(), final(self).bus(), IER_DLH, |v: u8| v & !IER_RLSI),
    {
        self.reg.clear_bits(IER_DLH, IER_RLSI);
    }

    /// Whether the transmitter holding register empty interrupt (IER[1]) is enabled.
    pub fn is_transmitter_holding_register_empty_interrupt_enabled(&mut self) -> (r: bool)
        ensures
            tested_bits(old(self).accesses(), final(self).accesses(), old(self).bus(), final(self).bus(), IER_DLH, IER_THREI, r),
    {
        self.reg.test_bits(IER_DLH, IER_THREI)
    }

    /// Enables the transmitter holding register empty interrupt (IER[1]).
    pub fn enable_transmitter_holding_register_empty_interrupt(&mut self)
        ensures
            updated(old(self).accesses(), final(self).accesses(), old(self).bus(), final(self).bus(), IER_DLH, |v: u8| v | IER_THREI),
    {
        self.reg.set_bits(IER_DLH, IER_THREI);
    }

    /// Disables the transmitter holding register empty interrupt (IER[1]).
    pub fn disable_transmitter_holding_register_empty_interrupt(&mut self)
        ensures
            updated(old(self).accesses(), final(self).accesses(), old(self).bus(), final(self).bus(), IER_DLH, |v: u8| v & !IER_THREI),
    {
        self.reg.clear_bits(IER_DLH, IER_THREI);
    }

    /// Whether the received data available interrupt (IER[0]) is enabled.
    pub fn is_received_data_available_interrupt_enabled(&mut self) -> (r: bool)
        ensures
            tested_bits(old(self).accesses(), final(self).accesses(), old(self).bus(), final(self).bus(), IER_DLH, IER_RDAI, r),
    {
        self.reg.test_bits(IER_DLH, IER_RDAI)
    }

    /// Enables the received data available interrupt (IER[0]).
    pub fn enable_received_data_available_interrupt(&mut self)
        ensures
            updated(old(self).accesses(), final(self).accesses(), old(self).bus(), final(self).bus(), IER_DLH, |v: u8| v | IER_RDAI),
    {
        self.reg.set_bits(IER_DLH, IER_RDAI);
    }

    /// Disables the received data available interrupt (IER[0]).
    pub fn disable_received_data_available_interrupt(&mut self)
        ensures
            updated(old(self).accesses(), final(self).accesses(), old(self).bus(), final(self).bus(), IER_DLH, |v: u8| v & !IER_RDAI),
    {
        self.reg.clear_bits(IER_DLH, IER_RDAI);
    }

    /// Whether there is an error in the received FIFO (LSR[7]).
    pub fn is_received_fifo_error(&mut self) -> (r: bool)
        ensures
            tested_bits(old(self).accesses(), final(self).accesses(), old(self).bus(), final(self).bus(), LSR, LSR_RFE, r),
    {
        self.reg.test_bits(LSR, LSR_RFE)
    }

    /// Whether the data holding registers are empty, i.e. all data given has been sent (LSR[6]).
    pub fn is_data_holding_registers_empty(&mut self) -> (r: bool)
        ensures
            tested_bits(old(self).accesses(), final(self).accesses(), old(self).bus(), final(self).bus(), LSR, LSR_DHRE, r),
    {
        self.reg.test_bits(LSR, LSR_DHRE)
    }

    /// Whether the transmitter holding register is empty, i.e. more data can be given (LSR[5]).
    pub fn is_transmitter_holding_register_empty(&mut self) -> (r: bool)
        ensures
            tested_bits(old(self).accesses(), final(self).accesses(), old(self).bus(), final(self).bus(), LSR, LSR_THRE, r),
    {
        self.reg.test_bits(LSR, LSR_THRE)
    }

    /// Whether a break was received (LSR[4]).
    pub fn is_break_interrupt(&mut self) -> (r: bool)
        ensures
            tested_bits(old(self).accesses(), final(self).accesses(), old(self).bus(), final(self).bus(), LSR, LSR_BI, r),
    {
        self.reg.test_bits(LSR, LSR_BI)
    }

    /// Whether a framing error was seen (LSR[3]).
    pub fn is_framing_error(&mut self) -> (r: bool)
        ensures
            tested_bits(old(self).accesses(), final(self).accesses(), old(self).bus(), final(self).bus(), LSR, LSR_FE, r),
    {
        self.reg.test_bits(LSR, LSR_FE)
    }

    /// Whether a parity error was seen (LSR[2]).
    pub fn is_parity_error(&mut self) -> (r: bool)
        ensures
            tested_bits(old(self).accesses(), final(self).accesses(), old(self).bus(), final(self).bus(), LSR, LSR_PE, r),
    {
        self.reg.test_bits(LSR, LSR_PE)
    }

    /// Whether received data was lost to an overrun (LSR[1]).
    pub fn is_overrun_error(&mut self) -> (r: bool)
        ensures
            tested_bits(old(self).accesses(), final(self).accesses(), old(self).bus(), final(self).bus(), LSR, LSR_OE, r),
    {
        self.reg.test_bits(LSR, LSR_OE)
    }

    /// Whether received data is ready (LSR[0]).
    pub fn is_data_ready(&mut self) -> (r: bool)
        ensures
            tested_bits(old(self).accesses(), final(self).accesses(), old(self).bus(), final(self).bus(), LSR, LSR_DR, r),
    {
        self.reg.test_bits(LSR, LSR_DR)
    }

    /// Whether carrier detect is asserted (MSR[7]).
    pub fn is_carrier_detect(&mut self) -> (r: bool)
        ensures
            tested_bits(old(self).accesses(), final(self).accesses(), old(self).bus(), final(self).bus(), MSR, MSR_CD, r),
    {
        self.reg.test_bits(MSR, MSR_CD)
    }

    /// Whether ring indicator is asserted (MSR[6]).
    pub fn is_ring_indicator(&mut self) -> (r: bool)
        ensures
            tested_bits(old(self).accesses(), final(self).accesses(), old(self).bus(), final(self).bus(), MSR, MSR_RI, r),
    {
        self.reg.test_bits(MSR, MSR_RI)
    }

    /// Whether data set ready is asserted (MSR[5]).
    pub fn is_data_set_ready(&mut self) -> (r: bool)
        ensures
            tested_bits(old(self).accesses(), final(self).accesses(), old(self).bus(), final(self).bus(), MSR, MSR_DSR, r),
    {
        self.reg.test_bits(MSR, MSR_DSR)
    }

    /// Whether clear to send is asserted (MSR[4]).
    pub fn is_clear_to_send(&mut self) -> (r: bool)
        ensures
            tested_bits(old(self).accesses(), final(self).accesses(), old(self).bus(), final(self).bus(), MSR, MSR_CTS, r),
    {
        self.reg.test_bits(MSR, MSR_CTS)
    }

    /// Whether carrier detect changed (MSR[3]).
    pub fn is_delta_data_carrier_detect(&mut self) -> (r: bool)
        ensures
            tested_bits(old(self).accesses(), final(self).accesses(), old(self).bus(), final(self).bus(), MSR, MSR_DDCD, r),
    {
        self.reg.test_bits(MSR, MSR_DDCD)
    }

    /// Whether the ring indicator had a trailing edge (MSR[2]).
    pub fn is_trailing_edge_ring_indicator(&mut self) -> (r: bool)
        ensures
            tested_bits(old(self).accesses(), final(self).accesses(), old(self).bus(), final(self).bus(), MSR, MSR_TERI, r),
    {
        self.reg.test_bits(MSR, MSR_TERI)
    }

    /// Whether data set ready changed (MSR[1]).
    pub fn is_delta_data_set_ready(&mut self) -> (r: bool)
        ensures
            tested_bits(old(self).accesses(), final(self).accesses(), old(self).bus(), final(self).bus(), MSR, MSR_DDSR, r),
    {
        self.reg.test_bits(MSR, MSR_DDSR)
    }

    /// Whether clear to send changed (MSR[0]).
    pub fn is_delta_clear_to_send(&mut self) -> (r: bool)
        ensures
            tested_bits(old(self).accesses(), final(self).accesses(), old(self).bus(), final(self).bus(), MSR, MSR_DCTS, r),
    {
        self.reg.test_bits(MSR, MSR_DCTS)
    }

    /// Whether the 64-byte FIFO (16750) is enabled (IIR[5]).
    pub fn is_64byte_fifo_enabled(&mut self) -> (r: bool)
        ensures
            tested_bits(old(self).accesses(), final(self).accesses(), old(self).bus(), final(self).bus(), IIR_FCR, IIR_FIFO64, r),
    {
        self.reg.test_bits(IIR_FCR, IIR_FIFO64)
    }

    /// Writes the interrupt enable register.
    pub fn write_ier(&mut self, value: u8)
        ensures
            wrote_one(old(self).accesses(), final(self).accesses(), old(self).bus(), final(self).bus(), IER_DLH, value),
    {
        self.reg.write(IER_DLH, value)
    }

    /// Reads the scratch register.
    pub fn read_sr(&mut self) -> (r: u8)
        ensures
            read_one(old(self).accesses(), final(self).accesses(), old(self).bus(), final(self).bus(), SCRATCH, r),
    {
        self.reg.read(SCRATCH)
    }

    /// Writes the scratch register.
    pub fn write_sr(&mut self, value: u8)
        ensures
            wrote_one(old(self).accesses(), final(self).accesses(), old(self).bus(), final(self).bus(), SCRATCH, value),
    {
        self.reg.write(SCRATCH, value)
    }
}

} // verus!
