//! Bit fields of the 8250/16550 registers: slot indices, bit masks, the
//! enumerations that fields decode to, and the encodings of the line control
//! fields, with the laws that tie each field's setter to its getter.

use vstd::prelude::*;

verus! {

/// Slot 0: receiver buffer (read), transmitter holding register (write), or
/// divisor latch low byte while DLAB is set.
pub const RBR_THR_DLL: usize = 0;
/// Slot 1: interrupt enable register, or divisor latch high byte while DLAB is set.
pub const IER_DLH: usize = 1;
/// Slot 2: interrupt identification (read) / FIFO control (write).
pub const IIR_FCR: usize = 2;
/// Slot 3: line control register.
pub const LCR: usize = 3;
/// Slot 4: modem control register.
pub const MCR: usize = 4;
/// Slot 5: line status register.
pub const LSR: usize = 5;
/// Slot 6: modem status register.
pub const MSR: usize = 6;
/// Slot 7: scratch register.
pub const SCRATCH: usize = 7;

/// Interrupt enable: received data available.
pub const IER_RDAI: u8 = 0b0000_0001;
/// Interrupt enable: transmitter holding register empty.
pub const IER_THREI: u8 = 0b0000_0010;
/// Interrupt enable: receiver line status.
pub const IER_RLSI: u8 = 0b0000_0100;
/// Interrupt enable: modem status.
pub const IER_MSI: u8 = 0b0000_1000;
/// Interrupt enable: sleep mode (16750).
pub const IER_SM: u8 = 0b0001_0000;
/// Interrupt enable: low power mode (16750).
pub const IER_LPM: u8 = 0b0010_0000;

/// Line status: data ready.
pub const LSR_DR: u8 = 0b0000_0001;
/// Line status: overrun error.
pub const LSR_OE: u8 = 0b0000_0010;
/// Line status: parity error.
pub const LSR_PE: u8 = 0b0000_0100;
/// Line status: framing error.
pub const LSR_FE: u8 = 0b0000_1000;
/// Line status: break interrupt.
pub const LSR_BI: u8 = 0b0001_0000;
/// Line status: transmitter holding register empty.
pub const LSR_THRE: u8 = 0b0010_0000;
/// Line status: data holding registers empty.
pub const LSR_DHRE: u8 = 0b0100_0000;
/// Line status: error in received FIFO.
pub const LSR_RFE: u8 = 0b1000_0000;

/// Modem status: delta clear to send.
pub const MSR_DCTS: u8 = 0b0000_0001;
/// Modem status: delta data set ready.
pub const MSR_DDSR: u8 = 0b0000_0010;
/// Modem status: trailing edge ring indicator.
pub const MSR_TERI: u8 = 0b0000_0100;
/// Modem status: delta data carrier detect.
pub const MSR_DDCD: u8 = 0b0000_1000;
/// Modem status: clear to send.
pub const MSR_CTS: u8 = 0b0001_0000;
/// Modem status: data set ready.
pub const MSR_DSR: u8 = 0b0010_0000;
/// Modem status: ring indicator.
pub const MSR_RI: u8 = 0b0100_0000;
/// Modem status: carrier detect.
pub const MSR_CD: u8 = 0b1000_0000;

/// Line control: divisor latch access bit.
pub const LCR_DLAB: u8 = 0b1000_0000;
/// Line control: the parity field, bits 5:3.
pub const LCR_PARITY: u8 = 0b0011_1000;
/// Line control: the stop bit field, bit 2.
pub const LCR_STOP: u8 = 0b0000_0100;
/// Line control: the word length field, bits 1:0.
pub const LCR_WORD: u8 = 0b0000_0011;

/// Interrupt identification: bits 7:6, the FIFO state.
pub const IIR_FIFO: u8 = 0b1100_0000;
/// Interrupt identification: the 64-byte FIFO is enabled (16750).
pub const IIR_FIFO64: u8 = 0b0010_0000;
/// Interrupt identification: bit 0, set when no interrupt is pending.
pub const IIR_NO_PENDING: u8 = 0b0000_0001;

/// The FIFO state that bits 7:6 of the interrupt identification register report.
#[derive(Clone, Copy, Debug, PartialEq, Eq, Structural)]
pub enum ChipFifoInfo {
    NoFifo,
    Reserved,
    EnabledNoFunction,
    Enabled,
}

/// The cause of a pending interrupt.
#[derive(Clone, Copy, Debug, PartialEq, Eq, Structural)]
pub enum InterruptType {
    ModemStatus,
    TransmitterHoldingRegisterEmpty,
    ReceivedDataAvailable,
    ReceiverLineStatus,
    Timeout,
    Reserved,
}

/// Parity mode of the serial line.
#[derive(Clone, Copy, Debug, PartialEq, Eq, Structural)]
pub enum Parity {
    No,
    Odd,
    Even,
    Mark,
    Space,
}

/// A line control setting was refused, or the register holds no valid setting.
#[derive(Clone, Copy, Debug, PartialEq, Eq, Structural)]
pub enum LineControlError {
    /// A word length other than 5, 6, 7 or 8 bits was asked for.
    InvalidWordLength,
    /// A stop bit count other than 1 or 2 was asked for.
    InvalidStopBits,
    /// The parity field holds a code that names no parity mode.
    UnknownParity,
}

/// The FIFO state in the interrupt identification value `iir`.
pub open spec fn fifo_info_of(iir: u8) -> ChipFifoInfo {
    let f = iir / 64;
    if f == 0 {
        ChipFifoInfo::NoFifo
    } else if f == 1 {
        ChipFifoInfo::Reserved
    } else if f == 2 {
        ChipFifoInfo::EnabledNoFunction
    } else {
        ChipFifoInfo::Enabled
    }
}

/// The interrupt cause that a three-bit cause code (IIR bits 3:1) names.
/// Codes 4, 5 and 7 have no defined meaning.
pub open spec fn cause_of(code: u8) -> InterruptType {
    if code == 0 {
        InterruptType::ModemStatus
    } else if code == 1 {
        InterruptType::TransmitterHoldingRegisterEmpty
    } else if code == 2 {
        InterruptType::ReceivedDataAvailable
    } else if code == 3 {
        InterruptType::ReceiverLineStatus
    } else if code == 6 {
        InterruptType::Timeout
    } else {
        InterruptType::Reserved
    }
}

/// The pending interrupt in the interrupt identification value `iir`:
/// none when bit 0 is set, else the cause in bits 3:1.
pub open spec fn interrupt_type_of(iir: u8) -> Option<InterruptType> {
    if iir % 2 == 1 {
        None
    } else {
        Some(cause_of((iir / 2) % 8))
    }
}

/// The three-bit code of a parity mode in LCR bits 5:3.
pub open spec fn parity_code(p: Parity) -> u8 {
    match p {
        Parity::No => 0b000,
        Parity::Odd => 0b001,
        Parity::Even => 0b011,
        Parity::Mark => 0b101,
        Parity::Space => 0b111,
    }
}

/// The parity mode in the line control value `lcr`; none for the three codes
/// that name no mode.
pub open spec fn parity_of(lcr: u8) -> Option<Parity> {
    let c = (lcr / 8) % 8;
    if c == 0b000 {
        Some(Parity::No)
    } else if c == 0b001 {
        Some(Parity::Odd)
    } else if c == 0b011 {
        Some(Parity::Even)
    } else if c == 0b101 {
        Some(Parity::Mark)
    } else if c == 0b111 {
        Some(Parity::Space)
    } else {
        None
    }
}

/// `lcr` with its parity field set to `p` and its other bits kept.
pub open spec fn with_parity(lcr: u8, p: Parity) -> u8 {
    (lcr & !LCR_PARITY) | (parity_code(p) << 3u8)
}

/// The number of stop bits in `lcr`: 1, or 2 (1.5 for five-bit words).
pub open spec fn stop_bits_of(lcr: u8) -> u8 {
    ((lcr / 4) % 2 + 1) as u8
}

/// `lcr` with its stop bit field set for `n` stop bits (1 or 2).
pub open spec fn with_stop_bits(lcr: u8, n: u8) -> u8 {
    if n == 1 {
        lcr & !LCR_STOP
    } else {
        lcr | LCR_STOP
    }
}

/// The word length in `lcr`: the field holds the length less five.
pub open spec fn word_length_of(lcr: u8) -> u8 {
    (lcr % 4 + 5) as u8
}

/// `lcr` with its word length field set for words of `n` bits (5 to 8).
pub open spec fn with_word_length(lcr: u8, n: u8) -> u8 {
    (lcr & !LCR_WORD) | ((n - 5) as u8)
}

/// `lcr` with the divisor latch access bit set.
pub open spec fn with_dlab(lcr: u8) -> u8 {
    if lcr >= 128 {
        lcr
    } else {
        (lcr + 128) as u8
    }
}

/// `lcr` with the divisor latch access bit clear.
pub open spec fn without_dlab(lcr: u8) -> u8 {
    if lcr >= 128 {
        (lcr - 128) as u8
    } else {
        lcr
    }
}

/// The baud rate divisor: the input clock over sixteen times the baud rate,
/// rounded down.
pub open spec fn divisor_of(clock: usize, baud_rate: usize) -> int {
    clock as int / (16 * baud_rate as int)
}

/// The byte written to the divisor latch low register for divisor `d`.
pub open spec fn divisor_low(d: int) -> u8 {
    (d % 256) as u8
}

/// The byte written to the divisor latch high register for divisor `d`.
pub open spec fn divisor_high(d: int) -> u8 {
    ((d / 256) % 256) as u8
}

/// The result of decoding the parity field of `lcr`.
pub open spec fn decoded_parity(lcr: u8) -> Result<Parity, LineControlError> {
    match parity_of(lcr) {
        Some(p) => Ok(p),
        None => Err(LineControlError::UnknownParity),
    }
}

/// Decodes the FIFO state of an interrupt identification value.
pub fn decode_fifo_info(iir: u8) -> (r: ChipFifoInfo)
    ensures
        r == fifo_info_of(iir),
{
    proof {
        lemma_byte_fields(iir);
    }
    let f = iir / 64;
    if f == 0 {
        ChipFifoInfo::NoFifo
    } else if f == 1 {
        ChipFifoInfo::Reserved
    } else if f == 2 {
        ChipFifoInfo::EnabledNoFunction
    } else {
        ChipFifoInfo::Enabled
    }
}

/// Decodes the pending interrupt of an interrupt identification value.
pub fn decode_interrupt_type(iir: u8) -> (r: Option<InterruptType>)
    ensures
        r == interrupt_type_of(iir),
{
    proof {
        lemma_byte_fields(iir);
    }
    if iir & IIR_NO_PENDING != 0 {
        None
    } else {
        let code = (iir >> 1u8) & 0b111u8;
        if code == 0 {
            Some(InterruptType::ModemStatus)
        } else if code == 1 {
            Some(InterruptType::TransmitterHoldingRegisterEmpty)
        } else if code == 2 {
            Some(InterruptType::ReceivedDataAvailable)
        } else if code == 3 {
            Some(InterruptType::ReceiverLineStatus)
        } else if code == 6 {
            Some(InterruptType::Timeout)
        } else {
            Some(InterruptType::Reserved)
        }
    }
}

/// Decodes the parity field of a line control value.
pub fn decode_parity(lcr: u8) -> (r: Result<Parity, LineControlError>)
    ensures
        r == decoded_parity(lcr),
{
    proof {
        lemma_byte_fields(lcr);
    }
    let c = (lcr >> 3u8) & 0b111u8;
    if c == 0b000 {
        Ok(Parity::No)
    } else if c == 0b001 {
        Ok(Parity::Odd)
    } else if c == 0b011 {
        Ok(Parity::Even)
    } else if c == 0b101 {
        Ok(Parity::Mark)
    } else if c == 0b111 {
        Ok(Parity::Space)
    } else {
        Err(LineControlError::UnknownParity)
    }
}

/// Sets the parity field of a line control value, keeping its other bits.
pub fn encode_parity(lcr: u8, p: Parity) -> (r: u8)
    ensures
        r == with_parity(lcr, p),
{
    let code: u8 = match p {
        Parity::No => 0b000,
        Parity::Odd => 0b001,
        Parity::Even => 0b011,
        Parity::Mark => 0b101,
        Parity::Space => 0b111,
    };
    (lcr & !LCR_PARITY) | (code << 3u8)
}

/// The number of stop bits in a line control value.
pub fn decode_stop_bits(lcr: u8) -> (r: u8)
    ensures
        r == stop_bits_of(lcr),
{
    proof {
        lemma_byte_fields(lcr);
    }
    ((lcr & LCR_STOP) >> 2u8) + 1
}

/// Sets the stop bit field of a line control value for 1 or 2 stop bits.
pub fn encode_stop_bits(lcr: u8, n: u8) -> (r: u8)
    ensures
        r == with_stop_bits(lcr, n),
{
    if n == 1 {
        lcr & !LCR_STOP
    } else {
        lcr | LCR_STOP
    }
}

/// The word length in a line control value.
pub fn decode_word_length(lcr: u8) -> (r: u8)
    ensures
        r == word_length_of(lcr),
{
    proof {
        lemma_byte_fields(lcr);
    }
    (lcr & LCR_WORD) + 5
}

/// Sets the word length field of a line control value for words of 5 to 8
/// bits.
pub fn encode_word_length(lcr: u8, n: u8) -> (r: u8)
    requires
        5 <= n <= 8,
    ensures
        r == with_word_length(lcr, n),
{
    (lcr & !LCR_WORD) | (n - 5)
}

/// The bit fields of a register byte as arithmetic on its value.
pub proof fn lemma_byte_fields(v: u8)
    by (bit_vector)
    ensures
        v & 0b11u8 == v % 4,
        v & 0b11u8 <= 3,
        (v & 0b100u8) >> 2u8 == (v / 4) % 2,
        (v & 0b100u8) >> 2u8 <= 1,
        (v >> 3u8) & 0b111u8 == (v / 8) % 8,
        (v >> 1u8) & 0b111u8 == (v / 2) % 8,
        (v & 1u8 != 0) == (v % 2 == 1),
        (v & 0x20u8 != 0) == ((v / 32) % 2 == 1),
        (v & 0x80u8 != 0) == (v >= 128),
        v | 0x80u8 == with_dlab(v),
        v & !0x80u8 == without_dlab(v),
        (v & 0xc0u8 == 0) == (v / 64 == 0),
        (v & 0xc0u8 == 0x40u8) == (v / 64 == 1),
        (v & 0xc0u8 == 0x80u8) == (v / 64 == 2),
{
}

proof fn lemma_field_bits(v: u8, c: u8)
    by (bit_vector)
    requires
        c < 8,
    ensures
        ((((v & !0b0011_1000u8) | (c << 3u8)) >> 3u8) & 0b111u8) == c,
        (((v & !0b0011_1000u8) | (c << 3u8)) & !0b0011_1000u8) == v & !0b0011_1000u8,
{
}

/// Setting the parity field and decoding it gives back the parity set;
/// setting it twice gives the same register as setting it once; and the bits
/// outside the field are kept.
pub proof fn lemma_parity_round_trip(lcr: u8, p: Parity)
    ensures
        parity_of(with_parity(lcr, p)) == Some(p),
        with_parity(with_parity(lcr, p), p) == with_parity(lcr, p),
        with_parity(lcr, p) & !LCR_PARITY == lcr & !LCR_PARITY,
{
    lemma_field_bits(lcr, parity_code(p));
    lemma_field_bits(with_parity(lcr, p), parity_code(p));
    lemma_byte_fields(with_parity(lcr, p));
}

/// Setting the word length field to a length from 5 to 8 and reading it
/// gives back that length, and the bits outside the field are kept.
pub proof fn lemma_word_length_round_trip(lcr: u8, n: u8)
    requires
        5 <= n <= 8,
    ensures
        word_length_of(with_word_length(lcr, n)) == n,
        with_word_length(lcr, n) & !LCR_WORD == lcr & !LCR_WORD,
{
    let c = (n - 5) as u8;
    lemma_byte_fields(with_word_length(lcr, n));
    assert(((((lcr & !3u8) | c) & 3u8) == c) && (((lcr & !3u8) | c) & !3u8) == lcr & !3u8) by (bit_vector)
        requires
            c < 4,
    ;
}

/// Setting the stop bit field for 1 or 2 stop bits and reading it gives back
/// that count, and the bits outside the field are kept.
pub proof fn lemma_stop_bits_round_trip(lcr: u8, n: u8)
    requires
        n == 1 || n == 2,
    ensures
        stop_bits_of(with_stop_bits(lcr, n)) == n,
        with_stop_bits(lcr, n) & !LCR_STOP == lcr & !LCR_STOP,
{
    lemma_byte_fields(with_stop_bits(lcr, n));
    assert((((lcr & !4u8) & 4u8) >> 2u8) == 0 && (((lcr | 4u8) & 4u8) >> 2u8) == 1
        && ((lcr & !4u8) & !4u8) == lcr & !4u8 && ((lcr | 4u8) & !4u8) == lcr & !4u8) by (bit_vector);
}

} // verus!
