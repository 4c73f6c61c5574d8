use mmio_uart::{
    ChipFifoInfo, InterruptType, LineControlError, MmioUart8250, Parity, Register, RegisterFile,
    TransmitError,
};

#[test]
fn initialise() {
    let fake_registers = RegisterFile::new(0xff);
    let mut uart = MmioUart8250::new(fake_registers);

    uart.init(11_059_200, 115200);

    assert!(matches!(uart.get_parity(), Ok(Parity::No)));
    assert_eq!(uart.get_stop_bit(), 1);
    assert_eq!(uart.get_word_length(), 8);
}

#[test]
fn write() {
    let fake_registers = RegisterFile::new(0);
    let mut uart = MmioUart8250::new(fake_registers);

    // The transmit buffer is full.
    uart.registers_mut().set(5, 0);
    assert_eq!(uart.write_byte(0x42), Err(TransmitError::BufferFull));
    assert_eq!(uart.registers().get(0), 0);

    // The transmit buffer is available.
    uart.registers_mut().set(5, 0b0010_0000);
    assert_eq!(uart.write_byte(0x42), Ok(()));
    assert_eq!(uart.registers().get(0), 0x42);
}

#[test]
fn read() {
    let fake_registers = RegisterFile::new(0);
    let mut uart = MmioUart8250::new(fake_registers);

    // Nothing is available.
    assert_eq!(uart.read_byte(), None);

    // A byte is available.
    uart.registers_mut().set(0, 0xab);
    uart.registers_mut().set(5, 0b0000_0001);

    assert_eq!(uart.read_byte(), Some(0xab));
}

#[test]
fn init_programs_divisor_latch() {
    let mut uart = MmioUart8250::new(RegisterFile::new(0xff));
    uart.init(11_059_200, 115200);
    assert_eq!(uart.registers().divisor_latch_low(), 6);
    assert_eq!(uart.registers().divisor_latch_high(), 0);
    assert_eq!(uart.registers().get(3) & 0x80, 0);
    assert_eq!(uart.registers().get(3), 0b0000_0011);
    assert_eq!(uart.registers().get(2), 1);
    assert_eq!(uart.registers().get(4), 0);
    assert_eq!(uart.registers().get(1), 0xff);
}

#[test]
fn init_divisor_with_high_byte() {
    let mut uart = MmioUart8250::new(RegisterFile::new(0));
    uart.init(1_843_200, 50);
    assert_eq!(uart.registers().divisor_latch_low(), 0x00);
    assert_eq!(uart.registers().divisor_latch_high(), 0x09);
    assert_eq!(uart.registers().get(3) & 0x80, 0);
    assert!(uart.is_received_data_available_interrupt_enabled());
    assert!(!uart.is_transmitter_holding_register_empty_interrupt_enabled());
}

#[test]
fn set_divisor_rounds_down() {
    let mut uart = MmioUart8250::new(RegisterFile::new(0));
    uart.set_divisor(1_843_200, 110);
    assert_eq!(uart.registers().divisor_latch_low(), 0x17);
    assert_eq!(uart.registers().divisor_latch_high(), 0x04);
    assert_eq!(uart.registers().get(3), 0);
}

#[test]
fn word_length_round_trip() {
    let mut uart = MmioUart8250::new(RegisterFile::new(0xff));
    for n in 5u8..=8 {
        assert_eq!(uart.set_word_length(n), Ok(()));
        assert_eq!(uart.get_word_length(), n);
        assert_eq!(uart.registers().get(3) & 0b1111_1100, 0b1111_1100);
    }
    for n in (5u8..=8).rev() {
        assert_eq!(uart.set_word_length(n), Ok(()));
        assert_eq!(uart.get_word_length(), n);
    }
    assert_eq!(uart.set_word_length(5), Ok(()));
    assert_eq!(uart.get_word_length(), 5);
}

#[test]
fn word_length_rejects_out_of_range() {
    let mut uart = MmioUart8250::new(RegisterFile::new(0));
    uart.registers_mut().set(3, 0b0000_0010);
    assert_eq!(uart.set_word_length(4), Err(LineControlError::InvalidWordLength));
    assert_eq!(uart.set_word_length(9), Err(LineControlError::InvalidWordLength));
    assert_eq!(uart.set_word_length(0), Err(LineControlError::InvalidWordLength));
    assert_eq!(uart.registers().get(3), 0b0000_0010);
    assert_eq!(uart.get_word_length(), 7);
}

#[test]
fn parity_round_trip() {
    let mut uart = MmioUart8250::new(RegisterFile::new(0b1100_0111));
    for p in [Parity::No, Parity::Odd, Parity::Even, Parity::Mark, Parity::Space] {
        uart.set_parity(p);
        assert_eq!(uart.get_parity(), Ok(p));
        let once = uart.registers().get(3);
        assert_eq!(once & 0b1100_0111, 0b1100_0111);
        uart.set_parity(p);
        assert_eq!(uart.registers().get(3), once);
        assert_eq!(uart.get_parity(), Ok(p));
    }
}

#[test]
fn parity_codes() {
    let mut uart = MmioUart8250::new(RegisterFile::new(0));
    uart.set_parity(Parity::Odd);
    assert_eq!(uart.registers().get(3), 0b0000_1000);
    uart.set_parity(Parity::Even);
    assert_eq!(uart.registers().get(3), 0b0001_1000);
    uart.set_parity(Parity::Mark);
    assert_eq!(uart.registers().get(3), 0b0010_1000);
    uart.set_parity(Parity::Space);
    assert_eq!(uart.registers().get(3), 0b0011_1000);
    uart.set_parity(Parity::No);
    assert_eq!(uart.registers().get(3), 0);
}

#[test]
fn parity_undecodable() {
    let mut uart = MmioUart8250::new(RegisterFile::new(0));
    for raw in [0b0001_0000u8, 0b0010_0000, 0b0011_0000] {
        uart.registers_mut().set(3, raw);
        assert_eq!(uart.get_parity(), Err(LineControlError::UnknownParity));
    }
}

#[test]
fn stop_bits() {
    let mut uart = MmioUart8250::new(RegisterFile::new(0));
    assert_eq!(uart.get_stop_bit(), 1);
    assert_eq!(uart.set_stop_bit(2), Ok(()));
    assert_eq!(uart.get_stop_bit(), 2);
    assert_eq!(uart.registers().get(3), 0b0000_0100);
    assert_eq!(uart.set_stop_bit(1), Ok(()));
    assert_eq!(uart.get_stop_bit(), 1);
    assert_eq!(uart.set_stop_bit(3), Err(LineControlError::InvalidStopBits));
    assert_eq!(uart.set_stop_bit(0), Err(LineControlError::InvalidStopBits));
    assert_eq!(uart.registers().get(3), 0);
}

#[test]
fn interrupt_identification() {
    let mut uart = MmioUart8250::new(RegisterFile::new(0));
    let cases = [
        (0b0000_0001u8, None),
        (0b0000_0000, Some(InterruptType::ModemStatus)),
        (0b0000_0010, Some(InterruptType::TransmitterHoldingRegisterEmpty)),
        (0b0000_0100, Some(InterruptType::ReceivedDataAvailable)),
        (0b0000_0110, Some(InterruptType::ReceiverLineStatus)),
        (0b0000_1100, Some(InterruptType::Timeout)),
        (0b0000_1000, Some(InterruptType::Reserved)),
        (0b0000_1010, Some(InterruptType::Reserved)),
        (0b0000_1110, Some(InterruptType::Reserved)),
        (0b1100_1101, None),
        (0b1100_0100, Some(InterruptType::ReceivedDataAvailable)),
    ];
    for (iir, expected) in cases {
        uart.registers_mut().set(2, iir);
        assert_eq!(uart.read_interrupt_type(), expected);
    }
}

#[test]
fn fifo_status() {
    let mut uart = MmioUart8250::new(RegisterFile::new(0));
    let cases = [
        (0b0000_0000u8, ChipFifoInfo::NoFifo),
        (0b0100_0001, ChipFifoInfo::Reserved),
        (0b1000_0000, ChipFifoInfo::EnabledNoFunction),
        (0b1110_0000, ChipFifoInfo::Enabled),
    ];
    for (iir, expected) in cases {
        uart.registers_mut().set(2, iir);
        assert_eq!(uart.read_fifo_status(), expected);
    }
    uart.registers_mut().set(2, 0b0010_0000);
    assert!(uart.is_64byte_fifo_enabled());
    uart.registers_mut().set(2, 0b1100_0000);
    assert!(!uart.is_64byte_fifo_enabled());
}

#[test]
fn interrupt_enable_bits() {
    let mut uart = MmioUart8250::new(RegisterFile::new(0));
    uart.enable_low_power_mode();
    uart.enable_modem_status_interrupt();
    uart.enable_transmitter_holding_register_empty_interrupt();
    assert_eq!(uart.registers().get(1), 0b0010_1010);
    assert!(uart.is_low_power_mode_enabled());
    assert!(!uart.is_sleep_mode_enabled());
    assert!(uart.is_modem_status_interrupt_enabled());
    assert!(!uart.is_receiver_line_status_interrupt_enabled());
    uart.enable_sleep_mode();
    uart.enable_receiver_line_status_interrupt();
    uart.enable_received_data_available_interrupt();
    assert_eq!(uart.registers().get(1), 0b0011_1111);
    uart.disable_low_power_mode();
    uart.disable_sleep_mode();
    uart.disable_modem_status_interrupt();
    uart.disable_receiver_line_status_interrupt();
    uart.disable_transmitter_holding_register_empty_interrupt();
    assert_eq!(uart.registers().get(1), 0b0000_0001);
    uart.disable_received_data_available_interrupt();
    assert_eq!(uart.registers().get(1), 0);
    uart.write_ier(0b0000_0100);
    assert!(uart.is_receiver_line_status_interrupt_enabled());
}

#[test]
fn line_status_bits() {
    let mut uart = MmioUart8250::new(RegisterFile::new(0));
    uart.registers_mut().set(5, 0b1010_1010);
    assert!(uart.is_received_fifo_error());
    assert!(!uart.is_data_holding_registers_empty());
    assert!(uart.is_transmitter_holding_register_empty());
    assert!(!uart.is_break_interrupt());
    assert!(uart.is_framing_error());
    assert!(!uart.is_parity_error());
    assert!(uart.is_overrun_error());
    assert!(!uart.is_data_ready());
}

#[test]
fn modem_status_bits() {
    let mut uart = MmioUart8250::new(RegisterFile::new(0));
    uart.registers_mut().set(6, 0b0101_0101);
    assert!(!uart.is_carrier_detect());
    assert!(uart.is_ring_indicator());
    assert!(!uart.is_data_set_ready());
    assert!(uart.is_clear_to_send());
    assert!(!uart.is_delta_data_carrier_detect());
    assert!(uart.is_trailing_edge_ring_indicator());
    assert!(!uart.is_delta_data_set_ready());
    assert!(uart.is_delta_clear_to_send());
}

#[test]
fn scratch_register() {
    let mut uart = MmioUart8250::new(RegisterFile::new(0));
    uart.write_sr(0x5a);
    assert_eq!(uart.read_sr(), 0x5a);
    assert_eq!(uart.registers().get(7), 0x5a);
}

#[test]
fn rebase_to_other_block() {
    let mut uart = MmioUart8250::new(RegisterFile::new(0));
    let mut other = RegisterFile::new(0);
    other.set(0, 0x33);
    other.set(5, 0b0000_0001);
    uart.set_base_address(other);
    assert_eq!(uart.read_byte(), Some(0x33));
}

#[test]
fn divisor_latch_is_banked() {
    let mut regs = RegisterFile::new(0);
    regs.store(3, 0x80);
    regs.store(0, 0x12);
    regs.store(1, 0x34);
    assert_eq!(regs.load(0), 0x12);
    assert_eq!(regs.get(0), 0);
    regs.store(3, 0x00);
    assert_eq!(regs.load(0), 0);
    assert_eq!(regs.divisor_latch_low(), 0x12);
    assert_eq!(regs.divisor_latch_high(), 0x34);
}

#[test]
fn transmit_error_text() {
    assert_eq!(TransmitError::BufferFull.as_str(), "UART buffer full");
}

#[test]
fn register_widths() {
    assert_eq!(0x1234_56abu32.val(), 0xab);
    assert_eq!(0x7fu8.val(), 0x7f);
    assert_eq!(<u32 as Register>::from_byte(0xc3), 0xc3u32);
    assert_eq!(<u8 as Register>::from_byte(0xc3), 0xc3u8);
}

#[test]
fn largest_divisor() {
    let mut uart = MmioUart8250::new(RegisterFile::new(0));
    uart.init(16 * 65535, 1);
    assert_eq!(uart.registers().divisor_latch_low(), 0xff);
    assert_eq!(uart.registers().divisor_latch_high(), 0xff);
    uart.init(16 * 65536 + 15, 1);
    assert_eq!(uart.registers().divisor_latch_low(), 0);
    assert_eq!(uart.registers().divisor_latch_high(), 0);
    assert_eq!(uart.registers().get(3), 0b0000_0011);
}
