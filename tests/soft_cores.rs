use mmio_uart::axi16550::{InterruptType, Parity};
use mmio_uart::{
    LineControlError, MmioUartAxi16550, MmioUartAxiLite, MmioUartSifive, MmioUartXPS,
    MmioUartXpsLite, RegisterBus, TransmitError,
};

/// Eight 32-bit registers that hold what was last written to them.
struct Words([u32; 8]);

impl RegisterBus<u32> for Words {
    fn read(&mut self, offset: usize) -> u32 {
        self.0[offset]
    }

    fn write(&mut self, offset: usize, value: u32) {
        self.0[offset] = value;
    }
}

/// A receive FIFO in slot 1 whose words say "empty" in bit 31 once drained,
/// as on the SiFive UART; slot 0 counts the writes it took.
struct SifiveFifo {
    rx: Vec<u32>,
    tx: Vec<u8>,
    tx_room: usize,
    reads: usize,
}

impl RegisterBus<u32> for SifiveFifo {
    fn read(&mut self, offset: usize) -> u32 {
        self.reads += 1;
        match offset {
            0 => {
                if self.tx.len() >= self.tx_room {
                    0x8000_0000
                } else {
                    0
                }
            }
            1 => {
                if self.rx.is_empty() {
                    0x8000_0000
                } else {
                    self.rx.remove(0)
                }
            }
            _ => 0,
        }
    }

    fn write(&mut self, offset: usize, value: u32) {
        if offset == 0 {
            self.tx.push(value as u8);
        }
    }
}

#[test]
fn axi16550_init_and_line_control() {
    let mut uart = MmioUartAxi16550::new(Words([0xffff_ffff; 8]));
    uart.init(1_843_200, 9600);
    assert_eq!(uart.registers().0[3], 0b0000_0011);
    assert_eq!(uart.registers().0[0], 12);
    assert_eq!(uart.registers().0[2], 1);
    assert_eq!(uart.registers().0[4], 0);
    assert_eq!(uart.get_parity(), Ok(Parity::No));
    assert_eq!(uart.get_stop_bit(), 1);
    assert_eq!(uart.get_word_length(), 8);
    uart.set_parity(Parity::Even);
    assert_eq!(uart.get_parity(), Ok(Parity::Even));
    assert_eq!(uart.set_word_length(6), Ok(()));
    assert_eq!(uart.get_word_length(), 6);
    assert_eq!(uart.set_word_length(9), Err(LineControlError::InvalidWordLength));
    assert_eq!(uart.set_stop_bit(2), Ok(()));
    assert_eq!(uart.get_stop_bit(), 2);
    assert_eq!(uart.set_stop_bit(7), Err(LineControlError::InvalidStopBits));
    assert_eq!(uart.read_lcr(), 0b0001_1101);
    uart.write_lcr(0xffff_ff10);
    assert_eq!(uart.get_parity(), Err(LineControlError::UnknownParity));
}

#[test]
fn axi16550_interrupts_and_status() {
    let mut uart = MmioUartAxi16550::new(Words([0; 8]));
    uart.enable_modem_status_interrupt();
    uart.toggle_received_data_available_interrupt();
    assert_eq!(uart.read_ier(), 0b1001);
    assert!(uart.is_modem_status_interrupt_enabled());
    uart.toggle_modem_status_interrupt();
    assert!(!uart.is_modem_status_interrupt_enabled());
    uart.set_ier(0xff);
    assert_eq!(uart.ier(), 0x0f);
    uart.disable_receiver_line_status_interrupt();
    assert_eq!(uart.read_ier(), 0b1011);
    uart.enable_divisor_latch_accessible();
    assert!(uart.is_divisor_latch_accessible());
    uart.toggle_divisor_latch_accessible();
    assert!(!uart.is_divisor_latch_accessible());
    uart.write_fcr(0b1100_1100);
    assert_eq!(uart.read_interrupt_type(), Some(InterruptType::Timeout));
    assert!(uart.is_interrupt_pending());
    assert!(uart.is_fifo_enabled());
    uart.write_fcr(0b0000_1011);
    assert_eq!(uart.read_interrupt_type(), None);
    assert!(!uart.is_interrupt_pending());
    uart.registers_mut().0[5] = 0b0010_0001;
    assert!(uart.is_data_ready());
    assert!(uart.is_transmitter_holding_register_empty());
    assert!(!uart.is_overrun_error());
    uart.registers_mut().0[0] = 0x1ab;
    assert_eq!(uart.read_byte(), Some(0xab));
    uart.registers_mut().0[5] = 0;
    assert_eq!(uart.read_byte(), None);
    assert_eq!(uart.write_byte(0x42), Err(TransmitError::BufferFull));
    assert_eq!(uart.registers().0[0], 0x1ab);
    uart.registers_mut().0[5] = 0b0010_0000;
    assert_eq!(uart.write_byte(0x42), Ok(()));
    assert_eq!(uart.registers().0[0], 0x42);
    uart.write_fcr(0b0000_1010);
    assert_eq!(uart.read_interrupt_type(), Some(InterruptType::Reserved));
}

#[test]
fn axi_lite_status_and_control() {
    let mut uart = MmioUartAxiLite::new(Words([0; 8]));
    uart.registers_mut().0[2] = 0b0000_0101;
    assert!(uart.is_rx_fifo_valid());
    assert!(uart.is_tx_fifo_empty());
    assert!(!uart.is_tx_fifo_full());
    assert_eq!(uart.status(), 0b0000_0101);
    uart.registers_mut().0[0] = 0x61;
    assert_eq!(uart.read_byte(), Some(0x61));
    uart.clear_fifo(true);
    assert_eq!(uart.registers().0[3], 0b0001_0011);
    uart.clear_rx_fifo(false);
    assert_eq!(uart.registers().0[3], 0b0000_0010);
    uart.clear_tx_fifo(true);
    assert_eq!(uart.registers().0[3], 0b0001_0001);
    uart.enable_interrupt();
    assert_eq!(uart.registers().0[3], 0b0001_0000);
    uart.disable_interrupt();
    assert_eq!(uart.registers().0[3], 0);
}

#[test]
fn axi_lite_read_and_write_slices() {
    let mut uart = MmioUartAxiLite::new(Words([0; 8]));
    let mut buf = [0u8; 4];
    assert_eq!(uart.read(&mut buf), 0);
    uart.registers_mut().0[0] = 0x7a;
    uart.registers_mut().0[2] = 0b0000_0001;
    assert_eq!(uart.read(&mut buf), 4);
    assert_eq!(buf, [0x7a; 4]);
    assert_eq!(uart.write(b"hi"), 2);
    assert_eq!(uart.registers().0[1], b'i' as u32);
    uart.registers_mut().0[2] = 0b0000_1000;
    assert_eq!(uart.write(b"hi"), 0);
}

#[test]
fn xps_lite_reverses_bits() {
    let mut uart = MmioUartXpsLite::new(Words([0; 8]));
    uart.write_byte(0x01);
    assert_eq!(uart.registers().0[1], 0x8000_0000);
    uart.write_byte(0b1100_0000);
    assert_eq!(uart.registers().0[1], 0x0300_0000);
    uart.registers_mut().0[2] = 0x8000_0000;
    assert!(uart.is_rx_fifo_valid());
    assert!(!uart.is_parity_error());
    assert_eq!(uart.status(), 0x01);
    uart.registers_mut().0[0] = 0x4000_0000;
    assert_eq!(uart.read_byte(), Some(0x02));
    uart.registers_mut().0[2] = 0x0100_0000;
    assert!(uart.is_parity_error());
    assert_eq!(uart.read_byte(), None);
    uart.enable_interrupt();
    assert_eq!(uart.registers().0[3], 0x0800_0000);
    uart.clear_fifo(false);
    assert_eq!(uart.registers().0[3], 0xc000_0000);
    uart.clear_rx_fifo(true);
    assert_eq!(uart.registers().0[3], 0x4800_0000);
    uart.disable_interrupt();
    assert_eq!(uart.registers().0[3], 0);
}

#[test]
fn xps_status_and_control() {
    let mut uart = MmioUartXPS::new(Words([0; 8]));
    assert_eq!(uart.read_byte(), None);
    uart.registers_mut().0[2] = 0xa000_0000;
    uart.registers_mut().0[0] = 0x155;
    assert!(uart.is_rx_fifo_valid());
    assert!(uart.is_tx_fifo_empty());
    assert!(!uart.is_rx_fifo_full());
    assert_eq!(uart.read_byte(), Some(0x55));
    uart.write_byte(0x31);
    assert_eq!(uart.registers().0[1], 0x31);
    uart.clear_fifo(true);
    assert_eq!(uart.registers().0[3], 0xc800_0000);
    uart.clear_tx_fifo(false);
    assert_eq!(uart.registers().0[3], 0x8000_0000);
    uart.clear_rx_fifo(false);
    assert_eq!(uart.registers().0[3], 0x4000_0000);
    uart.enable_interrupt();
    assert_eq!(uart.registers().0[3], 0x0800_0000);
}

#[test]
fn sifive_read_takes_one_word_per_byte() {
    let fifo = SifiveFifo { rx: vec![0x41, 0x142, 0x43], tx: Vec::new(), tx_room: 0, reads: 0 };
    let mut uart = MmioUartSifive::new(fifo);
    let mut buf = [0u8; 8];
    assert_eq!(uart.read(&mut buf), 3);
    assert_eq!(&buf[..3], &[0x41, 0x42, 0x43]);
    assert_eq!(buf[3], 0);
    assert_eq!(uart.registers().reads, 4);
    assert_eq!(uart.read_byte(), None);
}

#[test]
fn sifive_write_stops_when_full() {
    let fifo = SifiveFifo { rx: Vec::new(), tx: Vec::new(), tx_room: 2, reads: 0 };
    let mut uart = MmioUartSifive::new(fifo);
    assert_eq!(uart.write(b"abc"), 2);
    assert_eq!(uart.registers().tx, b"ab".to_vec());
    assert!(uart.is_tx_fifo_full());
}

#[test]
fn sifive_control_and_interrupts() {
    let mut uart = MmioUartSifive::new(Words([0; 8]));
    uart.enable_write();
    uart.enable_read();
    assert_eq!(uart.read_txctrl(), 1);
    assert_eq!(uart.read_rxctrl(), 1);
    uart.disable_write();
    assert_eq!(uart.read_txctrl(), 0);
    uart.write_ie(0xffff_fff0);
    uart.enable_read_interrupt();
    assert_eq!(uart.read_ie(), 0b10);
    assert_eq!(uart.registers().0[4], 0b10);
    assert!(uart.is_read_interrupt_enabled());
    assert!(!uart.is_write_interrupt_enabled());
    uart.enable_write_interrupt();
    assert!(uart.is_write_interrupt_enabled());
    uart.disable_interrupt();
    assert_eq!(uart.registers().0[4], 0);
    uart.write_div(868);
    assert_eq!(uart.read_div(), 868);
    uart.registers_mut().0[5] = 0xffff_ffff;
    assert_eq!(uart.read_ip(), 0b11);
    uart.registers_mut().0[1] = 0x0000_0065;
    assert_eq!(uart.read_byte(), Some(0x65));
    uart.write_byte(0x66);
    assert_eq!(uart.read_tx(), 0x66);
}
