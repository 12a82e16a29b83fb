use mk66_uart::registers::{Access, RegisterFile, SimRegisters};
use mk66_uart::uart::{
    Client, ClockRates, Error, NoClient, Parity, StopBits, UARTParams, Uart,
};

const CLOCKS: ClockRates = ClockRates { core_hz: 16_000_000, bus_hz: 8_000_000 };

fn params(baud_rate: u32, stop_bits: StopBits, parity: Parity) -> UARTParams {
    UARTParams { baud_rate, stop_bits, parity, hw_flow_control: false }
}

fn divisor(f: &RegisterFile) -> u32 {
    (((f.bdh & 0x1F) as u32) << 8) | f.bdl as u32
}

fn configured(index: usize, p: UARTParams) -> RegisterFile {
    let mut u: Uart<SimRegisters, NoClient> =
        Uart::new(index, SimRegisters::new(Vec::new()), CLOCKS);
    u.init(p);
    assert!(u.registers().clock_gated());
    u.registers().registers()
}

#[derive(Default)]
struct Recorder {
    calls: Vec<(Vec<u8>, Error)>,
}

impl Client for Recorder {
    fn transmit_complete(&mut self, tx_data: Vec<u8>, rcode: Error) {
        self.calls.push((tx_data, rcode));
    }
}

#[test]
fn init_uart0_divides_core_clock() {
    let f = configured(0, params(9600, StopBits::One, Parity::Disabled));
    assert_eq!(divisor(&f), 104);
    assert_eq!(f.c4 & 0x1F, 0);
}

#[test]
fn init_uart1_divides_core_clock() {
    let f = configured(1, params(9600, StopBits::One, Parity::Disabled));
    assert_eq!(divisor(&f), 104);
}

#[test]
fn init_other_uarts_divide_bus_clock() {
    for index in 2..5 {
        let f = configured(index, params(9600, StopBits::One, Parity::Disabled));
        assert_eq!(divisor(&f), 52);
        assert_eq!(f.c4 & 0x1F, 0);
    }
}

#[test]
fn init_divisor_for_115200() {
    let f = configured(0, params(115200, StopBits::One, Parity::Disabled));
    assert_eq!(divisor(&f), 8);
    assert_eq!(f.bdl, 8);
    assert_eq!(f.bdh & 0x1F, 0);
}

#[test]
fn init_divisor_high_byte_goes_to_bdh() {
    // 16 MHz / 16 / 300 = 3333 = 0x0D05
    let f = configured(0, params(300, StopBits::One, Parity::Disabled));
    assert_eq!(f.bdh & 0x1F, 0x0D);
    assert_eq!(f.bdl, 0x05);
}

#[test]
fn init_divisor_keeps_thirteen_bits() {
    // 16 MHz / 16 / 100 = 10000 = 0x2710, of which the register holds 0x0710
    let f = configured(0, params(100, StopBits::One, Parity::Disabled));
    assert_eq!(divisor(&f), 10000 % 8192);
}

#[test]
fn init_frame_settings() {
    let f = configured(3, params(9600, StopBits::Two, Parity::Odd));
    assert_eq!(f.c1, 0x03);
    assert_eq!(f.bdh & 0x20, 0x20);
    assert_eq!(f.c2 & 0x0C, 0x0C);
    let f = configured(3, params(9600, StopBits::One, Parity::Even));
    assert_eq!(f.c1, 0x02);
    assert_eq!(f.bdh & 0x20, 0);
    let f = configured(3, params(9600, StopBits::One, Parity::Disabled));
    assert_eq!(f.c1, 0x00);
}

#[test]
fn init_touches_no_data_register() {
    let mut u: Uart<SimRegisters, NoClient> =
        Uart::new(0, SimRegisters::new(Vec::new()), CLOCKS);
    u.init(params(9600, StopBits::One, Parity::Disabled));
    assert!(u.registers().accesses().is_empty());
}

#[test]
fn enable_tx_and_rx_set_their_bits_only() {
    let mut u: Uart<SimRegisters, NoClient> =
        Uart::new(2, SimRegisters::new(Vec::new()), CLOCKS);
    u.enable_clock();
    u.enable_tx();
    assert_eq!(u.registers().registers().c2, 0x08);
    u.enable_rx();
    assert_eq!(u.registers().registers().c2, 0x0C);
    assert_eq!(u.registers().registers().c1, 0);
}

#[test]
fn send_byte_waits_for_empty_data_register() {
    let mut u: Uart<SimRegisters, NoClient> =
        Uart::new(0, SimRegisters::new(vec![0x00, 0x40, 0xC0]), CLOCKS);
    u.enable_clock();
    u.send_byte(0x41);
    assert_eq!(
        u.registers().accesses().clone(),
        vec![Access::Status(0x00), Access::Status(0x40), Access::Status(0xC0), Access::Data(0x41)]
    );
    assert_eq!(u.registers().data_written().clone(), vec![0x41]);
}

#[test]
fn send_byte_writes_at_once_when_empty() {
    let mut u: Uart<SimRegisters, NoClient> =
        Uart::new(0, SimRegisters::new(vec![0x80]), CLOCKS);
    u.enable_clock();
    u.send_byte(0xFF);
    assert_eq!(u.registers().accesses().clone(), vec![Access::Status(0x80), Access::Data(0xFF)]);
}

#[test]
fn tx_ready_reads_complete_flag_once() {
    let mut u: Uart<SimRegisters, NoClient> =
        Uart::new(0, SimRegisters::new(vec![0x80, 0x40]), CLOCKS);
    u.enable_clock();
    assert!(!u.tx_ready());
    assert!(u.tx_ready());
    assert_eq!(u.registers().accesses().len(), 2);
}

#[test]
fn transmit_sends_in_order_then_notifies_once() {
    let script = vec![0x00, 0xC0, 0x80, 0x80, 0x80, 0xC0];
    let mut u: Uart<SimRegisters, Recorder> = Uart::new(2, SimRegisters::new(script), CLOCKS);
    u.enable_clock();
    u.set_client(Recorder::default());
    u.transmit(vec![1, 2, 3, 9], 3);
    assert_eq!(
        u.registers().accesses().clone(),
        vec![
            Access::Status(0x00),
            Access::Status(0xC0),
            Access::Data(1),
            Access::Status(0x80),
            Access::Data(2),
            Access::Status(0x80),
            Access::Data(3),
            Access::Status(0x80),
            Access::Status(0xC0),
        ]
    );
    let calls = &u.client().as_ref().unwrap().calls;
    assert_eq!(calls.len(), 1);
    assert_eq!(calls[0], (vec![1, 2, 3, 9], Error::CommandComplete));
}

#[test]
fn transmit_without_client() {
    let mut u: Uart<SimRegisters, NoClient> =
        Uart::new(1, SimRegisters::new(Vec::new()), CLOCKS);
    u.enable_clock();
    u.transmit(vec![7, 8], 2);
    assert_eq!(u.registers().data_written().clone(), vec![7, 8]);
    assert!(u.client().is_none());
}

#[test]
fn transmit_zero_bytes_still_waits_and_notifies() {
    let mut u: Uart<SimRegisters, Recorder> =
        Uart::new(2, SimRegisters::new(vec![0x80, 0xC0]), CLOCKS);
    u.enable_clock();
    u.set_client(Recorder::default());
    u.transmit(vec![5], 0);
    assert_eq!(
        u.registers().accesses().clone(),
        vec![Access::Status(0x80), Access::Status(0xC0)]
    );
    assert_eq!(u.client().as_ref().unwrap().calls.len(), 1);
}

#[test]
fn receive_fails_immediately() {
    let mut u: Uart<SimRegisters, NoClient> =
        Uart::new(0, SimRegisters::new(Vec::new()), CLOCKS);
    let mut buf = vec![1, 2, 3];
    assert_eq!(u.receive(&mut buf, 3), Err(Error::NotImplemented));
    assert_eq!(buf, vec![1, 2, 3]);
    let mut empty = Vec::new();
    assert_eq!(u.receive(&mut empty, 0), Err(Error::NotImplemented));
    assert!(u.registers().accesses().is_empty());
}

#[test]
fn interrupt_handlers_are_unsupported() {
    let u: Uart<SimRegisters, NoClient> = Uart::new(4, SimRegisters::new(Vec::new()), CLOCKS);
    assert_eq!(u.handle_interrupt(), Err(Error::NotImplemented));
    assert_eq!(u.handle_error(), Err(Error::NotImplemented));
}

#[test]
fn reset_register_file_is_zero() {
    assert_eq!(RegisterFile::reset(), RegisterFile { bdh: 0, bdl: 0, c1: 0, c2: 0, c4: 0 });
}
