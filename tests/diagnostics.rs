use mk66_uart::fault::{push_decimal, write_panic_report, PinAction, ProcessDiagnostics, Signal};
use mk66_uart::registers::SimRegisters;
use mk66_uart::uart::{ClockRates, NoClient, Parity, StopBits, Uart};
use mk66_uart::writer::{diagnostic_params, Writer};

const CLOCKS: ClockRates = ClockRates { core_hz: 16_000_000, bus_hz: 8_000_000 };

fn writer() -> Writer<SimRegisters, NoClient> {
    Writer::new(Uart::new(0, SimRegisters::new(Vec::new()), CLOCKS))
}

fn sent(w: &Writer<SimRegisters, NoClient>) -> String {
    String::from_utf8(w.uart().registers().data_written().clone()).unwrap()
}

fn slot(fault: &str, statistics: &str) -> Option<ProcessDiagnostics> {
    Some(ProcessDiagnostics { fault: fault.to_string(), statistics: statistics.to_string() })
}

#[test]
fn diagnostic_settings() {
    let p = diagnostic_params();
    assert_eq!(p.baud_rate, 115200);
    assert_eq!(p.stop_bits, StopBits::One);
    assert_eq!(p.parity, Parity::Disabled);
}

#[test]
fn writer_configures_on_first_write() {
    let mut w = writer();
    assert!(!w.is_initialized());
    assert!(!w.uart().registers().clock_gated());
    w.write_str("hi");
    assert!(w.is_initialized());
    let f = w.uart().registers().registers();
    assert_eq!(f.c1, 0);
    assert_eq!(f.bdh & 0x20, 0);
    assert_eq!((((f.bdh & 0x1F) as u32) << 8) | f.bdl as u32, 8);
    assert_eq!(f.c2 & 0x0C, 0x0C);
    assert_eq!(sent(&w), "hi");
}

#[test]
fn writer_sends_every_write_in_order() {
    let mut w = writer();
    w.write_str("ab");
    let after_first = w.uart().registers().registers();
    w.write_str("");
    w.write_bytes(&[b'c', b'd']);
    w.write_str("é");
    assert_eq!(w.uart().registers().registers(), after_first);
    assert_eq!(sent(&w), "abcdé");
}

#[test]
fn decimal_digits() {
    let mut out = Vec::new();
    push_decimal(&mut out, 0);
    assert_eq!(out, b"0".to_vec());
    let mut out = b"x".to_vec();
    push_decimal(&mut out, 42);
    assert_eq!(out, b"x42".to_vec());
    let mut out = Vec::new();
    push_decimal(&mut out, u32::MAX);
    assert_eq!(out, b"4294967295".to_vec());
}

#[test]
fn panic_report_with_one_occupied_slot() {
    let mut w = writer();
    let procs = vec![slot("FAULT0", "STATS0"), None];
    write_panic_report(&mut w, "main", 42, "oops", "1.2.3", &procs);
    assert_eq!(
        sent(&w),
        "\r\n\nKernel panic at main:42:\r\n\t\"oops\"\r\n\tKernel version 1.2.3\r\n\
         FAULT0\r\n---| App Status |---\r\nSTATS0"
    );
}

#[test]
fn panic_report_without_slots() {
    let mut w = writer();
    write_panic_report(&mut w, "main", 42, "oops", "1.2.3", &Vec::new());
    assert_eq!(
        sent(&w),
        "\r\n\nKernel panic at main:42:\r\n\t\"oops\"\r\n\tKernel version 1.2.3\r\n\
         \r\n---| App Status |---\r\n"
    );
}

#[test]
fn panic_report_skips_empty_first_slot() {
    let mut w = writer();
    let procs = vec![None, slot("F1", "S1"), slot("F2", "S2")];
    write_panic_report(&mut w, "a.rs", 7, "m", "v", &procs);
    assert_eq!(
        sent(&w),
        "\r\n\nKernel panic at a.rs:7:\r\n\t\"m\"\r\n\tKernel version v\r\n\
         \r\n---| App Status |---\r\nS1S2"
    );
}

#[test]
fn signal_follows_four_phase_pattern() {
    let mut s = Signal::new();
    let mut level = s.step();
    assert_eq!(level, PinAction::Low);
    let mut changes: Vec<(u64, PinAction)> = Vec::new();
    for t in 1..5_300_000u64 {
        let next = s.step();
        if next != level {
            changes.push((t, next));
            level = next;
        }
    }
    assert_eq!(
        changes,
        vec![
            (1_000_000, PinAction::High),
            (1_100_000, PinAction::Low),
            (2_100_000, PinAction::High),
            (2_600_000, PinAction::Low),
            (3_600_000, PinAction::High),
            (3_700_000, PinAction::Low),
            (4_700_000, PinAction::High),
            (5_200_000, PinAction::Low),
        ]
    );
}
