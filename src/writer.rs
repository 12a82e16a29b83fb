//! The diagnostic writer: a blocking text sink over UART0 that configures
//! the peripheral on first use.

use vstd::prelude::*;
use vstd::string::StringSliceAdditionalSpecFns;
use crate::registers::{UartRegisters, complete_poll};
use crate::uart::{Client, Parity, StopBits, UARTParams, Uart, is_configured};

verus! {

/// 115200 baud, one stop bit, no parity, no flow control.
pub open spec fn diagnostic_params_spec() -> UARTParams {
    UARTParams {
        baud_rate: 115200,
        stop_bits: StopBits::One,
        parity: Parity::Disabled,
        hw_flow_control: false,
    }
}

/// The settings that the writer gives its peripheral.
pub fn diagnostic_params() -> (r: UARTParams)
    ensures
        r == diagnostic_params_spec(),
{
    UARTParams {
        baud_rate: 115200,
        stop_bits: StopBits::One,
        parity: Parity::Disabled,
        hw_flow_control: false,
    }
}

/// A text sink over UART0. The peripheral is configured on the first write
/// and never again.
pub struct Writer<R: UartRegisters, C: Client> {
    initialized: bool,
    uart: Uart<R, C>,
    inits_before: Ghost<nat>,
}

impl<R: UartRegisters, C: Client> Writer<R, C> {
    pub closed spec fn initialized(&self) -> bool {
        self.initialized
    }

    pub closed spec fn uart_spec(&self) -> Uart<R, C> {
        self.uart
    }

    /// How many times the writer has configured its peripheral.
    pub closed spec fn configurations(&self) -> nat {
        (self.uart.init_count() - self.inits_before@) as nat
    }

    pub closed spec fn wf(&self) -> bool {
        &&& self.uart.peripheral() == 0
        &&& self.uart.init_count() >= self.inits_before@
        &&& !self.initialized ==> self.uart.init_count() == self.inits_before@
        &&& self.initialized ==> {
            &&& self.uart.init_count() == self.inits_before@ + 1
            &&& self.uart.regs().clock_enabled()
            &&& is_configured(
                self.uart.regs().file(),
                diagnostic_params_spec(),
                self.uart.source_clock_hz(),
            )
        }
    }

    /// Takes over UART0; nothing is written to it yet.
    pub fn new(uart: Uart<R, C>) -> (r: Self)
        requires
            uart.peripheral() == 0,
        ensures
            r.wf(),
            !r.initialized(),
            r.configurations() == 0,
            r.uart_spec() == uart,
    {
        Writer { initialized: false, uart, inits_before: Ghost(uart.init_count()) }
    }

    pub fn is_initialized(&self) -> (r: bool)
        ensures
            r == self.initialized(),
    {
        self.initialized
    }

    /// The driver underneath, for inspection.
    pub fn uart(&self) -> (r: &Uart<R, C>)
        ensures
            *r == self.uart_spec(),
    {
        &self.uart
    }

    /// Configures the peripheral if this is the first write, sends `bytes`
    /// in order, and waits until the last of them has left the wire.
    pub fn write_bytes(&mut self, bytes: &[u8])
        requires
            old(self).wf(),
        ensures
            final(self).wf(),
            final(self).initialized(),
            final(self).configurations() == 1,
            is_configured(
                final(self).uart_spec().regs().file(),
                diagnostic_params_spec(),
                final(self).uart_spec().source_clock_hz(),
            ),
            old(self).initialized() ==> final(self).uart_spec().regs().file() == old(
                self,
            ).uart_spec().regs().file(),
            final(self).uart_spec().regs().sent() == old(self).uart_spec().regs().sent()
                + bytes@,
            final(self).uart_spec().regs().log().len() > old(self).uart_spec().regs().log().len(),
            complete_poll(final(self).uart_spec().regs().log().last()),
            final(self).uart_spec().client_spec() == old(self).uart_spec().client_spec(),
            final(self).uart_spec().completions() == old(self).uart_spec().completions(),
    {
        if !self.initialized {
            self.initialized = true;
            self.uart.init(diagnostic_params());
            let ghost c2 = self.uart.regs().file().c2;
            self.uart.enable_tx();
            assert((c2 | 0x08u8) & 0x04 != 0 && (c2 | 0x08u8) & 0x08 != 0) by (bit_vector)
                requires
                    c2 & 0x04 != 0,
            ;
        }
        let ghost sent0 = self.uart.regs().sent();
        let ghost len0 = self.uart.regs().log().len();
        let mut i: usize = 0;
        while i < bytes.len()
            invariant
                self.wf(),
                self.initialized,
                self.uart.regs().clock_enabled(),
                i <= bytes.len(),
                self.uart.regs().sent() == sent0 + bytes@.take(i as int),
                self.uart.regs().log().len() >= len0,
                old(self).initialized ==> self.uart.regs().file() == old(self).uart.regs().file(),
                sent0 == old(self).uart.regs().sent(),
                len0 >= old(self).uart.regs().log().len(),
                self.uart.client_spec() == old(self).uart.client_spec(),
                self.uart.completions() == old(self).uart.completions(),
            decreases bytes.len() - i,
        {
            self.uart.send_byte(bytes[i]);
            assert(bytes@.take(i + 1) =~= bytes@.take(i as int).push(bytes@[i as int]));
            i = i + 1;
        }
        assert(bytes@.take(bytes.len() as int) =~= bytes@);
        loop
            invariant
                self.wf(),
                self.initialized,
                self.uart.regs().clock_enabled(),
                self.uart.regs().sent() == sent0 + bytes@,
                self.uart.regs().log().len() >= len0,
                old(self).initialized ==> self.uart.regs().file() == old(self).uart.regs().file(),
                sent0 == old(self).uart.regs().sent(),
                len0 >= old(self).uart.regs().log().len(),
                self.uart.client_spec() == old(self).uart.client_spec(),
                self.uart.completions() == old(self).uart.completions(),
            ensures
                self.uart.regs().log().len() > len0,
                complete_poll(self.uart.regs().log().last()),
            decreases self.uart.regs().pending(),
        {
            if self.uart.tx_ready() {
                break;
            }
        }
    }

    /// `write_bytes` on the UTF-8 encoding of `s`.
    pub fn write_str(&mut self, s: &str)
        requires
            old(self).wf(),
        ensures
            final(self).wf(),
            final(self).initialized(),
            final(self).configurations() == 1,
            is_configured(
                final(self).uart_spec().regs().file(),
                diagnostic_params_spec(),
                final(self).uart_spec().source_clock_hz(),
            ),
            old(self).initialized() ==> final(self).uart_spec().regs().file() == old(
                self,
            ).uart_spec().regs().file(),
            final(self).uart_spec().regs().sent() == old(self).uart_spec().regs().sent()
                + s.spec_bytes(),
            final(self).uart_spec().regs().log().len() > old(self).uart_spec().regs().log().len(),
            complete_poll(final(self).uart_spec().regs().log().last()),
            final(self).uart_spec().client_spec() == old(self).uart_spec().client_spec(),
            final(self).uart_spec().completions() == old(self).uart_spec().completions(),
    {
        self.write_bytes(s.as_bytes());
    }
}

/// Whatever writes have happened, a well-formed writer has configured its
/// peripheral at most once, and once it has, the peripheral runs at
/// 115200 baud with one stop bit and no parity.
pub proof fn lemma_configured_at_most_once<R: UartRegisters, C: Client>(w: &Writer<R, C>)
    requires
        w.wf(),
    ensures
        w.configurations() <= 1,
        w.initialized() <==> w.configurations() == 1,
        w.initialized() ==> is_configured(
            w.uart_spec().regs().file(),
            diagnostic_params_spec(),
            w.uart_spec().source_clock_hz(),
        ),
{
}

} // verus!
