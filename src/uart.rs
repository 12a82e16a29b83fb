//! The serial driver: clock-source selection, frame and baud-rate
//! configuration, and blocking byte transfer over a register block.

use vstd::prelude::*;
use crate::registers::{
    Reg, RegisterFile, UartRegisters, BDH_SBNS, BDH_SBR_MASK, C1_PE, C1_PT, C2_RE, C2_TE,
    C4_BRFA_MASK, S1_TC, S1_TDRE, busy_poll, complete_poll, is_status, ready_poll, send_segment,
};

verus! {

#[derive(Clone, Copy, Debug, PartialEq, Eq, Structural)]
pub enum Parity {
    Disabled,
    Odd,
    Even,
}

#[derive(Clone, Copy, Debug, PartialEq, Eq, Structural)]
pub enum StopBits {
    One,
    Two,
}

/// Frame and rate settings applied by `Uart::init`.
#[derive(Clone, Copy, Debug, PartialEq, Eq, Structural)]
pub struct UARTParams {
    pub baud_rate: u32,
    pub stop_bits: StopBits,
    pub parity: Parity,
    pub hw_flow_control: bool,
}

/// The clock frequencies, in Hz, that the system-integration module supplies.
#[derive(Clone, Copy, Debug, PartialEq, Eq, Structural)]
pub struct ClockRates {
    pub core_hz: u32,
    pub bus_hz: u32,
}

/// Status codes of the driver.
///
/// A completed transmission is always reported as `CommandComplete`: the
/// driver does not look at the hardware error flags, so a transfer hit by a
/// framing or overrun error is reported the same way.
#[derive(Clone, Copy, Debug, PartialEq, Eq, Structural)]
pub enum Error {
    CommandComplete,
    NotImplemented,
}

/// Receiver of transmit-completion notifications.
pub trait Client {
    fn transmit_complete(&mut self, tx_data: Vec<u8>, rcode: Error);
}

/// A client slot filler for drivers that nobody listens to.
#[derive(Clone, Copy, Debug, PartialEq, Eq, Structural)]
pub struct NoClient;

impl Client for NoClient {
    fn transmit_complete(&mut self, tx_data: Vec<u8>, rcode: Error) {
    }
}

/// UART0 and UART1 run from the core clock, the others from the bus clock.
pub open spec fn uart_clock_hz(index: usize, clocks: ClockRates) -> u32 {
    if index == 0 || index == 1 {
        clocks.core_hz
    } else {
        clocks.bus_hz
    }
}

pub open spec fn baud_counter(clock_hz: u32, baud_rate: u32) -> u32
    recommends
        baud_rate > 0,
{
    (clock_hz / 16 / baud_rate) as u32
}

/// The `C1` value for a parity mode: 8-bit words, idle-line wake-up, no loop mode.
pub open spec fn c1_for(parity: Parity) -> u8 {
    match parity {
        Parity::Disabled => 0,
        Parity::Even => 2,
        Parity::Odd => 3,
    }
}

/// The fields that `init` sets, as they stand after it.
pub open spec fn is_configured(f: RegisterFile, params: UARTParams, clock_hz: u32) -> bool {
    &&& f.c1 == c1_for(params.parity)
    &&& f.two_stop_bits() == (params.stop_bits == StopBits::Two)
    &&& f.baud_divisor() == baud_counter(clock_hz, params.baud_rate) % 8192
    &&& f.fine_adjust() == 0
    &&& f.rx_enabled()
    &&& f.tx_enabled()
}

/// The bits that `init` leaves alone.
pub open spec fn keeps_other_bits(before: RegisterFile, after: RegisterFile) -> bool {
    &&& after.bdh & 0xC0 == before.bdh & 0xC0
    &&& after.c2 & 0xF3 == before.c2 & 0xF3
    &&& after.c4 & 0xE0 == before.c4 & 0xE0
}

/// A driver for one UART peripheral, owning its register block.
pub struct Uart<R: UartRegisters, C: Client> {
    index: usize,
    clocks: ClockRates,
    registers: R,
    client: Option<C>,
    inits: Ghost<nat>,
    completions: Ghost<Seq<(Seq<u8>, Error)>>,
}

impl<R: UartRegisters, C: Client> Uart<R, C> {
    pub closed spec fn peripheral(&self) -> usize {
        self.index
    }

    pub closed spec fn clock_rates(&self) -> ClockRates {
        self.clocks
    }

    pub closed spec fn regs(&self) -> R {
        self.registers
    }

    pub closed spec fn client_spec(&self) -> Option<C> {
        self.client
    }

    /// How many times `init` has configured the peripheral.
    pub closed spec fn init_count(&self) -> nat {
        self.inits@
    }

    /// Every notification handed to the client, in order.
    pub closed spec fn completions(&self) -> Seq<(Seq<u8>, Error)> {
        self.completions@
    }

    /// The clock that drives this peripheral's baud-rate generator.
    pub open spec fn source_clock_hz(&self) -> u32 {
        uart_clock_hz(self.peripheral(), self.clock_rates())
    }

    /// Everything but the register block and the client is as before.
    pub open spec fn same_driver(&self, other: &Self) -> bool {
        &&& other.peripheral() == self.peripheral()
        &&& other.clock_rates() == self.clock_rates()
        &&& other.init_count() == self.init_count()
        &&& other.completions() == self.completions()
    }

    pub fn new(index: usize, registers: R, clocks: ClockRates) -> (r: Self)
        ensures
            r.peripheral() == index,
            r.clock_rates() == clocks,
            r.regs() == registers,
            r.client_spec().is_none(),
            r.init_count() == 0,
            r.completions() == Seq::<(Seq<u8>, Error)>::empty(),
    {
        Uart {
            index,
            clocks,
            registers,
            client: None,
            inits: Ghost(0),
            completions: Ghost(Seq::empty()),
        }
    }

    /// The register block, for inspection.
    pub fn registers(&self) -> (r: &R)
        ensures
            *r == self.regs(),
    {
        &self.registers
    }

    /// The registered client, if any.
    pub fn client(&self) -> (r: &Option<C>)
        ensures
            *r == self.client_spec(),
    {
        &self.client
    }

    /// Interrupt-driven transfer is not supported: this always fails.
    pub fn handle_interrupt(&self) -> (r: Result<(), Error>)
        ensures
            r == Err::<(), Error>(Error::NotImplemented),
    {
        Err(Error::NotImplemented)
    }

    /// Interrupt-driven error handling is not supported: this always fails.
    pub fn handle_error(&self) -> (r: Result<(), Error>)
        ensures
            r == Err::<(), Error>(Error::NotImplemented),
    {
        Err(Error::NotImplemented)
    }

    /// Replaces any registered client.
    pub fn set_client(&mut self, client: C)
        ensures
            final(self).client_spec() == Some(client),
            final(self).regs() == old(self).regs(),
            old(self).same_driver(final(self)),
    {
        self.client = Some(client);
    }

    /// Gates on the clock of this peripheral.
    pub fn enable_clock(&mut self)
        ensures
            final(self).regs().clock_enabled(),
            final(self).regs().file() == old(self).regs().file(),
            final(self).regs().log() == old(self).regs().log(),
            final(self).regs().sent() == old(self).regs().sent(),
            final(self).client_spec() == old(self).client_spec(),
            old(self).same_driver(final(self)),
    {
        self.registers.enable_clock();
    }

    fn set_parity(&mut self, parity: Parity)
        requires
            old(self).regs().clock_enabled(),
        ensures
            final(self).regs().clock_enabled(),
            final(self).regs().file() == old(self).regs().file().set(Reg::C1, c1_for(parity)),
            final(self).regs().log() == old(self).regs().log(),
            final(self).regs().sent() == old(self).regs().sent(),
            final(self).client_spec() == old(self).client_spec(),
            old(self).same_driver(final(self)),
    {
        let c1: u8 = match parity {
            Parity::Disabled => 0,
            Parity::Even => C1_PE,
            Parity::Odd => C1_PE | C1_PT,
        };
        assert(C1_PE | C1_PT == 3) by (bit_vector);
        self.registers.write(Reg::C1, c1);
    }

    fn set_stop_bits(&mut self, stop_bits: StopBits)
        requires
            old(self).regs().clock_enabled(),
        ensures
            final(self).regs().clock_enabled(),
            final(self).regs().file() == old(self).regs().file().set(
                Reg::Bdh,
                final(self).regs().file().bdh,
            ),
            final(self).regs().file().bdh & 0xDF == old(self).regs().file().bdh & 0xDF,
            final(self).regs().file().two_stop_bits() == (stop_bits == StopBits::Two),
            final(self).regs().log() == old(self).regs().log(),
            final(self).regs().sent() == old(self).regs().sent(),
            final(self).client_spec() == old(self).client_spec(),
            old(self).same_driver(final(self)),
    {
        let sbns: u8 = match stop_bits {
            StopBits::One => 0,
            StopBits::Two => BDH_SBNS,
        };
        let bdh = self.registers.read(Reg::Bdh);
        let v: u8 = (bdh & !BDH_SBNS) | sbns;
        assert(v & 0xDF == bdh & 0xDF && (v & 0x20 != 0) == (sbns == 0x20)) by (bit_vector)
            requires
                v == (bdh & !0x20u8) | sbns,
                sbns == 0 || sbns == 0x20,
        ;
        self.registers.write(Reg::Bdh, v);
    }

    fn set_baud_rate(&mut self, baud_rate: u32)
        requires
            old(self).regs().clock_enabled(),
            baud_rate > 0,
        ensures
            final(self).regs().clock_enabled(),
            final(self).regs().file().c1 == old(self).regs().file().c1,
            final(self).regs().file().c2 == old(self).regs().file().c2,
            final(self).regs().file().bdh & 0xE0 == old(self).regs().file().bdh & 0xE0,
            final(self).regs().file().c4 & 0xE0 == old(self).regs().file().c4 & 0xE0,
            final(self).regs().file().fine_adjust() == 0,
            final(self).regs().file().baud_divisor() == baud_counter(
                old(self).source_clock_hz(),
                baud_rate,
            ) % 8192,
            final(self).regs().log() == old(self).regs().log(),
            final(self).regs().sent() == old(self).regs().sent(),
            final(self).client_spec() == old(self).client_spec(),
            old(self).same_driver(final(self)),
    {
        let uart_clock: u32 = if self.index == 0 || self.index == 1 {
            self.clocks.core_hz
        } else {
            self.clocks.bus_hz
        };
        let counter: u32 = (uart_clock >> 4) / baud_rate;
        assert(uart_clock >> 4u32 == uart_clock / 16) by (bit_vector);

        let c4 = self.registers.read(Reg::C4);
        let c4_new: u8 = c4 & !C4_BRFA_MASK;
        assert(c4_new % 32 == 0 && c4_new & 0xE0 == c4 & 0xE0) by (bit_vector)
            requires
                c4_new == c4 & !0x1Fu8,
        ;
        self.registers.write(Reg::C4, c4_new);

        let bdh = self.registers.read(Reg::Bdh);
        let high: u8 = (counter >> 8) as u8;
        let bdh_new: u8 = (bdh & !BDH_SBR_MASK) | (high & BDH_SBR_MASK);
        let low: u8 = counter as u8;
        assert(bdh_new & 0xE0 == bdh & 0xE0) by (bit_vector)
            requires
                bdh_new == (bdh & !0x1Fu8) | (high & 0x1F),
        ;
        assert((bdh_new % 32) as u32 * 256 + low as u32 == counter % 8192)
            by (bit_vector)
            requires
                bdh_new == (bdh & !0x1Fu8) | (high & 0x1F),
                high == (counter >> 8u32) as u8,
                low == counter as u8,
        ;
        self.registers.write(Reg::Bdh, bdh_new);
        self.registers.write(Reg::Bdl, low);
    }

    /// Gates the clock on, then sets 8-bit words with the given parity, stop
    /// bits and baud rate, and enables the receiver and the transmitter.
    pub fn init(&mut self, params: UARTParams)
        requires
            params.baud_rate > 0,
        ensures
            final(self).regs().clock_enabled(),
            is_configured(final(self).regs().file(), params, old(self).source_clock_hz()),
            keeps_other_bits(old(self).regs().file(), final(self).regs().file()),
            final(self).regs().log() == old(self).regs().log(),
            final(self).regs().sent() == old(self).regs().sent(),
            final(self).client_spec() == old(self).client_spec(),
            final(self).peripheral() == old(self).peripheral(),
            final(self).clock_rates() == old(self).clock_rates(),
            final(self).completions() == old(self).completions(),
            final(self).init_count() == old(self).init_count() + 1,
    {
        self.enable_clock();
        let ghost f0 = self.registers.file();
        self.set_parity(params.parity);
        self.set_stop_bits(params.stop_bits);
        let ghost f2 = self.registers.file();
        self.set_baud_rate(params.baud_rate);
        let ghost f3 = self.registers.file();
        self.enable_rx();
        self.enable_tx();
        let ghost f5 = self.registers.file();
        let ghost (a0, a5) = (f0.c2, f5.c2);
        assert(a5 & 0xF3 == a0 & 0xF3 && a5 & 0x04 != 0 && a5 & 0x08 != 0) by (bit_vector)
            requires
                a5 == (a0 | 0x04u8) | 0x08u8,
        ;
        let ghost (h0, h2, h3) = (f0.bdh, f2.bdh, f3.bdh);
        assert(h3 & 0x20 == h2 & 0x20 && h3 & 0xC0 == h0 & 0xC0) by (bit_vector)
            requires
                h3 & 0xE0 == h2 & 0xE0,
                h2 & 0xDF == h0 & 0xDF,
        ;
        self.inits = Ghost(self.inits@ + 1);
    }

    /// Waits until the transmit data register is empty, then writes `byte`
    /// to it. Does not wait for the byte to leave the wire.
    pub fn send_byte(&mut self, byte: u8)
        requires
            old(self).regs().clock_enabled(),
        ensures
            final(self).regs().clock_enabled(),
            final(self).regs().file() == old(self).regs().file(),
            final(self).regs().log().len() > old(self).regs().log().len(),
            final(self).regs().log().take(old(self).regs().log().len() as int) == old(
                self,
            ).regs().log(),
            send_segment(final(self).regs().log().skip(old(self).regs().log().len() as int), byte),
            final(self).regs().sent() == old(self).regs().sent().push(byte),
            final(self).client_spec() == old(self).client_spec(),
            old(self).same_driver(final(self)),
    {
        let ghost start = self.registers.log().len();
        loop
            invariant_except_break
                forall|i: int|
                    start <= i < self.registers.log().len() ==> busy_poll(
                        #[trigger] self.registers.log()[i],
                    ),
            invariant
                self.registers.clock_enabled(),
                self.registers.file() == old(self).regs().file(),
                self.registers.sent() == old(self).regs().sent(),
                self.registers.log().len() >= start,
                self.registers.log().take(start as int) == old(self).regs().log(),
                self.client == old(self).client_spec(),
                old(self).same_driver(self),
                start == old(self).regs().log().len(),
            ensures
                self.registers.log().len() > start,
                ready_poll(self.registers.log().last()),
                forall|i: int|
                    start <= i < self.registers.log().len() - 1 ==> busy_poll(
                        #[trigger] self.registers.log()[i],
                    ),
            decreases self.registers.pending(),
        {
            let s1 = self.registers.read_status();
            if s1 & S1_TDRE != 0 {
                break;
            }
        }
        self.registers.write_data(byte);
        let ghost log = self.registers.log();
        assert(log.take(start as int) =~= old(self).regs().log());
        let ghost seg = log.skip(start as int);
        assert forall|i: int| 0 <= i < seg.len() - 2 implies busy_poll(#[trigger] seg[i]) by {
            assert(seg[i] == log[start + i]);
        }
    }

    /// Whether the transmission-complete flag is set, by one status read.
    pub fn tx_ready(&mut self) -> (r: bool)
        requires
            old(self).regs().clock_enabled(),
        ensures
            final(self).regs().clock_enabled(),
            final(self).regs().file() == old(self).regs().file(),
            final(self).regs().log() == old(self).regs().log().push(
                final(self).regs().log().last(),
            ),
            is_status(final(self).regs().log().last()),
            r == complete_poll(final(self).regs().log().last()),
            final(self).regs().sent() == old(self).regs().sent(),
            !r ==> final(self).regs().pending() < old(self).regs().pending(),
            r ==> final(self).regs().pending() <= old(self).regs().pending(),
            final(self).client_spec() == old(self).client_spec(),
            old(self).same_driver(final(self)),
    {
        let s1 = self.registers.read_status();
        s1 & S1_TC != 0
    }

    /// Sends the first `tx_len` bytes of `tx_data` in order, waits for the
    /// transmission to complete, then hands the buffer to the client, if one
    /// is registered, with `CommandComplete`.
    pub fn transmit(&mut self, tx_data: Vec<u8>, tx_len: usize)
        requires
            old(self).regs().clock_enabled(),
            tx_len <= tx_data.len(),
        ensures
            final(self).regs().clock_enabled(),
            final(self).regs().file() == old(self).regs().file(),
            final(self).regs().sent() == old(self).regs().sent() + tx_data@.take(tx_len as int),
            final(self).regs().log().len() > old(self).regs().log().len(),
            final(self).regs().log().take(old(self).regs().log().len() as int) == old(
                self,
            ).regs().log(),
            forall|i: int|
                old(self).regs().log().len() <= i < final(self).regs().log().len() && (
                #[trigger] final(self).regs().log()[i] is Data) ==> i > old(
                    self,
                ).regs().log().len() && ready_poll(final(self).regs().log()[i - 1]),
            complete_poll(final(self).regs().log().last()),
            final(self).peripheral() == old(self).peripheral(),
            final(self).clock_rates() == old(self).clock_rates(),
            final(self).init_count() == old(self).init_count(),
            final(self).client_spec().is_some() == old(self).client_spec().is_some(),
            final(self).completions() == if old(self).client_spec().is_some() {
                old(self).completions().push((tx_data@, Error::CommandComplete))
            } else {
                old(self).completions()
            },
    {
        let ghost start = self.registers.log().len();
        let ghost log0 = self.registers.log();
        let mut i: usize = 0;
        while i < tx_len
            invariant
                i <= tx_len,
                tx_len <= tx_data.len(),
                self.registers.clock_enabled(),
                self.registers.file() == old(self).regs().file(),
                self.registers.sent() == old(self).regs().sent() + tx_data@.take(i as int),
                self.registers.log().len() >= start,
                self.registers.log().take(start as int) == log0,
                forall|k: int|
                    start <= k < self.registers.log().len() && (
                    #[trigger] self.registers.log()[k] is Data) ==> k > start && ready_poll(
                        self.registers.log()[k - 1],
                    ),
                self.client == old(self).client_spec(),
                old(self).same_driver(self),
                start == old(self).regs().log().len(),
                log0 == old(self).regs().log(),
            decreases tx_len - i,
        {
            let ghost before = self.registers.log();
            self.send_byte(tx_data[i]);
            let ghost after = self.registers.log();
            assert forall|k: int|
                start <= k < after.len() && (#[trigger] after[k] is Data) implies k > start
                && ready_poll(after[k - 1]) by {
                if k < before.len() {
                    assert(after[k] == after.take(before.len() as int)[k]);
                    assert(after[k - 1] == after.take(before.len() as int)[k - 1]);
                } else {
                    let seg = after.skip(before.len() as int);
                    assert(after[k] == seg[k - before.len()]);
                    assert(k == after.len() - 1) by {
                        if k < after.len() - 1 {
                            assert(busy_poll(seg[k - before.len()]));
                        }
                    }
                    assert(after[k - 1] == seg[seg.len() - 2]);
                }
            }
            assert(after.take(start as int) =~= after.take(before.len() as int).take(start as int));
            assert(tx_data@.take(i + 1) =~= tx_data@.take(i as int).push(tx_data@[i as int]));
            i = i + 1;
        }
        loop
            invariant
                self.registers.clock_enabled(),
                self.registers.file() == old(self).regs().file(),
                self.registers.sent() == old(self).regs().sent() + tx_data@.take(tx_len as int),
                self.registers.log().len() >= start,
                self.registers.log().take(start as int) == log0,
                forall|k: int|
                    start <= k < self.registers.log().len() && (
                    #[trigger] self.registers.log()[k] is Data) ==> k > start && ready_poll(
                        self.registers.log()[k - 1],
                    ),
                self.client == old(self).client_spec(),
                old(self).same_driver(self),
                start == old(self).regs().log().len(),
                log0 == old(self).regs().log(),
            ensures
                self.registers.log().len() > start,
                complete_poll(self.registers.log().last()),
            decreases self.registers.pending(),
        {
            let ghost before = self.registers.log();
            let ready = self.tx_ready();
            let ghost after = self.registers.log();
            assert(after.take(start as int) =~= before.take(start as int));
            assert forall|k: int|
                start <= k < after.len() && (#[trigger] after[k] is Data) implies k > start
                && ready_poll(after[k - 1]) by {
                assert(after[k] == before[k] || k == before.len());
            }
            if ready {
                break;
            }
        }
        if self.client.is_some() {
            self.completions = Ghost(self.completions@.push((tx_data@, Error::CommandComplete)));
        }
        match &mut self.client {
            Some(client) => {
                client.transmit_complete(tx_data, Error::CommandComplete);
            },
            None => {},
        }
    }

    /// Receiving is not supported: this always fails, reads nothing and
    /// leaves the buffer as it was.
    pub fn receive(&mut self, rx_buffer: &mut Vec<u8>, rx_len: usize) -> (r: Result<(), Error>)
        ensures
            r == Err::<(), Error>(Error::NotImplemented),
            *final(rx_buffer) == *old(rx_buffer),
            final(self).regs() == old(self).regs(),
            final(self).client_spec() == old(self).client_spec(),
            old(self).same_driver(final(self)),
    {
        Err(Error::NotImplemented)
    }

    /// Enables the receiver, leaving every other bit of `C2` as it was.
    pub fn enable_rx(&mut self)
        requires
            old(self).regs().clock_enabled(),
        ensures
            final(self).regs().clock_enabled(),
            final(self).regs().file() == old(self).regs().file().set(
                Reg::C2,
                old(self).regs().file().c2 | C2_RE,
            ),
            final(self).regs().log() == old(self).regs().log(),
            final(self).regs().sent() == old(self).regs().sent(),
            final(self).client_spec() == old(self).client_spec(),
            old(self).same_driver(final(self)),
    {
        let c2 = self.registers.read(Reg::C2);
        self.registers.write(Reg::C2, c2 | C2_RE);
    }

    /// Enables the transmitter, leaving every other bit of `C2` as it was.
    pub fn enable_tx(&mut self)
        requires
            old(self).regs().clock_enabled(),
        ensures
            final(self).regs().clock_enabled(),
            final(self).regs().file() == old(self).regs().file().set(
                Reg::C2,
                old(self).regs().file().c2 | C2_TE,
            ),
            final(self).regs().log() == old(self).regs().log(),
            final(self).regs().sent() == old(self).regs().sent(),
            final(self).client_spec() == old(self).client_spec(),
            old(self).same_driver(final(self)),
    {
        let c2 = self.registers.read(Reg::C2);
        self.registers.write(Reg::C2, c2 | C2_TE);
    }
}

} // verus!
