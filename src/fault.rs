//! The fault report: a fixed sequence of text written through the
//! diagnostic writer, and the pin pattern that follows it forever.

use vstd::prelude::*;
use vstd::string::StringSliceAdditionalSpecFns;
use vstd::utf8::encode_utf8;
use vstd::arithmetic::div_mod::{lemma_fundamental_div_mod, lemma_fundamental_div_mod_converse};
use crate::registers::UartRegisters;
use crate::uart::Client;
use crate::writer::Writer;

verus! {

/// The text that the process subsystem rendered for one process.
pub struct ProcessDiagnostics {
    pub fault: String,
    pub statistics: String,
}

/// ASCII decimal digits of `n`, most significant first, without leading zeros.
pub open spec fn decimal(n: nat) -> Seq<u8>
    decreases n,
{
    if n < 10 {
        seq![(48 + n) as u8]
    } else {
        decimal(n / 10).push((48 + n % 10) as u8)
    }
}

/// The fault text of the first slot, when there is a first slot and it is occupied.
pub open spec fn first_fault_text(procs: Seq<Option<ProcessDiagnostics>>) -> Seq<u8> {
    if procs.len() > 0 && procs[0] is Some {
        encode_utf8(procs[0]->Some_0.fault@)
    } else {
        Seq::empty()
    }
}

/// The statistics text of every occupied slot, in slot order.
pub open spec fn statistics_text(procs: Seq<Option<ProcessDiagnostics>>) -> Seq<u8>
    decreases procs.len(),
{
    if procs.len() == 0 {
        Seq::empty()
    } else {
        statistics_text(procs.drop_last()) + match procs.last() {
            Some(p) => encode_utf8(p.statistics@),
            None => Seq::empty(),
        }
    }
}

pub open spec fn location_text(file: &str, line: u32) -> Seq<u8> {
    "\r\n\nKernel panic at ".spec_bytes() + file.spec_bytes() + ":".spec_bytes() + decimal(
        line as nat,
    ) + ":\r\n\t\"".spec_bytes()
}

/// The whole report, as the bytes that reach the wire.
pub open spec fn report_text(
    file: &str,
    line: u32,
    message: &str,
    version: &str,
    procs: Seq<Option<ProcessDiagnostics>>,
) -> Seq<u8> {
    location_text(file, line) + message.spec_bytes() + "\"\r\n".spec_bytes()
        + "\tKernel version ".spec_bytes() + version.spec_bytes() + "\r\n".spec_bytes()
        + first_fault_text(procs) + "\r\n---| App Status |---\r\n".spec_bytes()
        + statistics_text(procs)
}

/// Appends the decimal digits of `n` to `out`.
pub fn push_decimal(out: &mut Vec<u8>, n: u32)
    ensures
        final(out)@ == old(out)@ + decimal(n as nat),
    decreases n,
{
    if n >= 10 {
        push_decimal(out, n / 10);
    }
    out.push(48 + (n % 10) as u8);
    proof {
        if n < 10 {
            assert(decimal(n as nat) == seq![(48 + n) as u8]);
        }
    }
    assert(final(out)@ =~= old(out)@ + decimal(n as nat));
}

/// Writes the fault report: location, message, kernel version, the fault
/// text of the first process slot, then the statistics of every occupied
/// slot under a status header.
pub fn write_panic_report<R: UartRegisters, C: Client>(
    writer: &mut Writer<R, C>,
    file: &str,
    line: u32,
    message: &str,
    version: &str,
    procs: &Vec<Option<ProcessDiagnostics>>,
)
    requires
        old(writer).wf(),
    ensures
        final(writer).wf(),
        final(writer).initialized(),
        final(writer).configurations() == 1,
        final(writer).uart_spec().regs().sent() == old(writer).uart_spec().regs().sent()
            + report_text(file, line, message, version, procs@),
{
    let ghost s0 = writer.uart_spec().regs().sent();
    let mut digits: Vec<u8> = Vec::new();
    push_decimal(&mut digits, line);
    writer.write_str("\r\n\nKernel panic at ");
    writer.write_str(file);
    writer.write_str(":");
    writer.write_bytes(digits.as_slice());
    writer.write_str(":\r\n\t\"");
    assert(writer.uart_spec().regs().sent() =~= s0 + location_text(file, line));
    writer.write_str(message);
    writer.write_str("\"\r\n");
    writer.write_str("\tKernel version ");
    writer.write_str(version);
    writer.write_str("\r\n");
    let ghost s1 = writer.uart_spec().regs().sent();
    if procs.len() > 0 {
        match &procs[0] {
            Some(p) => writer.write_str(p.fault.as_str()),
            None => {},
        }
    }
    assert(writer.uart_spec().regs().sent() =~= s1 + first_fault_text(procs@));
    writer.write_str("\r\n---| App Status |---\r\n");
    let ghost s2 = writer.uart_spec().regs().sent();
    let mut idx: usize = 0;
    while idx < procs.len()
        invariant
            writer.wf(),
            writer.initialized(),
            writer.configurations() == 1,
            idx <= procs.len(),
            writer.uart_spec().regs().sent() == s2 + statistics_text(procs@.take(idx as int)),
        decreases procs.len() - idx,
    {
        let ghost before = writer.uart_spec().regs().sent();
        match &procs[idx] {
            Some(p) => writer.write_str(p.statistics.as_str()),
            None => {},
        }
        assert(procs@.take(idx + 1).drop_last() =~= procs@.take(idx as int));
        assert(writer.uart_spec().regs().sent() =~= s2 + statistics_text(
            procs@.take(idx + 1),
        ));
        idx = idx + 1;
    }
    assert(procs@.take(procs.len() as int) =~= procs@);
    assert(writer.uart_spec().regs().sent() =~= old(writer).uart_spec().regs().sent()
        + report_text(file, line, message, version, procs@));
}

/// Length of each long "clear" phase of the signal, in loop iterations.
pub const SIGNAL_CLEAR_LONG: u64 = 1000000;
/// Length of the short "set" phase.
pub const SIGNAL_SET_SHORT: u64 = 100000;
/// Length of the medium "set" phase.
pub const SIGNAL_SET_MEDIUM: u64 = 500000;
/// One whole round: clear, short set, clear, medium set.
pub const SIGNAL_PERIOD: u64 = 2600000;

/// What the signal loop does to the pin in one iteration: drive it low
/// (clear) or high (set).
#[derive(Clone, Copy, Debug, PartialEq, Eq, Structural)]
pub enum PinAction {
    Low,
    High,
}

/// The action at position `p` of a round.
pub open spec fn round_action(p: nat) -> PinAction {
    if p < SIGNAL_CLEAR_LONG {
        PinAction::Low
    } else if p < SIGNAL_CLEAR_LONG + SIGNAL_SET_SHORT {
        PinAction::High
    } else if p < 2 * SIGNAL_CLEAR_LONG + SIGNAL_SET_SHORT {
        PinAction::Low
    } else {
        PinAction::High
    }
}

/// The action of iteration `t` of the signal loop, counted from zero.
pub open spec fn signal_action(t: nat) -> PinAction {
    round_action(t % (SIGNAL_PERIOD as nat))
}

/// The signal loop's state: where it stands in the current round.
pub struct Signal {
    pos: u64,
    ticks: Ghost<nat>,
}

impl Signal {
    /// How many iterations have run.
    pub closed spec fn ticks(&self) -> nat {
        self.ticks@
    }

    pub closed spec fn wf(&self) -> bool {
        self.pos as nat == self.ticks@ % (SIGNAL_PERIOD as nat)
    }

    pub fn new() -> (r: Signal)
        ensures
            r.wf(),
            r.ticks() == 0,
    {
        Signal { pos: 0, ticks: Ghost(0) }
    }

    /// The next iteration's action on the pin.
    pub fn step(&mut self) -> (a: PinAction)
        requires
            old(self).wf(),
        ensures
            final(self).wf(),
            final(self).ticks() == old(self).ticks() + 1,
            a == signal_action(old(self).ticks()),
    {
        let a = if self.pos < SIGNAL_CLEAR_LONG {
            PinAction::Low
        } else if self.pos < SIGNAL_CLEAR_LONG + SIGNAL_SET_SHORT {
            PinAction::High
        } else if self.pos < 2 * SIGNAL_CLEAR_LONG + SIGNAL_SET_SHORT {
            PinAction::Low
        } else {
            PinAction::High
        };
        proof {
            lemma_next_position(self.ticks@);
        }
        self.pos = if self.pos + 1 == SIGNAL_PERIOD {
            0
        } else {
            self.pos + 1
        };
        self.ticks = Ghost(self.ticks@ + 1);
        a
    }
}

proof fn lemma_next_position(t: nat)
    ensures
        (t + 1) % (SIGNAL_PERIOD as nat) == if t % (SIGNAL_PERIOD as nat) + 1 == SIGNAL_PERIOD {
            0
        } else {
            t % (SIGNAL_PERIOD as nat) + 1
        },
{
    let d = SIGNAL_PERIOD as int;
    lemma_fundamental_div_mod(t as int, d);
    let q = t as int / d;
    let r = t as int % d;
    if r + 1 == d {
        lemma_fundamental_div_mod_converse(t + 1int, d, q + 1, 0);
    } else {
        lemma_fundamental_div_mod_converse(t + 1int, d, q, r + 1);
    }
}

/// The signal repeats every round.
pub proof fn lemma_signal_periodic(t: nat)
    ensures
        signal_action(t + SIGNAL_PERIOD as nat) == signal_action(t),
{
    let d = SIGNAL_PERIOD as int;
    lemma_fundamental_div_mod(t as int, d);
    lemma_fundamental_div_mod_converse(t as int + d, d, t as int / d + 1, t as int % d);
}

/// The pin level changes from one iteration to the next exactly at the four
/// phase boundaries of a round: clear for the long phase, set for the short
/// one, clear for the long phase, set for the medium one, then clear again.
pub proof fn lemma_signal_transitions(t: nat)
    ensures
        signal_action(t + 1) != signal_action(t) <==> {
            let p = (t + 1) % (SIGNAL_PERIOD as nat);
            ||| p == SIGNAL_CLEAR_LONG
            ||| p == SIGNAL_CLEAR_LONG + SIGNAL_SET_SHORT
            ||| p == 2 * SIGNAL_CLEAR_LONG + SIGNAL_SET_SHORT
            ||| p == 0
        },
        signal_action(t) == PinAction::Low <==> {
            let p = t % (SIGNAL_PERIOD as nat);
            ||| p < SIGNAL_CLEAR_LONG
            ||| SIGNAL_CLEAR_LONG + SIGNAL_SET_SHORT <= p < 2 * SIGNAL_CLEAR_LONG
                + SIGNAL_SET_SHORT
        },
{
    lemma_next_position(t);
    assert(SIGNAL_PERIOD == 2 * SIGNAL_CLEAR_LONG + SIGNAL_SET_SHORT + SIGNAL_SET_MEDIUM);
}

} // verus!
