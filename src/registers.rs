//! The register interface of one UART peripheral: bit-field encodings of the
//! control registers, an access trait for a register block, and a simulated
//! register block whose status flags follow a script.

use vstd::prelude::*;

verus! {

/// `BDH` bits 4..0: the high five bits of the baud-rate divisor.
pub const BDH_SBR_MASK: u8 = 0x1F;
/// `BDH` bit 5: stop-bit number select (set for two stop bits).
pub const BDH_SBNS: u8 = 0x20;
/// `C1` bit 0: parity type (set for odd parity).
pub const C1_PT: u8 = 0x01;
/// `C1` bit 1: parity enable.
pub const C1_PE: u8 = 0x02;
/// `C2` bit 2: receiver enable.
pub const C2_RE: u8 = 0x04;
/// `C2` bit 3: transmitter enable.
pub const C2_TE: u8 = 0x08;
/// `C4` bits 4..0: baud-rate fine adjust.
pub const C4_BRFA_MASK: u8 = 0x1F;
/// `S1` bit 7: transmit data register empty.
pub const S1_TDRE: u8 = 0x80;
/// `S1` bit 6: transmission complete.
pub const S1_TC: u8 = 0x40;

/// The read/write control registers of one peripheral.
#[derive(Clone, Copy, Debug, PartialEq, Eq, Structural)]
pub struct RegisterFile {
    pub bdh: u8,
    pub bdl: u8,
    pub c1: u8,
    pub c2: u8,
    pub c4: u8,
}

/// Names of the read/write control registers.
#[derive(Clone, Copy, Debug, PartialEq, Eq, Structural)]
pub enum Reg {
    Bdh,
    Bdl,
    C1,
    C2,
    C4,
}

/// One access to the status or data register, in the order it happened.
#[derive(Clone, Copy, Debug, PartialEq, Eq, Structural)]
pub enum Access {
    /// A read of `S1` that returned the given value.
    Status(u8),
    /// A write of the given byte to the data register `D`.
    Data(u8),
}

impl RegisterFile {
    /// All control registers at their reset value.
    pub fn reset() -> (r: RegisterFile)
        ensures
            r == (RegisterFile { bdh: 0, bdl: 0, c1: 0, c2: 0, c4: 0 }),
    {
        RegisterFile { bdh: 0, bdl: 0, c1: 0, c2: 0, c4: 0 }
    }

    pub open spec fn get(self, r: Reg) -> u8 {
        match r {
            Reg::Bdh => self.bdh,
            Reg::Bdl => self.bdl,
            Reg::C1 => self.c1,
            Reg::C2 => self.c2,
            Reg::C4 => self.c4,
        }
    }

    pub open spec fn set(self, r: Reg, v: u8) -> RegisterFile {
        match r {
            Reg::Bdh => RegisterFile { bdh: v, ..self },
            Reg::Bdl => RegisterFile { bdl: v, ..self },
            Reg::C1 => RegisterFile { c1: v, ..self },
            Reg::C2 => RegisterFile { c2: v, ..self },
            Reg::C4 => RegisterFile { c4: v, ..self },
        }
    }

    /// The 13-bit baud-rate divisor held in `BDH:BDL`.
    pub open spec fn baud_divisor(self) -> u32 {
        ((self.bdh % 32) as u32 * 256 + self.bdl as u32) as u32
    }

    /// The baud-rate fine-adjust field of `C4`.
    pub open spec fn fine_adjust(self) -> u8 {
        (self.c4 % 32) as u8
    }

    pub open spec fn two_stop_bits(self) -> bool {
        self.bdh & BDH_SBNS != 0
    }

    pub open spec fn parity_enabled(self) -> bool {
        self.c1 & C1_PE != 0
    }

    pub open spec fn parity_odd(self) -> bool {
        self.c1 & C1_PT != 0
    }

    pub open spec fn rx_enabled(self) -> bool {
        self.c2 & C2_RE != 0
    }

    pub open spec fn tx_enabled(self) -> bool {
        self.c2 & C2_TE != 0
    }
}

pub open spec fn tx_empty(s1: u8) -> bool {
    s1 & S1_TDRE != 0
}

pub open spec fn tx_complete(s1: u8) -> bool {
    s1 & S1_TC != 0
}

/// A status read that found the transmit data register still full.
pub open spec fn busy_poll(a: Access) -> bool {
    match a {
        Access::Status(s1) => !tx_empty(s1),
        Access::Data(_) => false,
    }
}

/// A status read that found the transmit data register empty.
pub open spec fn ready_poll(a: Access) -> bool {
    match a {
        Access::Status(s1) => tx_empty(s1),
        Access::Data(_) => false,
    }
}

/// A status read that found the transmission complete.
pub open spec fn complete_poll(a: Access) -> bool {
    match a {
        Access::Status(s1) => tx_complete(s1),
        Access::Data(_) => false,
    }
}

pub open spec fn is_status(a: Access) -> bool {
    a is Status
}

/// The accesses of one blocking byte send: status reads that find the data
/// register full, one that finds it empty, then the write of `byte`.
pub open spec fn send_segment(seg: Seq<Access>, byte: u8) -> bool {
    &&& seg.len() >= 2
    &&& seg[seg.len() - 1] == Access::Data(byte)
    &&& ready_poll(seg[seg.len() - 2])
    &&& forall|i: int| 0 <= i < seg.len() - 2 ==> busy_poll(#[trigger] seg[i])
}

/// Access to the register block of one UART peripheral.
///
/// `pending` is a measure of how far the transmitter is from idle: every read
/// of the status register that finds either transmit flag clear lowers it.
/// A block on which a flag never comes up has no such measure, and a caller
/// waiting on it would wait forever.
pub trait UartRegisters {
    spec fn file(&self) -> RegisterFile;

    spec fn clock_enabled(&self) -> bool;

    spec fn log(&self) -> Seq<Access>;

    /// Every byte written to the data register, in order.
    spec fn sent(&self) -> Seq<u8>;

    spec fn pending(&self) -> nat;

    /// Gates the peripheral's clock on; required before any register access.
    fn enable_clock(&mut self)
        ensures
            final(self).clock_enabled(),
            final(self).file() == old(self).file(),
            final(self).log() == old(self).log(),
            final(self).sent() == old(self).sent(),
            final(self).pending() == old(self).pending(),
    ;

    fn read(&self, r: Reg) -> (v: u8)
        requires
            self.clock_enabled(),
        ensures
            v == self.file().get(r),
    ;

    fn write(&mut self, r: Reg, v: u8)
        requires
            old(self).clock_enabled(),
        ensures
            final(self).clock_enabled(),
            final(self).file() == old(self).file().set(r, v),
            final(self).log() == old(self).log(),
            final(self).sent() == old(self).sent(),
            final(self).pending() == old(self).pending(),
    ;

    fn read_status(&mut self) -> (s1: u8)
        requires
            old(self).clock_enabled(),
        ensures
            final(self).clock_enabled(),
            final(self).file() == old(self).file(),
            final(self).log() == old(self).log().push(Access::Status(s1)),
            final(self).sent() == old(self).sent(),
            !(tx_empty(s1) && tx_complete(s1)) ==> final(self).pending() < old(self).pending(),
            tx_empty(s1) && tx_complete(s1) ==> final(self).pending() <= old(self).pending(),
    ;

    fn write_data(&mut self, b: u8)
        requires
            old(self).clock_enabled(),
        ensures
            final(self).clock_enabled(),
            final(self).file() == old(self).file(),
            final(self).log() == old(self).log().push(Access::Data(b)),
            final(self).sent() == old(self).sent().push(b),
    ;
}

/// A register block in memory whose status register replays a script: the
/// n-th status read returns the n-th scripted value, and once the script is
/// spent every read shows both transmit flags set.
pub struct SimRegisters {
    file: RegisterFile,
    clock_enabled: bool,
    script: Vec<u8>,
    next: usize,
    log: Vec<Access>,
    sent: Vec<u8>,
}

impl SimRegisters {
    pub fn new(script: Vec<u8>) -> (r: SimRegisters)
        ensures
            r.file() == (RegisterFile { bdh: 0, bdl: 0, c1: 0, c2: 0, c4: 0 }),
            !r.clock_enabled(),
            r.log() == Seq::<Access>::empty(),
            r.sent() == Seq::<u8>::empty(),
            r.pending() == script@.len(),
    {
        SimRegisters {
            file: RegisterFile::reset(),
            clock_enabled: false,
            script,
            next: 0,
            log: Vec::new(),
            sent: Vec::new(),
        }
    }

    /// The control registers as they stand.
    pub fn registers(&self) -> (r: RegisterFile)
        ensures
            r == self.file(),
    {
        self.file
    }

    /// Whether the peripheral's clock has been gated on.
    pub fn clock_gated(&self) -> (r: bool)
        ensures
            r == self.clock_enabled(),
    {
        self.clock_enabled
    }

    /// Every status read and data write so far, in order.
    pub fn accesses(&self) -> (r: &Vec<Access>)
        ensures
            r@ == self.log(),
    {
        &self.log
    }

    /// Every byte written to the data register so far, in order.
    pub fn data_written(&self) -> (r: &Vec<u8>)
        ensures
            r@ == self.sent(),
    {
        &self.sent
    }
}

impl UartRegisters for SimRegisters {
    closed spec fn file(&self) -> RegisterFile {
        self.file
    }

    closed spec fn clock_enabled(&self) -> bool {
        self.clock_enabled
    }

    closed spec fn log(&self) -> Seq<Access> {
        self.log@
    }

    closed spec fn sent(&self) -> Seq<u8> {
        self.sent@
    }

    closed spec fn pending(&self) -> nat {
        if self.next <= self.script@.len() {
            (self.script@.len() - self.next) as nat
        } else {
            0
        }
    }

    fn enable_clock(&mut self) {
        self.clock_enabled = true;
    }

    fn read(&self, r: Reg) -> (v: u8) {
        match r {
            Reg::Bdh => self.file.bdh,
            Reg::Bdl => self.file.bdl,
            Reg::C1 => self.file.c1,
            Reg::C2 => self.file.c2,
            Reg::C4 => self.file.c4,
        }
    }

    fn write(&mut self, r: Reg, v: u8) {
        match r {
            Reg::Bdh => self.file.bdh = v,
            Reg::Bdl => self.file.bdl = v,
            Reg::C1 => self.file.c1 = v,
            Reg::C2 => self.file.c2 = v,
            Reg::C4 => self.file.c4 = v,
        }
    }

    fn read_status(&mut self) -> (s1: u8) {
        let s1: u8 = if self.next < self.script.len() {
            let v = self.script[self.next];
            self.next = self.next + 1;
            v
        } else {
            S1_TDRE | S1_TC
        };
        assert(tx_empty(S1_TDRE | S1_TC) && tx_complete(S1_TDRE | S1_TC)) by (bit_vector);
        self.log.push(Access::Status(s1));
        s1
    }

    fn write_data(&mut self, b: u8) {
        self.log.push(Access::Data(b));
        self.sent.push(b);
    }
}

} // verus!
