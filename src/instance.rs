use crate::status::{fault_of, settled, Status, Wait};
use vstd::prelude::*;

verus! {

/// The register block of one controller, seen through the accesses that
/// the driver makes. The views record what the line has carried: every
/// byte written to and read from the data register, the frames that the
/// receiver owes the driver, and the last status read.
///
/// What is proved of the driver holds only over an implementation that
/// defines every view and is verified against these contracts; in this
/// crate that is the simulated line `SimLine`. The views have placeholder
/// bodies only so that a register block written outside verification
/// (memory-mapped hardware) compiles with its accesses alone. For such an
/// implementation the views stay placeholders, the contracts below are not
/// true of it (its `sent()` never grows, for one), and nothing proved here
/// carries over to it.
pub trait Instance: Sized {
    /// The controller identity that the pin capability matrix is keyed by.
    type Id;

    /// Every byte written to the data register, in order.
    closed spec fn sent(&self) -> Seq<u8> {
        Seq::empty()
    }

    /// Every byte read from the data register, in order.
    closed spec fn received(&self) -> Seq<u8> {
        Seq::empty()
    }

    /// Frames clocked (or to be clocked) in full duplex that are not read yet.
    closed spec fn pending(&self) -> nat {
        0
    }

    /// The line runs in transmit-only mode: nothing is received.
    closed spec fn tx_only(&self) -> bool {
        false
    }

    /// The status that the last status read returned.
    closed spec fn last_status(&self) -> Status {
        Status { rxne: false, txe: false, crcerr: false, modf: false, ovr: false, ftlvl: 0 }
    }

    /// How many status reads so far have shown a fault.
    closed spec fn faults_seen(&self) -> nat {
        0
    }

    /// Data register accesses since the last status read.
    closed spec fn data_since_status(&self) -> nat {
        0
    }

    /// Control register 1.
    closed spec fn cr1(&self) -> u16 {
        0
    }

    /// Control register 2.
    closed spec fn cr2(&self) -> u16 {
        0
    }

    /// Reads the status register once.
    fn status(&mut self) -> (s: Status)
        ensures
            final(self).last_status() == s,
            final(self).sent() == old(self).sent(),
            final(self).received() == old(self).received(),
            final(self).pending() == old(self).pending(),
            final(self).tx_only() == old(self).tx_only(),
            final(self).cr1() == old(self).cr1(),
            final(self).cr2() == old(self).cr2(),
            s.rxne ==> final(self).pending() > 0,
            final(self).tx_only() && !s.rxne ==> final(self).pending() == 0,
            final(self).faults_seen() == old(self).faults_seen() + if fault_of(s) is Some {
                1nat
            } else {
                0nat
            },
            final(self).data_since_status() == 0,
    ;

    /// Reads the status register until it shows what `w` waits for.
    fn wait_status(&mut self, w: Wait) -> (s: Status)
        requires
            w == Wait::RxData ==> old(self).pending() > 0,
        ensures
            settled(s, w),
            final(self).last_status() == s,
            final(self).sent() == old(self).sent(),
            final(self).received() == old(self).received(),
            final(self).pending() == old(self).pending(),
            final(self).tx_only() == old(self).tx_only(),
            final(self).cr1() == old(self).cr1(),
            final(self).cr2() == old(self).cr2(),
            s.rxne ==> final(self).pending() > 0,
            final(self).tx_only() && !s.rxne ==> final(self).pending() == 0,
            final(self).faults_seen() == old(self).faults_seen() + if fault_of(s) is Some {
                1nat
            } else {
                0nat
            },
            final(self).data_since_status() == 0,
    ;

    /// Takes one received frame out of the data register.
    fn read_data(&mut self) -> (b: u8)
        requires
            old(self).pending() > 0,
        ensures
            final(self).received() == old(self).received().push(b),
            final(self).pending() == old(self).pending() - 1,
            final(self).sent() == old(self).sent(),
            final(self).tx_only() == old(self).tx_only(),
            final(self).last_status() == old(self).last_status(),
            final(self).cr1() == old(self).cr1(),
            final(self).cr2() == old(self).cr2(),
            final(self).faults_seen() == old(self).faults_seen(),
            final(self).data_since_status() == old(self).data_since_status() + 1,
    ;

    /// Queues one frame in the data register for transmission.
    fn write_data(&mut self, b: u8)
        ensures
            final(self).sent() == old(self).sent().push(b),
            final(self).received() == old(self).received(),
            final(self).pending() == old(self).pending() + if old(self).tx_only() {
                0nat
            } else {
                1nat
            },
            final(self).tx_only() == old(self).tx_only(),
            final(self).last_status() == old(self).last_status(),
            final(self).cr1() == old(self).cr1(),
            final(self).cr2() == old(self).cr2(),
            final(self).faults_seen() == old(self).faults_seen(),
            final(self).data_since_status() == old(self).data_since_status() + 1,
    ;

    /// Switches between transmit-only (BIDIMODE and BIDIOE set) and
    /// full-duplex two-line mode (both clear).
    fn set_bidi_mode(&mut self, tx_only: bool)
        ensures
            final(self).tx_only() == tx_only,
            final(self).cr1() == if tx_only {
                old(self).cr1() | 0xC000
            } else {
                old(self).cr1() & 0x3FFF
            },
            final(self).sent() == old(self).sent(),
            final(self).received() == old(self).received(),
            final(self).pending() == old(self).pending(),
            final(self).last_status() == old(self).last_status(),
            final(self).cr2() == old(self).cr2(),
            final(self).faults_seen() == old(self).faults_seen(),
            final(self).data_since_status() == old(self).data_since_status(),
    ;

    /// Enables the controller's clock and pulses its reset.
    fn enable_and_reset(&mut self)
        ensures
            !final(self).tx_only(),
            final(self).pending() == 0,
            final(self).sent() == old(self).sent(),
            final(self).received() == old(self).received(),
            final(self).faults_seen() == old(self).faults_seen(),
            final(self).data_since_status() == old(self).data_since_status(),
    ;

    /// Writes control register 1.
    fn write_cr1(&mut self, v: u16)
        ensures
            final(self).cr1() == v,
            final(self).tx_only() == (v & 0xC000 == 0xC000),
            final(self).cr2() == old(self).cr2(),
            final(self).sent() == old(self).sent(),
            final(self).received() == old(self).received(),
            final(self).pending() == old(self).pending(),
            final(self).last_status() == old(self).last_status(),
            final(self).faults_seen() == old(self).faults_seen(),
            final(self).data_since_status() == old(self).data_since_status(),
    ;

    /// Writes control register 2.
    fn write_cr2(&mut self, v: u16)
        ensures
            final(self).cr2() == v,
            final(self).cr1() == old(self).cr1(),
            final(self).tx_only() == old(self).tx_only(),
            final(self).sent() == old(self).sent(),
            final(self).received() == old(self).received(),
            final(self).pending() == old(self).pending(),
            final(self).last_status() == old(self).last_status(),
            final(self).faults_seen() == old(self).faults_seen(),
            final(self).data_since_status() == old(self).data_since_status(),
    ;

    /// Reads control register 2.
    fn read_cr2(&self) -> (v: u16)
        ensures
            v == self.cr2(),
    ;
}

} // verus!
