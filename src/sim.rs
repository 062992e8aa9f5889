use crate::error::Error;
use crate::instance::Instance;
use crate::status::{fault_of, Status, Wait};
use std::marker::PhantomData;
use vstd::prelude::*;

verus! {

/// A simulated controller and line for controller identity `ID`. Each frame
/// sent in full duplex clocks in one frame: the next byte of a response
/// script, or, once the script is used up, the frame sent itself (a
/// loopback). Frames are shifted out at once; the transmit FIFO level that
/// the status shows is set by hand and drops to empty when waited on. A
/// fault can be armed to show in the status once a number of frames has
/// been read.
pub struct SimLine<ID> {
    script: Vec<u8>,
    rx: Vec<u8>,
    sent: Vec<u8>,
    received: Vec<u8>,
    tx_only: bool,
    ftlvl: u8,
    fault: Option<Error>,
    fault_after: usize,
    last: Status,
    cr1: u16,
    cr2: u16,
    faults: Ghost<nat>,
    since_status: Ghost<nat>,
    id: PhantomData<ID>,
}

impl<ID> SimLine<ID> {
    /// The frames the line will clock in, in order, before it loops back.
    pub closed spec fn script(&self) -> Seq<u8> {
        self.script@
    }

    /// The transmit FIFO level code the status shows.
    pub closed spec fn tx_level(&self) -> u8 {
        self.ftlvl
    }

    /// The fault armed to show in the status, if any.
    pub closed spec fn armed_fault(&self) -> Option<Error> {
        self.fault
    }

    /// How many frames must have been read before the armed fault shows.
    pub closed spec fn fault_after(&self) -> usize {
        self.fault_after
    }

    /// A line in full duplex with nothing sent or received yet.
    pub fn new(script: Vec<u8>) -> (l: Self)
        ensures
            l.script() == script@,
            l.sent() == Seq::<u8>::empty(),
            l.received() == Seq::<u8>::empty(),
            l.pending() == 0,
            !l.tx_only(),
            l.tx_level() == 0,
            l.armed_fault() is None,
    {
        SimLine {
            script,
            rx: Vec::new(),
            sent: Vec::new(),
            received: Vec::new(),
            tx_only: false,
            ftlvl: 0,
            fault: None,
            fault_after: 0,
            last: Status { rxne: false, txe: true, crcerr: false, modf: false, ovr: false, ftlvl: 0 },
            cr1: 0,
            cr2: 0,
            faults: Ghost(0),
            since_status: Ghost(0),
            id: PhantomData,
        }
    }

    /// Arms fault `e`, shown in every status read once `after` frames in all
    /// have been read from the data register.
    pub fn inject_fault(&mut self, e: Error, after: usize)
        ensures
            final(self).armed_fault() == Some(e),
            final(self).fault_after() == after,
            final(self).sent() == old(self).sent(),
            final(self).received() == old(self).received(),
            final(self).pending() == old(self).pending(),
            final(self).tx_only() == old(self).tx_only(),
            final(self).script() == old(self).script(),
    {
        self.fault = Some(e);
        self.fault_after = after;
    }

    /// Sets the transmit FIFO level code that the status shows.
    pub fn set_tx_level(&mut self, ftlvl: u8)
        requires
            ftlvl < 4,
        ensures
            final(self).tx_level() == ftlvl,
            final(self).armed_fault() == old(self).armed_fault(),
            final(self).fault_after() == old(self).fault_after(),
            final(self).sent() == old(self).sent(),
            final(self).received() == old(self).received(),
            final(self).pending() == old(self).pending(),
            final(self).tx_only() == old(self).tx_only(),
            final(self).script() == old(self).script(),
    {
        self.ftlvl = ftlvl;
    }

    /// Every frame sent so far.
    pub fn sent_frames(&self) -> (r: Vec<u8>)
        ensures
            r@ == self.sent(),
    {
        copy(&self.sent)
    }

    /// Every frame read from the data register so far.
    pub fn received_frames(&self) -> (r: Vec<u8>)
        ensures
            r@ == self.received(),
    {
        copy(&self.received)
    }

    /// Frames waiting in the receive FIFO.
    pub fn rx_level(&self) -> (r: usize)
        ensures
            r == self.pending(),
    {
        self.rx.len()
    }

    /// The transmit FIFO level code the status shows.
    pub fn tx_fifo_level(&self) -> (r: u8)
        ensures
            r == self.tx_level(),
    {
        self.ftlvl
    }

    /// The line is in transmit-only mode.
    pub fn is_tx_only(&self) -> (r: bool)
        ensures
            r == self.tx_only(),
    {
        self.tx_only
    }

    /// Control register 1.
    pub fn cr1_value(&self) -> (r: u16)
        ensures
            r == self.cr1(),
    {
        self.cr1
    }

    /// Control register 2.
    pub fn cr2_value(&self) -> (r: u16)
        ensures
            r == self.cr2(),
    {
        self.cr2
    }

    /// The status as it stands.
    fn current(&self) -> (s: Status)
        ensures
            s.rxne == (self.rx@.len() > 0),
            s.txe,
            s.ftlvl == self.ftlvl,
    {
        let (ovr, modf, crcerr) = match self.fault {
            Some(e) => if self.received.len() >= self.fault_after {
                match e {
                    Error::Overrun => (true, false, false),
                    Error::ModeFault => (false, true, false),
                    Error::Crc => (false, false, true),
                }
            } else {
                (false, false, false)
            },
            None => (false, false, false),
        };
        Status { rxne: self.rx.len() > 0, txe: true, crcerr, modf, ovr, ftlvl: self.ftlvl }
    }
}

/// A copy of `v`.
fn copy(v: &Vec<u8>) -> (r: Vec<u8>)
    ensures
        r@ == v@,
{
    let mut r: Vec<u8> = Vec::new();
    let mut i: usize = 0;
    while i < v.len()
        invariant
            i <= v@.len(),
            r@ == v@.subrange(0, i as int),
        decreases v@.len() - i,
    {
        r.push(v[i]);
        assert(v@.subrange(0, i as int).push(v@[i as int]) =~= v@.subrange(0, i + 1));
        i = i + 1;
    }
    assert(v@.subrange(0, v@.len() as int) =~= v@);
    r
}

impl<ID> Instance for SimLine<ID> {
    type Id = ID;

    closed spec fn sent(&self) -> Seq<u8> {
        self.sent@
    }

    closed spec fn received(&self) -> Seq<u8> {
        self.received@
    }

    closed spec fn pending(&self) -> nat {
        self.rx@.len()
    }

    closed spec fn tx_only(&self) -> bool {
        self.tx_only
    }

    closed spec fn last_status(&self) -> Status {
        self.last
    }

    closed spec fn faults_seen(&self) -> nat {
        self.faults@
    }

    closed spec fn data_since_status(&self) -> nat {
        self.since_status@
    }

    closed spec fn cr1(&self) -> u16 {
        self.cr1
    }

    closed spec fn cr2(&self) -> u16 {
        self.cr2
    }

    fn status(&mut self) -> (s: Status) {
        let s = self.current();
        self.last = s;
        self.faults = Ghost(self.faults@ + if fault_of(s) is Some {
            1nat
        } else {
            0nat
        });
        self.since_status = Ghost(0);
        s
    }

    fn wait_status(&mut self, w: Wait) -> (s: Status) {
        if w == Wait::TxDrained {
            self.ftlvl = 0;
        }
        let s = self.current();
        self.last = s;
        self.faults = Ghost(self.faults@ + if fault_of(s) is Some {
            1nat
        } else {
            0nat
        });
        self.since_status = Ghost(0);
        s
    }

    fn read_data(&mut self) -> (b: u8) {
        let b = self.rx.remove(0);
        self.received.push(b);
        self.since_status = Ghost(self.since_status@ + 1);
        b
    }

    fn write_data(&mut self, b: u8) {
        self.sent.push(b);
        self.since_status = Ghost(self.since_status@ + 1);
        if !self.tx_only {
            let r = if self.script.len() > 0 {
                self.script.remove(0)
            } else {
                b
            };
            self.rx.push(r);
        }
    }

    fn set_bidi_mode(&mut self, tx_only: bool) {
        self.tx_only = tx_only;
        self.cr1 = if tx_only {
            self.cr1 | 0xC000
        } else {
            self.cr1 & 0x3FFF
        };
    }

    fn enable_and_reset(&mut self) {
        self.rx = Vec::new();
        self.tx_only = false;
        self.ftlvl = 0;
        self.cr1 = 0;
        self.cr2 = 0x0700;
    }

    fn write_cr1(&mut self, v: u16) {
        self.cr1 = v;
        self.tx_only = v & 0xC000 == 0xC000;
    }

    fn write_cr2(&mut self, v: u16) {
        self.cr2 = v;
    }

    fn read_cr2(&self) -> (v: u16) {
        self.cr2
    }
}

} // verus!
