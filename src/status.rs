use crate::config::bit;
use crate::error::Error;
use vstd::prelude::*;

verus! {

/// The flags of the status register that the driver reads.
#[derive(Debug, Clone, Copy, PartialEq, Eq, Structural)]
pub struct Status {
    /// A received frame is waiting (RXNE).
    pub rxne: bool,
    /// The transmit FIFO has room for a frame (TXE).
    pub txe: bool,
    /// The received CRC did not match (CRCERR).
    pub crcerr: bool,
    /// Mode fault (MODF).
    pub modf: bool,
    /// Overrun (OVR).
    pub ovr: bool,
    /// Transmit FIFO level code (FTLVL): empty, 1/4, 1/2, full.
    pub ftlvl: u8,
}

impl Status {
    /// Decodes a raw status register value.
    pub fn from_bits(sr: u16) -> (s: Status)
        ensures
            s.rxne == bit(sr, 0),
            s.txe == bit(sr, 1),
            s.crcerr == bit(sr, 4),
            s.modf == bit(sr, 5),
            s.ovr == bit(sr, 6),
            s.ftlvl as u16 == (sr >> 11) & 3,
    {
        let lvl = (sr >> 11) & 3;
        assert(lvl < 4) by (bit_vector)
            requires lvl == (sr >> 11u16) & 3u16;
        Status {
            rxne: (sr >> 0) & 1 == 1,
            txe: (sr >> 1) & 1 == 1,
            crcerr: (sr >> 4) & 1 == 1,
            modf: (sr >> 5) & 1 == 1,
            ovr: (sr >> 6) & 1 == 1,
            ftlvl: lvl as u8,
        }
    }
}

/// The fault a status shows, by priority: overrun, then mode fault, then CRC.
pub open spec fn fault_of(s: Status) -> Option<Error> {
    if s.ovr {
        Some(Error::Overrun)
    } else if s.modf {
        Some(Error::ModeFault)
    } else if s.crcerr {
        Some(Error::Crc)
    } else {
        None
    }
}

/// The fault that `s` reports, if any, by priority.
pub fn fault(s: &Status) -> (r: Option<Error>)
    ensures
        r == fault_of(*s),
{
    if s.ovr {
        Some(Error::Overrun)
    } else if s.modf {
        Some(Error::ModeFault)
    } else if s.crcerr {
        Some(Error::Crc)
    } else {
        None
    }
}

/// What a blocking access waits for.
#[derive(Debug, Clone, Copy, PartialEq, Eq, Structural)]
pub enum Wait {
    /// Room in the transmit FIFO, or a fault.
    TxSpace,
    /// A received frame, or a fault.
    RxData,
    /// The transmit FIFO has been shifted out completely, or a fault.
    TxDrained,
}

/// A status that ends the wait `w`.
pub open spec fn settled(s: Status, w: Wait) -> bool {
    match w {
        Wait::TxSpace => s.txe || fault_of(s) is Some,
        Wait::RxData => s.rxne || fault_of(s) is Some,
        Wait::TxDrained => s.ftlvl == 0 || fault_of(s) is Some,
    }
}

/// Whether `s` ends the wait `w`.
pub fn settles(s: &Status, w: Wait) -> (r: bool)
    ensures
        r == settled(*s, w),
{
    let faulted = fault(s).is_some();
    match w {
        Wait::TxSpace => s.txe || faulted,
        Wait::RxData => s.rxne || faulted,
        Wait::TxDrained => s.ftlvl == 0 || faulted,
    }
}

} // verus!
