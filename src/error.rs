use nb::Error as NbError;
use vstd::prelude::*;

verus! {

/// The kinds of fault that `embedded_hal` distinguishes for a bus.
#[verifier::external_type_specification]
pub struct ExErrorKind(embedded_hal::spi::ErrorKind);

/// The non-blocking result of `nb`: a real error, or "try again".
#[verifier::external_type_specification]
#[verifier::reject_recursive_types(E)]
pub struct ExNbError<E>(NbError<E>);

/// A fault that the controller reported in its status register.
#[derive(Debug, Clone, Copy, PartialEq, Eq, Structural)]
pub enum Error {
    /// Received data was lost because it was not read in time.
    Overrun,
    /// A second master drove the slave-select line.
    ModeFault,
    /// The received CRC did not match.
    Crc,
}

impl Error {
    /// The `embedded_hal` kind under which this fault is reported.
    pub fn kind(&self) -> (r: embedded_hal::spi::ErrorKind)
        ensures
            r == kind_of(*self),
    {
        match self {
            Error::Overrun => embedded_hal::spi::ErrorKind::Overrun,
            Error::ModeFault => embedded_hal::spi::ErrorKind::ModeFault,
            Error::Crc => embedded_hal::spi::ErrorKind::Other,
        }
    }
}

/// The kind reported for each fault: a CRC mismatch has no kind of its own.
pub open spec fn kind_of(e: Error) -> embedded_hal::spi::ErrorKind {
    match e {
        Error::Overrun => embedded_hal::spi::ErrorKind::Overrun,
        Error::ModeFault => embedded_hal::spi::ErrorKind::ModeFault,
        Error::Crc => embedded_hal::spi::ErrorKind::Other,
    }
}

} // verus!
