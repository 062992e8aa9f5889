use vstd::prelude::*;

verus! {

/// Controller identity: SPI1.
pub struct Spi1;

/// Controller identity: SPI2.
pub struct Spi2;

/// Controller identity: SPI3.
pub struct Spi3;

/// Controller identity: SPI4.
pub struct Spi4;

/// GPIO port A.
pub const PORT_A: u8 = 0;

/// GPIO port B.
pub const PORT_B: u8 = 1;

/// GPIO port C.
pub const PORT_C: u8 = 2;

/// GPIO port E.
pub const PORT_E: u8 = 4;

/// GPIO port F.
pub const PORT_F: u8 = 5;

/// GPIO port G.
pub const PORT_G: u8 = 6;

/// Alternate function 5.
pub const AF5: u8 = 5;

/// Alternate function 6.
pub const AF6: u8 = 6;

/// Pin `N` of port `PORT`, configured for alternate function `AF`.
pub struct Pin<const PORT: u8, const N: u8, const AF: u8>;

/// A filler type for when the SCK pin is unnecessary
pub struct NoSck;

/// A filler type for when the Miso pin is unnecessary
pub struct NoMiso;

/// A filler type for when the Mosi pin is unnecessary
pub struct NoMosi;

/// A pin triple that controller `SPI` may be wired to.
pub trait Pins<SPI> {}

/// A pin that may carry the clock of controller `SPI`.
pub trait PinSck<SPI> {}

/// A pin that may carry the data input of controller `SPI`.
pub trait PinMiso<SPI> {}

/// A pin that may carry the data output of controller `SPI`.
pub trait PinMosi<SPI> {}

impl<SPI, SCK: PinSck<SPI>, MISO: PinMiso<SPI>, MOSI: PinMosi<SPI>> Pins<SPI> for (
    SCK,
    MISO,
    MOSI,
) {

}

impl PinSck<Spi1> for NoSck {}
impl PinMiso<Spi1> for NoMiso {}
impl PinMosi<Spi1> for NoMosi {}
impl PinSck<Spi1> for Pin<PORT_A, 5, AF5> {}
impl PinSck<Spi1> for Pin<PORT_B, 3, AF5> {}
impl PinSck<Spi1> for Pin<PORT_G, 2, AF5> {}
impl PinMiso<Spi1> for Pin<PORT_A, 6, AF5> {}
impl PinMiso<Spi1> for Pin<PORT_B, 4, AF5> {}
impl PinMiso<Spi1> for Pin<PORT_G, 3, AF5> {}
impl PinMosi<Spi1> for Pin<PORT_A, 7, AF5> {}
impl PinMosi<Spi1> for Pin<PORT_B, 5, AF5> {}
impl PinMosi<Spi1> for Pin<PORT_G, 4, AF5> {}

impl PinSck<Spi2> for NoSck {}
impl PinMiso<Spi2> for NoMiso {}
impl PinMosi<Spi2> for NoMosi {}
impl PinSck<Spi2> for Pin<PORT_F, 1, AF5> {}
impl PinSck<Spi2> for Pin<PORT_F, 9, AF5> {}
impl PinSck<Spi2> for Pin<PORT_F, 10, AF5> {}
impl PinSck<Spi2> for Pin<PORT_B, 13, AF5> {}
impl PinMiso<Spi2> for Pin<PORT_A, 10, AF5> {}
impl PinMiso<Spi2> for Pin<PORT_B, 14, AF5> {}
impl PinMosi<Spi2> for Pin<PORT_A, 11, AF5> {}
impl PinMosi<Spi2> for Pin<PORT_B, 15, AF5> {}

impl PinSck<Spi3> for NoSck {}
impl PinMiso<Spi3> for NoMiso {}
impl PinMosi<Spi3> for NoMosi {}
impl PinSck<Spi3> for Pin<PORT_B, 3, AF6> {}
impl PinSck<Spi3> for Pin<PORT_C, 10, AF6> {}
impl PinSck<Spi3> for Pin<PORT_G, 9, AF6> {}
impl PinMiso<Spi3> for Pin<PORT_B, 4, AF6> {}
impl PinMiso<Spi3> for Pin<PORT_C, 11, AF6> {}
impl PinMosi<Spi3> for Pin<PORT_B, 5, AF6> {}
impl PinMosi<Spi3> for Pin<PORT_C, 12, AF6> {}

impl PinSck<Spi4> for NoSck {}
impl PinMiso<Spi4> for NoMiso {}
impl PinMosi<Spi4> for NoMosi {}
impl PinSck<Spi4> for Pin<PORT_E, 2, AF5> {}
impl PinSck<Spi4> for Pin<PORT_E, 12, AF5> {}
impl PinMiso<Spi4> for Pin<PORT_E, 5, AF5> {}
impl PinMiso<Spi4> for Pin<PORT_E, 13, AF5> {}
impl PinMosi<Spi4> for Pin<PORT_E, 6, AF5> {}
impl PinMosi<Spi4> for Pin<PORT_E, 14, AF5> {}

} // verus!
