use vstd::prelude::*;

verus! {

/// Clock polarity and phase of `embedded_hal`.
#[verifier::external_type_specification]
pub struct ExMode(embedded_hal::spi::Mode);

/// Clock idle level of `embedded_hal`.
#[verifier::external_type_specification]
pub struct ExPolarity(embedded_hal::spi::Polarity);

/// Capture edge of `embedded_hal`.
#[verifier::external_type_specification]
pub struct ExPhase(embedded_hal::spi::Phase);

/// Data is captured on the second clock edge (CPHA set).
pub open spec fn second_edge(mode: embedded_hal::spi::Mode) -> bool {
    mode.phase is CaptureOnSecondTransition
}

/// The clock idles high (CPOL set).
pub open spec fn idle_high(mode: embedded_hal::spi::Mode) -> bool {
    mode.polarity is IdleHigh
}

/// CR2 as written at configuration: receive threshold at a quarter of the
/// FIFO (one byte), 8-bit data size, slave-select output disabled.
pub const CR2_INIT: u16 = 0x1700;

/// Number of baud-rate codes; code `b` divides the bus clock by `2^(b+1)`.
pub const BAUD_CODES: u8 = 8;

/// The division ratio that baud-rate code `br` selects.
pub open spec fn ratio(br: nat) -> nat
    decreases br,
{
    if br == 0 {
        2
    } else {
        2 * ratio((br - 1) as nat)
    }
}

/// Code `br` keeps the line at or below `target` for bus clock `bus`.
pub open spec fn slow_enough(bus: nat, target: nat, br: nat) -> bool {
    bus <= target * ratio(br)
}

/// The baud-rate code for a bus clock and a target line rate: the smallest
/// ratio that does not run the line faster than the target, or the largest
/// ratio where even that one is too fast.
pub open spec fn is_baud_code(bus: nat, target: nat, br: nat) -> bool {
    &&& br < BAUD_CODES
    &&& (slow_enough(bus, target, br) || br == BAUD_CODES - 1)
    &&& forall|b: nat| b < br ==> !slow_enough(bus, target, b)
}

/// Selects the baud-rate code for line rate `spi_freq` from bus clock
/// `bus_freq`. A target above the bus clock cannot be produced at all.
pub fn baud_divisor(bus_freq: u32, spi_freq: u32) -> (br: u8)
    requires
        spi_freq > 0,
        bus_freq >= spi_freq,
    ensures
        is_baud_code(bus_freq as nat, spi_freq as nat, br as nat),
{
    let bus = bus_freq as u64;
    let target = spi_freq as u64;
    let mut br: u8 = 0;
    let mut r: u64 = 2;
    assert(target * r <= 256 * u32::MAX) by (nonlinear_arith)
        requires target <= u32::MAX, r == 2;
    while br < BAUD_CODES - 1 && bus > target * r
        invariant
            br < BAUD_CODES,
            r == ratio(br as nat),
            2 <= r <= 256,
            target <= u32::MAX,
            target * r <= 256 * u32::MAX,
            bus == bus_freq as u64,
            target == spi_freq as u64,
            forall|b: nat| b < br ==> !slow_enough(bus as nat, target as nat, b),
        decreases BAUD_CODES - br,
    {
        br = br + 1;
        r = r * 2;
        proof {
            lemma_ratio_bound(br as nat);
            assert(target * r <= 256 * u32::MAX) by (nonlinear_arith)
                requires target <= u32::MAX, r <= 256;
        }
    }
    br
}

proof fn lemma_ratio_bound(br: nat)
    requires
        br < BAUD_CODES,
    ensures
        ratio(br) <= 256,
        ratio(br) >= 2,
    decreases br,
{
    reveal_with_fuel(ratio, 8);
}

/// Bit `i` of a register word.
pub open spec fn bit(v: u16, i: u16) -> bool {
    (v >> i) & 1 == 1
}

/// The CR1 word that configuration writes: clock phase (bit 0) and polarity
/// (bit 1) from the mode, master (bit 2), baud code (bits 3..6), enabled
/// (bit 6), MSB first (bit 7 clear), internal slave select high with
/// software management (bits 8, 9), full-duplex two-line mode (bits 10, 14,
/// 15 clear), 8-bit CRC length (bit 11 clear), CRC off (bits 12, 13 clear).
pub open spec fn is_cr1_init(v: u16, second_edge: bool, idle_high: bool, br: u8) -> bool {
    &&& bit(v, 0) == second_edge
    &&& bit(v, 1) == idle_high
    &&& bit(v, 2)
    &&& (v >> 3) & 7 == br as u16
    &&& bit(v, 6)
    &&& !bit(v, 7)
    &&& bit(v, 8)
    &&& bit(v, 9)
    &&& (v >> 10) & 63 == 0
}

/// Composes the CR1 word for the given clock phase, polarity and baud code.
pub fn cr1_init(second_edge: bool, idle_high: bool, br: u8) -> (v: u16)
    requires
        br < BAUD_CODES,
    ensures
        is_cr1_init(v, second_edge, idle_high, br),
{
    let cpha: u16 = if second_edge { 1 } else { 0 };
    let cpol: u16 = if idle_high { 2 } else { 0 };
    let b = br as u16;
    let v: u16 = cpha | cpol | 0x4 | (b << 3) | 0x40 | 0x100 | 0x200;
    assert(is_cr1_init(v, second_edge, idle_high, br)) by (bit_vector)
        requires
            v == cpha | cpol | 0x4u16 | (b << 3u16) | 0x40u16 | 0x100u16 | 0x200u16,
            cpha == (if second_edge { 1u16 } else { 0u16 }),
            cpol == (if idle_high { 2u16 } else { 0u16 }),
            b < 8,
            b == br as u16,
    ;
    v
}

/// Free transmit FIFO slots for a FIFO level code of the status register:
/// empty, a quarter, half, or more than half full.
pub open spec fn fifo_room(ftlvl: u8) -> u8 {
    if ftlvl == 0 {
        4
    } else if ftlvl == 1 {
        3
    } else if ftlvl == 2 {
        2
    } else {
        0
    }
}

/// Room in the transmit FIFO for a level code.
pub fn fifo_cap(ftlvl: u8) -> (r: u8)
    ensures
        r == fifo_room(ftlvl),
        r <= 4,
{
    match ftlvl {
        0 => 4,
        1 => 3,
        2 => 2,
        _ => 0,
    }
}

} // verus!
