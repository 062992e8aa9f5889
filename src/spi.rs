use crate::config::{
    baud_divisor, cr1_init, fifo_cap, idle_high, is_baud_code, is_cr1_init, second_edge, CR2_INIT,
};
use crate::error::Error;
use crate::instance::Instance;
use crate::pins::Pins;
use crate::status::{fault, fault_of, Wait};
use nb::Error as NbError;
use vstd::prelude::*;

verus! {

/// `n` filler frames.
pub open spec fn zeros(n: nat) -> Seq<u8> {
    Seq::new(n, |i: int| 0u8)
}

/// The view of an optional source slice.
pub open spec fn view_of(src: Option<&[u8]>) -> Option<Seq<u8>> {
    match src {
        Some(s) => Some(s@),
        None => None,
    }
}

/// The `count` frames that an exchange over `buf[start..]` sends: those of
/// the source, those of the buffer itself, or fillers.
pub open spec fn feed(buf: Seq<u8>, src: Option<Seq<u8>>, in_place: bool, start: int, count: int) -> Seq<u8> {
    match src {
        Some(s) => s.subrange(0, count),
        None => if in_place {
            buf.subrange(start, start + count)
        } else {
            zeros(count as nat)
        },
    }
}

/// The smaller of two lengths.
pub open spec fn min_len(a: nat, b: nat) -> nat {
    if a <= b {
        a
    } else {
        b
    }
}

/// `after` holds the frames `got` in `start..k` and is
/// unchanged from `before` outside of that range.
pub open spec fn filled(before: Seq<u8>, after: Seq<u8>, start: int, k: int, got: Seq<u8>) -> bool {
    &&& 0 <= start <= k <= before.len()
    &&& after.len() == before.len()
    &&& got == after.subrange(start, k)
    &&& forall|x: int| 0 <= x < before.len() && !(start <= x < k) ==> after[x] == before[x]
}

/// What a full-duplex transfer leaves behind, from line `l0` and receive
/// buffer `dst0` to line `l1` and buffer `dst1`, sending `src`: on success
/// `src` has been sent, followed by one filler for each position of `dst`
/// beyond `src`, and `dst` holds exactly the frames received, in order. On a
/// fault, `dst` holds the frames received before it, from the start, and is
/// unchanged beyond them; the call ends at the first status read that shows
/// a fault. The line is in full-duplex mode either way; CR2 is kept, and so
/// is CR1 but for the two-line mode bits, which a tail sent in
/// transmit-only mode clears. Two empty buffers succeed without touching
/// the controller.
pub open spec fn transfer_outcome<R: Instance>(
    l0: R,
    l1: R,
    dst0: Seq<u8>,
    dst1: Seq<u8>,
    src: Seq<u8>,
    r: Result<(), Error>,
) -> bool {
    &&& dst1.len() == dst0.len()
    &&& !l1.tx_only()
    &&& fault_ends(l0, l1, r)
    &&& l1.cr2() == l0.cr2()
    &&& l1.cr1() == l0.cr1() || l1.cr1() == l0.cr1() & 0x3FFF
    &&& r is Ok ==> l1.cr1() == if src.len() > dst0.len() {
        l0.cr1() & 0x3FFF
    } else {
        l0.cr1()
    }
    &&& dst0.len() == 0 && src.len() == 0 ==> l1 == l0 && r is Ok
    &&& r is Ok ==> l1.sent() == l0.sent() + src + zeros(
        (dst0.len() - min_len(dst0.len(), src.len())) as nat,
    ) && l1.received() == l0.received() + dst1
    &&& r matches Err(e) ==> fault_of(l1.last_status()) == Some(e) && l1.received().len()
        >= l0.received().len() && exists|k: int|
        #![trigger filled(dst0, dst1, 0, k, l1.received().subrange(l0.received().len() as int, l1.received().len() as int))]
        filled(
            dst0,
            dst1,
            0,
            k,
            l1.received().subrange(l0.received().len() as int, l1.received().len() as int),
        )
}

/// The call that took line `l0` to `l1` ended at the first status read
/// that showed a fault, returning that fault, with no data register access
/// after that read; a call that succeeded saw no fault in any status read.
pub open spec fn fault_ends<R: Instance, T>(l0: R, l1: R, r: Result<T, Error>) -> bool {
    &&& r is Ok ==> l1.faults_seen() == l0.faults_seen()
    &&& r matches Err(e) ==> fault_of(l1.last_status()) == Some(e) && l1.faults_seen()
        == l0.faults_seen() + 1 && l1.data_since_status() == 0
}

/// What `write` leaves behind, from line `l0` to line `l1`, sending `src`:
/// nothing is received; on success `src` has been sent, on a fault a prefix
/// of it. A non-empty write ends in full-duplex mode, with the two-line
/// mode bits of CR1 cleared and the rest of CR1 and CR2 kept; an empty one
/// succeeds without touching the controller.
pub open spec fn write_outcome<R: Instance>(l0: R, l1: R, src: Seq<u8>, r: Result<(), Error>) -> bool {
    &&& l1.received() == l0.received()
    &&& l1.pending() == l0.pending()
    &&& l1.cr2() == l0.cr2()
    &&& fault_ends(l0, l1, r)
    &&& src.len() == 0 ==> l1 == l0 && r is Ok
    &&& src.len() > 0 ==> !l1.tx_only() && l1.cr1() == l0.cr1() & 0x3FFF
    &&& r is Ok ==> l1.sent() == l0.sent() + src
    &&& r matches Err(e) ==> fault_of(l1.last_status()) == Some(e) && exists|k: int|
        0 <= k <= src.len() && l1.sent() == l0.sent() + src.subrange(0, k)
}

/// What `flush` leaves behind, from line `l0` to line `l1`: nothing more
/// is sent and the line ends in full-duplex mode, with the two-line mode
/// bits of CR1 cleared and the rest of CR1 and CR2 kept; on success the last status
/// read shows an empty transmit FIFO, no received frame and no fault, and
/// none is pending.
pub open spec fn flush_outcome<R: Instance>(l0: R, l1: R, r: Result<(), Error>) -> bool {
    &&& l1.sent() == l0.sent()
    &&& !l1.tx_only()
    &&& l1.cr1() == l0.cr1() & 0x3FFF
    &&& l1.cr2() == l0.cr2()
    &&& fault_ends(l0, l1, r)
    &&& r is Ok ==> l1.pending() == 0 && l1.last_status().ftlvl == 0 && !l1.last_status().rxne
        && fault_of(l1.last_status()) is None
    &&& r matches Err(e) ==> fault_of(l1.last_status()) == Some(e)
}

/// Two faults that stop a run in turn leave what both filled.
proof fn lemma_filled_join(
    a: Seq<u8>,
    b: Seq<u8>,
    c: Seq<u8>,
    s: int,
    m: int,
    k: int,
    g1: Seq<u8>,
    g2: Seq<u8>,
)
    requires
        filled(a, b, s, m, g1),
        filled(b, c, m, k, g2),
    ensures
        filled(a, c, s, k, g1 + g2),
{
    assert(c.subrange(s, m) =~= b.subrange(s, m));
    assert(c.subrange(s, k) =~= c.subrange(s, m) + c.subrange(m, k));
}

/// Width of one data frame; `DFF` is set for 16-bit frames.
pub trait FrameSize: Copy + Default {
    const DFF: bool;
}

impl FrameSize for u8 {
    const DFF: bool = false;
}

impl FrameSize for u16 {
    const DFF: bool = true;
}

/// Binding of a controller by a method on it.
pub trait SpiExt<SPI: Instance>: Sized {
    /// Binds this controller to `pins`, as `Spi::new` does.
    fn spi<PINS: Pins<SPI::Id>>(
        self,
        pins: PINS,
        mode: embedded_hal::spi::Mode,
        freq: u32,
        bus_freq: u32,
    ) -> (s: Spi<SPI, PINS>)
        requires
            freq > 0,
            bus_freq >= freq,
        ensures
            s.wiring() == pins,
            !s.line().tx_only(),
            s.line().pending() == 0,
            s.line().cr2() == CR2_INIT,
            is_baud_code(bus_freq as nat, freq as nat, ((s.line().cr1() >> 3) & 7) as nat),
    ;
}

impl<SPI: Instance> SpiExt<SPI> for SPI {
    fn spi<PINS: Pins<SPI::Id>>(
        self,
        pins: PINS,
        mode: embedded_hal::spi::Mode,
        freq: u32,
        bus_freq: u32,
    ) -> (s: Spi<SPI, PINS>) {
        Spi::new(self, pins, mode, freq, bus_freq)
    }
}

/// A driver bound to one controller and its pins.
pub struct Spi<SPI, PINS> {
    spi: SPI,
    pins: PINS,
}

impl<SPI: Instance, PINS: Pins<SPI::Id>> Spi<SPI, PINS> {
    /// Binds controller `spi` to `pins`: enables and resets it, disables the
    /// slave-select output, and configures it as master in `mode` at the
    /// fastest line rate from bus clock `bus_freq` that does not exceed
    /// `freq`, 8-bit frames, MSB first, software slave select, full duplex.
    pub fn new(spi: SPI, pins: PINS, mode: embedded_hal::spi::Mode, freq: u32, bus_freq: u32) -> (s: Self)
        requires
            freq > 0,
            bus_freq >= freq,
        ensures
            s.wiring() == pins,
            s.line().sent() == spi.sent(),
            s.line().received() == spi.received(),
            s.line().pending() == 0,
            !s.line().tx_only(),
            s.line().cr2() == CR2_INIT,
            is_cr1_init(
                s.line().cr1(),
                second_edge(mode),
                idle_high(mode),
                ((s.line().cr1() >> 3) & 7) as u8,
            ),
            is_baud_code(bus_freq as nat, freq as nat, ((s.line().cr1() >> 3) & 7) as nat),
    {
        let mut spi = spi;
        spi.enable_and_reset();
        spi.write_cr2(0);
        let br = baud_divisor(bus_freq, freq);
        let sec = match mode.phase {
            embedded_hal::spi::Phase::CaptureOnFirstTransition => false,
            embedded_hal::spi::Phase::CaptureOnSecondTransition => true,
        };
        let high = match mode.polarity {
            embedded_hal::spi::Polarity::IdleLow => false,
            embedded_hal::spi::Polarity::IdleHigh => true,
        };
        spi.write_cr2(CR2_INIT);
        let v = cr1_init(sec, high, br);
        assert(v & 0xC000 != 0xC000) by (bit_vector)
            requires (v >> 10u16) & 63u16 == 0u16;
        spi.write_cr1(v);
        Spi { spi, pins }
    }
}

impl<SPI: Instance, PINS> Spi<SPI, PINS> {
    /// The controller's register block.
    pub closed spec fn line(&self) -> SPI {
        self.spi
    }

    /// The pins the controller is wired to.
    pub closed spec fn wiring(&self) -> PINS {
        self.pins
    }

    /// Waits for room in the transmit FIFO, then queues `b`; a fault ends
    /// the wait instead.
    fn send(&mut self, b: u8) -> (r: Result<(), Error>)
        ensures
            final(self).wiring() == old(self).wiring(),
            final(self).line().received() == old(self).line().received(),
            final(self).line().tx_only() == old(self).line().tx_only(),
            final(self).line().cr1() == old(self).line().cr1(),
            final(self).line().cr2() == old(self).line().cr2(),
            fault_ends(old(self).line(), final(self).line(), r),
            match r {
                Ok(()) => final(self).line().sent() == old(self).line().sent().push(b)
                    && final(self).line().pending() == old(self).line().pending() + if old(
                        self,
                    ).line().tx_only() {
                        0nat
                    } else {
                        1nat
                    },
                Err(e) => final(self).line().sent() == old(self).line().sent()
                    && final(self).line().pending() == old(self).line().pending(),
            },
    {
        let s = self.spi.wait_status(Wait::TxSpace);
        match fault(&s) {
            Some(e) => Err(e),
            None => {
                self.spi.write_data(b);
                Ok(())
            },
        }
    }

    /// Waits for a received frame and takes it; a fault ends the wait
    /// instead.
    fn recv(&mut self) -> (r: Result<u8, Error>)
        requires
            old(self).line().pending() > 0,
        ensures
            final(self).wiring() == old(self).wiring(),
            final(self).line().sent() == old(self).line().sent(),
            final(self).line().tx_only() == old(self).line().tx_only(),
            final(self).line().cr1() == old(self).line().cr1(),
            final(self).line().cr2() == old(self).line().cr2(),
            fault_ends(old(self).line(), final(self).line(), r),
            match r {
                Ok(b) => final(self).line().received() == old(self).line().received().push(b)
                    && final(self).line().pending() == old(self).line().pending() - 1,
                Err(e) => final(self).line().received() == old(self).line().received()
                    && final(self).line().pending() == old(self).line().pending(),
            },
    {
        let s = self.spi.wait_status(Wait::RxData);
        match fault(&s) {
            Some(e) => Err(e),
            None => Ok(self.spi.read_data()),
        }
    }

    /// Room in the transmit FIFO, from one status read; a fault it shows
    /// is returned instead.
    fn fifo_room(&mut self) -> (r: Result<usize, Error>)
        ensures
            r matches Ok(n) ==> n <= 4,
            final(self).wiring() == old(self).wiring(),
            final(self).line().sent() == old(self).line().sent(),
            final(self).line().received() == old(self).line().received(),
            final(self).line().pending() == old(self).line().pending(),
            final(self).line().tx_only() == old(self).line().tx_only(),
            final(self).line().cr1() == old(self).line().cr1(),
            final(self).line().cr2() == old(self).line().cr2(),
            fault_ends(old(self).line(), final(self).line(), r),
    {
        let s = self.spi.status();
        match fault(&s) {
            Some(e) => Err(e),
            None => Ok(fifo_cap(s.ftlvl) as usize),
        }
    }

    /// Exchanges `count` frames over the line, receiving into
    /// `buf[start..start + count]`. The FIFO is first filled ahead of any
    /// read, then each further frame sent is followed by one read, and the
    /// frames still in flight are read last. The frames sent are fillers
    /// (`src` none, not `in_place`), `src[..count]`, or `buf[start..]`
    /// itself, each taken before its position is overwritten.
    fn exchange(
        &mut self,
        buf: &mut [u8],
        start: usize,
        count: usize,
        src: Option<&[u8]>,
        in_place: bool,
    ) -> (r: Result<(), Error>)
        requires
            !old(self).line().tx_only(),
            start + count <= old(buf)@.len(),
            src matches Some(s) ==> count <= s@.len(),
        ensures
            final(self).wiring() == old(self).wiring(),
            !final(self).line().tx_only(),
            final(self).line().cr1() == old(self).line().cr1(),
            final(self).line().cr2() == old(self).line().cr2(),
            fault_ends(old(self).line(), final(self).line(), r),
            final(self).line().received().len() >= old(self).line().received().len(),
            final(self).line().received().subrange(0, old(self).line().received().len() as int)
                == old(self).line().received(),
            r is Ok ==> final(self).line().sent() == old(self).line().sent() + feed(
                old(buf)@,
                view_of(src),
                in_place,
                start as int,
                count as int,
            ) && final(self).line().received() == old(self).line().received()
                + final(buf)@.subrange(start as int, start + count),
            r is Ok ==> filled(
                old(buf)@,
                final(buf)@,
                start as int,
                start + count,
                final(buf)@.subrange(start as int, start + count),
            ),
            r matches Err(e) ==> fault_of(final(self).line().last_status()) == Some(e)
                && exists|k: int|
                #![trigger filled(old(buf)@, final(buf)@, start as int, k, final(self).line().received().subrange(old(self).line().received().len() as int, final(self).line().received().len() as int))]
                k <= start + count && filled(
                    old(buf)@,
                    final(buf)@,
                    start as int,
                    k,
                    final(self).line().received().subrange(
                        old(self).line().received().len() as int,
                        final(self).line().received().len() as int,
                    ),
                ),
    {
        let ghost w0 = buf@;
        let ghost l0 = self.spi;
        let ghost tx = feed(w0, view_of(src), in_place, start as int, count as int);
        let len = buf.len();
        let n = count;
        let mut failed: Option<Error> = None;
        let cap = match self.fifo_room() {
            Ok(c) => c,
            Err(e) => {
                failed = Some(e);
                0
            },
        };
        let prefill = if cap < n {
            cap
        } else {
            n
        };
        let mut i: usize = 0;
        while i < prefill && failed.is_none()
            invariant
                self.pins == old(self).pins,
                !self.spi.tx_only(),
                i <= prefill <= n,
                start + n <= len,
                n == count,
                len == buf@.len(),
                buf@ == w0,
                tx == feed(w0, view_of(src), in_place, start as int, count as int),
                src matches Some(s) ==> count <= s@.len(),
                self.spi.received() == l0.received(),
                failed is None ==> self.spi.sent() == l0.sent() + tx.subrange(0, i as int),
                failed is None ==> self.spi.pending() == l0.pending() + i,
                failed matches Some(e) ==> fault_of(self.spi.last_status()) == Some(e)
                    && self.spi.faults_seen() == l0.faults_seen() + 1
                    && self.spi.data_since_status() == 0,
                failed is None ==> self.spi.faults_seen() == l0.faults_seen(),
                self.spi.cr1() == l0.cr1(),
                self.spi.cr2() == l0.cr2(),
            decreases prefill - i + if failed is None {
                1int
            } else {
                0int
            },
        {
            assert(i < count);
            let b = match src {
                Some(s) => {
                    assert(view_of(src) == Some(s@));
                    s[i]
                },
                None => if in_place {
                    buf[start + i]
                } else {
                    0
                },
            };
            match self.send(b) {
                Ok(()) => {
                    assert(tx.subrange(0, i as int).push(b) =~= tx.subrange(0, i + 1));
                    i = i + 1;
                },
                Err(e) => {
                    failed = Some(e);
                },
            }
        }
        let mut j: usize = 0;
        while j < n - prefill && failed.is_none()
            invariant
                self.pins == old(self).pins,
                !self.spi.tx_only(),
                prefill <= n,
                j <= n - prefill,
                failed is None ==> i == prefill,
                start + n <= len,
                n == count,
                len == buf@.len(),
                w0.len() == len,
                tx == feed(w0, view_of(src), in_place, start as int, count as int),
                src matches Some(s) ==> count <= s@.len(),
                forall|x: int| 0 <= x < len && !(start <= x < start + j) ==> buf@[x] == w0[x],
                self.spi.received() == l0.received() + buf@.subrange(start as int, start + j),
                failed is None ==> self.spi.sent() == l0.sent() + tx.subrange(
                    0,
                    prefill + j,
                ),
                failed is None ==> self.spi.pending() == l0.pending() + prefill,
                failed matches Some(e) ==> fault_of(self.spi.last_status()) == Some(e)
                    && self.spi.faults_seen() == l0.faults_seen() + 1
                    && self.spi.data_since_status() == 0,
                failed is None ==> self.spi.faults_seen() == l0.faults_seen(),
                self.spi.cr1() == l0.cr1(),
                self.spi.cr2() == l0.cr2(),
            decreases n - prefill - j + if failed is None {
                1int
            } else {
                0int
            },
        {
            let ghost before = buf@;
            let t = prefill + j;
            assert(t < count);
            let w = match src {
                Some(s) => {
                    assert(view_of(src) == Some(s@));
                    s[t]
                },
                None => if in_place {
                    buf[start + t]
                } else {
                    0
                },
            };
            match self.send(w) {
                Ok(()) => {
                    assert(tx.subrange(0, t as int).push(w) =~= tx.subrange(0, t + 1));
                    match self.recv() {
                        Ok(b) => {
                            buf[start + j] = b;
                            assert(buf@.subrange(start as int, start + j + 1)
                                =~= before.subrange(start as int, start + j).push(b));
                            j = j + 1;
                        },
                        Err(e) => {
                            failed = Some(e);
                        },
                    }
                },
                Err(e) => {
                    failed = Some(e);
                },
            }
        }
        let mut m: usize = j;
        while m < n && failed.is_none()
            invariant
                self.pins == old(self).pins,
                !self.spi.tx_only(),
                prefill <= n,
                m <= n,
                failed is None ==> n - prefill <= m,
                start + n <= len,
                n == count,
                len == buf@.len(),
                w0.len() == len,
                forall|x: int| 0 <= x < len && !(start <= x < start + m) ==> buf@[x] == w0[x],
                self.spi.received() == l0.received() + buf@.subrange(start as int, start + m),
                failed is None ==> self.spi.sent() == l0.sent() + tx,
                failed is None ==> self.spi.pending() == l0.pending() + (n - m),
                failed matches Some(e) ==> fault_of(self.spi.last_status()) == Some(e)
                    && self.spi.faults_seen() == l0.faults_seen() + 1
                    && self.spi.data_since_status() == 0,
                failed is None ==> self.spi.faults_seen() == l0.faults_seen(),
                self.spi.cr1() == l0.cr1(),
                self.spi.cr2() == l0.cr2(),
            decreases n - m + if failed is None {
                1int
            } else {
                0int
            },
        {
            let ghost before = buf@;
            match self.recv() {
                Ok(b) => {
                    buf[start + m] = b;
                    assert(buf@.subrange(start as int, start + m + 1) =~= before.subrange(
                        start as int,
                        start + m,
                    ).push(b));
                    m = m + 1;
                },
                Err(e) => {
                    failed = Some(e);
                },
            }
        }
        assert(self.spi.received().subrange(
            l0.received().len() as int,
            self.spi.received().len() as int,
        ) =~= buf@.subrange(start as int, start + m));
        assert((l0.received() + buf@.subrange(start as int, start + m)).subrange(
            0,
            l0.received().len() as int,
        ) =~= l0.received());
        assert(filled(
            w0,
            buf@,
            start as int,
            start + m,
            self.spi.received().subrange(
                l0.received().len() as int,
                self.spi.received().len() as int,
            ),
        ));
        if let Some(e) = failed {
            return Err(e);
        }
        assert(tx.subrange(0, n as int) =~= tx);
        Ok(())
    }

    /// Receives `words.len()` frames, clocking out a filler frame for each.
    pub fn read(&mut self, words: &mut [u8]) -> (r: Result<(), Error>)
        requires
            !old(self).line().tx_only(),
        ensures
            final(self).wiring() == old(self).wiring(),
            transfer_outcome(
                old(self).line(),
                final(self).line(),
                old(words)@,
                final(words)@,
                Seq::empty(),
                r,
            ),
            old(words)@.len() == 0 ==> final(self).line() == old(self).line(),
    {
        if words.len() == 0 {
            return Ok(());
        }
        let ghost w0 = words@;
        let r = self.exchange(words, 0, words.len(), None, false);
        assert(words@.subrange(0, w0.len() as int) =~= words@);
        assert(Seq::<u8>::empty() + zeros(w0.len()) =~= zeros(w0.len()));
        assert(feed(w0, None, false, 0, w0.len() as int) =~= zeros(w0.len()));
        r
    }

    /// Sends `words[start..]` in transmit-only mode, so that nothing is
    /// received, and returns to full duplex on every exit.
    fn write_from(&mut self, words: &[u8], start: usize) -> (r: Result<(), Error>)
        requires
            start <= words@.len(),
        ensures
            final(self).wiring() == old(self).wiring(),
            !final(self).line().tx_only(),
            final(self).line().received() == old(self).line().received(),
            final(self).line().pending() == old(self).line().pending(),
            final(self).line().cr1() == old(self).line().cr1() & 0x3FFF,
            final(self).line().cr2() == old(self).line().cr2(),
            fault_ends(old(self).line(), final(self).line(), r),
            r is Ok ==> final(self).line().sent() == old(self).line().sent()
                + words@.subrange(start as int, words@.len() as int),
            r matches Err(e) ==> exists|k: int|
                start <= k <= words@.len() && final(self).line().sent() == old(self).line().sent()
                    + words@.subrange(start as int, k),
    {
        let ghost l0 = self.spi;
        self.spi.set_bidi_mode(true);
        let len = words.len();
        let mut i: usize = start;
        let mut failed: Option<Error> = None;
        while i < len && failed.is_none()
            invariant
                self.pins == old(self).pins,
                self.spi.tx_only(),
                start <= i <= len,
                len == words@.len(),
                self.spi.received() == l0.received(),
                self.spi.pending() == l0.pending(),
                self.spi.sent() == l0.sent() + words@.subrange(start as int, i as int),
                self.spi.cr1() == l0.cr1() | 0xC000,
                self.spi.cr2() == l0.cr2(),
                failed is None ==> self.spi.faults_seen() == l0.faults_seen(),
                failed matches Some(e) ==> fault_of(self.spi.last_status()) == Some(e)
                    && self.spi.faults_seen() == l0.faults_seen() + 1
                    && self.spi.data_since_status() == 0,
            decreases len - i + if failed is None {
                1int
            } else {
                0int
            },
        {
            match self.send(words[i]) {
                Ok(()) => {
                    assert(words@.subrange(start as int, i as int).push(words@[i as int])
                        =~= words@.subrange(start as int, i + 1));
                    i = i + 1;
                },
                Err(e) => {
                    failed = Some(e);
                },
            }
        }
        self.spi.set_bidi_mode(false);
        let ghost c0 = l0.cr1();
        assert((c0 | 0xC000) & 0x3FFF == c0 & 0x3FFF) by (bit_vector);
        match failed {
            Some(e) => Err(e),
            None => Ok(()),
        }
    }

    /// Sends `words` in transmit-only mode, so that nothing is received, and
    /// returns to full duplex on every exit.
    pub fn write(&mut self, words: &[u8]) -> (r: Result<(), Error>)
        ensures
            final(self).wiring() == old(self).wiring(),
            write_outcome(old(self).line(), final(self).line(), words@, r),
    {
        if words.len() == 0 {
            assert(words@.subrange(0, 0) =~= words@);
            return Ok(());
        }
        let r = self.write_from(words, 0);
        assert(words@.subrange(0, words@.len() as int) =~= words@);
        r
    }

    /// Exchanges frames full duplex: `write` is sent while `read` is filled.
    /// Where `read` is longer, its tail is read with fillers; where `write`
    /// is longer, its tail is sent in transmit-only mode.
    pub fn transfer(&mut self, read: &mut [u8], write: &[u8]) -> (r: Result<(), Error>)
        requires
            !old(self).line().tx_only(),
        ensures
            final(self).wiring() == old(self).wiring(),
            transfer_outcome(
                old(self).line(),
                final(self).line(),
                old(read)@,
                final(read)@,
                write@,
                r,
            ),
            old(read)@.len() == 0 && write@.len() == 0 ==> final(self).line() == old(
                self,
            ).line(),
    {
        let ghost l0 = self.spi;
        let ghost d0 = read@;
        if read.len() == 0 {
            let r = self.write(write);
            assert(read@.subrange(0, 0) =~= read@);
            assert(write@ + zeros(0) =~= write@);
            assert(self.spi.received().subrange(
                l0.received().len() as int,
                self.spi.received().len() as int,
            ) =~= read@.subrange(0, 0));
            assert(filled(d0, read@, 0, 0, read@.subrange(0, 0)));
            return r;
        }
        if write.len() == 0 {
            let r = self.read(read);
            assert(write@ =~= Seq::<u8>::empty());
            return r;
        }
        let rl = read.len();
        let common = if rl < write.len() {
            rl
        } else {
            write.len()
        };
        match self.exchange(read, 0, common, Some(write), false) {
            Ok(()) => {},
            Err(e) => {
                return Err(e);
            },
        }
        let ghost l1 = self.spi;
        let ghost d1 = read@;
        assert(feed(d0, Some(write@), false, 0, common as int) == write@.subrange(
            0,
            common as int,
        ));
        if rl > common {
            let r = self.exchange(read, common, rl - common, None, false);
            proof {
                let g1 = l1.received().subrange(
                    l0.received().len() as int,
                    l1.received().len() as int,
                );
                let g2 = self.spi.received().subrange(
                    l1.received().len() as int,
                    self.spi.received().len() as int,
                );
                assert(g1 =~= d1.subrange(0, common as int));
                assert(self.spi.received().subrange(0, l1.received().len() as int)
                    == l1.received());
                assert(l1.received().subrange(0, l0.received().len() as int) == l0.received());
                assert(g1 =~= self.spi.received().subrange(
                    l0.received().len() as int,
                    l1.received().len() as int,
                ));
                assert(self.spi.received().subrange(
                    l0.received().len() as int,
                    self.spi.received().len() as int,
                ) =~= g1 + g2);
                if let Err(e) = r {
                    let k = choose|k: int| filled(d1, read@, common as int, k, g2);
                    lemma_filled_join(d0, d1, read@, 0, common as int, k, g1, g2);
                } else {
                    assert(read@ =~= d1.subrange(0, common as int) + read@.subrange(
                        common as int,
                        rl as int,
                    ));
                    assert(read@.subrange(0, common as int) =~= d1.subrange(0, common as int));
                    assert(write@.subrange(0, common as int) =~= write@);
                    assert(feed(d1, None, false, common as int, (rl - common) as int) =~= zeros(
                        (rl - common) as nat,
                    ));
                    assert(self.spi.sent() =~= l0.sent() + write@ + zeros(
                        (rl - common) as nat,
                    ));
                    assert(self.spi.received() =~= l0.received() + read@);
                    assert(min_len(d0.len(), write@.len()) == common);
                    assert(r is Ok ==> self.spi.sent() == l0.sent() + write@ + zeros(
                        (d0.len() - min_len(d0.len(), write@.len())) as nat,
                    ));
                }
            }
            assert(transfer_outcome(l0, self.spi, d0, read@, write@, r));
            r
        } else {
            let r = if write.len() > common {
                self.write_from(write, common)
            } else {
                Ok(())
            };
            proof {
                assert(read@.subrange(0, rl as int) =~= read@);
                assert(write@.subrange(0, common as int) + write@.subrange(
                    common as int,
                    write@.len() as int,
                ) =~= write@);
                assert(write@ + zeros(0) =~= write@);
                assert(self.spi.received().subrange(
                    l0.received().len() as int,
                    self.spi.received().len() as int,
                ) =~= read@.subrange(0, rl as int));
                assert(filled(d0, read@, 0, rl as int, read@.subrange(0, rl as int)));
                assert(min_len(d0.len(), write@.len()) == rl);
                assert(self.spi.received() =~= l0.received() + read@);
                if r is Ok {
                    assert(self.spi.sent() =~= l0.sent() + write@ + zeros(0));
                }
            }
            r
        }
    }

    /// Exchanges frames full duplex within one buffer: each frame is sent
    /// before the frame received in its place overwrites it. The outcome is
    /// that of `transfer` from a copy of the buffer into the buffer.
    pub fn transfer_in_place(&mut self, words: &mut [u8]) -> (r: Result<(), Error>)
        requires
            !old(self).line().tx_only(),
        ensures
            final(self).wiring() == old(self).wiring(),
            transfer_outcome(
                old(self).line(),
                final(self).line(),
                old(words)@,
                final(words)@,
                old(words)@,
                r,
            ),
            old(words)@.len() == 0 ==> final(self).line() == old(self).line(),
    {
        if words.len() == 0 {
            return Ok(());
        }
        let ghost w0 = words@;
        let r = self.exchange(words, 0, words.len(), None, true);
        assert(words@.subrange(0, w0.len() as int) =~= words@);
        assert(w0.subrange(0, w0.len() as int) =~= w0);
        assert(w0 + zeros(0) =~= w0);
        r
    }

    /// Waits until nothing is left to send or to take: in transmit-only
    /// mode, stale received frames are taken until none is waiting, then the
    /// transmit FIFO is waited on until it is empty. Returns to full duplex
    /// on every exit.
    pub fn flush(&mut self) -> (r: Result<(), Error>)
        ensures
            final(self).wiring() == old(self).wiring(),
            flush_outcome(old(self).line(), final(self).line(), r),
    {
        let ghost l0 = self.spi;
        self.spi.set_bidi_mode(true);
        let mut failed: Option<Error> = None;
        let mut draining = true;
        while draining && failed.is_none()
            invariant
                self.pins == old(self).pins,
                self.spi.tx_only(),
                self.spi.sent() == l0.sent(),
                !draining && failed is None ==> self.spi.pending() == 0,
                self.spi.cr1() == l0.cr1() | 0xC000,
                self.spi.cr2() == l0.cr2(),
                failed is None ==> self.spi.faults_seen() == l0.faults_seen(),
                failed matches Some(e) ==> fault_of(self.spi.last_status()) == Some(e)
                    && self.spi.faults_seen() == l0.faults_seen() + 1
                    && self.spi.data_since_status() == 0,
            decreases self.spi.pending() + if draining && failed is None {
                1int
            } else {
                0int
            },
        {
            let s = self.spi.status();
            match fault(&s) {
                Some(e) => {
                    failed = Some(e);
                },
                None => {
                    if s.rxne {
                        let _ = self.spi.read_data();
                    } else {
                        draining = false;
                    }
                },
            }
        }
        let ghost c0 = l0.cr1();
        assert((c0 | 0xC000) & 0x3FFF == c0 & 0x3FFF) by (bit_vector);
        if let Some(e) = failed {
            self.spi.set_bidi_mode(false);
            return Err(e);
        }
        let s = self.spi.wait_status(Wait::TxDrained);
        self.spi.set_bidi_mode(false);
        match fault(&s) {
            Some(e) => Err(e),
            None => Ok(()),
        }
    }

    /// Switches the line to transmit-only mode.
    pub fn set_tx_only(&mut self)
        ensures
            final(self).wiring() == old(self).wiring(),
            final(self).line().tx_only(),
            final(self).line().cr1() == old(self).line().cr1() | 0xC000,
            final(self).line().sent() == old(self).line().sent(),
            final(self).line().received() == old(self).line().received(),
            final(self).line().pending() == old(self).line().pending(),
    {
        self.spi.set_bidi_mode(true);
    }

    /// Switches the line back to full-duplex two-line mode.
    pub fn set_bidi(&mut self)
        ensures
            final(self).wiring() == old(self).wiring(),
            !final(self).line().tx_only(),
            final(self).line().cr1() == old(self).line().cr1() & 0x3FFF,
            final(self).line().sent() == old(self).line().sent(),
            final(self).line().received() == old(self).line().received(),
            final(self).line().pending() == old(self).line().pending(),
    {
        self.spi.set_bidi_mode(false);
    }

    /// Gives the controller and the pins back.
    pub fn release(self) -> (r: (SPI, PINS))
        ensures
            r.0 == self.line(),
            r.1 == self.wiring(),
    {
        (self.spi, self.pins)
    }

    /// Lets DMA requests feed the transmit FIFO (TXDMAEN, bit 1 of CR2).
    pub fn enable_tx_dma(self) -> (s: Self)
        ensures
            s.wiring() == self.wiring(),
            s.line().cr2() == self.line().cr2() | 2,
            s.line().cr1() == self.line().cr1(),
            s.line().tx_only() == self.line().tx_only(),
            s.line().sent() == self.line().sent(),
            s.line().received() == self.line().received(),
            s.line().pending() == self.line().pending(),
    {
        let mut spi = self.spi;
        let v = spi.read_cr2();
        spi.write_cr2(v | 2);
        Spi { spi, pins: self.pins }
    }

    /// Polls once for a received frame: a fault by priority, the frame, or
    /// "try again".
    pub fn nb_read(&mut self) -> (r: nb::Result<u8, Error>)
        ensures
            final(self).wiring() == old(self).wiring(),
            final(self).line().sent() == old(self).line().sent(),
            final(self).line().tx_only() == old(self).line().tx_only(),
            match fault_of(final(self).line().last_status()) {
                Some(e) => r == Err::<u8, NbError<Error>>(NbError::Other(e))
                    && final(self).line().received() == old(self).line().received(),
                None => if final(self).line().last_status().rxne {
                    r matches Ok(b) && final(self).line().received()
                        == old(self).line().received().push(b)
                } else {
                    r == Err::<u8, NbError<Error>>(NbError::WouldBlock)
                        && final(self).line().received() == old(self).line().received()
                },
            },
    {
        let s = self.spi.status();
        match fault(&s) {
            Some(e) => Err(NbError::Other(e)),
            None => {
                if s.rxne {
                    Ok(self.spi.read_data())
                } else {
                    Err(NbError::WouldBlock)
                }
            },
        }
    }

    /// Polls once for room to send `word`: a fault by priority, the frame
    /// queued, or "try again".
    pub fn nb_write(&mut self, word: u8) -> (r: nb::Result<(), Error>)
        ensures
            final(self).wiring() == old(self).wiring(),
            final(self).line().received() == old(self).line().received(),
            final(self).line().tx_only() == old(self).line().tx_only(),
            match fault_of(final(self).line().last_status()) {
                Some(e) => r == Err::<(), NbError<Error>>(NbError::Other(e))
                    && final(self).line().sent() == old(self).line().sent(),
                None => if final(self).line().last_status().txe {
                    r == Ok::<(), NbError<Error>>(())
                        && final(self).line().sent() == old(self).line().sent().push(word)
                } else {
                    r == Err::<(), NbError<Error>>(NbError::WouldBlock)
                        && final(self).line().sent() == old(self).line().sent()
                },
            },
    {
        let s = self.spi.status();
        match fault(&s) {
            Some(e) => Err(NbError::Other(e)),
            None => {
                if s.txe {
                    self.spi.write_data(word);
                    Ok(())
                } else {
                    Err(NbError::WouldBlock)
                }
            },
        }
    }
}

} // verus!
