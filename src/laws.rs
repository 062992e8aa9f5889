use crate::error::Error;
use crate::instance::Instance;
use crate::spi::{flush_outcome, transfer_outcome, write_outcome, zeros};
use crate::status::fault_of;
use vstd::prelude::*;

verus! {

/// A write followed at once by a flush, both successful, leaves the line
/// with the written frames sent, nothing pending in the receiver, a last
/// status that shows an empty transmit FIFO, no received frame and no
/// fault, no fault seen by any status read on the way, and the line in
/// full-duplex mode with the two-line mode bits of CR1 clear and the rest
/// of CR1 and CR2 as before.
pub proof fn lemma_write_then_flush_drains<R: Instance>(
    l0: R,
    l1: R,
    l2: R,
    src: Seq<u8>,
    r1: Result<(), Error>,
    r2: Result<(), Error>,
)
    requires
        write_outcome(l0, l1, src, r1),
        flush_outcome(l1, l2, r2),
        r1 is Ok,
        r2 is Ok,
    ensures
        l2.sent() == l0.sent() + src,
        l2.pending() == 0,
        l2.last_status().ftlvl == 0,
        !l2.last_status().rxne,
        fault_of(l2.last_status()) is None,
        l2.faults_seen() == l0.faults_seen(),
        !l2.tx_only(),
        l2.cr1() == l0.cr1() & 0x3FFF,
        l2.cr2() == l0.cr2(),
{
    if src.len() == 0 {
        assert(l1 == l0);
    }
    let c0 = l0.cr1();
    assert((c0 & 0x3FFF) & 0x3FFF == c0 & 0x3FFF) by (bit_vector);
}

/// An in-place transfer of a buffer and a transfer from a copy of it into
/// the buffer send the same frames; where the line answers both with the
/// same frames, both leave the same bytes in the buffer.
pub proof fn lemma_in_place_is_transfer_from_copy<R: Instance>(
    l0: R,
    in_place: R,
    copied: R,
    buf0: Seq<u8>,
    buf_in_place: Seq<u8>,
    buf_copied: Seq<u8>,
    r1: Result<(), Error>,
    r2: Result<(), Error>,
)
    requires
        transfer_outcome(l0, in_place, buf0, buf_in_place, buf0, r1),
        transfer_outcome(l0, copied, buf0, buf_copied, buf0, r2),
        r1 is Ok,
        r2 is Ok,
        in_place.received() == copied.received(),
    ensures
        in_place.sent() == l0.sent() + buf0,
        in_place.sent() == copied.sent(),
        buf_in_place == buf_copied,
        buf_in_place == in_place.received().subrange(
            l0.received().len() as int,
            in_place.received().len() as int,
        ),
{
    assert(buf0 + zeros(0) =~= buf0);
    assert(in_place.received().subrange(
        l0.received().len() as int,
        in_place.received().len() as int,
    ) =~= buf_in_place);
    assert(copied.received().subrange(
        l0.received().len() as int,
        copied.received().len() as int,
    ) =~= buf_copied);
}

/// A successful read of `n` frames sends exactly `n` fillers and fills the
/// buffer with exactly the frames received, in order.
pub proof fn lemma_read_moves_n_frames<R: Instance>(
    l0: R,
    l1: R,
    dst0: Seq<u8>,
    dst1: Seq<u8>,
    r: Result<(), Error>,
)
    requires
        transfer_outcome(l0, l1, dst0, dst1, Seq::empty(), r),
        r is Ok,
    ensures
        l1.sent() == l0.sent() + zeros(dst0.len()),
        l1.sent().len() == l0.sent().len() + dst0.len(),
        l1.received() == l0.received() + dst1,
        dst1.len() == dst0.len(),
{
    assert(Seq::<u8>::empty() + zeros(dst0.len()) =~= zeros(dst0.len()));
}

/// A read stopped by a fault leaves the frames received before it at the
/// start of the buffer, and the rest of the buffer as it was.
pub proof fn lemma_fault_keeps_received_prefix<R: Instance>(
    l0: R,
    l1: R,
    dst0: Seq<u8>,
    dst1: Seq<u8>,
    e: Error,
)
    requires
        transfer_outcome(l0, l1, dst0, dst1, Seq::empty(), Err(e)),
    ensures
        exists|k: int|
            0 <= k <= dst0.len() && dst1.subrange(0, k) == l1.received().subrange(
                l0.received().len() as int,
                l1.received().len() as int,
            ) && dst1.subrange(k, dst0.len() as int) == dst0.subrange(k, dst0.len() as int),
{
    let g = l1.received().subrange(l0.received().len() as int, l1.received().len() as int);
    let k = choose|k: int| crate::spi::filled(dst0, dst1, 0, k, g);
    assert(dst1.subrange(k, dst0.len() as int) =~= dst0.subrange(k, dst0.len() as int));
}

} // verus!
