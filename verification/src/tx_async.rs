//! Asynchronous transmit support.
//!
//! A [`TxWakerPool`] holds a fixed number of waker slots, chosen when the
//! pool is built.  Each slot carries one in-flight transfer: a progress
//! counter and the buffered bytes ([`TxContext`]), a completion flag, and
//! the most recently registered continuation token.
//!
//! A transfer runs like this: [`TxAsync::write`] (or [`TxFuture::new`])
//! clears the slot's completion flag, resets the FIFO, pre-fills it with up
//! to [`FIFO_DEPTH`](crate::FIFO_DEPTH) bytes and parks the rest of the work
//! in the slot.  Every hardware interrupt then runs [`on_interrupt_tx`],
//! which tops the FIFO up from the slot and, once every byte has been queued
//! and the FIFO has drained, sets the completion flag and hands back the
//! continuation token to invoke.  The next [`TxFuture::poll`] observes the
//! flag, clears the slot and resolves with the number of bytes transferred.
//! [`TxFuture::cancel`] is the cleanup hook for a future abandoned before
//! completion; the embedding runs it from the future's destructor.

use vstd::prelude::*;

use crate::registers::{copy_bytes, Registers};
use crate::tx::Tx;
use crate::FIFO_DEPTH;

verus! {

/// A waker-slot index at or past the end of the pool.
#[derive(Clone, Copy, Debug, PartialEq, Eq, Structural)]
pub struct InvalidWakerIndex(pub usize);

/// One in-flight transfer: how many bytes have been queued so far, and the
/// buffer still being worked through.  `slice` is `Some` exactly while a
/// transfer is in flight.
#[derive(Debug)]
pub struct TxContext {
    pub progress: usize,
    pub slice: Option<Vec<u8>>,
}

impl TxContext {
    /// An empty context: no transfer in flight.
    pub fn new() -> (r: Self)
        ensures
            r.progress == 0,
            r.slice is None,
    {
        TxContext { progress: 0, slice: None }
    }
}

/// One waker slot: transfer context, completion flag, continuation token.
#[derive(Debug)]
struct TxSlot {
    context: TxContext,
    done: bool,
    waker: Option<u64>,
}

impl TxSlot {
    /// A slot with no transfer, a cleared flag and no continuation.
    fn empty() -> (r: TxSlot)
        ensures
            r.context.progress == 0,
            r.context.slice is None,
            !r.done,
            r.waker is None,
    {
        TxSlot { context: TxContext::new(), done: false, waker: None }
    }
}

/// The slot counts a pool can be built with.
pub open spec fn is_valid_waker_count(n: int) -> bool {
    n == 1 || n == 2 || n == 4 || n == 8 || n == 16 || n == 32
}

/// Fixed table of waker slots.  All mutation of a slot goes through the
/// pool; the embedding brackets calls from the interrupt and task domains
/// in its critical section.
#[derive(Debug)]
pub struct TxWakerPool {
    slots: Vec<TxSlot>,
}

impl TxWakerPool {
    /// Number of slots in the pool.
    pub closed spec fn num_slots(self) -> int {
        self.slots@.len() as int
    }

    /// Progress counter of slot `i`: bytes of its buffer queued so far.
    pub closed spec fn progress(self, i: int) -> int {
        self.slots@[i].context.progress as int
    }

    /// The buffer slot `i` is working through, if a transfer is in flight.
    pub closed spec fn buffer(self, i: int) -> Option<Seq<u8>> {
        match self.slots@[i].context.slice {
            Some(v) => Some(v@),
            None => None,
        }
    }

    /// Length of slot `i`'s buffer, zero when no transfer is in flight.
    pub open spec fn buffer_len(self, i: int) -> int {
        match self.buffer(i) {
            Some(b) => b.len() as int,
            None => 0,
        }
    }

    /// Whether slot `i` has a transfer in flight.
    pub open spec fn is_active(self, i: int) -> bool {
        self.buffer(i) is Some
    }

    /// Completion flag of slot `i`.
    pub closed spec fn done(self, i: int) -> bool {
        self.slots@[i].done
    }

    /// Most recently registered continuation token of slot `i`.
    pub closed spec fn waker(self, i: int) -> Option<u64> {
        self.slots@[i].waker
    }

    /// What every slot keeps up: progress never runs past the buffer, and
    /// a set completion flag means the whole buffer has been queued.
    pub open spec fn slot_wf(self, i: int) -> bool {
        &&& (self.buffer(i) matches Some(b) ==> self.progress(i) <= b.len())
        &&& (self.done(i) ==> self.is_active(i) && self.progress(i) == self.buffer_len(i))
    }

    /// Well-formedness of the pool: every slot keeps [`Self::slot_wf`].
    pub open spec fn wf(self) -> bool {
        forall|i: int| 0 <= i < self.num_slots() ==> #[trigger] self.slot_wf(i)
    }

    /// Build a pool of `num_wakers` empty slots with cleared flags.
    pub fn new(num_wakers: usize) -> (p: TxWakerPool)
        requires
            is_valid_waker_count(num_wakers as int),
        ensures
            p.wf(),
            p.num_slots() == num_wakers,
            forall|i: int| 0 <= i < p.num_slots() ==> {
                &&& !(#[trigger] p.done(i))
                &&& p.buffer(i) is None
                &&& p.progress(i) == 0
                &&& p.waker(i) is None
            },
    {
        let mut slots: Vec<TxSlot> = Vec::new();
        let mut i: usize = 0;
        while i < num_wakers
            invariant
                i <= num_wakers,
                slots@.len() == i,
                forall|j: int| 0 <= j < i ==> {
                    &&& !(#[trigger] slots@[j].done)
                    &&& slots@[j].context.slice is None
                    &&& slots@[j].context.progress == 0
                    &&& slots@[j].waker is None
                },
            decreases num_wakers - i,
        {
            slots.push(TxSlot::empty());
            i = i + 1;
        }
        let p = TxWakerPool { slots };
        proof {
            assert forall|j: int| 0 <= j < p.num_slots() implies p.slot_wf(j) by {
                assert(!p.slots@[j].done);
            };
        }
        p
    }

    /// Number of slots, as built.
    pub fn num_wakers(&self) -> (n: usize)
        ensures
            n == self.num_slots(),
    {
        self.slots.len()
    }

    /// Observe slot `i`'s progress counter.
    pub fn slot_progress(&self, i: usize) -> (r: usize)
        requires
            i < self.num_slots(),
        ensures
            r == self.progress(i as int),
    {
        self.slots[i].context.progress
    }

    /// Observe whether slot `i` has a transfer in flight.
    pub fn slot_is_active(&self, i: usize) -> (r: bool)
        requires
            i < self.num_slots(),
        ensures
            r == self.is_active(i as int),
    {
        self.slots[i].context.slice.is_some()
    }

    /// Observe slot `i`'s completion flag.
    pub fn slot_done(&self, i: usize) -> (r: bool)
        requires
            i < self.num_slots(),
        ensures
            r == self.done(i as int),
    {
        self.slots[i].done
    }

    /// Observe slot `i`'s registered continuation token.
    pub fn slot_waker(&self, i: usize) -> (r: Option<u64>)
        requires
            i < self.num_slots(),
        ensures
            r == self.waker(i as int),
    {
        self.slots[i].waker
    }
}

/// Slot `j` holds the same state in both pools.
pub open spec fn slot_eq(pre: TxWakerPool, post: TxWakerPool, j: int) -> bool {
    &&& post.progress(j) == pre.progress(j)
    &&& post.buffer(j) == pre.buffer(j)
    &&& post.done(j) == pre.done(j)
    &&& post.waker(j) == pre.waker(j)
}

/// No slot changed at all.
pub open spec fn pool_unchanged(pre: TxWakerPool, post: TxWakerPool) -> bool {
    &&& post.num_slots() == pre.num_slots()
    &&& forall|j: int| 0 <= j < pre.num_slots() ==> #[trigger] slot_eq(pre, post, j)
}

/// Every slot but `i` is unchanged.
pub open spec fn other_slots_unchanged(pre: TxWakerPool, post: TxWakerPool, i: int) -> bool {
    &&& post.num_slots() == pre.num_slots()
    &&& forall|j: int| 0 <= j < pre.num_slots() && j != i ==> #[trigger] slot_eq(pre, post, j)
}

/// The transfer in slot `i` is finished as far as the device shows: every
/// byte of the buffer has been queued and the FIFO has drained empty, or
/// there was nothing to send at all.
pub open spec fn transfer_finished(pool: TxWakerPool, regs: Registers, i: int) -> bool {
    ||| (pool.progress(i) >= pool.buffer_len(i) && regs.tx_fifo().len() == 0)
    ||| pool.buffer_len(i) == 0
}

/// How many bytes one interrupt can move from slot `i`'s buffer into the
/// FIFO: the rest of the buffer, or the room the FIFO has, whichever is
/// smaller.
pub open spec fn drain_count(pool: TxWakerPool, regs: Registers, i: int) -> int {
    vstd::math::min(pool.buffer_len(i) - pool.progress(i), regs.tx_space())
}

/// Interrupt-handler entry for asynchronous transmission.  To be called,
/// through the embedding's interrupt dispatcher, whenever the device
/// raises its interrupt, with the transmit handle and the waker slot that
/// serve that device.
///
/// An out-of-range slot, a device whose interrupt is not enabled, and a
/// slot with no transfer in flight are all silently ignored.  Otherwise the
/// handler either detects completion — setting the slot's flag and handing
/// back the registered continuation token so the caller can invoke it — or
/// tops the FIFO up with as much of the slot's buffer as fits.
#[verifier::loop_isolation(false)]
pub fn on_interrupt_tx(uartlite_tx: &mut Tx, pool: &mut TxWakerPool, waker_slot: usize) -> (woken: Option<
    u64,
>)
    requires
        old(pool).wf(),
    ensures
        final(pool).wf(),
        final(pool).num_slots() == old(pool).num_slots(),
        final(uartlite_tx).regs.sent() == old(uartlite_tx).regs.sent(),
        final(uartlite_tx).regs.rx_fifo() == old(uartlite_tx).regs.rx_fifo(),
        final(uartlite_tx).regs.intr_enabled() == old(uartlite_tx).regs.intr_enabled(),
        final(uartlite_tx).regs.errs() == old(uartlite_tx).regs.errs(),
        final(uartlite_tx).last_errors() == old(uartlite_tx).last_errors(),
        // the completion flag never falls here, and rises only while the
        // slot holds a finished transfer
        (waker_slot as int) < old(pool).num_slots() ==> {
            ||| final(pool).done(waker_slot as int) == old(pool).done(waker_slot as int)
            ||| (!old(pool).done(waker_slot as int) && final(pool).done(waker_slot as int)
                && old(pool).is_active(waker_slot as int) && transfer_finished(
                *old(pool),
                old(uartlite_tx).regs,
                waker_slot as int,
            ))
        },
        // a slot index out of range is ignored, whatever the state
        (waker_slot as int) >= old(pool).num_slots() ==> {
            &&& pool_unchanged(*old(pool), *final(pool))
            &&& final(uartlite_tx).regs.tx_fifo() == old(uartlite_tx).regs.tx_fifo()
            &&& woken is None
        },
        // a device whose interrupt is not enabled is ignored
        ((waker_slot as int) < old(pool).num_slots() && !old(uartlite_tx).regs.intr_enabled())
            ==> {
            &&& pool_unchanged(*old(pool), *final(pool))
            &&& final(uartlite_tx).regs.tx_fifo() == old(uartlite_tx).regs.tx_fifo()
            &&& woken is None
        },
        // a slot with no transfer in flight is ignored
        ((waker_slot as int) < old(pool).num_slots() && old(uartlite_tx).regs.intr_enabled()
            && !old(pool).is_active(waker_slot as int)) ==> {
            &&& pool_unchanged(*old(pool), *final(pool))
            &&& final(uartlite_tx).regs.tx_fifo() == old(uartlite_tx).regs.tx_fifo()
            &&& woken is None
        },
        // completion observed: set the flag, take and return the continuation
        ((waker_slot as int) < old(pool).num_slots() && old(uartlite_tx).regs.intr_enabled()
            && old(pool).is_active(waker_slot as int) && transfer_finished(
            *old(pool),
            old(uartlite_tx).regs,
            waker_slot as int,
        )) ==> {
            &&& final(uartlite_tx).regs.tx_fifo() == old(uartlite_tx).regs.tx_fifo()
            &&& final(pool).done(waker_slot as int)
            &&& final(pool).buffer(waker_slot as int) == old(pool).buffer(waker_slot as int)
            &&& final(pool).progress(waker_slot as int) == old(pool).progress(waker_slot as int)
            &&& final(pool).waker(waker_slot as int) is None
            &&& woken == old(pool).waker(waker_slot as int)
            &&& other_slots_unchanged(*old(pool), *final(pool), waker_slot as int)
        },
        // otherwise top the FIFO up with as much of the buffer as fits
        ((waker_slot as int) < old(pool).num_slots() && old(uartlite_tx).regs.intr_enabled()
            && old(pool).is_active(waker_slot as int) && !transfer_finished(
            *old(pool),
            old(uartlite_tx).regs,
            waker_slot as int,
        )) ==> ({
            let i = waker_slot as int;
            let k = drain_count(*old(pool), old(uartlite_tx).regs, i);
            &&& final(pool).progress(i) == old(pool).progress(i) + k
            &&& final(pool).buffer(i) == old(pool).buffer(i)
            &&& final(pool).done(i) == old(pool).done(i)
            &&& final(pool).waker(i) == old(pool).waker(i)
            &&& other_slots_unchanged(*old(pool), *final(pool), i)
            &&& (old(pool).buffer(i) matches Some(b) && final(uartlite_tx).regs.tx_fifo() == old(
                uartlite_tx,
            ).regs.tx_fifo() + b.subrange(old(pool).progress(i), old(pool).progress(i) + k))
            &&& woken is None
        }),
{
    if waker_slot >= pool.num_wakers() {
        return None;
    }
    let status = uartlite_tx.regs.read_stat_reg();
    // interrupts are not even enabled
    if !status.intr_enabled {
        return None;
    }
    // take the slot out while we work on it; the memory-mapped embedding
    // brackets this in its critical section
    let mut slot = TxSlot::empty();
    pool.slots.set_and_swap(waker_slot, &mut slot);
    let TxSlot { context, done, waker } = slot;
    let TxContext { progress, slice } = context;
    match slice {
        None => {
            // no transfer active
            proof {
                assert(old(pool).buffer(waker_slot as int) is None);
            }
            pool.slots.set(
                waker_slot,
                TxSlot { context: TxContext { progress, slice: None }, done, waker },
            );
            proof {
                assert forall|j: int| 0 <= j < pool.num_slots() implies pool.slot_wf(j) by {
                    assert(old(pool).slot_wf(j));
                };
            }
            None
        },
        Some(buf) => {
            let slice_len = buf.len();
            if (progress >= slice_len && status.tx_fifo_empty) || slice_len == 0 {
                // transfer is done: write the context back, set the flag,
                // and hand the continuation to the caller to invoke
                pool.slots.set(
                    waker_slot,
                    TxSlot {
                        context: TxContext { progress, slice: Some(buf) },
                        done: true,
                        waker: None,
                    },
                );
                proof {
                    assert(old(pool).slot_wf(waker_slot as int));
                    assert forall|j: int| 0 <= j < pool.num_slots() implies pool.slot_wf(j) by {
                        assert(old(pool).slot_wf(j));
                    };
                }
                waker
            } else {
                proof {
                    assert(old(pool).buffer(waker_slot as int) == Some(buf@));
                    assert(old(pool).progress(waker_slot as int) == progress as int);
                    assert(old(pool).done(waker_slot as int) == done);
                    assert(old(pool).waker(waker_slot as int) == waker);
                    assert(old(pool).slot_wf(waker_slot as int));
                    assert(progress as int <= buf@.len());
                }
                let ghost p0: int = progress as int;
                let mut progress = progress;
                let mut full = uartlite_tx.fifo_full();
                proof {
                    assert(old(uartlite_tx).regs.tx_fifo() + buf@.subrange(p0, p0) =~= old(
                        uartlite_tx,
                    ).regs.tx_fifo());
                }
                while progress < slice_len && !full
                    invariant
                        p0 <= progress <= slice_len,
                        full == (uartlite_tx.regs.tx_fifo().len() >= FIFO_DEPTH),
                        uartlite_tx.regs.tx_fifo() == old(uartlite_tx).regs.tx_fifo()
                            + buf@.subrange(p0, progress as int),
                        progress as int - p0 <= old(uartlite_tx).regs.tx_space(),
                        uartlite_tx.regs.sent() == old(uartlite_tx).regs.sent(),
                        uartlite_tx.regs.rx_fifo() == old(uartlite_tx).regs.rx_fifo(),
                        uartlite_tx.regs.intr_enabled() == old(uartlite_tx).regs.intr_enabled(),
                        uartlite_tx.regs.errs() == old(uartlite_tx).regs.errs(),
                        uartlite_tx.last_errors() == old(uartlite_tx).last_errors(),
                    decreases slice_len - progress,
                {
                    proof {
                        assert(uartlite_tx.regs.tx_fifo().len() < FIFO_DEPTH);
                    }
                    uartlite_tx.write_fifo_unchecked(buf[progress]);
                    proof {
                        assert(old(uartlite_tx).regs.tx_fifo() + buf@.subrange(p0, progress as int
                            + 1) =~= (old(uartlite_tx).regs.tx_fifo() + buf@.subrange(
                            p0,
                            progress as int,
                        )).push(buf@[progress as int]));
                    }
                    progress = progress + 1;
                    full = uartlite_tx.fifo_full();
                }
                proof {
                    assert(progress as int == p0 + drain_count(
                        *old(pool),
                        old(uartlite_tx).regs,
                        waker_slot as int,
                    ));
                }
                // write the updated context back
                pool.slots.set(
                    waker_slot,
                    TxSlot { context: TxContext { progress, slice: Some(buf) }, done, waker },
                );
                proof {
                    assert(old(pool).slot_wf(waker_slot as int));
                    assert forall|j: int| 0 <= j < pool.num_slots() implies pool.slot_wf(j) by {
                        assert(old(pool).slot_wf(j));
                    };
                }
                None
            }
        },
    }
}

/// What one poll of a [`TxFuture`] observed.
#[derive(Clone, Copy, Debug, PartialEq, Eq, Structural)]
pub enum TxPoll {
    /// The transfer has not completed yet; the continuation is registered.
    Pending,
    /// The transfer completed; this many bytes were transferred.
    Ready(usize),
}

/// The awaitable side of one transfer, bound to a waker slot.
///
/// Constructing it performs the synchronous part of a write (flag clear,
/// FIFO reset, pre-fill, context store); polling observes completion.  The
/// embedding wraps it in its task system's future type and calls
/// [`TxFuture::cancel`] from the wrapper's destructor when the future is
/// dropped before it resolved.
#[derive(Debug)]
pub struct TxFuture {
    waker_idx: usize,
}

impl TxFuture {
    /// The waker slot this future is bound to.
    pub closed spec fn slot(self) -> int {
        self.waker_idx as int
    }

    /// Start an asynchronous transfer on `waker_idx`: clear the slot's
    /// completion flag, reset the FIFO (keeping the interrupt-enable
    /// setting), pre-fill the FIFO with up to
    /// [`FIFO_DEPTH`](crate::FIFO_DEPTH) bytes of `data`, and park `data`
    /// with the pre-fill count as the slot's transfer context.
    #[verifier::loop_isolation(false)]
    pub fn new(tx: &mut Tx, pool: &mut TxWakerPool, waker_idx: usize, data: &[u8]) -> (r: Result<
        TxFuture,
        InvalidWakerIndex,
    >)
        requires
            old(pool).wf(),
        ensures
            final(pool).wf(),
            r is Ok <==> (waker_idx as int) < old(pool).num_slots(),
            (waker_idx as int) >= old(pool).num_slots() ==> {
                &&& r == Err::<TxFuture, InvalidWakerIndex>(InvalidWakerIndex(waker_idx))
                &&& pool_unchanged(*old(pool), *final(pool))
                &&& final(tx).regs == old(tx).regs
                &&& final(tx).last_errors() == old(tx).last_errors()
            },
            (waker_idx as int) < old(pool).num_slots() ==> ({
                let i = waker_idx as int;
                let pre = vstd::math::min(data@.len() as int, FIFO_DEPTH as int);
                &&& (r matches Ok(f) && f.slot() == i)
                &&& final(tx).regs.tx_fifo() == data@.take(pre)
                &&& final(tx).regs.tx_fifo().len() <= FIFO_DEPTH
                &&& final(tx).regs.intr_enabled() == old(tx).regs.intr_enabled()
                &&& final(tx).regs.sent() == old(tx).regs.sent()
                &&& final(tx).regs.rx_fifo() == old(tx).regs.rx_fifo()
                &&& final(tx).regs.errs() == old(tx).regs.errs()
                &&& final(tx).last_errors() == old(tx).last_errors()
                &&& final(pool).progress(i) == pre
                &&& final(pool).buffer(i) == Some(data@)
                &&& !final(pool).done(i)
                &&& final(pool).waker(i) == old(pool).waker(i)
                &&& other_slots_unchanged(*old(pool), *final(pool), i)
            }),
    {
        if waker_idx >= pool.num_wakers() {
            return Err(InvalidWakerIndex(waker_idx));
        }
        tx.reset_fifo();
        let init_fill_count = if data.len() < FIFO_DEPTH {
            data.len()
        } else {
            FIFO_DEPTH
        };
        // fill the FIFO with the initial data
        let mut i: usize = 0;
        while i < init_fill_count
            invariant
                i <= init_fill_count,
                tx.regs.tx_fifo() == data@.take(i as int),
                tx.regs.intr_enabled() == old(tx).regs.intr_enabled(),
                tx.regs.sent() == old(tx).regs.sent(),
                tx.regs.rx_fifo() == old(tx).regs.rx_fifo(),
                tx.regs.errs() == old(tx).regs.errs(),
                tx.last_errors() == old(tx).last_errors(),
            decreases init_fill_count - i,
        {
            tx.write_fifo_unchecked(data[i]);
            proof {
                assert(data@.take(i as int).push(data@[i as int]) =~= data@.take(i as int + 1));
            }
            i = i + 1;
        }
        // park the rest of the work as the slot's transfer context, with a
        // cleared completion flag
        let mut slot = TxSlot::empty();
        pool.slots.set_and_swap(waker_idx, &mut slot);
        pool.slots.set(
            waker_idx,
            TxSlot {
                context: TxContext {
                    progress: init_fill_count,
                    slice: Some(copy_bytes(data)),
                },
                done: false,
                waker: slot.waker,
            },
        );
        proof {
            assert forall|j: int| 0 <= j < pool.num_slots() implies pool.slot_wf(j) by {
                assert(old(pool).slot_wf(j));
            };
        }
        Ok(TxFuture { waker_idx })
    }

    /// One poll of the future: register the caller's continuation token
    /// (overwriting any earlier one), then test and clear the completion
    /// flag.  If it was set, clear the slot's buffer descriptor and resolve
    /// with the progress counter; otherwise stay pending.
    pub fn poll(&self, pool: &mut TxWakerPool, waker: u64) -> (r: TxPoll)
        requires
            old(pool).wf(),
            self.slot() < old(pool).num_slots(),
        ensures
            final(pool).wf(),
            other_slots_unchanged(*old(pool), *final(pool), self.slot()),
            final(pool).waker(self.slot()) == Some(waker),
            !final(pool).done(self.slot()),
            final(pool).progress(self.slot()) == old(pool).progress(self.slot()),
            old(pool).done(self.slot()) ==> {
                &&& (r matches TxPoll::Ready(n) && n as int == old(pool).progress(self.slot()))
                // absent cancellation the future resolves with exactly the
                // length of the buffer it was asked to send
                &&& (r matches TxPoll::Ready(n) && n as int == old(pool).buffer_len(self.slot()))
                &&& final(pool).buffer(self.slot()) is None
            },
            !old(pool).done(self.slot()) ==> {
                &&& r == TxPoll::Pending
                &&& final(pool).buffer(self.slot()) == old(pool).buffer(self.slot())
            },
    {
        proof {
            assert(old(pool).slot_wf(self.slot()));
        }
        let mut slot = TxSlot::empty();
        pool.slots.set_and_swap(self.waker_idx, &mut slot);
        let was_done = slot.done;
        slot.done = false;
        slot.waker = Some(waker);
        if was_done {
            let progress = slot.context.progress;
            slot.context.slice = None;
            pool.slots.set(self.waker_idx, slot);
            proof {
                assert forall|j: int| 0 <= j < pool.num_slots() implies pool.slot_wf(j) by {
                    assert(old(pool).slot_wf(j));
                };
            }
            TxPoll::Ready(progress)
        } else {
            pool.slots.set(self.waker_idx, slot);
            proof {
                assert forall|j: int| 0 <= j < pool.num_slots() implies pool.slot_wf(j) by {
                    assert(old(pool).slot_wf(j));
                };
            }
            TxPoll::Pending
        }
    }

    /// Cleanup hook for a future abandoned before it resolved: unless the
    /// transfer already completed, clear the slot's buffer descriptor and
    /// reset its progress, so the interrupt bridge stops touching the slot.
    /// The embedding runs this from its future wrapper's destructor.
    pub fn cancel(self, pool: &mut TxWakerPool)
        requires
            old(pool).wf(),
            self.slot() < old(pool).num_slots(),
        ensures
            final(pool).wf(),
            other_slots_unchanged(*old(pool), *final(pool), self.slot()),
            final(pool).waker(self.slot()) == old(pool).waker(self.slot()),
            final(pool).done(self.slot()) == old(pool).done(self.slot()),
            !old(pool).done(self.slot()) ==> {
                &&& final(pool).buffer(self.slot()) is None
                &&& final(pool).progress(self.slot()) == 0
            },
            old(pool).done(self.slot()) ==> slot_eq(*old(pool), *final(pool), self.slot()),
    {
        let mut slot = TxSlot::empty();
        pool.slots.set_and_swap(self.waker_idx, &mut slot);
        if !slot.done {
            slot.context.slice = None;
            slot.context.progress = 0;
        }
        pool.slots.set(self.waker_idx, slot);
        proof {
            assert forall|j: int| 0 <= j < pool.num_slots() implies pool.slot_wf(j) by {
                assert(old(pool).slot_wf(j));
            };
        }
    }
}

/// What [`TxAsync::write`] started.
#[derive(Debug)]
pub enum TxWriteStart {
    /// The write finished on the spot with this many bytes (an empty
    /// buffer needs no hardware work at all).
    Immediate(usize),
    /// The transfer is under way; poll this future to completion.
    Started(TxFuture),
}

/// Asynchronous transmit handle: a transmit half bound to one waker slot.
pub struct TxAsync {
    pub tx: Tx,
    pub waker_idx: usize,
}

impl TxAsync {
    /// Bind a transmit half to waker slot `waker_idx` of `pool`; an index
    /// at or past the end of the pool is refused.
    pub fn new(tx: Tx, waker_idx: usize, pool: &TxWakerPool) -> (r: Result<
        TxAsync,
        InvalidWakerIndex,
    >)
        ensures
            r is Ok <==> (waker_idx as int) < pool.num_slots(),
            (waker_idx as int) < pool.num_slots() ==> (r matches Ok(h) && h.tx == tx
                && h.waker_idx == waker_idx),
            (waker_idx as int) >= pool.num_slots() ==> r == Err::<TxAsync, InvalidWakerIndex>(
                InvalidWakerIndex(waker_idx),
            ),
    {
        if waker_idx >= pool.num_wakers() {
            return Err(InvalidWakerIndex(waker_idx));
        }
        Ok(TxAsync { tx, waker_idx })
    }

    /// Start writing a buffer.  An empty buffer finishes immediately with
    /// zero bytes and touches no hardware; anything else performs the
    /// synchronous pre-fill and hands back the future to poll.
    ///
    /// A started transfer is not side-effect free: the pre-filled bytes
    /// stay queued even if the future is cancelled.
    pub fn write(&mut self, pool: &mut TxWakerPool, buf: &[u8]) -> (r: TxWriteStart)
        requires
            old(pool).wf(),
            (old(self).waker_idx as int) < old(pool).num_slots(),
        ensures
            final(pool).wf(),
            final(self).waker_idx == old(self).waker_idx,
            buf@.len() == 0 ==> {
                &&& (r matches TxWriteStart::Immediate(n) && n == 0)
                &&& pool_unchanged(*old(pool), *final(pool))
                &&& final(self).tx == old(self).tx
            },
            buf@.len() > 0 ==> ({
                let i = old(self).waker_idx as int;
                let pre = vstd::math::min(buf@.len() as int, FIFO_DEPTH as int);
                &&& (r matches TxWriteStart::Started(f) && f.slot() == i)
                &&& final(self).tx.regs.tx_fifo() == buf@.take(pre)
                &&& final(self).tx.regs.tx_fifo().len() <= FIFO_DEPTH
                &&& final(self).tx.regs.intr_enabled() == old(self).tx.regs.intr_enabled()
                &&& final(self).tx.regs.sent() == old(self).tx.regs.sent()
                &&& final(self).tx.regs.rx_fifo() == old(self).tx.regs.rx_fifo()
                &&& final(self).tx.regs.errs() == old(self).tx.regs.errs()
                &&& final(self).tx.last_errors() == old(self).tx.last_errors()
                &&& final(pool).progress(i) == pre
                &&& final(pool).buffer(i) == Some(buf@)
                &&& !final(pool).done(i)
                &&& final(pool).waker(i) == old(pool).waker(i)
                &&& other_slots_unchanged(*old(pool), *final(pool), i)
            }),
    {
        if buf.is_empty() {
            return TxWriteStart::Immediate(0);
        }
        match TxFuture::new(&mut self.tx, pool, self.waker_idx, buf) {
            Ok(fut) => TxWriteStart::Started(fut),
            Err(_) => {
                // the handle was built against this pool, so the index is
                // in range and construction cannot be refused
                proof {
                    assert(false);
                }
                TxWriteStart::Immediate(0)
            },
        }
    }

    /// Give the transmit half back.
    pub fn release(self) -> (r: Tx)
        ensures
            r == self.tx,
    {
        self.tx
    }
}

/// Law: once a slot's completion flag is set, the slot still holds its
/// buffer and the progress counter equals the buffer's length.  The poll
/// that observes the flag therefore resolves with exactly the number of
/// bytes the transfer was asked to send.
pub proof fn lemma_done_implies_complete(pool: TxWakerPool, i: int)
    requires
        pool.wf(),
        0 <= i < pool.num_slots(),
        pool.done(i),
    ensures
        pool.is_active(i),
        pool.progress(i) == pool.buffer_len(i),
{
    assert(pool.slot_wf(i));
}

} // verus!
