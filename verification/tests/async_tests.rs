use axi_uartlite::tx::Tx;
use axi_uartlite::tx_async::{
    on_interrupt_tx, InvalidWakerIndex, TxAsync, TxContext, TxFuture, TxPoll, TxWakerPool,
    TxWriteStart,
};
use axi_uartlite::{AxiUartlite, FIFO_DEPTH};

fn tx_with_interrupts_enabled() -> Tx {
    let mut uart = AxiUartlite::new();
    uart.enable_interrupt();
    let (tx, _rx) = uart.split();
    tx
}

fn drain_wire(tx: &mut Tx) {
    while !tx.fifo_empty() {
        tx.regs.hw_transmit_one();
    }
}

#[test]
fn pool_starts_empty() {
    let pool = TxWakerPool::new(4);
    assert_eq!(pool.num_wakers(), 4);
    for i in 0..4 {
        assert!(!pool.slot_done(i));
        assert!(!pool.slot_is_active(i));
        assert_eq!(pool.slot_progress(i), 0);
        assert_eq!(pool.slot_waker(i), None);
    }
}

#[test]
fn context_new_is_empty() {
    let ctx = TxContext::new();
    assert_eq!(ctx.progress, 0);
    assert!(ctx.slice.is_none());
}

#[test]
fn handle_construction_checks_the_index() {
    let pool = TxWakerPool::new(2);
    let tx = tx_with_interrupts_enabled();
    match TxAsync::new(tx, 2, &pool) {
        Err(InvalidWakerIndex(i)) => assert_eq!(i, 2),
        Ok(_) => panic!("index 2 must be refused on a pool of 2"),
    }
    let tx = tx_with_interrupts_enabled();
    assert!(TxAsync::new(tx, 1, &pool).is_ok());
}

#[test]
fn future_construction_checks_the_index() {
    let mut pool = TxWakerPool::new(1);
    let mut tx = tx_with_interrupts_enabled();
    match TxFuture::new(&mut tx, &mut pool, 3, &[1, 2]) {
        Err(InvalidWakerIndex(i)) => assert_eq!(i, 3),
        Ok(_) => panic!("index 3 must be refused on a pool of 1"),
    }
    assert!(!pool.slot_is_active(0));
}

// A full transfer of 20 bytes over a FIFO of depth 16 with one slot:
// the pre-fill queues bytes [0, 16), an interrupt drains the remaining 4,
// and the completion interrupt wakes the poller, which resolves with 20.
#[test]
fn twenty_byte_transfer_completes_with_twenty() {
    let data: Vec<u8> = (0..20u8).collect();
    let mut pool = TxWakerPool::new(1);
    let tx = tx_with_interrupts_enabled();
    let mut txa = TxAsync::new(tx, 0, &pool).unwrap();

    let fut = match txa.write(&mut pool, &data) {
        TxWriteStart::Started(f) => f,
        TxWriteStart::Immediate(_) => panic!("a 20-byte write cannot finish on the spot"),
    };
    // pre-fill wrote exactly the first FIFO_DEPTH bytes
    assert_eq!(txa.tx.regs.tx_fifo_bytes(), data[..FIFO_DEPTH].to_vec());
    assert_eq!(pool.slot_progress(0), 16);
    assert!(pool.slot_is_active(0));
    assert!(!pool.slot_done(0));

    // first poll: not done yet, continuation registered
    assert_eq!(fut.poll(&mut pool, 7), TxPoll::Pending);
    assert_eq!(pool.slot_waker(0), Some(7));

    // the wire drains the FIFO; the next interrupt tops it up
    drain_wire(&mut txa.tx);
    assert_eq!(on_interrupt_tx(&mut txa.tx, &mut pool, 0), None);
    assert_eq!(pool.slot_progress(0), 20);
    assert_eq!(txa.tx.regs.tx_fifo_bytes(), data[16..].to_vec());
    assert!(!pool.slot_done(0));

    // once those bytes leave too, the next interrupt signals completion
    drain_wire(&mut txa.tx);
    assert_eq!(on_interrupt_tx(&mut txa.tx, &mut pool, 0), Some(7));
    assert!(pool.slot_done(0));
    assert_eq!(pool.slot_waker(0), None);

    // the woken poll resolves with the full length and clears the slot
    assert_eq!(fut.poll(&mut pool, 7), TxPoll::Ready(20));
    assert!(!pool.slot_is_active(0));
    assert!(!pool.slot_done(0));

    // the wire carried exactly the buffer
    assert_eq!(txa.tx.regs.sent_bytes(), data);
}

// A 3-byte buffer fits the FIFO whole: progress is 3 immediately, and the
// first interrupt that sees the FIFO drained signals completion without
// writing anything.
#[test]
fn short_transfer_completes_without_drain_writes() {
    let data = [0xA1u8, 0xB2, 0xC3];
    let mut pool = TxWakerPool::new(1);
    let tx = tx_with_interrupts_enabled();
    let mut txa = TxAsync::new(tx, 0, &pool).unwrap();

    let fut = match txa.write(&mut pool, &data) {
        TxWriteStart::Started(f) => f,
        TxWriteStart::Immediate(_) => panic!("a 3-byte write suspends"),
    };
    assert_eq!(pool.slot_progress(0), 3);
    assert_eq!(txa.tx.regs.tx_fifo_bytes(), data.to_vec());
    assert_eq!(fut.poll(&mut pool, 1), TxPoll::Pending);

    drain_wire(&mut txa.tx);
    let sent_before = txa.tx.regs.sent_bytes();
    assert_eq!(on_interrupt_tx(&mut txa.tx, &mut pool, 0), Some(1));
    // completion performed no drain-loop writes
    assert!(txa.tx.fifo_empty());
    assert_eq!(txa.tx.regs.sent_bytes(), sent_before);
    assert_eq!(pool.slot_progress(0), 3);

    assert_eq!(fut.poll(&mut pool, 1), TxPoll::Ready(3));
    assert_eq!(txa.tx.regs.sent_bytes(), data.to_vec());
}

// An empty buffer finishes on the spot and touches no hardware.
#[test]
fn empty_write_finishes_immediately() {
    let mut pool = TxWakerPool::new(1);
    let tx = tx_with_interrupts_enabled();
    let mut txa = TxAsync::new(tx, 0, &pool).unwrap();
    match txa.write(&mut pool, &[]) {
        TxWriteStart::Immediate(n) => assert_eq!(n, 0),
        TxWriteStart::Started(_) => panic!("an empty write finishes on the spot"),
    }
    assert!(!pool.slot_is_active(0));
    assert!(txa.tx.fifo_empty());
    assert!(txa.tx.regs.sent_bytes().is_empty());
}

// Through the future path an empty buffer costs only the FIFO reset; the
// first interrupt signals completion and the poll resolves with zero.
#[test]
fn empty_future_resolves_with_zero() {
    let mut pool = TxWakerPool::new(1);
    let mut tx = tx_with_interrupts_enabled();
    tx.write_fifo_unchecked(0xEE);  // stale byte from an aborted transfer
    let fut = TxFuture::new(&mut tx, &mut pool, 0, &[]).unwrap();
    // the mandatory reset dropped the stale byte; nothing else was written
    assert!(tx.fifo_empty());
    assert!(tx.regs.sent_bytes().is_empty());
    assert_eq!(pool.slot_progress(0), 0);
    assert!(pool.slot_is_active(0));

    assert_eq!(fut.poll(&mut pool, 4), TxPoll::Pending);
    assert_eq!(on_interrupt_tx(&mut tx, &mut pool, 0), Some(4));
    assert_eq!(fut.poll(&mut pool, 4), TxPoll::Ready(0));
}

// A buffer of exactly FIFO_DEPTH bytes is pre-filled whole; once the wire
// drains it, the first interrupt signals completion.
#[test]
fn transfer_of_exactly_fifo_depth() {
    let data: Vec<u8> = (100..100 + FIFO_DEPTH as u8).collect();
    let mut pool = TxWakerPool::new(1);
    let tx = tx_with_interrupts_enabled();
    let mut txa = TxAsync::new(tx, 0, &pool).unwrap();
    let fut = match txa.write(&mut pool, &data) {
        TxWriteStart::Started(f) => f,
        TxWriteStart::Immediate(_) => panic!("suspends"),
    };
    assert_eq!(pool.slot_progress(0), FIFO_DEPTH);
    assert!(txa.tx.fifo_full());
    assert_eq!(fut.poll(&mut pool, 5), TxPoll::Pending);
    drain_wire(&mut txa.tx);
    assert_eq!(on_interrupt_tx(&mut txa.tx, &mut pool, 0), Some(5));
    assert_eq!(fut.poll(&mut pool, 5), TxPoll::Ready(FIFO_DEPTH));
    assert_eq!(txa.tx.regs.sent_bytes(), data);
}

// An interrupt that finds the FIFO still full moves nothing and completes
// nothing.
#[test]
fn interrupt_with_full_fifo_moves_nothing() {
    let data: Vec<u8> = (0..20u8).collect();
    let mut pool = TxWakerPool::new(1);
    let tx = tx_with_interrupts_enabled();
    let mut txa = TxAsync::new(tx, 0, &pool).unwrap();
    let _fut = match txa.write(&mut pool, &data) {
        TxWriteStart::Started(f) => f,
        TxWriteStart::Immediate(_) => panic!("suspends"),
    };
    assert!(txa.tx.fifo_full());
    assert_eq!(on_interrupt_tx(&mut txa.tx, &mut pool, 0), None);
    assert_eq!(pool.slot_progress(0), 16);
    assert!(!pool.slot_done(0));
    assert_eq!(txa.tx.regs.tx_fifo_bytes(), data[..16].to_vec());
}

// An interrupt for a slot index past the end of the pool changes nothing.
#[test]
fn interrupt_out_of_range_is_a_no_op() {
    let data = [1u8, 2, 3, 4];
    let mut pool = TxWakerPool::new(2);
    let tx = tx_with_interrupts_enabled();
    let mut txa = TxAsync::new(tx, 1, &pool).unwrap();
    let _fut = match txa.write(&mut pool, &data) {
        TxWriteStart::Started(f) => f,
        TxWriteStart::Immediate(_) => panic!("suspends"),
    };
    let fifo_before = txa.tx.regs.tx_fifo_bytes();
    assert_eq!(on_interrupt_tx(&mut txa.tx, &mut pool, 2), None);
    assert_eq!(on_interrupt_tx(&mut txa.tx, &mut pool, 99), None);
    assert_eq!(txa.tx.regs.tx_fifo_bytes(), fifo_before);
    assert_eq!(pool.slot_progress(1), 4);
    assert!(!pool.slot_done(1));
}

// An interrupt while the device has interrupts disabled changes nothing.
#[test]
fn interrupt_while_disabled_is_a_no_op() {
    let data = [5u8, 6, 7];
    let mut pool = TxWakerPool::new(1);
    let uart = AxiUartlite::new();  // interrupt latch left disabled
    let (tx, _rx) = uart.split();
    let mut txa = TxAsync::new(tx, 0, &pool).unwrap();
    let _fut = match txa.write(&mut pool, &data) {
        TxWriteStart::Started(f) => f,
        TxWriteStart::Immediate(_) => panic!("suspends"),
    };
    drain_wire(&mut txa.tx);
    assert_eq!(on_interrupt_tx(&mut txa.tx, &mut pool, 0), None);
    assert_eq!(pool.slot_progress(0), 3);
    assert!(!pool.slot_done(0));
    assert!(pool.slot_is_active(0));
}

// An interrupt for a slot with no transfer in flight changes nothing.
#[test]
fn interrupt_without_transfer_is_a_no_op() {
    let mut pool = TxWakerPool::new(1);
    let mut tx = tx_with_interrupts_enabled();
    tx.write_fifo_unchecked(0x10);
    assert_eq!(on_interrupt_tx(&mut tx, &mut pool, 0), None);
    assert!(!pool.slot_done(0));
    assert_eq!(pool.slot_progress(0), 0);
    assert_eq!(tx.regs.tx_fifo_bytes(), vec![0x10]);
}

// The completion flag is cleared by the poll that observes it, and a
// second poll stays pending; later interrupts find the slot inactive and
// cannot raise the flag again.
#[test]
fn completion_flag_cleared_once_and_for_all() {
    let data = [9u8, 9, 9];
    let mut pool = TxWakerPool::new(1);
    let tx = tx_with_interrupts_enabled();
    let mut txa = TxAsync::new(tx, 0, &pool).unwrap();
    let fut = match txa.write(&mut pool, &data) {
        TxWriteStart::Started(f) => f,
        TxWriteStart::Immediate(_) => panic!("suspends"),
    };
    drain_wire(&mut txa.tx);
    assert_eq!(on_interrupt_tx(&mut txa.tx, &mut pool, 0), None);
    assert!(pool.slot_done(0));
    assert_eq!(fut.poll(&mut pool, 2), TxPoll::Ready(3));
    assert!(!pool.slot_done(0));
    // idempotent: polling again just stays pending
    assert_eq!(fut.poll(&mut pool, 2), TxPoll::Pending);
    assert!(!pool.slot_done(0));
    // the slot is inactive now, so further interrupts are no-ops
    assert_eq!(on_interrupt_tx(&mut txa.tx, &mut pool, 0), None);
    assert!(!pool.slot_done(0));
}

// Cancelling a pending future clears the slot, and the next write on the
// same slot runs as a fresh transfer.
#[test]
fn cancel_clears_slot_and_next_write_is_fresh() {
    let first: Vec<u8> = (0..20u8).collect();
    let second = [0x51u8, 0x52];
    let mut pool = TxWakerPool::new(1);
    let tx = tx_with_interrupts_enabled();
    let mut txa = TxAsync::new(tx, 0, &pool).unwrap();

    let fut = match txa.write(&mut pool, &first) {
        TxWriteStart::Started(f) => f,
        TxWriteStart::Immediate(_) => panic!("suspends"),
    };
    assert_eq!(pool.slot_progress(0), 16);
    fut.cancel(&mut pool);
    assert!(!pool.slot_is_active(0));
    assert_eq!(pool.slot_progress(0), 0);
    assert!(!pool.slot_done(0));
    // with the context cleared, the bridge leaves the slot alone
    assert_eq!(on_interrupt_tx(&mut txa.tx, &mut pool, 0), None);

    // a new write behaves as if the slot had never been used
    let fut = match txa.write(&mut pool, &second) {
        TxWriteStart::Started(f) => f,
        TxWriteStart::Immediate(_) => panic!("suspends"),
    };
    assert_eq!(pool.slot_progress(0), 2);
    assert_eq!(txa.tx.regs.tx_fifo_bytes(), second.to_vec());
    drain_wire(&mut txa.tx);
    assert_eq!(fut.poll(&mut pool, 3), TxPoll::Pending);
    assert_eq!(on_interrupt_tx(&mut txa.tx, &mut pool, 0), Some(3));
    assert_eq!(fut.poll(&mut pool, 3), TxPoll::Ready(2));
}

// Cancelling after completion leaves the completed slot as it stands; the
// next transfer's construction clears it.
#[test]
fn cancel_after_completion_changes_nothing() {
    let data = [1u8];
    let mut pool = TxWakerPool::new(1);
    let tx = tx_with_interrupts_enabled();
    let mut txa = TxAsync::new(tx, 0, &pool).unwrap();
    let fut = match txa.write(&mut pool, &data) {
        TxWriteStart::Started(f) => f,
        TxWriteStart::Immediate(_) => panic!("suspends"),
    };
    drain_wire(&mut txa.tx);
    assert_eq!(on_interrupt_tx(&mut txa.tx, &mut pool, 0), None);
    assert!(pool.slot_done(0));
    fut.cancel(&mut pool);
    assert!(pool.slot_done(0));
    assert!(pool.slot_is_active(0));
    assert_eq!(pool.slot_progress(0), 1);
}

// Transfers on different slots do not disturb each other.
#[test]
fn slots_are_independent() {
    let mut pool = TxWakerPool::new(2);
    let tx0 = tx_with_interrupts_enabled();
    let tx1 = tx_with_interrupts_enabled();
    let mut a = TxAsync::new(tx0, 0, &pool).unwrap();
    let mut b = TxAsync::new(tx1, 1, &pool).unwrap();
    let fut_a = match a.write(&mut pool, &[1, 2]) {
        TxWriteStart::Started(f) => f,
        TxWriteStart::Immediate(_) => panic!("suspends"),
    };
    let fut_b = match b.write(&mut pool, &[3, 4, 5]) {
        TxWriteStart::Started(f) => f,
        TxWriteStart::Immediate(_) => panic!("suspends"),
    };
    assert_eq!(fut_a.poll(&mut pool, 10), TxPoll::Pending);
    assert_eq!(fut_b.poll(&mut pool, 11), TxPoll::Pending);
    drain_wire(&mut a.tx);
    assert_eq!(on_interrupt_tx(&mut a.tx, &mut pool, 0), Some(10));
    // slot 1 is untouched by slot 0's completion
    assert!(!pool.slot_done(1));
    assert_eq!(pool.slot_progress(1), 3);
    assert_eq!(pool.slot_waker(1), Some(11));
    assert_eq!(fut_a.poll(&mut pool, 10), TxPoll::Ready(2));
    drain_wire(&mut b.tx);
    assert_eq!(on_interrupt_tx(&mut b.tx, &mut pool, 1), Some(11));
    assert_eq!(fut_b.poll(&mut pool, 11), TxPoll::Ready(3));
}

// The asynchronous handle gives its transmit half back on release.
#[test]
fn release_returns_the_transmit_half() {
    let pool = TxWakerPool::new(1);
    let mut tx = tx_with_interrupts_enabled();
    tx.write_fifo_unchecked(0x77);
    let txa = TxAsync::new(tx, 0, &pool).unwrap();
    let tx = txa.release();
    assert_eq!(tx.regs.tx_fifo_bytes(), vec![0x77]);
}

// A fresh write on a slot must clear a completion flag left over from an
// earlier transfer that was never polled.
#[test]
fn new_write_clears_stale_completion_flag() {
    let mut pool = TxWakerPool::new(1);
    let tx = tx_with_interrupts_enabled();
    let mut txa = TxAsync::new(tx, 0, &pool).unwrap();
    let _fut = match txa.write(&mut pool, &[8]) {
        TxWriteStart::Started(f) => f,
        TxWriteStart::Immediate(_) => panic!("suspends"),
    };
    drain_wire(&mut txa.tx);
    assert_eq!(on_interrupt_tx(&mut txa.tx, &mut pool, 0), None);
    assert!(pool.slot_done(0));
    // never polled; start the next transfer anyway
    let fut = match txa.write(&mut pool, &[7, 6]) {
        TxWriteStart::Started(f) => f,
        TxWriteStart::Immediate(_) => panic!("suspends"),
    };
    assert!(!pool.slot_done(0));
    assert_eq!(pool.slot_progress(0), 2);
    assert_eq!(fut.poll(&mut pool, 9), TxPoll::Pending);
}
