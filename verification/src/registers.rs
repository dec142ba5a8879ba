//! The register block: bitfield layout and a plain-state model of the device.
//!
//! [`Status`], [`Control`], [`RxFifo`] and [`TxFifo`] give the bit layout of
//! the four registers as verified encode/decode functions.  [`Registers`]
//! models what the device holds behind those registers: the two FIFO queues,
//! the bytes already put on the wire, the interrupt-enable latch and the line
//! error flags.  The `hw_` methods model the hardware's own progress (a byte
//! leaving on the wire, a byte arriving); drivers never call them, tests and
//! embedding code do.

use vstd::prelude::*;

use crate::FIFO_DEPTH;

verus! {

/// Decoded status register (read-only on the device).
#[derive(Clone, Copy, Debug, PartialEq, Eq, Structural)]
pub struct Status {
    pub parity_error: bool,
    pub frame_error: bool,
    pub overrun_error: bool,
    pub intr_enabled: bool,
    pub tx_fifo_full: bool,
    pub tx_fifo_empty: bool,
    pub rx_fifo_full: bool,
    pub rx_fifo_valid_data: bool,
}

impl Status {
    /// Decode a raw status word: bit 7 parity error, bit 6 frame error,
    /// bit 5 overrun error, bit 4 interrupt enabled, bit 3 TX FIFO full,
    /// bit 2 TX FIFO empty, bit 1 RX FIFO full, bit 0 RX data valid.
    pub fn new_with_raw_value(raw: u32) -> (s: Status)
        ensures
            s == (Status {
                parity_error: (raw >> 7) & 1 == 1,
                frame_error: (raw >> 6) & 1 == 1,
                overrun_error: (raw >> 5) & 1 == 1,
                intr_enabled: (raw >> 4) & 1 == 1,
                tx_fifo_full: (raw >> 3) & 1 == 1,
                tx_fifo_empty: (raw >> 2) & 1 == 1,
                rx_fifo_full: (raw >> 1) & 1 == 1,
                rx_fifo_valid_data: raw & 1 == 1,
            }),
    {
        Status {
            parity_error: (raw >> 7) & 1 == 1,
            frame_error: (raw >> 6) & 1 == 1,
            overrun_error: (raw >> 5) & 1 == 1,
            intr_enabled: (raw >> 4) & 1 == 1,
            tx_fifo_full: (raw >> 3) & 1 == 1,
            tx_fifo_empty: (raw >> 2) & 1 == 1,
            rx_fifo_full: (raw >> 1) & 1 == 1,
            rx_fifo_valid_data: raw & 1 == 1,
        }
    }

    /// The raw word this status decodes from, with all other bits zero.
    pub open spec fn spec_raw_value(self) -> u32 {
        (if self.parity_error { 0x80u32 } else { 0u32 })
        | (if self.frame_error { 0x40u32 } else { 0u32 })
        | (if self.overrun_error { 0x20u32 } else { 0u32 })
        | (if self.intr_enabled { 0x10u32 } else { 0u32 })
        | (if self.tx_fifo_full { 0x08u32 } else { 0u32 })
        | (if self.tx_fifo_empty { 0x04u32 } else { 0u32 })
        | (if self.rx_fifo_full { 0x02u32 } else { 0u32 })
        | (if self.rx_fifo_valid_data { 0x01u32 } else { 0u32 })
    }

    /// Encode the status back into a raw word.
    pub fn raw_value(&self) -> (r: u32)
        ensures
            r == self.spec_raw_value(),
    {
        (if self.parity_error { 0x80u32 } else { 0u32 })
        | (if self.frame_error { 0x40u32 } else { 0u32 })
        | (if self.overrun_error { 0x20u32 } else { 0u32 })
        | (if self.intr_enabled { 0x10u32 } else { 0u32 })
        | (if self.tx_fifo_full { 0x08u32 } else { 0u32 })
        | (if self.tx_fifo_empty { 0x04u32 } else { 0u32 })
        | (if self.rx_fifo_full { 0x02u32 } else { 0u32 })
        | (if self.rx_fifo_valid_data { 0x01u32 } else { 0u32 })
    }
}

/// Decoded control register (write-only on the device).
#[derive(Clone, Copy, Debug, PartialEq, Eq, Structural)]
pub struct Control {
    pub enable_interrupt: bool,
    pub reset_rx_fifo: bool,
    pub reset_tx_fifo: bool,
}

impl Control {
    /// Start building a control word with every bit clear.
    pub fn builder() -> (b: ControlBuilder)
        ensures
            b == (ControlBuilder {
                enable_interrupt: false,
                reset_rx_fifo: false,
                reset_tx_fifo: false,
            }),
    {
        ControlBuilder { enable_interrupt: false, reset_rx_fifo: false, reset_tx_fifo: false }
    }

    /// The raw word this control encodes to: bit 4 enable interrupt,
    /// bit 1 reset RX FIFO, bit 0 reset TX FIFO.
    pub open spec fn spec_raw_value(self) -> u32 {
        (if self.enable_interrupt { 0x10u32 } else { 0u32 })
        | (if self.reset_rx_fifo { 0x02u32 } else { 0u32 })
        | (if self.reset_tx_fifo { 0x01u32 } else { 0u32 })
    }

    /// Encode the control word.
    pub fn raw_value(&self) -> (r: u32)
        ensures
            r == self.spec_raw_value(),
    {
        (if self.enable_interrupt { 0x10u32 } else { 0u32 })
        | (if self.reset_rx_fifo { 0x02u32 } else { 0u32 })
        | (if self.reset_tx_fifo { 0x01u32 } else { 0u32 })
    }
}

/// Builder for [`Control`], mirroring the write-only register's fields.
#[derive(Clone, Copy, Debug, PartialEq, Eq, Structural)]
pub struct ControlBuilder {
    pub enable_interrupt: bool,
    pub reset_rx_fifo: bool,
    pub reset_tx_fifo: bool,
}

impl ControlBuilder {
    /// Set the interrupt-enable bit.
    pub fn with_enable_interrupt(self, value: bool) -> (b: Self)
        ensures
            b == (ControlBuilder {
                enable_interrupt: value,
                reset_rx_fifo: self.reset_rx_fifo,
                reset_tx_fifo: self.reset_tx_fifo,
            }),
    {
        ControlBuilder {
            enable_interrupt: value,
            reset_rx_fifo: self.reset_rx_fifo,
            reset_tx_fifo: self.reset_tx_fifo,
        }
    }

    /// Set the RX FIFO reset bit.
    pub fn with_reset_rx_fifo(self, value: bool) -> (b: Self)
        ensures
            b == (ControlBuilder {
                enable_interrupt: self.enable_interrupt,
                reset_rx_fifo: value,
                reset_tx_fifo: self.reset_tx_fifo,
            }),
    {
        ControlBuilder {
            enable_interrupt: self.enable_interrupt,
            reset_rx_fifo: value,
            reset_tx_fifo: self.reset_tx_fifo,
        }
    }

    /// Set the TX FIFO reset bit.
    pub fn with_reset_tx_fifo(self, value: bool) -> (b: Self)
        ensures
            b == (ControlBuilder {
                enable_interrupt: self.enable_interrupt,
                reset_rx_fifo: self.reset_rx_fifo,
                reset_tx_fifo: value,
            }),
    {
        ControlBuilder {
            enable_interrupt: self.enable_interrupt,
            reset_rx_fifo: self.reset_rx_fifo,
            reset_tx_fifo: value,
        }
    }

    /// Finish the control word.
    pub fn build(self) -> (c: Control)
        ensures
            c == (Control {
                enable_interrupt: self.enable_interrupt,
                reset_rx_fifo: self.reset_rx_fifo,
                reset_tx_fifo: self.reset_tx_fifo,
            }),
    {
        Control {
            enable_interrupt: self.enable_interrupt,
            reset_rx_fifo: self.reset_rx_fifo,
            reset_tx_fifo: self.reset_tx_fifo,
        }
    }
}

/// RX FIFO register: the received byte sits in the low eight bits.
#[derive(Clone, Copy, Debug, PartialEq, Eq, Structural)]
pub struct RxFifo {
    pub raw: u32,
}

impl RxFifo {
    /// Wrap a raw register word.
    pub fn new_with_raw_value(raw: u32) -> (r: Self)
        ensures
            r.raw == raw,
    {
        RxFifo { raw }
    }

    /// The byte carried in the low eight bits.
    pub open spec fn spec_data(self) -> u8 {
        (self.raw % 256) as u8
    }

    /// Read the received byte.
    pub fn data(&self) -> (r: u8)
        ensures
            r == self.spec_data(),
    {
        (self.raw % 256) as u8
    }
}

/// TX FIFO register: the byte to transmit goes in the low eight bits.
#[derive(Clone, Copy, Debug, PartialEq, Eq, Structural)]
pub struct TxFifo {
    pub raw: u32,
}

impl TxFifo {
    /// Wrap a raw register word.
    pub fn new_with_raw_value(raw: u32) -> (r: Self)
        ensures
            r.raw == raw,
    {
        TxFifo { raw }
    }

    /// The byte carried in the low eight bits.
    pub open spec fn spec_data(self) -> u8 {
        (self.raw % 256) as u8
    }

    /// Read back the byte to be queued.
    pub fn data(&self) -> (r: u8)
        ensures
            r == self.spec_data(),
    {
        (self.raw % 256) as u8
    }
}

/// Plain-state model of the register block.
///
/// `tx_queue` holds the bytes queued for transmission, oldest first;
/// `tx_sent` records every byte the wire has carried, in order; `rx_queue`
/// holds the bytes received and not yet read.  The interrupt-enable latch
/// and the three sticky line-error flags complete the observable state.
#[derive(Debug)]
pub struct Registers {
    tx_queue: Vec<u8>,
    tx_sent: Vec<u8>,
    rx_queue: Vec<u8>,
    intr_enabled: bool,
    parity_error: bool,
    frame_error: bool,
    overrun_error: bool,
}

impl Registers {
    /// Bytes currently queued in the transmit FIFO, oldest first.
    pub closed spec fn tx_fifo(self) -> Seq<u8> {
        self.tx_queue@
    }

    /// Every byte the wire has carried so far, in order.
    pub closed spec fn sent(self) -> Seq<u8> {
        self.tx_sent@
    }

    /// Bytes received and not yet read, oldest first.
    pub closed spec fn rx_fifo(self) -> Seq<u8> {
        self.rx_queue@
    }

    /// Whether the device interrupt is enabled.
    pub closed spec fn intr_enabled(self) -> bool {
        self.intr_enabled
    }

    /// Sticky parity-error flag.
    pub closed spec fn parity_error(self) -> bool {
        self.parity_error
    }

    /// Sticky frame-error flag.
    pub closed spec fn frame_error(self) -> bool {
        self.frame_error
    }

    /// Sticky overrun-error flag.
    pub closed spec fn overrun_error(self) -> bool {
        self.overrun_error
    }

    /// The three line-error flags bundled, for stating what stays unchanged.
    pub open spec fn errs(self) -> (bool, bool, bool) {
        (self.parity_error(), self.frame_error(), self.overrun_error())
    }

    /// How many more bytes the transmit FIFO can take.
    pub open spec fn tx_space(self) -> int {
        if self.tx_fifo().len() >= FIFO_DEPTH {
            0
        } else {
            FIFO_DEPTH - self.tx_fifo().len()
        }
    }

    /// A freshly powered device: both FIFOs empty, nothing sent, interrupt
    /// disabled, no errors.
    pub fn new() -> (r: Registers)
        ensures
            r.tx_fifo().len() == 0,
            r.sent().len() == 0,
            r.rx_fifo().len() == 0,
            !r.intr_enabled(),
            r.errs() == (false, false, false),
    {
        Registers {
            tx_queue: Vec::new(),
            tx_sent: Vec::new(),
            rx_queue: Vec::new(),
            intr_enabled: false,
            parity_error: false,
            frame_error: false,
            overrun_error: false,
        }
    }

    /// Read the status register; reading has no effect on the device.
    pub fn read_stat_reg(&self) -> (s: Status)
        ensures
            s == (Status {
                parity_error: self.parity_error(),
                frame_error: self.frame_error(),
                overrun_error: self.overrun_error(),
                intr_enabled: self.intr_enabled(),
                tx_fifo_full: self.tx_fifo().len() >= FIFO_DEPTH,
                tx_fifo_empty: self.tx_fifo().len() == 0,
                rx_fifo_full: self.rx_fifo().len() >= FIFO_DEPTH,
                rx_fifo_valid_data: self.rx_fifo().len() > 0,
            }),
    {
        Status {
            parity_error: self.parity_error,
            frame_error: self.frame_error,
            overrun_error: self.overrun_error,
            intr_enabled: self.intr_enabled,
            tx_fifo_full: self.tx_queue.len() >= FIFO_DEPTH,
            tx_fifo_empty: self.tx_queue.len() == 0,
            rx_fifo_full: self.rx_queue.len() >= FIFO_DEPTH,
            rx_fifo_valid_data: self.rx_queue.len() > 0,
        }
    }

    /// Write the control register.  The interrupt-enable latch always takes
    /// the written bit; a set reset bit clears the corresponding FIFO.
    pub fn write_ctrl_reg(&mut self, c: Control)
        ensures
            final(self).intr_enabled() == c.enable_interrupt,
            final(self).tx_fifo() == (if c.reset_tx_fifo {
                Seq::<u8>::empty()
            } else {
                old(self).tx_fifo()
            }),
            final(self).rx_fifo() == (if c.reset_rx_fifo {
                Seq::<u8>::empty()
            } else {
                old(self).rx_fifo()
            }),
            final(self).sent() == old(self).sent(),
            final(self).errs() == old(self).errs(),
    {
        self.intr_enabled = c.enable_interrupt;
        if c.reset_tx_fifo {
            self.tx_queue = Vec::new();
        }
        if c.reset_rx_fifo {
            self.rx_queue = Vec::new();
        }
    }

    /// Enqueue one byte into the transmit FIFO.  A write while the FIFO is
    /// full is lost.
    pub fn write_tx_fifo(&mut self, val: TxFifo)
        ensures
            old(self).tx_fifo().len() < FIFO_DEPTH ==> final(self).tx_fifo()
                == old(self).tx_fifo().push(val.spec_data()),
            old(self).tx_fifo().len() >= FIFO_DEPTH ==> final(self).tx_fifo()
                == old(self).tx_fifo(),
            final(self).sent() == old(self).sent(),
            final(self).rx_fifo() == old(self).rx_fifo(),
            final(self).intr_enabled() == old(self).intr_enabled(),
            final(self).errs() == old(self).errs(),
    {
        if self.tx_queue.len() < FIFO_DEPTH {
            self.tx_queue.push(val.data());
        }
    }

    /// Dequeue one byte from the receive FIFO.  Reading while the FIFO is
    /// empty returns zero and changes nothing.
    pub fn read_rx_fifo(&mut self) -> (r: RxFifo)
        ensures
            old(self).rx_fifo().len() > 0 ==> {
                &&& r.raw == old(self).rx_fifo()[0] as u32
                &&& final(self).rx_fifo() == old(self).rx_fifo().drop_first()
            },
            old(self).rx_fifo().len() == 0 ==> {
                &&& r.raw == 0
                &&& final(self).rx_fifo() == old(self).rx_fifo()
            },
            final(self).tx_fifo() == old(self).tx_fifo(),
            final(self).sent() == old(self).sent(),
            final(self).intr_enabled() == old(self).intr_enabled(),
            final(self).errs() == old(self).errs(),
    {
        if self.rx_queue.len() > 0 {
            let b = self.rx_queue.remove(0);
            proof {
                assert(old(self).rx_queue@.remove(0) =~= old(self).rx_queue@.drop_first());
            }
            RxFifo { raw: b as u32 }
        } else {
            RxFifo { raw: 0 }
        }
    }

    /// Models the transmitter moving the oldest queued byte onto the wire.
    pub fn hw_transmit_one(&mut self)
        ensures
            old(self).tx_fifo().len() > 0 ==> {
                &&& final(self).tx_fifo() == old(self).tx_fifo().drop_first()
                &&& final(self).sent() == old(self).sent().push(old(self).tx_fifo()[0])
            },
            old(self).tx_fifo().len() == 0 ==> {
                &&& final(self).tx_fifo() == old(self).tx_fifo()
                &&& final(self).sent() == old(self).sent()
            },
            final(self).rx_fifo() == old(self).rx_fifo(),
            final(self).intr_enabled() == old(self).intr_enabled(),
            final(self).errs() == old(self).errs(),
    {
        if self.tx_queue.len() > 0 {
            let b = self.tx_queue.remove(0);
            proof {
                assert(old(self).tx_queue@.remove(0) =~= old(self).tx_queue@.drop_first());
            }
            self.tx_sent.push(b);
        }
    }

    /// Models a byte arriving on the receive line; a byte that finds the
    /// FIFO full is lost and sets the overrun flag.
    pub fn hw_receive(&mut self, byte: u8)
        ensures
            old(self).rx_fifo().len() < FIFO_DEPTH ==> {
                &&& final(self).rx_fifo() == old(self).rx_fifo().push(byte)
                &&& final(self).errs() == old(self).errs()
            },
            old(self).rx_fifo().len() >= FIFO_DEPTH ==> {
                &&& final(self).rx_fifo() == old(self).rx_fifo()
                &&& final(self).parity_error() == old(self).parity_error()
                &&& final(self).frame_error() == old(self).frame_error()
                &&& final(self).overrun_error()
            },
            final(self).tx_fifo() == old(self).tx_fifo(),
            final(self).sent() == old(self).sent(),
            final(self).intr_enabled() == old(self).intr_enabled(),
    {
        if self.rx_queue.len() < FIFO_DEPTH {
            self.rx_queue.push(byte);
        } else {
            self.overrun_error = true;
        }
    }

    /// Models the line-error flags being raised or cleared by the hardware.
    pub fn hw_set_line_errors(&mut self, parity: bool, frame: bool, overrun: bool)
        ensures
            final(self).errs() == (parity, frame, overrun),
            final(self).tx_fifo() == old(self).tx_fifo(),
            final(self).sent() == old(self).sent(),
            final(self).rx_fifo() == old(self).rx_fifo(),
            final(self).intr_enabled() == old(self).intr_enabled(),
    {
        self.parity_error = parity;
        self.frame_error = frame;
        self.overrun_error = overrun;
    }

    /// The bytes currently queued in the transmit FIFO, oldest first.
    pub fn tx_fifo_bytes(&self) -> (r: Vec<u8>)
        ensures
            r@ == self.tx_fifo(),
    {
        copy_bytes(self.tx_queue.as_slice())
    }

    /// Every byte the wire has carried so far, in order.
    pub fn sent_bytes(&self) -> (r: Vec<u8>)
        ensures
            r@ == self.sent(),
    {
        copy_bytes(self.tx_sent.as_slice())
    }

    /// The bytes received and not yet read, oldest first.
    pub fn rx_fifo_bytes(&self) -> (r: Vec<u8>)
        ensures
            r@ == self.rx_fifo(),
    {
        copy_bytes(self.rx_queue.as_slice())
    }

    /// A second handle carrying the same device state, used when splitting
    /// the driver into its transmit and receive halves.
    pub fn duplicate(&self) -> (r: Registers)
        ensures
            r.tx_fifo() == self.tx_fifo(),
            r.sent() == self.sent(),
            r.rx_fifo() == self.rx_fifo(),
            r.intr_enabled() == self.intr_enabled(),
            r.errs() == self.errs(),
    {
        Registers {
            tx_queue: copy_bytes(self.tx_queue.as_slice()),
            tx_sent: copy_bytes(self.tx_sent.as_slice()),
            rx_queue: copy_bytes(self.rx_queue.as_slice()),
            intr_enabled: self.intr_enabled,
            parity_error: self.parity_error,
            frame_error: self.frame_error,
            overrun_error: self.overrun_error,
        }
    }
}

/// Element-for-element copy of a byte slice into a fresh vector.
pub(crate) fn copy_bytes(src: &[u8]) -> (r: Vec<u8>)
    ensures
        r@ == src@,
{
    let mut r: Vec<u8> = Vec::new();
    let mut i: usize = 0;
    while i < src.len()
        invariant
            i <= src.len(),
            r@ == src@.take(i as int),
        decreases src.len() - i,
    {
        let b = src[i];
        r.push(b);
        proof {
            assert(src@.take(i as int).push(src@[i as int]) =~= src@.take(i as int + 1));
        }
        i = i + 1;
    }
    proof {
        assert(src@.take(src@.len() as int) =~= src@);
    }
    r
}

} // verus!
