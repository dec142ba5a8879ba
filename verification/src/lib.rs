//! Driver for a small memory-mapped serial transmitter with a fixed-depth
//! hardware FIFO and a single interrupt line.
//!
//! The register block itself is modelled as plain state ([`registers::Registers`]):
//! a transmit queue, a receive queue, the interrupt-enable latch and the line
//! error flags.  Everything the driver does to that state is specified and
//! verified here; the volatile memory-mapped binding, which Verus cannot see,
//! lives outside the verified core.
//!
//! The heart of the crate is the asynchronous transmit subsystem in
//! [`tx_async`]: a pool of waker slots bridges the hardware interrupt (which
//! refills the FIFO opportunistically) and a polled continuation (which is
//! suspended until a buffer has been fully transmitted).

use vstd::prelude::*;

pub mod registers;
pub mod rx;
pub mod tx;
pub mod tx_async;

use crate::registers::{Control, Registers, TxFifo};
use crate::rx::{handle_status_reg_errors, has_line_errors, line_errors_of, Rx, RxErrors};
use crate::tx::Tx;

verus! {

/// Number of bytes the hardware transmit FIFO holds before it reports full.
pub const FIFO_DEPTH: usize = 16;

/// The FIFO cannot take (or give) a byte right now; try again later.
#[derive(Clone, Copy, Debug, PartialEq, Eq, Structural)]
pub struct WouldBlock;

/// Saturating counters for the line errors observed while using the
/// combined driver handle.
#[derive(Clone, Copy, Debug, PartialEq, Eq, Structural)]
pub struct RxErrorsCounted {
    pub parity: u8,
    pub frame: u8,
    pub overrun: u8,
}

impl RxErrorsCounted {
    /// All counters start at zero.
    pub fn new() -> (r: Self)
        ensures
            r == (RxErrorsCounted { parity: 0, frame: 0, overrun: 0 }),
    {
        RxErrorsCounted { parity: 0, frame: 0, overrun: 0 }
    }

    /// Number of parity errors counted so far.
    pub fn parity(&self) -> (r: u8)
        ensures
            r == self.parity,
    {
        self.parity
    }

    /// Number of frame errors counted so far.
    pub fn frame(&self) -> (r: u8)
        ensures
            r == self.frame,
    {
        self.frame
    }

    /// Number of overrun errors counted so far.
    pub fn overrun(&self) -> (r: u8)
        ensures
            r == self.overrun,
    {
        self.overrun
    }

    /// Whether any error has been counted.
    pub fn has_errors(&self) -> (r: bool)
        ensures
            r == (self.parity > 0 || self.frame > 0 || self.overrun > 0),
    {
        self.parity > 0 || self.frame > 0 || self.overrun > 0
    }
}

/// A counter bumped by one, stopping at its maximum.
pub open spec fn spec_sat_inc(c: u8) -> u8 {
    if c == 255 {
        255u8
    } else {
        (c + 1) as u8
    }
}

/// The counters after counting one set of observed line errors.
pub open spec fn spec_counted(pre: RxErrorsCounted, e: RxErrors) -> RxErrorsCounted {
    RxErrorsCounted {
        parity: if e.parity {
            spec_sat_inc(pre.parity)
        } else {
            pre.parity
        },
        frame: if e.frame {
            spec_sat_inc(pre.frame)
        } else {
            pre.frame
        },
        overrun: if e.overrun {
            spec_sat_inc(pre.overrun)
        } else {
            pre.overrun
        },
    }
}

/// Bump a counter by one, stopping at its maximum.
fn sat_inc(c: u8) -> (r: u8)
    ensures
        r == spec_sat_inc(c),
{
    if c == 255 {
        255
    } else {
        c + 1
    }
}

/// Combined driver handle for one device: both FIFO directions plus the
/// error counters.  [`AxiUartlite::split`] parts it into the transmit and
/// receive halves used by the asynchronous machinery.
pub struct AxiUartlite {
    pub regs: Registers,
    pub errors: RxErrorsCounted,
}

impl AxiUartlite {
    /// A driver handle for a freshly powered device.
    pub fn new() -> (r: AxiUartlite)
        ensures
            r.regs.tx_fifo().len() == 0,
            r.regs.sent().len() == 0,
            r.regs.rx_fifo().len() == 0,
            !r.regs.intr_enabled(),
            r.regs.errs() == (false, false, false),
            r.errors == (RxErrorsCounted { parity: 0, frame: 0, overrun: 0 }),
    {
        AxiUartlite { regs: Registers::new(), errors: RxErrorsCounted::new() }
    }

    /// Direct access to the register block.
    pub fn regs(&mut self) -> (r: &mut Registers)
        ensures
            *r == old(self).regs,
            final(self).regs == *final(r),
            final(self).errors == old(self).errors,
    {
        &mut self.regs
    }

    /// Queue one byte, or report that the TX FIFO is full.  A successful
    /// write counts the line errors the status reported.
    pub fn write_fifo(&mut self, data: u8) -> (r: Result<(), WouldBlock>)
        ensures
            r is Ok <==> old(self).regs.tx_fifo().len() < FIFO_DEPTH,
            old(self).regs.tx_fifo().len() < FIFO_DEPTH ==> {
                &&& final(self).regs.tx_fifo() == old(self).regs.tx_fifo().push(data)
                &&& final(self).errors == (if has_line_errors(old(self).regs) {
                    spec_counted(old(self).errors, line_errors_of(old(self).regs))
                } else {
                    old(self).errors
                })
            },
            old(self).regs.tx_fifo().len() >= FIFO_DEPTH ==> {
                &&& final(self).regs.tx_fifo() == old(self).regs.tx_fifo()
                &&& final(self).errors == old(self).errors
            },
            final(self).regs.sent() == old(self).regs.sent(),
            final(self).regs.rx_fifo() == old(self).regs.rx_fifo(),
            final(self).regs.intr_enabled() == old(self).regs.intr_enabled(),
            final(self).regs.errs() == old(self).regs.errs(),
    {
        let status = self.regs.read_stat_reg();
        if status.tx_fifo_full {
            return Err(WouldBlock);
        }
        self.regs.write_tx_fifo(TxFifo::new_with_raw_value(data as u32));
        if let Some(errors) = handle_status_reg_errors(&status) {
            self.handle_status_reg_errors(errors);
        }
        Ok(())
    }

    /// Queue one byte without checking the FIFO fill state; a byte written
    /// while the FIFO is full is lost.
    pub fn write_fifo_unchecked(&mut self, data: u8)
        ensures
            old(self).regs.tx_fifo().len() < FIFO_DEPTH ==> final(self).regs.tx_fifo() == old(
                self,
            ).regs.tx_fifo().push(data),
            old(self).regs.tx_fifo().len() >= FIFO_DEPTH ==> final(self).regs.tx_fifo() == old(
                self,
            ).regs.tx_fifo(),
            final(self).regs.sent() == old(self).regs.sent(),
            final(self).regs.rx_fifo() == old(self).regs.rx_fifo(),
            final(self).regs.intr_enabled() == old(self).regs.intr_enabled(),
            final(self).regs.errs() == old(self).regs.errs(),
            final(self).errors == old(self).errors,
    {
        self.regs.write_tx_fifo(TxFifo::new_with_raw_value(data as u32));
    }

    /// Read one byte from the RX FIFO, or report that none is there yet.
    /// A successful read counts the line errors the status reported.
    pub fn read_fifo(&mut self) -> (r: Result<u8, WouldBlock>)
        ensures
            r is Ok <==> old(self).regs.rx_fifo().len() > 0,
            old(self).regs.rx_fifo().len() > 0 ==> {
                &&& r == Ok::<u8, WouldBlock>(old(self).regs.rx_fifo()[0])
                &&& final(self).regs.rx_fifo() == old(self).regs.rx_fifo().drop_first()
                &&& final(self).errors == (if has_line_errors(old(self).regs) {
                    spec_counted(old(self).errors, line_errors_of(old(self).regs))
                } else {
                    old(self).errors
                })
            },
            old(self).regs.rx_fifo().len() == 0 ==> {
                &&& final(self).regs.rx_fifo() == old(self).regs.rx_fifo()
                &&& final(self).errors == old(self).errors
            },
            final(self).regs.tx_fifo() == old(self).regs.tx_fifo(),
            final(self).regs.sent() == old(self).regs.sent(),
            final(self).regs.intr_enabled() == old(self).regs.intr_enabled(),
            final(self).regs.errs() == old(self).regs.errs(),
    {
        let status = self.regs.read_stat_reg();
        if !status.rx_fifo_valid_data {
            return Err(WouldBlock);
        }
        let val = self.regs.read_rx_fifo().data();
        if let Some(errors) = handle_status_reg_errors(&status) {
            self.handle_status_reg_errors(errors);
        }
        Ok(val)
    }

    /// Read the RX FIFO without checking whether it holds data; an empty
    /// FIFO reads as zero.
    pub fn read_fifo_unchecked(&mut self) -> (r: u8)
        ensures
            old(self).regs.rx_fifo().len() > 0 ==> {
                &&& r == old(self).regs.rx_fifo()[0]
                &&& final(self).regs.rx_fifo() == old(self).regs.rx_fifo().drop_first()
            },
            old(self).regs.rx_fifo().len() == 0 ==> {
                &&& r == 0
                &&& final(self).regs.rx_fifo() == old(self).regs.rx_fifo()
            },
            final(self).regs.tx_fifo() == old(self).regs.tx_fifo(),
            final(self).regs.sent() == old(self).regs.sent(),
            final(self).regs.intr_enabled() == old(self).regs.intr_enabled(),
            final(self).regs.errs() == old(self).regs.errs(),
            final(self).errors == old(self).errors,
    {
        self.regs.read_rx_fifo().data()
    }

    /// Is the TX FIFO empty?
    pub fn tx_fifo_empty(&self) -> (r: bool)
        ensures
            r == (self.regs.tx_fifo().len() == 0),
    {
        self.regs.read_stat_reg().tx_fifo_empty
    }

    /// Is the TX FIFO full?
    pub fn tx_fifo_full(&self) -> (r: bool)
        ensures
            r == (self.regs.tx_fifo().len() >= FIFO_DEPTH),
    {
        self.regs.read_stat_reg().tx_fifo_full
    }

    /// Does the RX FIFO hold valid data?
    pub fn rx_has_data(&self) -> (r: bool)
        ensures
            r == (self.regs.rx_fifo().len() > 0),
    {
        self.regs.read_stat_reg().rx_fifo_valid_data
    }

    /// Return the error counters and reset them.
    pub fn read_and_clear_errors(&mut self) -> (r: RxErrorsCounted)
        ensures
            r == old(self).errors,
            final(self).errors == (RxErrorsCounted { parity: 0, frame: 0, overrun: 0 }),
            final(self).regs == old(self).regs,
    {
        let errors = self.errors;
        self.errors = RxErrorsCounted::new();
        errors
    }

    /// Count one set of observed line errors, saturating each counter.
    fn handle_status_reg_errors(&mut self, errors: RxErrors)
        ensures
            final(self).errors == spec_counted(old(self).errors, errors),
            final(self).regs == old(self).regs,
    {
        if errors.frame() {
            self.errors.frame = sat_inc(self.errors.frame);
        }
        if errors.parity() {
            self.errors.parity = sat_inc(self.errors.parity);
        }
        if errors.overrun() {
            self.errors.overrun = sat_inc(self.errors.overrun);
        }
    }

    /// Drop whatever the RX FIFO holds.  Like every control write, this
    /// also writes the interrupt-enable latch, here to disabled.
    pub fn reset_rx_fifo(&mut self)
        ensures
            final(self).regs.rx_fifo().len() == 0,
            !final(self).regs.intr_enabled(),
            final(self).regs.tx_fifo() == old(self).regs.tx_fifo(),
            final(self).regs.sent() == old(self).regs.sent(),
            final(self).regs.errs() == old(self).regs.errs(),
            final(self).errors == old(self).errors,
    {
        self.regs.write_ctrl_reg(
            Control::builder()
                .with_enable_interrupt(false)
                .with_reset_rx_fifo(true)
                .with_reset_tx_fifo(false)
                .build(),
        );
    }

    /// Drop whatever the TX FIFO holds.  Like every control write, this
    /// also writes the interrupt-enable latch, here to disabled.
    pub fn reset_tx_fifo(&mut self)
        ensures
            final(self).regs.tx_fifo().len() == 0,
            !final(self).regs.intr_enabled(),
            final(self).regs.rx_fifo() == old(self).regs.rx_fifo(),
            final(self).regs.sent() == old(self).regs.sent(),
            final(self).regs.errs() == old(self).regs.errs(),
            final(self).errors == old(self).errors,
    {
        self.regs.write_ctrl_reg(
            Control::builder()
                .with_enable_interrupt(false)
                .with_reset_rx_fifo(false)
                .with_reset_tx_fifo(true)
                .build(),
        );
    }

    /// Enable the device interrupt, clearing neither FIFO.
    pub fn enable_interrupt(&mut self)
        ensures
            final(self).regs.intr_enabled(),
            final(self).regs.tx_fifo() == old(self).regs.tx_fifo(),
            final(self).regs.rx_fifo() == old(self).regs.rx_fifo(),
            final(self).regs.sent() == old(self).regs.sent(),
            final(self).regs.errs() == old(self).regs.errs(),
            final(self).errors == old(self).errors,
    {
        self.regs.write_ctrl_reg(
            Control::builder()
                .with_enable_interrupt(true)
                .with_reset_rx_fifo(false)
                .with_reset_tx_fifo(false)
                .build(),
        );
    }

    /// Disable the device interrupt, clearing neither FIFO.
    pub fn disable_interrupt(&mut self)
        ensures
            !final(self).regs.intr_enabled(),
            final(self).regs.tx_fifo() == old(self).regs.tx_fifo(),
            final(self).regs.rx_fifo() == old(self).regs.rx_fifo(),
            final(self).regs.sent() == old(self).regs.sent(),
            final(self).regs.errs() == old(self).regs.errs(),
            final(self).errors == old(self).errors,
    {
        self.regs.write_ctrl_reg(
            Control::builder()
                .with_enable_interrupt(false)
                .with_reset_rx_fifo(false)
                .with_reset_tx_fifo(false)
                .build(),
        );
    }

    /// Part the handle into its transmit and receive halves.  Each half
    /// carries the device state as it stands now; the transmitter never
    /// touches the receive queue and the receiver never touches the
    /// transmit queue, so each half stays faithful for the registers it
    /// uses.  On real hardware both halves alias one peripheral.
    pub fn split(self) -> (r: (Tx, Rx))
        ensures
            r.0.regs == self.regs,
            r.0.last_errors() is None,
            r.1.regs.tx_fifo() == self.regs.tx_fifo(),
            r.1.regs.sent() == self.regs.sent(),
            r.1.regs.rx_fifo() == self.regs.rx_fifo(),
            r.1.regs.intr_enabled() == self.regs.intr_enabled(),
            r.1.regs.errs() == self.regs.errs(),
            r.1.last_errors() is None,
    {
        let rx_regs = self.regs.duplicate();
        (Tx::new(self.regs), Rx::new(rx_regs))
    }
}

} // verus!
