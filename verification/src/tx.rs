//! Transmitter half of the driver.

use vstd::prelude::*;

use crate::registers::{Control, Registers, TxFifo};
use crate::rx::{has_line_errors, line_errors_of, handle_status_reg_errors, RxErrors};
use crate::{WouldBlock, FIFO_DEPTH};

verus! {

/// Transmit handle: the device state plus the last errors seen while writing.
pub struct Tx {
    pub regs: Registers,
    pub errors: Option<RxErrors>,
}

impl Tx {
    /// The errors captured by the last write that saw any, not yet cleared.
    pub open spec fn last_errors(self) -> Option<RxErrors> {
        self.errors
    }

    /// Make a transmit handle for a device.
    pub fn new(regs: Registers) -> (r: Tx)
        ensures
            r.regs == regs,
            r.last_errors() is None,
    {
        Tx { regs, errors: None }
    }

    /// Queue one byte, or report that the TX FIFO is full.  A successful
    /// write captures the line errors the status reported.
    pub fn write_fifo(&mut self, data: u8) -> (r: Result<(), WouldBlock>)
        ensures
            r is Ok <==> old(self).regs.tx_fifo().len() < FIFO_DEPTH,
            old(self).regs.tx_fifo().len() < FIFO_DEPTH ==> {
                &&& final(self).regs.tx_fifo() == old(self).regs.tx_fifo().push(data)
                &&& final(self).last_errors() == (if has_line_errors(old(self).regs) {
                    Some(line_errors_of(old(self).regs))
                } else {
                    old(self).last_errors()
                })
            },
            old(self).regs.tx_fifo().len() >= FIFO_DEPTH ==> {
                &&& final(self).regs.tx_fifo() == old(self).regs.tx_fifo()
                &&& final(self).last_errors() == old(self).last_errors()
            },
            final(self).regs.sent() == old(self).regs.sent(),
            final(self).regs.rx_fifo() == old(self).regs.rx_fifo(),
            final(self).regs.intr_enabled() == old(self).regs.intr_enabled(),
            final(self).regs.errs() == old(self).regs.errs(),
    {
        let status_reg = self.regs.read_stat_reg();
        if status_reg.tx_fifo_full {
            return Err(WouldBlock);
        }
        self.write_fifo_unchecked(data);
        if let Some(errors) = handle_status_reg_errors(&status_reg) {
            self.errors = Some(errors);
        }
        Ok(())
    }

    /// Drop whatever the TX FIFO still holds, keeping the current
    /// interrupt-enable setting.
    pub fn reset_fifo(&mut self)
        ensures
            final(self).regs.tx_fifo().len() == 0,
            final(self).regs.intr_enabled() == old(self).regs.intr_enabled(),
            final(self).regs.sent() == old(self).regs.sent(),
            final(self).regs.rx_fifo() == old(self).regs.rx_fifo(),
            final(self).regs.errs() == old(self).regs.errs(),
            final(self).last_errors() == old(self).last_errors(),
    {
        let status = self.regs.read_stat_reg();
        self.regs.write_ctrl_reg(
            Control::builder()
                .with_enable_interrupt(status.intr_enabled)
                .with_reset_rx_fifo(false)
                .with_reset_tx_fifo(true)
                .build(),
        );
    }

    /// Queue one byte without checking the FIFO fill state; a byte written
    /// while the FIFO is full is lost.
    pub fn write_fifo_unchecked(&mut self, data: u8)
        ensures
            old(self).regs.tx_fifo().len() < FIFO_DEPTH ==> final(self).regs.tx_fifo()
                == old(self).regs.tx_fifo().push(data),
            old(self).regs.tx_fifo().len() >= FIFO_DEPTH ==> final(self).regs.tx_fifo()
                == old(self).regs.tx_fifo(),
            final(self).regs.sent() == old(self).regs.sent(),
            final(self).regs.rx_fifo() == old(self).regs.rx_fifo(),
            final(self).regs.intr_enabled() == old(self).regs.intr_enabled(),
            final(self).regs.errs() == old(self).regs.errs(),
            final(self).last_errors() == old(self).last_errors(),
    {
        self.regs.write_tx_fifo(TxFifo::new_with_raw_value(data as u32));
    }

    /// Is the TX FIFO empty?
    pub fn fifo_empty(&self) -> (r: bool)
        ensures
            r == (self.regs.tx_fifo().len() == 0),
    {
        self.regs.read_stat_reg().tx_fifo_empty
    }

    /// Is the TX FIFO full?
    pub fn fifo_full(&self) -> (r: bool)
        ensures
            r == (self.regs.tx_fifo().len() >= FIFO_DEPTH),
    {
        self.regs.read_stat_reg().tx_fifo_full
    }

    /// Queue bytes from `buf` until the buffer is consumed or the FIFO is
    /// full.  Returns how many bytes were queued.
    #[verifier::loop_isolation(false)]
    pub fn fill_fifo(&mut self, buf: &[u8]) -> (written: usize)
        ensures
            written == vstd::math::min(buf@.len() as int, old(self).regs.tx_space()),
            final(self).regs.tx_fifo() == old(self).regs.tx_fifo() + buf@.take(written as int),
            final(self).last_errors() == (if written > 0 && has_line_errors(old(self).regs) {
                Some(line_errors_of(old(self).regs))
            } else {
                old(self).last_errors()
            }),
            final(self).regs.sent() == old(self).regs.sent(),
            final(self).regs.rx_fifo() == old(self).regs.rx_fifo(),
            final(self).regs.intr_enabled() == old(self).regs.intr_enabled(),
            final(self).regs.errs() == old(self).regs.errs(),
    {
        let mut written: usize = 0;
        let mut blocked = false;
        while written < buf.len() && !blocked
            invariant
                written <= buf@.len(),
                written <= old(self).regs.tx_space(),
                self.regs.tx_fifo() == old(self).regs.tx_fifo() + buf@.take(written as int),
                blocked ==> self.regs.tx_fifo().len() >= FIFO_DEPTH,
                self.last_errors() == (if written > 0 && has_line_errors(old(self).regs) {
                    Some(line_errors_of(old(self).regs))
                } else {
                    old(self).last_errors()
                }),
                self.regs.sent() == old(self).regs.sent(),
                self.regs.rx_fifo() == old(self).regs.rx_fifo(),
                self.regs.intr_enabled() == old(self).regs.intr_enabled(),
                self.regs.errs() == old(self).regs.errs(),
            decreases buf@.len() - written, (if blocked { 0int } else { 1int }),
        {
            match self.write_fifo(buf[written]) {
                Ok(_) => {
                    proof {
                        assert(old(self).regs.tx_fifo() + buf@.take(written as int + 1)
                            =~= (old(self).regs.tx_fifo() + buf@.take(written as int)).push(
                            buf@[written as int]));
                    }
                    written = written + 1;
                }
                Err(_) => {
                    blocked = true;
                }
            }
        }
        written
    }

    /// Return and clear the last captured errors, if any.
    pub fn read_and_clear_last_error(&mut self) -> (r: Option<RxErrors>)
        ensures
            r == old(self).last_errors(),
            final(self).last_errors() is None,
            final(self).regs == old(self).regs,
    {
        let errors = match self.errors {
            Some(e) => e,
            None => {
                return None;
            },
        };
        self.errors = None;
        Some(errors)
    }
}

} // verus!
