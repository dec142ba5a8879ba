//! Receiver half of the driver.

use vstd::prelude::*;

use crate::registers::{Registers, Status};
use crate::{WouldBlock, FIFO_DEPTH};

verus! {

/// Which line errors a status word reported.
#[derive(Clone, Copy, Debug, PartialEq, Eq, Structural)]
pub struct RxErrors {
    pub parity: bool,
    pub frame: bool,
    pub overrun: bool,
}

impl RxErrors {
    /// No error reported.
    pub fn new() -> (r: Self)
        ensures
            r == (RxErrors { parity: false, frame: false, overrun: false }),
    {
        RxErrors { parity: false, frame: false, overrun: false }
    }

    /// Parity error occurred.
    pub fn parity(&self) -> (r: bool)
        ensures
            r == self.parity,
    {
        self.parity
    }

    /// Frame error occurred.
    pub fn frame(&self) -> (r: bool)
        ensures
            r == self.frame,
    {
        self.frame
    }

    /// Overrun error occurred.
    pub fn overrun(&self) -> (r: bool)
        ensures
            r == self.overrun,
    {
        self.overrun
    }

    /// Any error occurred.
    pub fn has_errors(&self) -> (r: bool)
        ensures
            r == (self.parity || self.frame || self.overrun),
    {
        self.parity || self.frame || self.overrun
    }
}

impl Default for RxErrors {
    /// Same as [`RxErrors::new`].
    fn default() -> (r: Self)
        ensures
            r == (RxErrors { parity: false, frame: false, overrun: false }),
    {
        RxErrors::new()
    }
}

/// The line-error flags a status read of this device state reports.
pub open spec fn line_errors_of(regs: Registers) -> RxErrors {
    RxErrors {
        parity: regs.parity_error(),
        frame: regs.frame_error(),
        overrun: regs.overrun_error(),
    }
}

/// Whether a status read of this device state reports any line error.
pub open spec fn has_line_errors(regs: Registers) -> bool {
    regs.parity_error() || regs.frame_error() || regs.overrun_error()
}

/// Extract the RX errors from a status word, if it reports any.
pub fn handle_status_reg_errors(status_reg: &Status) -> (r: Option<RxErrors>)
    ensures
        r == (if status_reg.parity_error || status_reg.frame_error
            || status_reg.overrun_error {
            Some(RxErrors {
                parity: status_reg.parity_error,
                frame: status_reg.frame_error,
                overrun: status_reg.overrun_error,
            })
        } else {
            None::<RxErrors>
        }),
{
    let mut errors = RxErrors::new();
    if status_reg.frame_error {
        errors.frame = true;
    }
    if status_reg.parity_error {
        errors.parity = true;
    }
    if status_reg.overrun_error {
        errors.overrun = true;
    }
    if !errors.has_errors() {
        return None;
    }
    Some(errors)
}

/// Receive handle: the device state plus the last errors seen while reading.
pub struct Rx {
    pub regs: Registers,
    pub errors: Option<RxErrors>,
}

impl Rx {
    /// The errors captured by the last read that saw any, not yet cleared.
    pub open spec fn last_errors(self) -> Option<RxErrors> {
        self.errors
    }

    /// Make a receive handle for a device.
    pub fn new(regs: Registers) -> (r: Rx)
        ensures
            r.regs == regs,
            r.last_errors() is None,
    {
        Rx { regs, errors: None }
    }

    /// Read one byte from the RX FIFO, or report that none is there yet.
    /// A successful read captures the line errors the status reported.
    pub fn read_fifo(&mut self) -> (r: Result<u8, WouldBlock>)
        ensures
            r is Ok <==> old(self).regs.rx_fifo().len() > 0,
            old(self).regs.rx_fifo().len() > 0 ==> {
                &&& r == Ok::<u8, WouldBlock>(old(self).regs.rx_fifo()[0])
                &&& final(self).regs.rx_fifo() == old(self).regs.rx_fifo().drop_first()
                &&& final(self).last_errors() == (if has_line_errors(old(self).regs) {
                    Some(line_errors_of(old(self).regs))
                } else {
                    old(self).last_errors()
                })
            },
            old(self).regs.rx_fifo().len() == 0 ==> {
                &&& final(self).regs.rx_fifo() == old(self).regs.rx_fifo()
                &&& final(self).last_errors() == old(self).last_errors()
            },
            final(self).regs.tx_fifo() == old(self).regs.tx_fifo(),
            final(self).regs.sent() == old(self).regs.sent(),
            final(self).regs.intr_enabled() == old(self).regs.intr_enabled(),
            final(self).regs.errs() == old(self).regs.errs(),
    {
        let status_reg = self.regs.read_stat_reg();
        if !status_reg.rx_fifo_valid_data {
            return Err(WouldBlock);
        }
        let val = self.read_fifo_unchecked();
        if let Some(errors) = handle_status_reg_errors(&status_reg) {
            self.errors = Some(errors);
        }
        Ok(val)
    }

    /// Read the RX FIFO without checking whether it holds data; an empty
    /// FIFO reads as zero.
    pub fn read_fifo_unchecked(&mut self) -> (r: u8)
        ensures
            old(self).regs.rx_fifo().len() > 0 ==> {
                &&& r == old(self).regs.rx_fifo()[0]
                &&& final(self).regs.rx_fifo() == old(self).regs.rx_fifo().drop_first()
            },
            old(self).regs.rx_fifo().len() == 0 ==> {
                &&& r == 0
                &&& final(self).regs.rx_fifo() == old(self).regs.rx_fifo()
            },
            final(self).regs.tx_fifo() == old(self).regs.tx_fifo(),
            final(self).regs.sent() == old(self).regs.sent(),
            final(self).regs.intr_enabled() == old(self).regs.intr_enabled(),
            final(self).regs.errs() == old(self).regs.errs(),
            final(self).last_errors() == old(self).last_errors(),
    {
        self.regs.read_rx_fifo().data()
    }

    /// Does the RX FIFO hold valid data?
    pub fn has_data(&self) -> (r: bool)
        ensures
            r == (self.regs.rx_fifo().len() > 0),
    {
        self.regs.read_stat_reg().rx_fifo_valid_data
    }

    /// Read every byte the RX FIFO currently holds into `buf`, front first.
    /// Returns the number of bytes read.
    #[verifier::loop_isolation(false)]
    pub fn read_whole_fifo(&mut self, buf: &mut [u8; FIFO_DEPTH]) -> (read: usize)
        ensures
            read == vstd::math::min(old(self).regs.rx_fifo().len() as int, FIFO_DEPTH as int),
            final(self).regs.rx_fifo() == old(self).regs.rx_fifo().skip(read as int),
            forall|j: int| 0 <= j < read ==> final(buf)@[j] == old(self).regs.rx_fifo()[j],
            forall|j: int| read <= j < FIFO_DEPTH ==> final(buf)@[j] == old(buf)@[j],
            final(self).last_errors() == (if read > 0 && has_line_errors(old(self).regs) {
                Some(line_errors_of(old(self).regs))
            } else {
                old(self).last_errors()
            }),
            final(self).regs.tx_fifo() == old(self).regs.tx_fifo(),
            final(self).regs.sent() == old(self).regs.sent(),
            final(self).regs.intr_enabled() == old(self).regs.intr_enabled(),
            final(self).regs.errs() == old(self).regs.errs(),
    {
        let mut tmp: [u8; FIFO_DEPTH] = *buf;
        let mut read: usize = 0;
        let mut more = self.has_data();
        while read < FIFO_DEPTH && more
            invariant
                read <= FIFO_DEPTH,
                read <= old(self).regs.rx_fifo().len(),
                more == (self.regs.rx_fifo().len() > 0),
                self.regs.rx_fifo() == old(self).regs.rx_fifo().skip(read as int),
                forall|j: int| 0 <= j < read ==> tmp@[j] == old(self).regs.rx_fifo()[j],
                forall|j: int| read <= j < FIFO_DEPTH ==> tmp@[j] == old(buf)@[j],
                self.last_errors() == (if read > 0 && has_line_errors(old(self).regs) {
                    Some(line_errors_of(old(self).regs))
                } else {
                    old(self).last_errors()
                }),
                self.regs.tx_fifo() == old(self).regs.tx_fifo(),
                self.regs.sent() == old(self).regs.sent(),
                self.regs.intr_enabled() == old(self).regs.intr_enabled(),
                self.regs.errs() == old(self).regs.errs(),
            decreases FIFO_DEPTH - read,
        {
            match self.read_fifo() {
                Ok(byte) => {
                    tmp[read] = byte;
                    read = read + 1;
                }
                Err(_) => {
                }
            }
            more = self.has_data();
        }
        *buf = tmp;
        read
    }

    /// Interrupt-handler entry for reception: drains whatever the RX FIFO
    /// holds into `buf` and returns how many bytes it read.
    pub fn on_interrupt_rx(&mut self, buf: &mut [u8; FIFO_DEPTH]) -> (read: usize)
        ensures
            read == vstd::math::min(old(self).regs.rx_fifo().len() as int, FIFO_DEPTH as int),
            final(self).regs.rx_fifo() == old(self).regs.rx_fifo().skip(read as int),
            forall|j: int| 0 <= j < read ==> final(buf)@[j] == old(self).regs.rx_fifo()[j],
            forall|j: int| read <= j < FIFO_DEPTH ==> final(buf)@[j] == old(buf)@[j],
            final(self).last_errors() == (if read > 0 && has_line_errors(old(self).regs) {
                Some(line_errors_of(old(self).regs))
            } else {
                old(self).last_errors()
            }),
            final(self).regs.tx_fifo() == old(self).regs.tx_fifo(),
            final(self).regs.sent() == old(self).regs.sent(),
            final(self).regs.intr_enabled() == old(self).regs.intr_enabled(),
            final(self).regs.errs() == old(self).regs.errs(),
    {
        self.read_whole_fifo(buf)
    }

    /// Return and clear the last captured RX errors, if any.
    pub fn read_and_clear_last_error(&mut self) -> (r: Option<RxErrors>)
        ensures
            r == old(self).last_errors(),
            final(self).last_errors() is None,
            final(self).regs == old(self).regs,
    {
        let errors = match self.errors {
            Some(e) => e,
            None => {
                return None;
            },
        };
        self.errors = None;
        Some(errors)
    }
}

} // verus!
