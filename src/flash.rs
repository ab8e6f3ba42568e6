//! The decisions of a flashing run: select, open, erase, transfer, set the
//! AP flag, optionally boot, close. The run is a state machine; whoever drives
//! it performs each action on the device and hands back whether it succeeded.

use vstd::prelude::*;
use crate::commands::{AP_FLAG_VALID, ap_flag_bytes, boot_device, boot_report, erase_bytes, erase_device, write_ap_flag};
use crate::device::{DeviceInfo, count_keyboards, is_keyboard, select_device};
use crate::frame::{frame_of, report_of};
use crate::protocol::{AP2FlashError, AP2Target};
use crate::transfer::{TransferPlan, ceil_div, chunk_size_of, flash_file, planned_write};

verus! {

/// Where a run stands. The transfer is in progress while the stage is
/// `Erased`; `Closed` is the end of every run.
#[derive(Debug, Clone, Copy, PartialEq, Eq, Structural)]
pub enum FlashStage {
    Idle,
    DeviceSelected,
    Opened,
    Erased,
    Transferred,
    FlagWritten,
    Closed,
}

/// What the driver of a run does next.
#[derive(Debug, Clone, PartialEq, Eq)]
pub enum FlashAction {
    /// Open the device at this index of the list, in blocking mode.
    Open(usize),
    /// Write this report to the open device.
    Send(Vec<u8>),
    /// Release the device: the run is over.
    Close,
    /// The run is over and no device was opened.
    Stop,
}

pub open spec fn sends(a: FlashAction, report: Seq<u8>) -> bool {
    match a {
        FlashAction::Send(b) => b@ == report,
        _ => false,
    }
}

pub open spec fn flag_report() -> Seq<u8> {
    report_of(frame_of(AP2Target::McuMain, ap_flag_bytes(AP_FLAG_VALID)))
}

/// One flashing run of an image.
#[derive(Debug, Clone, PartialEq, Eq)]
pub struct FlashRun {
    pub target: AP2Target,
    pub base: u32,
    pub boot: bool,
    /// Whether a failed chunk write ends the run; by default it is reported
    /// and the transfer goes on.
    pub strict: bool,
    pub stage: FlashStage,
    pub plan: TransferPlan,
    /// The write whose acknowledgement is awaited while the stage is `Erased`.
    pub next_write: usize,
    /// The addresses of the chunk writes that failed.
    pub failed_writes: Vec<u32>,
    pub boot_failed: bool,
    /// Why the run failed, once it is closed.
    pub error: Option<AP2FlashError>,
}

impl FlashRun {
    pub open spec fn wf(&self) -> bool {
        &&& self.next_write <= self.plan.writes@.len()
        &&& self.stage == FlashStage::Erased ==> self.next_write < self.plan.writes@.len()
        &&& self.stage != FlashStage::Closed ==> self.error is None
    }

    /// Holds the parts of a run that no step changes.
    pub open spec fn same_run(&self, other: &Self) -> bool {
        &&& self.target == other.target
        &&& self.base == other.base
        &&& self.boot == other.boot
        &&& self.strict == other.strict
        &&& self.plan == other.plan
    }

    /// Whether the run ended without a fatal failure.
    pub fn succeeded(&self) -> (r: bool)
        ensures
            r == (self.stage == FlashStage::Closed && self.error is None),
    {
        match self.stage {
            FlashStage::Closed => self.error.is_none(),
            _ => false,
        }
    }

    /// Selects the device among those present. When none or several match,
    /// the run ends before any device is touched.
    pub fn start(&mut self, devices: &[DeviceInfo]) -> (r: FlashAction)
        requires
            old(self).wf(),
            old(self).stage == FlashStage::Idle,
        ensures
            final(self).wf(),
            final(self).same_run(old(self)),
            final(self).failed_writes == old(self).failed_writes,
            final(self).next_write == old(self).next_write,
            count_keyboards(devices@) == 1 ==> final(self).stage == FlashStage::DeviceSelected
                && final(self).error is None && match r {
                FlashAction::Open(i) => i < devices@.len() && is_keyboard(devices@[i as int]),
                _ => false,
            },
            count_keyboards(devices@) == 0 ==> final(self).stage == FlashStage::Closed
                && final(self).error == Some(AP2FlashError::NoDeviceFound) && r == FlashAction::Stop,
            count_keyboards(devices@) >= 2 ==> final(self).stage == FlashStage::Closed
                && final(self).error == Some(AP2FlashError::MultipleDeviceFound) && r
                == FlashAction::Stop,
    {
        match select_device(devices) {
            Ok(i) => {
                self.stage = FlashStage::DeviceSelected;
                FlashAction::Open(i)
            },
            Err(e) => {
                self.stage = FlashStage::Closed;
                self.error = Some(e);
                FlashAction::Stop
            },
        }
    }

    /// Sends the write at `next_write`, or the AP flag once all are done.
    fn send_next(&mut self) -> (r: FlashAction)
        requires
            old(self).next_write <= old(self).plan.writes@.len(),
            old(self).error is None,
        ensures
            final(self).same_run(old(self)),
            final(self).next_write == old(self).next_write,
            final(self).failed_writes == old(self).failed_writes,
            final(self).boot_failed == old(self).boot_failed,
            final(self).error == old(self).error,
            final(self).wf(),
            old(self).next_write < old(self).plan.writes@.len() ==> final(self).stage
                == FlashStage::Erased && sends(r, old(self).plan.writes@[old(self).next_write as int].report@),
            old(self).next_write == old(self).plan.writes@.len() ==> final(self).stage
                == FlashStage::Transferred && sends(r, flag_report()),
    {
        if self.next_write < self.plan.writes.len() {
            self.stage = FlashStage::Erased;
            FlashAction::Send(self.plan.writes[self.next_write].report.clone())
        } else {
            self.stage = FlashStage::Transferred;
            FlashAction::Send(write_ap_flag(AP_FLAG_VALID))
        }
    }

    /// Takes the outcome of the last action and decides the next one.
    /// Opening, erasing and the AP flag must succeed; a failed chunk write
    /// is recorded and, unless the run is strict, the transfer goes on; a
    /// failed boot is recorded and the run still succeeds. Once a device is
    /// open, every way out of the run closes it.
    pub fn step(&mut self, ok: bool) -> (r: FlashAction)
        requires
            old(self).wf(),
            old(self).stage != FlashStage::Idle,
            old(self).stage != FlashStage::Closed,
        ensures
            final(self).wf(),
            final(self).same_run(old(self)),
            old(self).stage != FlashStage::DeviceSelected && final(self).stage == FlashStage::Closed
                ==> r == FlashAction::Close,
            final(self).stage != FlashStage::Closed ==> final(self).error is None,
            old(self).stage != FlashStage::Erased ==> final(self).failed_writes
                == old(self).failed_writes,
            old(self).stage != FlashStage::FlagWritten ==> final(self).boot_failed
                == old(self).boot_failed,
            match old(self).stage {
                FlashStage::DeviceSelected => if ok {
                    final(self).stage == FlashStage::Opened && sends(
                        r,
                        report_of(frame_of(old(self).target, erase_bytes(old(self).base))),
                    )
                } else {
                    final(self).stage == FlashStage::Closed && final(self).error == Some(
                        AP2FlashError::USBError,
                    ) && r == FlashAction::Stop
                },
                FlashStage::Opened => if ok {
                    final(self).next_write == 0 && if old(self).plan.writes@.len() > 0 {
                        final(self).stage == FlashStage::Erased && sends(r, old(self).plan.writes@[0].report@)
                    } else {
                        final(self).stage == FlashStage::Transferred && sends(r, flag_report())
                    }
                } else {
                    final(self).stage == FlashStage::Closed && final(self).error == Some(
                        AP2FlashError::EraseError,
                    )
                },
                FlashStage::Erased => {
                    let i = old(self).next_write;
                    let n = old(self).plan.writes@.len();
                    &&& final(self).failed_writes@ == if ok {
                        old(self).failed_writes@
                    } else {
                        old(self).failed_writes@.push(old(self).plan.writes@[i as int].address)
                    }
                    &&& if !ok && old(self).strict {
                        final(self).stage == FlashStage::Closed && final(self).error == Some(
                            AP2FlashError::FlashError,
                        )
                    } else {
                        &&& final(self).next_write == i + 1
                        &&& i + 1 < n ==> final(self).stage == FlashStage::Erased && sends(
                            r,
                            old(self).plan.writes@[i + 1].report@,
                        )
                        &&& i + 1 == n ==> final(self).stage == FlashStage::Transferred && sends(
                            r,
                            flag_report(),
                        )
                    }
                },
                FlashStage::Transferred => if !ok {
                    final(self).stage == FlashStage::Closed && final(self).error == Some(
                        AP2FlashError::FlagWriteError,
                    )
                } else if old(self).boot {
                    final(self).stage == FlashStage::FlagWritten && sends(r, boot_report())
                } else {
                    final(self).stage == FlashStage::Closed && final(self).error is None
                },
                FlashStage::FlagWritten => final(self).stage == FlashStage::Closed
                    && final(self).error is None && final(self).boot_failed == !ok,
                _ => true,
            },
    {
        match self.stage {
            FlashStage::DeviceSelected => {
                if ok {
                    self.stage = FlashStage::Opened;
                    FlashAction::Send(erase_device(self.target, self.base))
                } else {
                    self.stage = FlashStage::Closed;
                    self.error = Some(AP2FlashError::USBError);
                    FlashAction::Stop
                }
            },
            FlashStage::Opened => {
                if ok {
                    self.next_write = 0;
                    self.send_next()
                } else {
                    self.stage = FlashStage::Closed;
                    self.error = Some(AP2FlashError::EraseError);
                    FlashAction::Close
                }
            },
            FlashStage::Erased => {
                if !ok {
                    let address = self.plan.writes[self.next_write].address;
                    self.failed_writes.push(address);
                }
                if !ok && self.strict {
                    self.stage = FlashStage::Closed;
                    self.error = Some(AP2FlashError::FlashError);
                    FlashAction::Close
                } else {
                    assert(self.next_write < self.plan.writes.len());
                    self.next_write = self.next_write + 1;
                    self.send_next()
                }
            },
            FlashStage::Transferred => {
                if !ok {
                    self.stage = FlashStage::Closed;
                    self.error = Some(AP2FlashError::FlagWriteError);
                    FlashAction::Close
                } else if self.boot {
                    self.stage = FlashStage::FlagWritten;
                    FlashAction::Send(boot_device())
                } else {
                    self.stage = FlashStage::Closed;
                    FlashAction::Close
                }
            },
            _ => {
                self.boot_failed = !ok;
                self.stage = FlashStage::Closed;
                FlashAction::Close
            },
        }
    }
}

/// Prepares the run that flashes `image` onto `target` from `base`, booting
/// the application at the end where `boot` is set. Whoever drives the run
/// calls `start` with the devices present, then `step` with the outcome of
/// each action.
pub fn flash_firmware(target: AP2Target, base: u32, image: &[u8], boot: bool, strict: bool) -> (r: FlashRun)
    requires
        base + image@.len() <= u32::MAX,
    ensures
        r.wf(),
        r.target == target,
        r.base == base,
        r.boot == boot,
        r.strict == strict,
        r.stage == FlashStage::Idle,
        r.failed_writes@.len() == 0,
        !r.boot_failed,
        r.error is None,
        r.next_write == 0,
        r.plan.writes@.len() == ceil_div(image@.len() as int, chunk_size_of(target) as int),
        r.plan.reads == image@.len() / chunk_size_of(target) + 1,
        r.plan.bytes_written == image@.len(),
        r.plan.end_address == base + image@.len(),
        forall|i: int|
            0 <= i < r.plan.writes@.len() ==> #[trigger] planned_write(
                target,
                base,
                image@,
                chunk_size_of(target),
                i,
                r.plan.writes@[i],
            ),
{
    FlashRun {
        target,
        base,
        boot,
        strict,
        stage: FlashStage::Idle,
        plan: flash_file(target, base, image),
        next_write: 0,
        failed_writes: Vec::new(),
        boot_failed: false,
        error: None,
    }
}

} // verus!
