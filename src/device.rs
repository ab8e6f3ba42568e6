//! Picking the keyboard among the HID devices that are present.

use vstd::prelude::*;
use crate::protocol::AP2FlashError;

verus! {

pub const ANNEPRO2_VID: u16 = 0x04d9;

/// The C15 revision, which shows the bootloader on interface 1.
pub const PID_C15: u16 = 0x8008;

pub const PID_C18: u16 = 0x8009;

/// What the device list tells of one HID device.
#[derive(Debug, Clone, Copy, PartialEq, Eq, Structural)]
pub struct DeviceInfo {
    pub vendor_id: u16,
    pub product_id: u16,
    pub interface_number: i32,
}

pub open spec fn is_keyboard(d: DeviceInfo) -> bool {
    d.vendor_id == ANNEPRO2_VID && ((d.product_id == PID_C15 && d.interface_number == 1)
        || d.product_id == PID_C18)
}

/// How many devices of `s` are the keyboard in its bootloader.
pub open spec fn count_keyboards(s: Seq<DeviceInfo>) -> nat
    decreases s.len(),
{
    if s.len() == 0 {
        0
    } else {
        count_keyboards(s.drop_last()) + if is_keyboard(s.last()) {
            1nat
        } else {
            0nat
        }
    }
}

/// Whether `d` is the keyboard in its bootloader.
pub fn is_annepro2(d: &DeviceInfo) -> (r: bool)
    ensures
        r == is_keyboard(*d),
{
    d.vendor_id == ANNEPRO2_VID && ((d.product_id == PID_C15 && d.interface_number == 1)
        || d.product_id == PID_C18)
}

/// Picks the one keyboard among `devices`: none and more than one are both
/// refused, as the run must not guess.
pub fn select_device(devices: &[DeviceInfo]) -> (r: Result<usize, AP2FlashError>)
    ensures
        count_keyboards(devices@) == 0 <==> r == Err::<usize, AP2FlashError>(
            AP2FlashError::NoDeviceFound,
        ),
        count_keyboards(devices@) >= 2 <==> r == Err::<usize, AP2FlashError>(
            AP2FlashError::MultipleDeviceFound,
        ),
        count_keyboards(devices@) == 1 <==> r is Ok,
        match r {
            Ok(i) => i < devices@.len() && is_keyboard(devices@[i as int]),
            Err(_) => true,
        },
{
    let mut found: usize = 0;
    let mut count: usize = 0;
    let mut i: usize = 0;
    while i < devices.len()
        invariant
            i <= devices@.len(),
            count == count_keyboards(devices@.subrange(0, i as int)),
            count <= i,
            count >= 1 ==> found < i && is_keyboard(devices@[found as int]),
        decreases devices@.len() - i,
    {
        assert(devices@.subrange(0, i + 1).drop_last() == devices@.subrange(0, i as int));
        if is_annepro2(&devices[i]) {
            if count == 0 {
                found = i;
            }
            count = count + 1;
        }
        i = i + 1;
    }
    assert(devices@.subrange(0, i as int) == devices@);
    if count == 0 {
        Err(AP2FlashError::NoDeviceFound)
    } else if count > 1 {
        Err(AP2FlashError::MultipleDeviceFound)
    } else {
        Ok(found)
    }
}

} // verus!
