//! The enumerations that the wire protocol is built from.

use vstd::prelude::*;

verus! {

/// A device role that a frame is addressed to or sent from.
#[derive(Debug, Clone, Copy, PartialEq, Eq, Structural)]
pub enum AP2Target {
    UsbHost,
    BleHost,
    McuMain,
    McuLed,
    McuBle,
}

/// The command family carried in the first byte of a payload.
#[derive(Debug, Clone, Copy, PartialEq, Eq, Structural)]
#[allow(non_camel_case_types, clippy::upper_case_acronyms)]
pub enum L2Command {
    GLOBAL,
    FW,
    KEYBOARD,
    LED,
    MACRO,
    BLE,
}

/// The operation within the firmware command family.
#[derive(Debug, Clone, Copy, PartialEq, Eq, Structural)]
pub enum KeyCommand {
    Reserved,
    IapMode,
    IapGetMode,
    IapGetFwVersion,
    IapWirteMemory,
    IapWriteApFlag,
    IapEraseMemory,
}

/// Why a flashing run failed.
#[derive(Debug, Clone, Copy, PartialEq, Eq, Structural)]
pub enum AP2FlashError {
    NoDeviceFound,
    MultipleDeviceFound,
    USBError,
    EraseError,
    FlashError,
    FlagWriteError,
    OtherError,
}

/// Why a frame could not be built or read.
#[derive(Debug, Clone, Copy, PartialEq, Eq, Structural)]
pub enum FrameError {
    PayloadTooLarge,
    MalformedFrame,
}

/// The wire value of a target; it fits in the four bits of a routing nibble.
pub open spec fn target_code(t: AP2Target) -> u8 {
    match t {
        AP2Target::UsbHost => 1,
        AP2Target::BleHost => 2,
        AP2Target::McuMain => 3,
        AP2Target::McuLed => 4,
        AP2Target::McuBle => 5,
    }
}

pub open spec fn l2_code(c: L2Command) -> u8 {
    match c {
        L2Command::GLOBAL => 1,
        L2Command::FW => 2,
        L2Command::KEYBOARD => 16,
        L2Command::LED => 32,
        L2Command::MACRO => 48,
        L2Command::BLE => 64,
    }
}

pub open spec fn key_code(c: KeyCommand) -> u8 {
    match c {
        KeyCommand::Reserved => 0,
        KeyCommand::IapMode => 1,
        KeyCommand::IapGetMode => 2,
        KeyCommand::IapGetFwVersion => 3,
        KeyCommand::IapWirteMemory => 0x31,
        KeyCommand::IapWriteApFlag => 0x32,
        KeyCommand::IapEraseMemory => 0x43,
    }
}

impl AP2Target {
    pub fn code(&self) -> (r: u8)
        ensures
            r == target_code(*self),
            r < 16,
    {
        match self {
            AP2Target::UsbHost => 1,
            AP2Target::BleHost => 2,
            AP2Target::McuMain => 3,
            AP2Target::McuLed => 4,
            AP2Target::McuBle => 5,
        }
    }
}

impl L2Command {
    pub fn code(&self) -> (r: u8)
        ensures
            r == l2_code(*self),
    {
        match self {
            L2Command::GLOBAL => 1,
            L2Command::FW => 2,
            L2Command::KEYBOARD => 16,
            L2Command::LED => 32,
            L2Command::MACRO => 48,
            L2Command::BLE => 64,
        }
    }
}

impl KeyCommand {
    pub fn code(&self) -> (r: u8)
        ensures
            r == key_code(*self),
    {
        match self {
            KeyCommand::Reserved => 0,
            KeyCommand::IapMode => 1,
            KeyCommand::IapGetMode => 2,
            KeyCommand::IapGetFwVersion => 3,
            KeyCommand::IapWirteMemory => 0x31,
            KeyCommand::IapWriteApFlag => 0x32,
            KeyCommand::IapEraseMemory => 0x43,
        }
    }
}

} // verus!

verus! {

/// `c` with an ASCII capital letter made small; any other character is kept.
pub open spec fn ascii_lower(c: char) -> char {
    if ('A' as u32) <= (c as u32) <= ('Z' as u32) {
        ((c as u32) + 32) as char
    } else {
        c
    }
}

/// Whether `a` and `b` are the same text up to the case of ASCII letters.
pub open spec fn same_ignoring_ascii_case(a: Seq<char>, b: Seq<char>) -> bool {
    &&& a.len() == b.len()
    &&& forall|i: int| 0 <= i < a.len() ==> ascii_lower(#[trigger] a[i]) == ascii_lower(b[i])
}

/// Relies on `str::eq_ignore_ascii_case`: equality once ASCII letters are
/// brought to one case.
#[verifier::external_body]
fn eq_ignore_case(a: &str, b: &str) -> (r: bool)
    ensures
        r == same_ignoring_ascii_case(a@, b@),
{
    a.eq_ignore_ascii_case(b)
}

/// The MCU that a name on the command line stands for: `main`, `led` or
/// `ble`, in any case.
pub fn target_from_name(name: &str) -> (r: Option<AP2Target>)
    ensures
        same_ignoring_ascii_case(name@, seq!['b', 'l', 'e']) ==> r == Some(AP2Target::McuBle),
        same_ignoring_ascii_case(name@, seq!['m', 'a', 'i', 'n']) ==> r == Some(AP2Target::McuMain),
        same_ignoring_ascii_case(name@, seq!['l', 'e', 'd']) ==> r == Some(AP2Target::McuLed),
        r is None <==> !same_ignoring_ascii_case(name@, seq!['b', 'l', 'e'])
            && !same_ignoring_ascii_case(name@, seq!['m', 'a', 'i', 'n'])
            && !same_ignoring_ascii_case(name@, seq!['l', 'e', 'd']),
{
    proof {
        reveal_strlit("ble");
        reveal_strlit("main");
        reveal_strlit("led");
    }
    assert("ble"@ =~= seq!['b', 'l', 'e']);
    assert("main"@ =~= seq!['m', 'a', 'i', 'n']);
    assert("led"@ =~= seq!['l', 'e', 'd']);
    assert(same_ignoring_ascii_case(name@, seq!['l', 'e', 'd']) ==> !same_ignoring_ascii_case(
        name@,
        seq!['b', 'l', 'e'],
    )) by {
        if same_ignoring_ascii_case(name@, seq!['l', 'e', 'd']) {
            assert(ascii_lower(name@[0]) == ascii_lower('l'));
        }
    }
    if eq_ignore_case(name, "ble") {
        Some(AP2Target::McuBle)
    } else if eq_ignore_case(name, "main") {
        Some(AP2Target::McuMain)
    } else if eq_ignore_case(name, "led") {
        Some(AP2Target::McuLed)
    } else {
        None
    }
}

} // verus!
