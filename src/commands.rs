//! The IAP command set: payloads for erase, write-memory, write-AP-flag and
//! boot, and the HID reports that carry them.

use vstd::prelude::*;
use crate::frame::{HEADER_LEN, frame_header, frame_of, push_all, report_of, write_to_target};
use crate::protocol::{AP2Target, FrameError, KeyCommand, L2Command, key_code, l2_code};

verus! {

/// Bytes of the payload that come before the data of a write-memory command.
pub const WRITE_HEADER_LEN: usize = 6;

/// The largest data block that one write-memory frame can carry.
pub const MAX_WRITE_DATA: usize = 50;

/// The value of the AP flag that marks the application image valid.
pub const AP_FLAG_VALID: u8 = 2;

/// The four bytes of `a`, least significant first.
pub open spec fn le_bytes(a: u32) -> Seq<u8> {
    seq![
        (a % 0x100) as u8,
        (a / 0x100 % 0x100) as u8,
        (a / 0x1_0000 % 0x100) as u8,
        (a / 0x100_0000 % 0x100) as u8,
    ]
}

/// The number that four little-endian bytes stand for.
pub open spec fn le_value(b: Seq<u8>) -> int {
    b[0] + 0x100 * b[1] + 0x1_0000 * b[2] + 0x100_0000 * b[3]
}

pub open spec fn erase_bytes(address: u32) -> Seq<u8> {
    seq![l2_code(L2Command::FW), key_code(KeyCommand::IapEraseMemory)] + le_bytes(address)
}

pub open spec fn write_memory_bytes(address: u32, data: Seq<u8>) -> Seq<u8> {
    seq![l2_code(L2Command::FW), key_code(KeyCommand::IapWirteMemory)] + le_bytes(address) + data
}

pub open spec fn ap_flag_bytes(flag: u8) -> Seq<u8> {
    seq![l2_code(L2Command::FW), key_code(KeyCommand::IapWriteApFlag), flag]
}

/// The payload that asks the bootloader to jump to the application.
pub open spec fn boot_bytes() -> Seq<u8> {
    seq![l2_code(L2Command::FW), key_code(KeyCommand::IapMode), 2u8]
}

/// The boot report: unlike every other command it is not padded to a full
/// frame, as the bootloader's boot handler expects this exact short frame.
pub open spec fn boot_report() -> Seq<u8> {
    report_of(frame_header(AP2Target::McuMain, boot_bytes().len()) + boot_bytes())
}

fn push_address(buffer: &mut Vec<u8>, address: u32)
    ensures
        final(buffer)@ == old(buffer)@ + le_bytes(address),
{
    buffer.push((address % 0x100) as u8);
    buffer.push((address / 0x100 % 0x100) as u8);
    buffer.push((address / 0x1_0000 % 0x100) as u8);
    buffer.push((address / 0x100_0000 % 0x100) as u8);
}

/// The payload that erases flash from `address` on.
pub fn erase(address: u32) -> (r: Vec<u8>)
    ensures
        r@ == erase_bytes(address),
{
    let mut buffer: Vec<u8> = Vec::new();
    buffer.push(L2Command::FW.code());
    buffer.push(KeyCommand::IapEraseMemory.code());
    push_address(&mut buffer, address);
    buffer
}

/// The payload that writes `data` to flash at `address`.
pub fn write_memory(address: u32, data: &[u8]) -> (r: Vec<u8>)
    ensures
        r@ == write_memory_bytes(address, data@),
{
    let mut buffer: Vec<u8> = Vec::new();
    buffer.push(L2Command::FW.code());
    buffer.push(KeyCommand::IapWirteMemory.code());
    push_address(&mut buffer, address);
    push_all(&mut buffer, data);
    buffer
}

/// The payload that sets the AP flag to `flag`.
pub fn ap_flag_payload(flag: u8) -> (r: Vec<u8>)
    ensures
        r@ == ap_flag_bytes(flag),
{
    let mut buffer: Vec<u8> = Vec::new();
    buffer.push(L2Command::FW.code());
    buffer.push(KeyCommand::IapWriteApFlag.code());
    buffer.push(flag);
    buffer
}

/// The report that erases `target`'s flash from `addr` on.
pub fn erase_device(target: AP2Target, addr: u32) -> (r: Vec<u8>)
    ensures
        r@ == report_of(frame_of(target, erase_bytes(addr))),
{
    let payload = erase(addr);
    match write_to_target(target, payload.as_slice()) {
        Ok(report) => report,
        Err(_) => {
            assert(false);
            Vec::new()
        },
    }
}

/// The report that writes `chunk` to `target`'s flash at `addr`; a chunk
/// too large for one frame is refused.
pub fn write_chunk(target: AP2Target, addr: u32, chunk: &[u8]) -> (r: Result<Vec<u8>, FrameError>)
    ensures
        chunk@.len() > MAX_WRITE_DATA <==> r is Err,
        match r {
            Ok(b) => b@ == report_of(frame_of(target, write_memory_bytes(addr, chunk@))),
            Err(e) => e == FrameError::PayloadTooLarge,
        },
{
    let payload = write_memory(addr, chunk);
    write_to_target(target, payload.as_slice())
}

/// The report that sets the AP flag; it always goes to the main MCU,
/// whichever target is being flashed.
pub fn write_ap_flag(flag: u8) -> (r: Vec<u8>)
    ensures
        r@ == report_of(frame_of(AP2Target::McuMain, ap_flag_bytes(flag))),
{
    let payload = ap_flag_payload(flag);
    match write_to_target(AP2Target::McuMain, payload.as_slice()) {
        Ok(report) => report,
        Err(_) => {
            assert(false);
            Vec::new()
        },
    }
}

/// The report that boots the application: a short frame to the main MCU,
/// deliberately left unpadded.
pub fn boot_device() -> (r: Vec<u8>)
    ensures
        r@ == boot_report(),
        r@.len() == HEADER_LEN + 4,
{
    let r: Vec<u8> = vec![0x00, 0x7b, 0x10, 0x31, 0x10, 0x03, 0x00, 0x00, 0x7d, 0x02, 0x01, 0x02];
    assert(r@ =~= boot_report());
    r
}

/// The address in an erase or write-memory payload reads back unchanged
/// from its four little-endian bytes.
pub proof fn lemma_address_round_trip(address: u32, data: Seq<u8>)
    ensures
        le_value(erase_bytes(address).subrange(2, 6)) == address,
        le_value(write_memory_bytes(address, data).subrange(2, 6)) == address,
{
    let a = address as int;
    let b = le_bytes(address);
    assert(erase_bytes(address).subrange(2, 6) =~= b);
    assert(write_memory_bytes(address, data).subrange(2, 6) =~= b);
    assert(a % 0x100 + 0x100 * (a / 0x100 % 0x100) + 0x1_0000 * (a / 0x1_0000 % 0x100)
        + 0x100_0000 * (a / 0x100_0000 % 0x100) == a) by (nonlinear_arith)
        requires
            0 <= a < 0x1_0000_0000,
    ;
}

} // verus!
