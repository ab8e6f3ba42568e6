use annepro2_tools::commands::write_memory;
use annepro2_tools::frame::write_to_target;
use annepro2_tools::hex::parse_hex;
use annepro2_tools::protocol::AP2Target;
use annepro2_tools::transfer::{chunk_size, flash_file, TransferSession};

fn image(n: usize) -> Vec<u8> {
    (0..n).map(|i| (i % 251) as u8).collect()
}

#[test]
fn chunk_sizes() {
    assert_eq!(chunk_size(AP2Target::McuBle), 32);
    assert_eq!(chunk_size(AP2Target::McuMain), 48);
    assert_eq!(chunk_size(AP2Target::McuLed), 48);
}

#[test]
fn main_mcu_image_of_100_bytes() {
    let img = image(100);
    let plan = flash_file(AP2Target::McuMain, 0x4000, &img);
    let addrs: Vec<u32> = plan.writes.iter().map(|w| w.address).collect();
    let sizes: Vec<usize> = plan.writes.iter().map(|w| w.size).collect();
    assert_eq!(addrs, vec![0x4000, 0x4030, 0x4060]);
    assert_eq!(sizes, vec![48, 48, 4]);
    assert_eq!(plan.reads, 3);
    assert_eq!(plan.bytes_written, 100);
    assert_eq!(plan.end_address, 0x4000 + 100);
    let last = write_to_target(AP2Target::McuMain, &write_memory(0x4060, &img[96..])).unwrap();
    assert_eq!(plan.writes[2].report, last);
}

#[test]
fn ble_mcu_image_of_exact_multiple() {
    let img = image(64);
    let plan = flash_file(AP2Target::McuBle, 0x4000, &img);
    let sizes: Vec<usize> = plan.writes.iter().map(|w| w.size).collect();
    assert_eq!(sizes, vec![32, 32]);
    assert_eq!(plan.reads, 3);
    assert_eq!(plan.bytes_written, 64);
    assert_eq!(plan.writes[1].address, 0x4020);
    assert_eq!(plan.writes[1].report[2 + 1], 0x51);
}

#[test]
fn chunk_counts_over_lengths() {
    for len in 0..200usize {
        for target in [AP2Target::McuMain, AP2Target::McuBle] {
            let c = chunk_size(target);
            let plan = flash_file(target, 0x1000, &image(len));
            assert_eq!(plan.writes.len(), (len + c - 1) / c);
            assert_eq!(plan.reads, len / c + 1);
            assert_eq!(plan.end_address as usize, 0x1000 + len);
            let total: usize = plan.writes.iter().map(|w| w.size).sum();
            assert_eq!(total, len);
        }
    }
}

#[test]
fn empty_image_writes_nothing() {
    let plan = flash_file(AP2Target::McuMain, 0x4000, &[]);
    assert!(plan.writes.is_empty());
    assert_eq!(plan.reads, 1);
    assert_eq!(plan.end_address, 0x4000);
}

#[test]
fn image_up_to_the_end_of_the_address_space() {
    let plan = flash_file(AP2Target::McuMain, u32::MAX - 10, &image(10));
    assert_eq!(plan.end_address, u32::MAX);
    assert_eq!(plan.writes.len(), 1);
}

#[test]
fn session_steps() {
    let mut s = TransferSession::new(AP2Target::McuMain, 0x100);
    let w = s.on_read(&[7u8; 48]).unwrap();
    assert_eq!(w.address, 0x100);
    assert_eq!(w.size, 48);
    assert!(!s.finished);
    assert_eq!(s.current_address, 0x130);
    assert!(s.on_read(&[]).is_none());
    assert!(s.finished);
    assert_eq!(s.bytes_written, 48);
}

#[test]
fn session_partial_read_ends_transfer() {
    let mut s = TransferSession::new(AP2Target::McuBle, 0);
    let w = s.on_read(&[1, 2, 3]).unwrap();
    assert_eq!(w.size, 3);
    assert!(s.finished);
    assert_eq!(s.current_address, 3);
}

#[test]
fn parse_hex_forms() {
    assert_eq!(parse_hex("0x4000"), Ok(0x4000));
    assert_eq!(parse_hex("4000"), Ok(0x4000));
    assert_eq!(parse_hex("DeadBeef"), Ok(0xdead_beef));
    assert_eq!(parse_hex("0xffffffff"), Ok(u32::MAX));
    assert_eq!(parse_hex("+1f"), Ok(0x1f));
}

#[test]
fn parse_hex_errors() {
    assert!(parse_hex("").is_err());
    assert!(parse_hex("0x").is_err());
    assert!(parse_hex("0x1g").is_err());
    assert!(parse_hex("0x100000000").is_err());
    assert!(parse_hex(" 10").is_err());
    assert!(parse_hex("-1").is_err());
}
