use annepro2_tools::commands::{
    ap_flag_payload, boot_device, erase, erase_device, write_ap_flag, write_chunk, write_memory,
};
use annepro2_tools::frame::{decode_frame, encode_frame, write_to_target, ParsedFrame};
use annepro2_tools::protocol::{target_from_name, AP2Target, FrameError, KeyCommand, L2Command};

#[test]
fn encode_frame_layout() {
    let f = encode_frame(AP2Target::McuMain, &[0xaa, 0xbb]).unwrap();
    assert_eq!(f.len(), 64);
    assert_eq!(&f[..10], &[0x7b, 0x10, 0x31, 0x10, 0x02, 0x00, 0x00, 0x7d, 0xaa, 0xbb]);
    assert!(f[10..].iter().all(|&b| b == 0));
}

#[test]
fn encode_frame_routing_of_ble_mcu() {
    let f = encode_frame(AP2Target::McuBle, &[]).unwrap();
    assert_eq!(f[2], 0x51);
    assert_eq!(f[4], 0);
}

#[test]
fn encode_frame_largest_payload_has_no_padding() {
    let payload: Vec<u8> = (1..=56u8).collect();
    let f = encode_frame(AP2Target::McuLed, &payload).unwrap();
    assert_eq!(f.len(), 64);
    assert_eq!(&f[8..], &payload[..]);
    assert_eq!(f[63], 56);
}

#[test]
fn encode_frame_refuses_oversized_payload() {
    let payload = vec![1u8; 57];
    assert_eq!(encode_frame(AP2Target::McuMain, &payload), Err(FrameError::PayloadTooLarge));
    assert_eq!(write_to_target(AP2Target::McuMain, &payload), Err(FrameError::PayloadTooLarge));
}

#[test]
fn decode_recovers_target_and_payload() {
    let payload = vec![9u8, 8, 7, 6, 5];
    let f = encode_frame(AP2Target::McuLed, &payload).unwrap();
    let p = decode_frame(&f).unwrap();
    assert_eq!(p, ParsedFrame { target: 4, source: 1, payload });
}

#[test]
fn decode_round_trip_of_every_size() {
    for n in 0..=56usize {
        let payload: Vec<u8> = (0..n).map(|i| (i * 3 + 1) as u8).collect();
        let f = encode_frame(AP2Target::McuBle, &payload).unwrap();
        let p = decode_frame(&f).unwrap();
        assert_eq!(p.target, 5);
        assert_eq!(p.payload, payload);
    }
}

#[test]
fn decode_refuses_bad_markers() {
    let mut f = encode_frame(AP2Target::McuMain, &[1, 2]).unwrap();
    f[0] = 0x7c;
    assert_eq!(decode_frame(&f), Err(FrameError::MalformedFrame));
    let mut g = encode_frame(AP2Target::McuMain, &[1, 2]).unwrap();
    g[7] = 0;
    assert_eq!(decode_frame(&g), Err(FrameError::MalformedFrame));
}

#[test]
fn decode_refuses_short_or_overlong_input() {
    assert_eq!(decode_frame(&[0x7b, 0x10, 0x31]), Err(FrameError::MalformedFrame));
    let mut f = encode_frame(AP2Target::McuMain, &[]).unwrap();
    f.push(0);
    assert_eq!(decode_frame(&f), Err(FrameError::MalformedFrame));
    let short = [0x7b, 0x10, 0x31, 0x10, 0x05, 0x00, 0x00, 0x7d, 0x01];
    assert_eq!(decode_frame(&short), Err(FrameError::MalformedFrame));
}

#[test]
fn report_has_zero_report_id() {
    let r = write_to_target(AP2Target::McuMain, &[0x42]).unwrap();
    assert_eq!(r.len(), 65);
    assert_eq!(r[0], 0);
    assert_eq!(&r[1..10], &[0x7b, 0x10, 0x31, 0x10, 0x01, 0x00, 0x00, 0x7d, 0x42]);
}

#[test]
fn command_codes() {
    assert_eq!(L2Command::FW.code(), 2);
    assert_eq!(L2Command::BLE.code(), 64);
    assert_eq!(KeyCommand::IapWirteMemory.code(), 0x31);
    assert_eq!(KeyCommand::IapWriteApFlag.code(), 0x32);
    assert_eq!(KeyCommand::IapEraseMemory.code(), 0x43);
    assert_eq!(AP2Target::McuLed.code(), 4);
}

#[test]
fn erase_payload_is_little_endian() {
    assert_eq!(erase(0x1234_5678), vec![0x02, 0x43, 0x78, 0x56, 0x34, 0x12]);
}

#[test]
fn write_memory_payload() {
    assert_eq!(write_memory(0x4000, &[0xde, 0xad]), vec![0x02, 0x31, 0x00, 0x40, 0x00, 0x00, 0xde, 0xad]);
}

#[test]
fn address_round_trips_through_payloads() {
    for a in [0u32, 1, 0x4000, 0x00ff_ff00, 0xdead_beef, u32::MAX] {
        let e = erase(a);
        assert_eq!(u32::from_le_bytes([e[2], e[3], e[4], e[5]]), a);
        let w = write_memory(a, &[1, 2, 3]);
        assert_eq!(u32::from_le_bytes([w[2], w[3], w[4], w[5]]), a);
    }
}

#[test]
fn ap_flag_payload_bytes() {
    assert_eq!(ap_flag_payload(2), vec![0x02, 0x32, 0x02]);
}

#[test]
fn ap_flag_always_goes_to_main_mcu() {
    let r = write_ap_flag(2);
    assert_eq!(r.len(), 65);
    assert_eq!(&r[..12], &[0x00, 0x7b, 0x10, 0x31, 0x10, 0x03, 0x00, 0x00, 0x7d, 0x02, 0x32, 0x02]);
}

#[test]
fn erase_device_report() {
    let r = erase_device(AP2Target::McuBle, 0x4000);
    assert_eq!(r.len(), 65);
    assert_eq!(&r[..15], &[0x00, 0x7b, 0x10, 0x51, 0x10, 0x06, 0x00, 0x00, 0x7d, 0x02, 0x43, 0x00, 0x40, 0x00, 0x00]);
}

#[test]
fn write_chunk_limits() {
    assert!(write_chunk(AP2Target::McuMain, 0, &[0u8; 50]).is_ok());
    assert_eq!(write_chunk(AP2Target::McuMain, 0, &[0u8; 51]), Err(FrameError::PayloadTooLarge));
}

#[test]
fn boot_report_is_short_and_unpadded() {
    assert_eq!(boot_device(), vec![0x00, 0x7b, 0x10, 0x31, 0x10, 0x03, 0x00, 0x00, 0x7d, 0x02, 0x01, 0x02]);
}

#[test]
fn target_names() {
    assert_eq!(target_from_name("main"), Some(AP2Target::McuMain));
    assert_eq!(target_from_name("MAIN"), Some(AP2Target::McuMain));
    assert_eq!(target_from_name("Led"), Some(AP2Target::McuLed));
    assert_eq!(target_from_name("bLE"), Some(AP2Target::McuBle));
    assert_eq!(target_from_name("usb"), None);
    assert_eq!(target_from_name("mains"), None);
}
