use goodwe_exporter::et::base_metrics;
use goodwe_exporter::modbus::{
    check_frame, create_command, crc, get_payload, Command, ModbusError, DEFAULT_ADDR,
};

fn valid_frame() -> Vec<u8> {
    vec![0xaa, 0x55, 0xf7, 0x03, 0x08, 0, 0, 0, 0, 0, 0, 0, 0x64, 0x89, 0xb7]
}

#[test]
fn crc_of_check_string_is_low_byte_first() {
    assert_eq!(crc(b"123456789"), vec![0x37, 0x4b]);
}

#[test]
fn crc_of_empty_input_is_initial_value() {
    assert_eq!(crc(&[]), vec![0xff, 0xff]);
}

#[test]
fn checksum_appended_validates() {
    let body: Vec<u8> = vec![0x01, 0x02, 0x03, 0x10, 0xfe];
    let mut frame = vec![0xaa, 0x55];
    frame.extend_from_slice(&body);
    frame.extend_from_slice(&crc(&body));
    // the header is not part of the checked span; the rest verifies
    assert_ne!(get_payload(&frame), Err(ModbusError::WrongChecksum));
}

#[test]
fn read_command_layout() {
    let cmd = create_command(Command::ReadMulti, 0xf7, 35100, 103);
    assert_eq!(cmd, vec![0xf7, 0x03, 0x89, 0x1c, 0x00, 0x67, 0xfb, 0x2c]);
}

#[test]
fn command_codes() {
    assert_eq!(Command::ReadMulti.code(), 0x03);
    assert_eq!(Command::WriteSingle.code(), 0x06);
    assert_eq!(Command::WriteMulti.code(), 0x10);
}

#[test]
fn catalog_command_covers_highest_register() {
    let set = base_metrics();
    assert!(set.is_command_ready());
    let cmd = set.get_modbus_command(DEFAULT_ADDR);
    assert_eq!(cmd.len(), 8);
    // 35202 - 35100 + 1 = 103 registers
    assert_eq!(cmd, vec![0xf7, 0x03, 0x89, 0x1c, 0x00, 0x67, 0xfb, 0x2c]);
    assert_eq!(crc(&cmd[0..6]), cmd[6..8].to_vec());
}

#[test]
fn valid_frame_yields_payload() {
    assert_eq!(get_payload(&valid_frame()), Ok(vec![0, 0, 0, 0, 0, 0, 0, 0x64]));
}

#[test]
fn corrupted_byte_is_checksum_mismatch() {
    for i in 2..valid_frame().len() {
        let mut f = valid_frame();
        f[i] ^= 0x01;
        assert_eq!(get_payload(&f), Err(ModbusError::WrongChecksum), "byte {}", i);
    }
}

#[test]
fn corrupted_length_byte_is_checksum_mismatch_not_length() {
    let mut f = valid_frame();
    f[4] = 0x07;
    assert_eq!(get_payload(&f), Err(ModbusError::WrongChecksum));
}

#[test]
fn wrong_header_with_valid_checksum() {
    let f = vec![0xab, 0x55, 0xf7, 0x03, 0x02, 0x12, 0x34, 0x7d, 0x26];
    assert_eq!(get_payload(&f), Err(ModbusError::InvalidHeader));
}

#[test]
fn failed_command_flag() {
    let f = vec![0xaa, 0x55, 0xf7, 0x83, 0x02, 0x12, 0x34, 0x54, 0xe6];
    assert_eq!(get_payload(&f), Err(ModbusError::FailedCommand));
}

#[test]
fn declared_length_mismatch() {
    let f = vec![0xaa, 0x55, 0xf7, 0x03, 0x05, 0x12, 0x34, 0xcc, 0xe7];
    assert_eq!(get_payload(&f), Err(ModbusError::PayloadLength));
}

#[test]
fn too_short_frames_fail_the_checksum() {
    assert_eq!(get_payload(&vec![]), Err(ModbusError::WrongChecksum));
    assert_eq!(get_payload(&vec![0xaa, 0x55, 0x00]), Err(ModbusError::WrongChecksum));
}

#[test]
fn frame_without_length_byte() {
    // two bytes whose checksum over the empty span is 0xFFFF
    assert_eq!(get_payload(&vec![0xaa, 0x55, 0xff, 0xff]), Err(ModbusError::FailedCommand));
    let mut body = vec![0xf7, 0x03];
    let c = crc(&body);
    let mut f = vec![0xaa, 0x55];
    f.append(&mut body);
    f.extend_from_slice(&c);
    assert_eq!(get_payload(&f), Err(ModbusError::PayloadLength));
}

#[test]
fn empty_payload_frame() {
    let mut body = vec![0xf7, 0x03, 0x00];
    let c = crc(&body);
    let mut f = vec![0xaa, 0x55];
    f.append(&mut body);
    f.extend_from_slice(&c);
    assert_eq!(get_payload(&f), Ok(vec![]));
}

#[test]
fn error_messages() {
    assert_eq!(ModbusError::InvalidHeader.message(), "Invalid Header");
    assert_eq!(ModbusError::WrongChecksum.message(), "CRC-16 checksum wrong, data was corrupted");
    assert_eq!(ModbusError::FailedCommand.message(), "Command failed");
    assert_eq!(
        ModbusError::PayloadLength.message(),
        "Indicated payload length does not match actual length"
    );
}

#[test]
fn frame_checks_against_given_checksum() {
    let f = [0xaa, 0x55, 0xf7, 0x03, 0x02, 0x12, 0x34, 0x34, 0x12];
    assert_eq!(check_frame(&f, 0x1234), Ok(vec![0x12, 0x34]));
    assert_eq!(check_frame(&f, 0x1235), Err(ModbusError::WrongChecksum));
    assert_eq!(check_frame(&f, 0x3412), Err(ModbusError::WrongChecksum));
    let g = [0xaa, 0x55, 0xf7, 0x83, 0x09, 0x12, 0x34, 0x34, 0x12];
    assert_eq!(check_frame(&g, 0x1234), Err(ModbusError::FailedCommand));
    let h = [0xaa, 0x55, 0xf7, 0x03, 0x09, 0x12, 0x34, 0x34, 0x12];
    assert_eq!(check_frame(&h, 0x1234), Err(ModbusError::PayloadLength));
    let k = [0x55, 0xaa, 0xf7, 0x03, 0x02, 0x12, 0x34, 0x34, 0x12];
    assert_eq!(check_frame(&k, 0x1234), Err(ModbusError::InvalidHeader));
}
