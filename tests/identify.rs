use goodwe_exporter::identify::{decode_response, id_query, RequestError};

fn answer() -> Vec<u8> {
    let mut d = vec![0xaa, 0x55, 0x7f, 0xc0, 0x01, 0x82, 76];
    d.extend(std::iter::repeat(0u8).take(31));
    d.extend_from_slice(b"9020KETU21AB0001");
    d.extend(std::iter::repeat(0u8).take(17));
    d.extend_from_slice(b"04029-19-S");
    d.extend(std::iter::repeat(0u8).take(4));
    assert_eq!(d.len(), 85);
    d
}

fn reason(r: Result<goodwe_exporter::identify::IdResponse, RequestError>) -> String {
    match r {
        Err(RequestError::InvalidResponse(t)) => t,
        _ => panic!("expected an invalid response"),
    }
}

#[test]
fn decodes_serial_and_firmware() {
    let id = decode_response(&answer()).ok().unwrap();
    assert_eq!(id.serial_number, "9020KETU21AB0001");
    assert_eq!(id.firmware, "04029-19-S");
}

#[test]
fn rejects_each_malformed_part() {
    let mut d = answer();
    d[1] = 0x56;
    assert_eq!(reason(decode_response(&d)), "Header");
    assert_eq!(reason(decode_response(&[0xaa])), "Header");
    let mut d = answer();
    d[2] = 0x00;
    assert_eq!(reason(decode_response(&d)), "Source Address");
    let mut d = answer();
    d[3] = 0x00;
    assert_eq!(reason(decode_response(&d)), "Target Address");
    let mut d = answer();
    d[4] = 0x02;
    assert_eq!(reason(decode_response(&d)), "Control Code");
    let mut d = answer();
    d[5] = 0x81;
    assert_eq!(reason(decode_response(&d)), "Function Code");
    let mut d = answer();
    d[6] = 75;
    assert_eq!(reason(decode_response(&d)), "Length");
    let mut d = answer();
    d.push(0);
    assert_eq!(reason(decode_response(&d)), "Length");
}

#[test]
fn rejects_invalid_text() {
    let mut d = answer();
    d[40] = 0xff;
    assert_eq!(reason(decode_response(&d)), "Serial Number");
    let mut d = answer();
    d[72] = 0xc0;
    assert_eq!(reason(decode_response(&d)), "Firmware");
}

#[test]
fn query_bytes() {
    assert_eq!(id_query(), vec![0xaa, 0x55, 0xc0, 0x7f, 0x01, 0x02, 0x00, 0x02, 0x41]);
}

#[test]
fn request_error_messages() {
    assert_eq!(RequestError::NoResponse.message(), "No response received");
    assert_eq!(
        RequestError::InvalidResponse("Header".to_string()).message(),
        "Response deemed invalid due to Header"
    );
    assert_eq!(RequestError::NetworkError("refused".to_string()).message(), "Network Error: refused");
}
