use goodwe_exporter::discovery::{discovery_request, parse_discovery_reply};

fn reply(text: &[u8]) -> Vec<u8> {
    let mut buf = vec![0u8; 64];
    buf[..text.len()].copy_from_slice(text);
    buf
}

#[test]
fn parses_three_fields() {
    let d = parse_discovery_reply(&reply(b"192.168.1.20,9020KETU21AB0001,Solar-WiFi")).unwrap();
    assert_eq!(d.ip_address, "192.168.1.20");
    assert_eq!(d.serial_number, "9020KETU21AB0001");
    assert_eq!(d.wifi_name, "Solar-WiFi");
}

#[test]
fn extra_fields_and_no_terminator() {
    let d = parse_discovery_reply(b"a,b,c,d").unwrap();
    assert_eq!((d.ip_address.as_str(), d.serial_number.as_str(), d.wifi_name.as_str()), ("a", "b", "c"));
    let d = parse_discovery_reply(&reply(b",,x,")).unwrap();
    assert_eq!((d.ip_address.as_str(), d.serial_number.as_str(), d.wifi_name.as_str()), ("", "", "x"));
}

#[test]
fn too_few_fields() {
    assert!(parse_discovery_reply(&reply(b"a,b")).is_none());
    // a comma ends a field: no empty third field after it
    assert!(parse_discovery_reply(&reply(b"a,b,")).is_none());
    assert!(parse_discovery_reply(&[]).is_none());
    // text after the NUL byte does not count
    assert!(parse_discovery_reply(b"a,b\0,c").is_none());
}

#[test]
fn invalid_text() {
    assert!(parse_discovery_reply(&reply(b"a,\xff,c")).is_none());
}

#[test]
fn request_text() {
    assert_eq!(discovery_request(), "WIFIKIT-214028-READ");
}
