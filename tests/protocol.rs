use goodwe_exporter::definitions::{MetricReadError, MetricSet, Power, Voltage};
use goodwe_exporter::identify::id_query;
use goodwe_exporter::metrics::{apply_response, MetricsError};
use goodwe_exporter::modbus::ModbusError;
use goodwe_exporter::protocol::{build_request, decode_response, DecodeError, RequestMessage, ResponseMessage};

#[test]
fn request_codes() {
    assert_eq!(RequestMessage::OfflineQuery.value().to_vec(), vec![0x00, 0x00]);
    assert_eq!(RequestMessage::QuerySettingInfo.value().to_vec(), vec![0x01, 0x03]);
    assert_eq!(RequestMessage::StartInverter.value().to_vec(), vec![0x03, 0x1b]);
    assert_eq!(RequestMessage::AdjustRealPower.value().to_vec(), vec![0x03, 0x1e]);
}

#[test]
fn request_frame_matches_identification_query() {
    assert_eq!(build_request(RequestMessage::QueryIdInfo), id_query());
    assert_eq!(
        build_request(RequestMessage::StopInverter),
        vec![0xaa, 0x55, 0xc0, 0x7f, 0x03, 0x1c, 0x00, 0x02, 0x5d]
    );
}

#[test]
fn response_codes() {
    assert_eq!(ResponseMessage::from(&0x0080), ResponseMessage::RegisterRequest);
    assert_eq!(ResponseMessage::from(&0x0182), ResponseMessage::ResponseIdInfo);
    assert_eq!(ResponseMessage::from(&0x039e), ResponseMessage::AdjustRealPowerResponse);
    assert_eq!(ResponseMessage::from_code(0x0183), Some(ResponseMessage::ResponseSettingInfo));
    assert_eq!(ResponseMessage::from_code(0x0100), None);
}

#[test]
fn aa55_decoder() {
    assert_eq!(decode_response(&[0xaa]), Err(DecodeError::InvalidHeader));
    assert_eq!(decode_response(&[0xaa, 0x54, 0x00]), Err(DecodeError::InvalidHeader));
    assert_eq!(decode_response(&[0xaa, 0x55, 0x00]), Err(DecodeError::MessageTypeNotImplemented));
}

#[test]
fn poll_applies_valid_frame() {
    let mut set = MetricSet::new(35100, vec![Voltage::easy(35103, "voltage_pv_volts", "mppt", "pv1")]);
    let frame = [0xaa, 0x55, 0xf7, 0x03, 0x08, 0, 0, 0, 0, 0, 0, 0, 0x64, 0x89, 0xb7];
    assert!(apply_response(&mut set, &frame.to_vec()).is_ok());
    assert_eq!(set.entries()[0].get_value(), Some(100));
}

#[test]
fn poll_reports_frame_and_read_errors() {
    let mut set = MetricSet::new(35100, vec![Voltage::easy(35103, "voltage_pv_volts", "mppt", "pv1")]);
    let mut frame = [0xaa, 0x55, 0xf7, 0x03, 0x08, 0, 0, 0, 0, 0, 0, 0, 0x64, 0x89, 0xb7];
    frame[12] = 0x65;
    match apply_response(&mut set, &frame.to_vec()) {
        Err(MetricsError::ModbusError(e)) => assert_eq!(e, ModbusError::WrongChecksum),
        _ => panic!("expected a checksum error"),
    }
    assert_eq!(set.entries()[0].get_value(), None);
    let mut far = MetricSet::new(35100, vec![Power::easy(35110, "p", "k", "v")]);
    let frame = [0xaa, 0x55, 0xf7, 0x03, 0x08, 0, 0, 0, 0, 0, 0, 0, 0x64, 0x89, 0xb7];
    let err = apply_response(&mut far, &frame.to_vec()).err().unwrap();
    match &err {
        MetricsError::MetricReadError(e) => assert_eq!(*e, MetricReadError::OutOfBounds),
        _ => panic!("expected an out-of-bounds error"),
    }
    assert_eq!(err.message(), "Metric Read Error: MetricReadError::OutOfBounds");
}

#[test]
fn poll_error_messages() {
    assert_eq!(
        MetricsError::ModbusError(ModbusError::InvalidHeader).message(),
        "Modbus Error: Invalid Header"
    );
    assert_eq!(MetricsError::NetworkError("timed out".to_string()).message(), "Network Error: timed out");
}
