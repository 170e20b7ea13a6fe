use goodwe_exporter::definitions::{
    BaseMetric, Decimal, Encoding, FloatEnergy, Integer, LargeEnergy, LargePower, Metric, MetricReadError,
    MetricSet, MetricType, Percentage, Power, Temperature, Voltage, KV,
};
use goodwe_exporter::et::{base_metrics, battery_metrics, meter_metrics};

#[test]
fn tenths_scenario_decodes_ten() {
    let mut set = MetricSet::new(35100, vec![Voltage::easy(35103, "voltage_pv_volts", "mppt", "pv1")]);
    let payload = [0u8, 0, 0, 0, 0, 0, 0x00, 0x64];
    assert_eq!(set.read_data(&payload), Ok(()));
    assert_eq!(set.entries()[0].get_value(), Some(100));
    assert_eq!(set.entries()[0].get_encoding(), Encoding::Tenths16);
    assert_eq!(
        set.render(),
        "# TYPE goodwe_voltage_pv_volts gauge\ngoodwe_voltage_pv_volts {mppt=\"pv1\", } 10\n"
    );
}

#[test]
fn short_payload_keeps_earlier_entries() {
    let mut set = MetricSet::new(
        100,
        vec![
            Power::easy(100, "p", "k", "a"),
            Percentage::easy(101, "q", "k", "b"),
            LargePower::easy(102, "r", "k", "c"),
            Integer::easy(101, "s", "k", "d"),
        ],
    );
    let payload = [0xff, 0xfe, 0x00, 0x2a, 0x00, 0x00];
    assert_eq!(set.read_data(&payload), Err(MetricReadError::OutOfBounds));
    let ms = set.entries();
    assert_eq!(ms[0].get_value(), Some(-2));
    assert_eq!(ms[1].get_value(), Some(42));
    assert_eq!(ms[2].get_value(), None);
    // the pass stopped before this entry, although it would fit
    assert_eq!(ms[3].get_value(), None);
}

#[test]
fn empty_payload_is_out_of_bounds() {
    let mut set = MetricSet::new(10, vec![Integer::easy(10, "x", "k", "v")]);
    assert_eq!(set.read_data(&[]), Err(MetricReadError::OutOfBounds));
    assert_eq!(set.entries()[0].get_value(), None);
}

#[test]
fn register_below_base_is_out_of_bounds() {
    let mut m = Integer::easy(9, "x", "k", "v");
    assert_eq!(m.read_data(10, &[1, 2, 3, 4]), Err(MetricReadError::OutOfBounds));
    assert_eq!(m.get_value(), None);
    let set = MetricSet::new(10, vec![Integer::easy(9, "x", "k", "v")]);
    assert!(!set.is_command_ready());
}

#[test]
fn empty_catalog_is_not_command_ready() {
    let set = MetricSet::new(10, vec![]);
    assert!(!set.is_command_ready());
    let mut set = MetricSet::new(10, vec![]);
    assert_eq!(set.read_data(&[]), Ok(()));
}

#[test]
fn register_count_must_fit() {
    let set = MetricSet::new(0, vec![Integer::easy(0xffff, "x", "k", "v")]);
    assert!(!set.is_command_ready());
    let set = MetricSet::new(1, vec![Integer::easy(0xffff, "x", "k", "v")]);
    assert!(set.is_command_ready());
    assert_eq!(set.get_modbus_command(0x01)[4..6].to_vec(), vec![0xff, 0xff]);
}

#[test]
fn integer_interpretations() {
    let payload = [0x80, 0x00, 0xff, 0xff, 0x7f, 0xff, 0xff, 0xfe, 0x80, 0x00, 0x00, 0x00];
    let mut set = MetricSet::new(
        0,
        vec![
            Integer::easy(0, "a", "k", "v"),
            Percentage::easy(1, "b", "k", "v"),
            Power::easy(2, "c", "k", "v"),
            LargePower::easy(3, "d", "k", "v"),
            LargePower::easy(4, "e", "k", "v"),
        ],
    );
    assert_eq!(set.read_data(&payload), Ok(()));
    let ms = set.entries();
    assert_eq!(ms[0].get_value(), Some(-32768));
    assert_eq!(ms[1].get_value(), Some(65535));
    assert_eq!(ms[2].get_value(), Some(32767));
    assert_eq!(ms[3].get_value(), Some(-98304));
    assert_eq!(ms[4].get_value(), Some(i32::MIN));
}

#[test]
fn round_trip_through_catalog() {
    for v in [-32768i32, -1, 0, 1, 1234, 32767] {
        let bytes = (v as i16).to_be_bytes();
        let mut payload = vec![0u8; 6];
        payload[4] = bytes[0];
        payload[5] = bytes[1];
        let mut set = MetricSet::new(50, vec![Temperature::easy(52, "t", "sensor", "Air")]);
        assert_eq!(set.read_data(&payload), Ok(()));
        assert_eq!(set.entries()[0].get_value(), Some(v));
    }
    for v in [i32::MIN, -70000, 0, 70000, i32::MAX] {
        let bytes = v.to_be_bytes();
        let mut set = MetricSet::new(7, vec![LargeEnergy::easy(7, "e", "timeframe", "all")]);
        assert_eq!(set.read_data(&bytes), Ok(()));
        assert_eq!(set.entries()[0].get_value(), Some(v));
    }
}

#[test]
fn presets_fix_kind_and_encoding() {
    let cases: Vec<(Metric, MetricType, Encoding)> = vec![
        (Voltage::easy(1, "v", "k", "x"), MetricType::Gauge, Encoding::Tenths16),
        (Power::easy(1, "v", "k", "x"), MetricType::Gauge, Encoding::Signed16),
        (LargePower::easy(1, "v", "k", "x"), MetricType::Gauge, Encoding::Signed32),
        (Percentage::easy(1, "v", "k", "x"), MetricType::Gauge, Encoding::Unsigned16),
        (Temperature::easy(1, "v", "k", "x"), MetricType::Gauge, Encoding::Tenths16),
        (LargeEnergy::easy(1, "v", "k", "x"), MetricType::Counter, Encoding::Tenths32),
        (Integer::easy(1, "v", "k", "x"), MetricType::Counter, Encoding::Signed16),
        (Decimal::easy(1, "v", "k", "x"), MetricType::Gauge, Encoding::Hundredths16),
        (FloatEnergy::easy(1, "v", "k", "x"), MetricType::Counter, Encoding::Thousandths32),
    ];
    for (m, t, e) in cases {
        assert_eq!(m.get_type(), t);
        assert_eq!(m.get_encoding(), e);
        assert_eq!(m.get_name(), "goodwe_v");
        assert_eq!(m.get_register(), 1);
        assert_eq!(m.get_value(), None);
    }
}

#[test]
fn general_constructors() {
    let base = BaseMetric::new(
        MetricType::Counter,
        "custom_total".to_string(),
        vec![KV::new("a".to_string(), "1".to_string()), KV::new("b".to_string(), "2".to_string())],
        40,
    );
    assert_eq!(base.get_register(), 40);
    let m = Metric::new(base, Encoding::Signed32);
    assert_eq!(m.get_name(), "custom_total");
    let set = MetricSet::new(40, vec![m]);
    assert_eq!(
        set.render(),
        "# TYPE custom_total counter\ncustom_total {a=\"1\", b=\"2\", } -2147483648\n"
    );
    let labelled = Power::new(3, "p", vec![]);
    assert_eq!(MetricSet::new(3, vec![labelled]).render(), "# TYPE goodwe_p gauge\ngoodwe_p {} -32768\n");
}

#[test]
fn shipped_catalogs() {
    let b = base_metrics();
    assert_eq!(b.get_base(), 35100);
    assert_eq!(b.entries().len(), 58);
    let bat = battery_metrics();
    assert_eq!(bat.get_base(), 37000);
    assert_eq!(bat.entries().len(), 23);
    assert_eq!(bat.get_modbus_command(0xf7)[4..6].to_vec(), vec![0x00, 24]);
    let m = meter_metrics();
    assert_eq!(m.get_base(), 36000);
    assert_eq!(m.entries().len(), 37);
    assert_eq!(m.get_modbus_command(0xf7)[4..6].to_vec(), vec![0x00, 58]);
}

#[test]
fn shipped_catalogs_start_empty_with_consistent_kinds() {
    for set in [base_metrics(), battery_metrics(), meter_metrics()] {
        let ms = set.entries();
        for (i, m) in ms.iter().enumerate() {
            assert_eq!(m.get_value(), None);
            assert!(m.get_name().starts_with("goodwe_"));
            for other in &ms[..i] {
                if other.get_name() == m.get_name() {
                    assert_eq!(other.get_type(), m.get_type());
                }
            }
        }
    }
    let b = base_metrics();
    assert_eq!(b.entries()[0].get_name(), "goodwe_voltage_pv_volts");
    assert_eq!(b.entries()[57].get_name(), "goodwe_energy_import_total");
    assert_eq!(b.entries()[57].get_type(), MetricType::Counter);
}

#[test]
fn read_error_message() {
    assert_eq!(MetricReadError::OutOfBounds.message(), "MetricReadError::OutOfBounds");
    assert_eq!(MetricReadError::GeneralError.message(), "MetricReadError::GeneralError");
}
