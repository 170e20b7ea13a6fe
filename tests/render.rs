use goodwe_exporter::definitions::{
    Decimal, Energy, FloatEnergy, Frequency, Integer, LargeEnergy, LargePower, MetricSet, MetricType,
    Percentage, Power, Voltage,
};
use goodwe_exporter::text::{name_before, push_fixed, push_int, push_nat};

fn fixed(x: i64, d: u64) -> String {
    let mut s = String::new();
    push_fixed(&mut s, x, d);
    s
}

#[test]
fn absent_values_render_sentinels() {
    let set = MetricSet::new(
        0,
        vec![
            Voltage::easy(0, "a", "k", "v"),
            Percentage::easy(1, "b", "k", "v"),
            Integer::easy(2, "c", "k", "v"),
            LargePower::easy(3, "d", "k", "v"),
            Frequency::easy(5, "e", "k", "v"),
            LargeEnergy::easy(6, "f", "k", "v"),
        ],
    );
    let text = set.render();
    let lines: Vec<&str> = text.lines().filter(|l| !l.starts_with('#')).collect();
    assert_eq!(
        lines,
        vec![
            "goodwe_a {k=\"v\", } NaN",
            "goodwe_b {k=\"v\", } 0",
            "goodwe_c {k=\"v\", } -32768",
            "goodwe_d {k=\"v\", } -2147483648",
            "goodwe_e {k=\"v\", } NaN",
            "goodwe_f {k=\"v\", } NaN",
        ]
    );
}

#[test]
fn type_lines_sorted_and_deduplicated() {
    let set = MetricSet::new(
        0,
        vec![
            Power::easy(0, "load_watts", "phase", "L1"),
            Energy::easy(1, "energy_import_total", "timeframe", "all"),
            Power::easy(2, "load_watts", "phase", "L2"),
            Voltage::easy(3, "voltage_grid_volts", "phase", "L1"),
        ],
    );
    assert_eq!(
        set.render(),
        "# TYPE goodwe_energy_import_total counter\n\
         # TYPE goodwe_load_watts gauge\n\
         # TYPE goodwe_voltage_grid_volts gauge\n\
         goodwe_load_watts {phase=\"L1\", } -32768\n\
         goodwe_energy_import_total {timeframe=\"all\", } NaN\n\
         goodwe_load_watts {phase=\"L2\", } -32768\n\
         goodwe_voltage_grid_volts {phase=\"L1\", } NaN\n"
    );
}

#[test]
fn first_kind_wins_for_a_shared_name() {
    let set = MetricSet::new(0, vec![Integer::easy(0, "x", "k", "a"), Power::easy(1, "x", "k", "b")]);
    assert!(set.render().starts_with("# TYPE goodwe_x counter\ngoodwe_x"));
}

#[test]
fn decoded_values_render_exactly() {
    let mut set = MetricSet::new(
        0,
        vec![
            Voltage::easy(0, "v", "k", "a"),
            Decimal::easy(1, "pf", "k", "b"),
            FloatEnergy::easy(2, "e", "k", "c"),
            Power::easy(4, "p", "k", "d"),
        ],
    );
    let payload = [0x04, 0xd2, 0xff, 0x9c, 0x00, 0x12, 0xd6, 0x87, 0xfc, 0x18];
    assert_eq!(set.read_data(&payload), Ok(()));
    let text = set.render();
    let lines: Vec<&str> = text.lines().filter(|l| !l.starts_with('#')).collect();
    assert_eq!(
        lines,
        vec![
            "goodwe_v {k=\"a\", } 123.4",
            "goodwe_pf {k=\"b\", } -1",
            "goodwe_e {k=\"c\", } 1234.567",
            "goodwe_p {k=\"d\", } -1000",
        ]
    );
}

#[test]
fn fixed_point_text() {
    assert_eq!(fixed(100, 1), "10");
    assert_eq!(fixed(123, 1), "12.3");
    assert_eq!(fixed(-5, 1), "-0.5");
    assert_eq!(fixed(0, 2), "0");
    assert_eq!(fixed(105, 2), "1.05");
    assert_eq!(fixed(150, 2), "1.5");
    assert_eq!(fixed(-32768, 1), "-3276.8");
    assert_eq!(fixed(2000, 3), "2");
    assert_eq!(fixed(2010, 3), "2.01");
    assert_eq!(fixed(7, 3), "0.007");
    assert_eq!(fixed(-2147483648, 1), "-214748364.8");
    assert_eq!(fixed(42, 0), "42");
    assert_eq!(fixed(123456789, 9), "0.123456789");
    assert_eq!(fixed(-1200, 4), "-0.12");
    assert_eq!(fixed(5, 19), "0.0000000000000000005");
    assert_eq!(fixed(i64::MAX, 19), "0.9223372036854775807");
    assert_eq!(fixed(i64::MIN, 18), "-9.223372036854775808");
}

#[test]
fn integer_text() {
    let mut s = String::new();
    push_int(&mut s, i64::MIN);
    assert_eq!(s, "-9223372036854775808");
    let mut s = String::from("x=");
    push_int(&mut s, 0);
    assert_eq!(s, "x=0");
    let mut s = String::new();
    push_nat(&mut s, 1234567890);
    assert_eq!(s, "1234567890");
}

#[test]
fn name_order() {
    assert!(name_before("abc", "abd"));
    assert!(name_before("ab", "abc"));
    assert!(!name_before("abc", "ab"));
    assert!(!name_before("abc", "abc"));
    assert!(name_before("", "a"));
    assert!(!name_before("b", "a"));
}

#[test]
fn kind_names() {
    assert_eq!(MetricType::Counter.as_str(), "counter");
    assert_eq!(MetricType::Gauge.as_str(), "gauge");
}
