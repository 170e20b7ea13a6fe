//! The register catalog: typed, labeled register entries, their decoding out of
//! one payload, the read command that covers them, and their exposition text.
use vstd::prelude::*;

use crate::modbus::{command_frame, create_command, Command};
use crate::text::{
    fixed_text, int_text, lemma_name_lt_total, lemma_name_lt_transitive, name_before, name_lt, push_fixed,
    push_int,
};

verus! {

/// The Prometheus metric kind, which governs the `# TYPE` line.
#[derive(Clone, Copy, Debug, PartialEq, Eq, Structural)]
pub enum MetricType {
    Counter,
    Gauge,
}

impl MetricType {
    /// The kind's name in exposition text.
    pub open spec fn spec_text(self) -> Seq<char> {
        match self {
            MetricType::Counter => seq!['c', 'o', 'u', 'n', 't', 'e', 'r'],
            MetricType::Gauge => seq!['g', 'a', 'u', 'g', 'e'],
        }
    }

    /// The kind's name in exposition text.
    pub fn as_str(&self) -> (r: &'static str)
        ensures
            r@ == self.spec_text(),
    {
        proof {
            reveal_strlit("counter");
            reveal_strlit("gauge");
        }
        match self {
            MetricType::Counter => "counter",
            MetricType::Gauge => "gauge",
        }
    }
}

/// Why a register could not be read out of a payload.
#[derive(Clone, Copy, Debug, PartialEq, Eq, Structural)]
pub enum MetricReadError {
    OutOfBounds,
    GeneralError,
}

impl MetricReadError {
    /// A human-readable name of the error.
    pub open spec fn spec_message(self) -> Seq<char> {
        match self {
            MetricReadError::OutOfBounds => "MetricReadError::OutOfBounds"@,
            MetricReadError::GeneralError => "MetricReadError::GeneralError"@,
        }
    }

    /// A human-readable name of the error.
    pub fn message(&self) -> (r: &'static str)
        ensures
            r@ == self.spec_message(),
    {
        match self {
            MetricReadError::OutOfBounds => "MetricReadError::OutOfBounds",
            MetricReadError::GeneralError => "MetricReadError::GeneralError",
        }
    }
}

/// How the raw bytes of a register are turned into a number. Every encoding
/// reads big-endian bytes; the fixed-point ones divide the signed integer by a
/// power of ten.
#[derive(Clone, Copy, Debug, PartialEq, Eq, Structural)]
pub enum Encoding {
    /// 2-byte signed integer.
    Signed16,
    /// 4-byte signed integer.
    Signed32,
    /// 2-byte unsigned integer.
    Unsigned16,
    /// 2-byte signed fixed-point, divided by 10.
    Tenths16,
    /// 2-byte signed fixed-point, divided by 100.
    Hundredths16,
    /// 4-byte signed fixed-point, divided by 10.
    Tenths32,
    /// 4-byte signed fixed-point, divided by 1000.
    Thousandths32,
}

impl Encoding {
    /// The number of bytes that the encoding consumes.
    pub open spec fn spec_width(self) -> nat {
        match self {
            Encoding::Signed16 | Encoding::Unsigned16 | Encoding::Tenths16 | Encoding::Hundredths16 => 2,
            Encoding::Signed32 | Encoding::Tenths32 | Encoding::Thousandths32 => 4,
        }
    }

    /// The number of bytes that the encoding consumes.
    pub fn width(&self) -> (r: usize)
        ensures
            r == self.spec_width(),
    {
        match self {
            Encoding::Signed16 | Encoding::Unsigned16 | Encoding::Tenths16 | Encoding::Hundredths16 => 2,
            Encoding::Signed32 | Encoding::Tenths32 | Encoding::Thousandths32 => 4,
        }
    }

    /// For a fixed-point encoding, the number of decimal places (the value is
    /// the raw integer divided by ten to this power); `None` for an integer.
    pub open spec fn spec_decimals(self) -> Option<nat> {
        match self {
            Encoding::Tenths16 | Encoding::Tenths32 => Some(1),
            Encoding::Hundredths16 => Some(2),
            Encoding::Thousandths32 => Some(3),
            _ => None,
        }
    }

    /// Whether the raw integer is read as two's complement.
    pub open spec fn is_signed(self) -> bool {
        self != Encoding::Unsigned16
    }

    /// The smallest raw value of the encoding.
    pub open spec fn min_raw(self) -> int {
        if !self.is_signed() {
            0
        } else if self.spec_width() == 2 {
            -0x8000
        } else {
            -0x8000_0000
        }
    }

    /// The largest raw value of the encoding.
    pub open spec fn max_raw(self) -> int {
        if !self.is_signed() {
            0xffff
        } else if self.spec_width() == 2 {
            0x7fff
        } else {
            0x7fff_ffff
        }
    }
}

/// The unsigned big-endian value of two or four bytes.
pub open spec fn be_value(b: Seq<u8>) -> int {
    if b.len() == 2 {
        b[0] * 0x100 + b[1]
    } else {
        b[0] * 0x100_0000 + b[1] * 0x1_0000 + b[2] * 0x100 + b[3]
    }
}

/// The raw integer that `bytes` (as many as the encoding's width) hold under
/// `enc`: unsigned, or two's complement for the signed encodings.
pub open spec fn decode_raw(enc: Encoding, bytes: Seq<u8>) -> int {
    let u = be_value(bytes);
    if !enc.is_signed() {
        u
    } else if enc.spec_width() == 2 {
        if u >= 0x8000 { u - 0x1_0000 } else { u }
    } else {
        if u >= 0x8000_0000 { u - 0x1_0000_0000 } else { u }
    }
}

/// The big-endian bytes of the raw value `v` under `enc` (two's complement for
/// the signed encodings).
pub open spec fn encode_raw(enc: Encoding, v: int) -> Seq<u8> {
    if enc.spec_width() == 2 {
        let u = if v < 0 { v + 0x1_0000 } else { v };
        seq![(u / 0x100) as u8, (u % 0x100) as u8]
    } else {
        let u = if v < 0 { v + 0x1_0000_0000 } else { v };
        seq![
            (u / 0x100_0000) as u8,
            (u / 0x1_0000 % 0x100) as u8,
            (u / 0x100 % 0x100) as u8,
            (u % 0x100) as u8,
        ]
    }
}

/// Reads the raw value of `enc` from `data` at `offset`.
fn read_raw(enc: Encoding, data: &[u8], offset: usize) -> (r: i32)
    requires
        offset + enc.spec_width() <= data@.len(),
    ensures
        r as int == decode_raw(enc, data@.subrange(offset as int, offset + enc.spec_width())),
{
    let ghost bytes = data@.subrange(offset as int, offset + enc.spec_width());
    if enc.width() == 2 {
        let u: u32 = data[offset] as u32 * 0x100 + data[offset + 1] as u32;
        assert(u as int == be_value(bytes));
        match enc {
            Encoding::Unsigned16 => u as i32,
            _ => {
                if u >= 0x8000 {
                    (u as i32) - 0x1_0000
                } else {
                    u as i32
                }
            },
        }
    } else {
        let u: u64 = data[offset] as u64 * 0x100_0000 + data[offset + 1] as u64 * 0x1_0000
            + data[offset + 2] as u64 * 0x100 + data[offset + 3] as u64;
        assert(u as int == be_value(bytes));
        if u >= 0x8000_0000 {
            ((u as i64) - 0x1_0000_0000) as i32
        } else {
            u as i32
        }
    }
}


/// A label: a key and its value, rendered as `key="value"`.
pub struct KV {
    key: String,
    value: String,
}

impl View for KV {
    type V = (Seq<char>, Seq<char>);

    closed spec fn view(&self) -> (Seq<char>, Seq<char>) {
        (self.key@, self.value@)
    }
}

impl KV {
    pub fn new(key: String, value: String) -> (r: KV)
        ensures
            r@ == (key@, value@),
    {
        KV { key, value }
    }
}

/// What identifies a metric: its kind, its name, its labels in render order,
/// and the register it starts at.
pub struct BaseMetricView {
    pub metric_type: MetricType,
    pub name: Seq<char>,
    pub labels: Seq<(Seq<char>, Seq<char>)>,
    pub register: u16,
}

/// The identifying part of a metric.
pub struct BaseMetric {
    metric_type: MetricType,
    metric_name: String,
    labels: Vec<KV>,
    register: u16,
}

/// The views of a sequence of labels.
pub open spec fn labels_view(labels: Seq<KV>) -> Seq<(Seq<char>, Seq<char>)> {
    labels.map_values(|l: KV| l@)
}

impl View for BaseMetric {
    type V = BaseMetricView;

    closed spec fn view(&self) -> BaseMetricView {
        BaseMetricView {
            metric_type: self.metric_type,
            name: self.metric_name@,
            labels: labels_view(self.labels@),
            register: self.register,
        }
    }
}

impl BaseMetric {
    pub fn new(metric_type: MetricType, metric_name: String, labels: Vec<KV>, register: u16) -> (r: Self)
        ensures
            r@ == (BaseMetricView {
                metric_type,
                name: metric_name@,
                labels: labels_view(labels@),
                register,
            }),
    {
        Self { metric_type, metric_name, labels, register }
    }

    pub fn get_register(&self) -> (r: u16)
        ensures
            r == self@.register,
    {
        self.register
    }
}

/// A register entry as a value: its identity, its encoding, and the raw
/// integer last decoded for it, if any. The number it stands for is the raw
/// integer, divided by ten to the encoding's decimals for fixed-point
/// encodings.
pub struct MetricView {
    pub base: BaseMetricView,
    pub encoding: Encoding,
    pub value: Option<int>,
}

impl MetricView {
    /// The same entry holding `value`.
    pub open spec fn with_value(self, value: Option<int>) -> MetricView {
        MetricView { base: self.base, encoding: self.encoding, value }
    }
}

/// Byte offset of `register` in a payload that starts at register `base`.
pub open spec fn register_offset(base: u16, register: u16) -> int {
    (register - base) * 2
}

/// The entry's bytes lie within a payload of `len` bytes that starts at
/// register `base`.
pub open spec fn fits(m: MetricView, base: u16, len: nat) -> bool {
    base <= m.base.register && register_offset(base, m.base.register) + m.encoding.spec_width() <= len
}

/// The raw value that the entry reads from `data`, a payload starting at
/// register `base`.
pub open spec fn read_value(m: MetricView, base: u16, data: Seq<u8>) -> int {
    let off = register_offset(base, m.base.register);
    decode_raw(m.encoding, data.subrange(off, off + m.encoding.spec_width()))
}

/// An optional machine integer as an optional mathematical one.
pub open spec fn opt_int(v: Option<i32>) -> Option<int> {
    match v {
        Some(x) => Some(x as int),
        None => None,
    }
}

/// One register entry of a catalog.
pub struct Metric {
    base: BaseMetric,
    encoding: Encoding,
    value: Option<i32>,
}

impl View for Metric {
    type V = MetricView;

    closed spec fn view(&self) -> MetricView {
        MetricView {
            base: self.base@,
            encoding: self.encoding,
            value: opt_int(self.value),
        }
    }
}

impl Metric {
    /// An entry that holds no value yet.
    pub fn new(base: BaseMetric, encoding: Encoding) -> (r: Metric)
        ensures
            r@ == (MetricView { base: base@, encoding, value: None }),
    {
        Metric { base, encoding, value: None }
    }

    /// Decodes this entry out of `data`, a payload that starts at register
    /// `base_register`, and stores the value. Fails, leaving the entry as it
    /// was, when its bytes do not lie within the payload.
    pub fn read_data(&mut self, base_register: u16, data: &[u8]) -> (r: Result<(), MetricReadError>)
        ensures
            fits(old(self)@, base_register, data@.len()) ==> r is Ok && final(self)@ == old(self)@.with_value(
                Some(read_value(old(self)@, base_register, data@)),
            ),
            !fits(old(self)@, base_register, data@.len()) ==> r == Err::<(), MetricReadError>(
                MetricReadError::OutOfBounds,
            ) && final(self)@ == old(self)@,
    {
        let register = self.base.register;
        if register < base_register {
            return Err(MetricReadError::OutOfBounds);
        }
        let offset: usize = (register - base_register) as usize * 2;
        let width = self.encoding.width();
        if offset + width > data.len() {
            return Err(MetricReadError::OutOfBounds);
        }
        let raw = read_raw(self.encoding, data, offset);
        self.value = Some(raw);
        Ok(())
    }

    pub fn get_register(&self) -> (r: u16)
        ensures
            r == self@.base.register,
    {
        self.base.register
    }

    pub fn get_name(&self) -> (r: String)
        ensures
            r@ == self@.base.name,
    {
        self.base.metric_name.clone()
    }

    pub fn get_type(&self) -> (r: MetricType)
        ensures
            r == self@.base.metric_type,
    {
        self.base.metric_type
    }

    pub fn get_encoding(&self) -> (r: Encoding)
        ensures
            r == self@.encoding,
    {
        self.encoding
    }

    /// The raw integer last decoded, if any.
    pub fn get_value(&self) -> (r: Option<i32>)
        ensures
            opt_int(r) == self@.value,
    {
        self.value
    }
}


/// The prefix of every metric name.
pub open spec fn metric_prefix() -> Seq<char> {
    seq!['g', 'o', 'o', 'd', 'w', 'e', '_']
}

/// A fresh entry as a preset makes it: the name gets the prefix, no value yet.
pub open spec fn preset_view(
    register: u16,
    name: Seq<char>,
    labels: Seq<(Seq<char>, Seq<char>)>,
    metric_type: MetricType,
    encoding: Encoding,
) -> MetricView {
    MetricView {
        base: BaseMetricView { metric_type, name: metric_prefix() + name, labels, register },
        encoding,
        value: None,
    }
}

fn preset(
    register: u16,
    metric_name: &str,
    labels: Vec<KV>,
    metric_type: MetricType,
    encoding: Encoding,
) -> (r: Metric)
    ensures
        r@ == preset_view(register, metric_name@, labels_view(labels@), metric_type, encoding),
{
    proof {
        reveal_strlit("goodwe_");
    }
    let mut name = String::from_str("goodwe_");
    assert(name@ =~= metric_prefix());
    name.append(metric_name);
    Metric::new(BaseMetric::new(metric_type, name, labels, register), encoding)
}

fn single_label(key: &str, value: &str) -> (r: Vec<KV>)
    ensures
        labels_view(r@) == seq![(key@, value@)],
{
    let r = vec![KV::new(String::from_str(key), String::from_str(value))];
    assert(labels_view(r@) =~= seq![(key@, value@)]);
    r
}

/// Voltage readings in volts: 2-byte signed tenths, gauge.
pub struct Voltage;

impl Voltage {
    pub fn new(register: u16, metric_name: &str, labels: Vec<KV>) -> (r: Metric)
        ensures
            r@ == preset_view(
                register,
                metric_name@,
                labels_view(labels@),
                MetricType::Gauge,
                Encoding::Tenths16,
            ),
    {
        preset(register, metric_name, labels, MetricType::Gauge, Encoding::Tenths16)
    }

    /// An entry with the single label `key="value"`.
    pub fn easy(register: u16, metric_name: &str, key: &str, value: &str) -> (r: Metric)
        ensures
            r@ == preset_view(
                register,
                metric_name@,
                seq![(key@, value@)],
                MetricType::Gauge,
                Encoding::Tenths16,
            ),
    {
        Self::new(register, metric_name, single_label(key, value))
    }
}

/// Current readings in amperes: 2-byte signed tenths, gauge.
pub struct Current;

impl Current {
    pub fn new(register: u16, metric_name: &str, labels: Vec<KV>) -> (r: Metric)
        ensures
            r@ == preset_view(
                register,
                metric_name@,
                labels_view(labels@),
                MetricType::Gauge,
                Encoding::Tenths16,
            ),
    {
        preset(register, metric_name, labels, MetricType::Gauge, Encoding::Tenths16)
    }

    /// An entry with the single label `key="value"`.
    pub fn easy(register: u16, metric_name: &str, key: &str, value: &str) -> (r: Metric)
        ensures
            r@ == preset_view(
                register,
                metric_name@,
                seq![(key@, value@)],
                MetricType::Gauge,
                Encoding::Tenths16,
            ),
    {
        Self::new(register, metric_name, single_label(key, value))
    }
}

/// Power readings in watts: 2-byte signed integer, gauge.
pub struct Power;

impl Power {
    pub fn new(register: u16, metric_name: &str, labels: Vec<KV>) -> (r: Metric)
        ensures
            r@ == preset_view(
                register,
                metric_name@,
                labels_view(labels@),
                MetricType::Gauge,
                Encoding::Signed16,
            ),
    {
        preset(register, metric_name, labels, MetricType::Gauge, Encoding::Signed16)
    }

    /// An entry with the single label `key="value"`.
    pub fn easy(register: u16, metric_name: &str, key: &str, value: &str) -> (r: Metric)
        ensures
            r@ == preset_view(
                register,
                metric_name@,
                seq![(key@, value@)],
                MetricType::Gauge,
                Encoding::Signed16,
            ),
    {
        Self::new(register, metric_name, single_label(key, value))
    }
}

/// Power readings in watts that span two registers: 4-byte signed integer, gauge.
pub struct LargePower;

impl LargePower {
    pub fn new(register: u16, metric_name: &str, labels: Vec<KV>) -> (r: Metric)
        ensures
            r@ == preset_view(
                register,
                metric_name@,
                labels_view(labels@),
                MetricType::Gauge,
                Encoding::Signed32,
            ),
    {
        preset(register, metric_name, labels, MetricType::Gauge, Encoding::Signed32)
    }

    /// An entry with the single label `key="value"`.
    pub fn easy(register: u16, metric_name: &str, key: &str, value: &str) -> (r: Metric)
        ensures
            r@ == preset_view(
                register,
                metric_name@,
                seq![(key@, value@)],
                MetricType::Gauge,
                Encoding::Signed32,
            ),
    {
        Self::new(register, metric_name, single_label(key, value))
    }
}

/// Frequency readings in hertz: 2-byte signed hundredths, gauge.
pub struct Frequency;

impl Frequency {
    pub fn new(register: u16, metric_name: &str, labels: Vec<KV>) -> (r: Metric)
        ensures
            r@ == preset_view(
                register,
                metric_name@,
                labels_view(labels@),
                MetricType::Gauge,
                Encoding::Hundredths16,
            ),
    {
        preset(register, metric_name, labels, MetricType::Gauge, Encoding::Hundredths16)
    }

    /// An entry with the single label `key="value"`.
    pub fn easy(register: u16, metric_name: &str, key: &str, value: &str) -> (r: Metric)
        ensures
            r@ == preset_view(
                register,
                metric_name@,
                seq![(key@, value@)],
                MetricType::Gauge,
                Encoding::Hundredths16,
            ),
    {
        Self::new(register, metric_name, single_label(key, value))
    }
}

/// Ratios and percentages: 2-byte unsigned integer, gauge.
pub struct Percentage;

impl Percentage {
    pub fn new(register: u16, metric_name: &str, labels: Vec<KV>) -> (r: Metric)
        ensures
            r@ == preset_view(
                register,
                metric_name@,
                labels_view(labels@),
                MetricType::Gauge,
                Encoding::Unsigned16,
            ),
    {
        preset(register, metric_name, labels, MetricType::Gauge, Encoding::Unsigned16)
    }

    /// An entry with the single label `key="value"`.
    pub fn easy(register: u16, metric_name: &str, key: &str, value: &str) -> (r: Metric)
        ensures
            r@ == preset_view(
                register,
                metric_name@,
                seq![(key@, value@)],
                MetricType::Gauge,
                Encoding::Unsigned16,
            ),
    {
        Self::new(register, metric_name, single_label(key, value))
    }
}

/// Temperature readings in degrees Celsius: 2-byte signed tenths, gauge.
pub struct Temperature;

impl Temperature {
    pub fn new(register: u16, metric_name: &str, labels: Vec<KV>) -> (r: Metric)
        ensures
            r@ == preset_view(
                register,
                metric_name@,
                labels_view(labels@),
                MetricType::Gauge,
                Encoding::Tenths16,
            ),
    {
        preset(register, metric_name, labels, MetricType::Gauge, Encoding::Tenths16)
    }

    /// An entry with the single label `key="value"`.
    pub fn easy(register: u16, metric_name: &str, key: &str, value: &str) -> (r: Metric)
        ensures
            r@ == preset_view(
                register,
                metric_name@,
                seq![(key@, value@)],
                MetricType::Gauge,
                Encoding::Tenths16,
            ),
    {
        Self::new(register, metric_name, single_label(key, value))
    }
}

/// Energy counters: 2-byte signed tenths, counter.
pub struct Energy;

impl Energy {
    pub fn new(register: u16, metric_name: &str, labels: Vec<KV>) -> (r: Metric)
        ensures
            r@ == preset_view(
                register,
                metric_name@,
                labels_view(labels@),
                MetricType::Counter,
                Encoding::Tenths16,
            ),
    {
        preset(register, metric_name, labels, MetricType::Counter, Encoding::Tenths16)
    }

    /// An entry with the single label `key="value"`.
    pub fn easy(register: u16, metric_name: &str, key: &str, value: &str) -> (r: Metric)
        ensures
            r@ == preset_view(
                register,
                metric_name@,
                seq![(key@, value@)],
                MetricType::Counter,
                Encoding::Tenths16,
            ),
    {
        Self::new(register, metric_name, single_label(key, value))
    }
}

/// Energy counters that span two registers: 4-byte signed tenths, counter.
pub struct LargeEnergy;

impl LargeEnergy {
    pub fn new(register: u16, metric_name: &str, labels: Vec<KV>) -> (r: Metric)
        ensures
            r@ == preset_view(
                register,
                metric_name@,
                labels_view(labels@),
                MetricType::Counter,
                Encoding::Tenths32,
            ),
    {
        preset(register, metric_name, labels, MetricType::Counter, Encoding::Tenths32)
    }

    /// An entry with the single label `key="value"`.
    pub fn easy(register: u16, metric_name: &str, key: &str, value: &str) -> (r: Metric)
        ensures
            r@ == preset_view(
                register,
                metric_name@,
                seq![(key@, value@)],
                MetricType::Counter,
                Encoding::Tenths32,
            ),
    {
        Self::new(register, metric_name, single_label(key, value))
    }
}

/// Plain integer registers: codes, identifiers and states: 2-byte signed integer, counter.
pub struct Integer;

impl Integer {
    pub fn new(register: u16, metric_name: &str, labels: Vec<KV>) -> (r: Metric)
        ensures
            r@ == preset_view(
                register,
                metric_name@,
                labels_view(labels@),
                MetricType::Counter,
                Encoding::Signed16,
            ),
    {
        preset(register, metric_name, labels, MetricType::Counter, Encoding::Signed16)
    }

    /// An entry with the single label `key="value"`.
    pub fn easy(register: u16, metric_name: &str, key: &str, value: &str) -> (r: Metric)
        ensures
            r@ == preset_view(
                register,
                metric_name@,
                seq![(key@, value@)],
                MetricType::Counter,
                Encoding::Signed16,
            ),
    {
        Self::new(register, metric_name, single_label(key, value))
    }
}

/// Ratios with two decimal places, such as power factors: 2-byte signed hundredths, gauge.
pub struct Decimal;

impl Decimal {
    pub fn new(register: u16, metric_name: &str, labels: Vec<KV>) -> (r: Metric)
        ensures
            r@ == preset_view(
                register,
                metric_name@,
                labels_view(labels@),
                MetricType::Gauge,
                Encoding::Hundredths16,
            ),
    {
        preset(register, metric_name, labels, MetricType::Gauge, Encoding::Hundredths16)
    }

    /// An entry with the single label `key="value"`.
    pub fn easy(register: u16, metric_name: &str, key: &str, value: &str) -> (r: Metric)
        ensures
            r@ == preset_view(
                register,
                metric_name@,
                seq![(key@, value@)],
                MetricType::Gauge,
                Encoding::Hundredths16,
            ),
    {
        Self::new(register, metric_name, single_label(key, value))
    }
}

/// Energy counters in thousandths that span two registers: 4-byte signed thousandths, counter.
pub struct FloatEnergy;

impl FloatEnergy {
    pub fn new(register: u16, metric_name: &str, labels: Vec<KV>) -> (r: Metric)
        ensures
            r@ == preset_view(
                register,
                metric_name@,
                labels_view(labels@),
                MetricType::Counter,
                Encoding::Thousandths32,
            ),
    {
        preset(register, metric_name, labels, MetricType::Counter, Encoding::Thousandths32)
    }

    /// An entry with the single label `key="value"`.
    pub fn easy(register: u16, metric_name: &str, key: &str, value: &str) -> (r: Metric)
        ensures
            r@ == preset_view(
                register,
                metric_name@,
                seq![(key@, value@)],
                MetricType::Counter,
                Encoding::Thousandths32,
            ),
    {
        Self::new(register, metric_name, single_label(key, value))
    }
}


/// The text of one label: `key="value", `.
pub open spec fn label_text(l: (Seq<char>, Seq<char>)) -> Seq<char> {
    l.0 + seq!['=', '"'] + l.1 + seq!['"', ',', ' ']
}

/// The text of the labels, in order.
pub open spec fn labels_text(ls: Seq<(Seq<char>, Seq<char>)>) -> Seq<char>
    decreases ls.len(),
{
    if ls.len() == 0 {
        Seq::empty()
    } else {
        labels_text(ls.drop_last()) + label_text(ls.last())
    }
}

/// The text of a value: fixed-point values as exact decimals and `NaN` when
/// absent; integers in decimal, and the encoding's smallest value (zero for
/// the unsigned one) when absent.
pub open spec fn value_text(enc: Encoding, v: Option<int>) -> Seq<char> {
    match enc.spec_decimals() {
        Some(d) => match v {
            Some(x) => fixed_text(x, d),
            None => seq!['N', 'a', 'N'],
        },
        None => match v {
            Some(x) => int_text(x),
            None => int_text(enc.min_raw()),
        },
    }
}

/// The exposition line of an entry: `name {k="v", } value` and a newline.
pub open spec fn metric_line(m: MetricView) -> Seq<char> {
    m.base.name + seq![' ', '{'] + labels_text(m.base.labels) + seq!['}', ' '] + value_text(
        m.encoding,
        m.value,
    ) + seq!['\n']
}

/// The exposition lines of the entries, in order.
pub open spec fn metric_lines(ms: Seq<MetricView>) -> Seq<char>
    decreases ms.len(),
{
    if ms.len() == 0 {
        Seq::empty()
    } else {
        metric_lines(ms.drop_last()) + metric_line(ms.last())
    }
}

/// The declaration line of a metric name: `# TYPE name kind` and a newline.
pub open spec fn type_line(t: (Seq<char>, MetricType)) -> Seq<char> {
    seq!['#', ' ', 'T', 'Y', 'P', 'E', ' '] + t.0 + seq![' '] + t.1.spec_text() + seq!['\n']
}

/// The declaration lines, in order.
pub open spec fn type_lines(ts: Seq<(Seq<char>, MetricType)>) -> Seq<char>
    decreases ts.len(),
{
    if ts.len() == 0 {
        Seq::empty()
    } else {
        type_lines(ts.drop_last()) + type_line(ts.last())
    }
}

/// Some entry carries the name `n`.
pub open spec fn has_name(ms: Seq<MetricView>, n: Seq<char>) -> bool {
    exists|i: int| 0 <= i < ms.len() && #[trigger] ms[i].base.name == n
}

/// The kind of the first entry named `n`.
pub open spec fn first_type(ms: Seq<MetricView>, n: Seq<char>) -> MetricType
    decreases ms.len(),
{
    if ms.len() == 0 {
        MetricType::Gauge
    } else if has_name(ms.drop_last(), n) {
        first_type(ms.drop_last(), n)
    } else {
        ms.last().base.metric_type
    }
}

/// `ts` lists each distinct name of the entries once, with the kind of its
/// first entry, in strictly increasing order of names.
pub open spec fn is_type_listing(ms: Seq<MetricView>, ts: Seq<(Seq<char>, MetricType)>) -> bool {
    &&& forall|i: int, j: int| 0 <= i < j < ts.len() ==> name_lt(#[trigger] ts[i].0, #[trigger] ts[j].0)
    &&& forall|k: int|
        0 <= k < ts.len() ==> has_name(ms, #[trigger] ts[k].0) && ts[k].1 == first_type(ms, ts[k].0)
    &&& forall|i: int| 0 <= i < ms.len() ==> exists|k: int| 0 <= k < ts.len() && #[trigger] ts[k].0 == #[trigger] ms[i].base.name
}

/// The views of a list of names with kinds.
pub open spec fn types_view(ts: Seq<(String, MetricType)>) -> Seq<(Seq<char>, MetricType)> {
    ts.map_values(|t: (String, MetricType)| (t.0@, t.1))
}

fn push_labels(out: &mut String, labels: &Vec<KV>)
    ensures
        final(out)@ == old(out)@ + labels_text(labels_view(labels@)),
{
    let ghost start = out@;
    let mut i: usize = 0;
    while i < labels.len()
        invariant
            i <= labels@.len(),
            out@ == start + labels_text(labels_view(labels@.take(i as int))),
        decreases labels.len() - i,
    {
        let ghost prev = labels_view(labels@.take(i as int));
        proof {
            reveal_strlit("=\"");
            reveal_strlit("\", ");
        }
        out.append(labels[i].key.as_str());
        out.append("=\"");
        out.append(labels[i].value.as_str());
        out.append("\", ");
        assert(labels_view(labels@.take(i + 1)).drop_last() =~= prev);
        assert(labels_view(labels@.take(i + 1)).last() == labels@[i as int]@);
        assert("=\""@ =~= seq!['=', '"']);
        assert("\", "@ =~= seq!['"', ',', ' ']);
        assert(out@ =~= start + labels_text(labels_view(labels@.take(i + 1))));
        i = i + 1;
    }
    assert(labels@.take(labels@.len() as int) =~= labels@);
}

fn push_value(out: &mut String, enc: Encoding, value: Option<i32>)
    ensures
        final(out)@ == old(out)@ + value_text(enc, opt_int(value)),
{
    proof {
        reveal_strlit("NaN");
    }
    match enc {
        Encoding::Tenths16 | Encoding::Tenths32 => match value {
            Some(x) => push_fixed(out, x as i64, 1),
            None => out.append("NaN"),
        },
        Encoding::Hundredths16 => match value {
            Some(x) => push_fixed(out, x as i64, 2),
            None => out.append("NaN"),
        },
        Encoding::Thousandths32 => match value {
            Some(x) => push_fixed(out, x as i64, 3),
            None => out.append("NaN"),
        },
        Encoding::Unsigned16 => match value {
            Some(x) => push_int(out, x as i64),
            None => push_int(out, 0),
        },
        Encoding::Signed16 => match value {
            Some(x) => push_int(out, x as i64),
            None => push_int(out, -0x8000),
        },
        Encoding::Signed32 => match value {
            Some(x) => push_int(out, x as i64),
            None => push_int(out, -0x8000_0000),
        },
    }
}

impl Metric {
    /// Appends the entry's exposition line.
    pub fn render_line(&self, out: &mut String)
        ensures
            final(out)@ == old(out)@ + metric_line(self@),
    {
        proof {
            reveal_strlit(" {");
            reveal_strlit("} ");
            reveal_strlit("\n");
        }
        let ghost start = out@;
        out.append(self.base.metric_name.as_str());
        out.append(" {");
        push_labels(out, &self.base.labels);
        out.append("} ");
        push_value(out, self.encoding, self.value);
        out.append("\n");
        assert(out@ =~= start + metric_line(self@));
    }
}

/// The register, kind and encoding of each entry, in order.
pub open spec fn layout(ms: Seq<MetricView>) -> Seq<(u16, MetricType, Encoding)> {
    ms.map_values(|m: MetricView| (m.base.register, m.base.metric_type, m.encoding))
}

/// The name and labels of each entry, in order.
pub open spec fn identities(ms: Seq<MetricView>) -> Seq<(Seq<char>, Seq<(Seq<char>, Seq<char>)>)> {
    ms.map_values(|m: MetricView| (m.base.name, m.base.labels))
}

/// Entries share kinds by name when each entry's kind is a function of its name.
pub proof fn lemma_kinds_agree_by(set: MetricSetView, kind_of: spec_fn(Seq<char>) -> MetricType)
    requires
        forall|i: int|
            0 <= i < set.metrics.len() ==> #[trigger] set.metrics[i].base.metric_type == kind_of(
                set.metrics[i].base.name,
            ),
    ensures
        set.kinds_agree(),
{
}

/// Names with the common prefix are equal only when the rest is.
pub proof fn lemma_prefix_cancel(a: Seq<char>, b: Seq<char>)
    ensures
        metric_prefix() + a == metric_prefix() + b ==> a == b,
{
    if metric_prefix() + a == metric_prefix() + b {
        assert(a =~= (metric_prefix() + a).skip(7));
        assert(b =~= (metric_prefix() + b).skip(7));
    }
}

/// A catalog as a value: the first register requested and the entries in
/// catalog order.
pub struct MetricSetView {
    pub base: u16,
    pub metrics: Seq<MetricView>,
}

/// The highest starting register of a non-empty sequence of entries.
pub open spec fn max_register(ms: Seq<MetricView>) -> u16
    decreases ms.len(),
{
    if ms.len() <= 1 {
        ms[0].base.register
    } else {
        let m = max_register(ms.drop_last());
        if ms.last().base.register > m {
            ms.last().base.register
        } else {
            m
        }
    }
}

/// [`max_register`] is the largest starting register of the entries.
pub proof fn lemma_max_register(ms: Seq<MetricView>)
    requires
        ms.len() > 0,
    ensures
        forall|i: int| 0 <= i < ms.len() ==> ms[i].base.register <= max_register(ms),
        exists|i: int| 0 <= i < ms.len() && ms[i].base.register == max_register(ms),
    decreases ms.len(),
{
    if ms.len() > 1 {
        lemma_max_register(ms.drop_last());
        assert forall|i: int| 0 <= i < ms.len() implies ms[i].base.register <= max_register(ms) by {
            if i < ms.len() - 1 {
                assert(ms[i] == ms.drop_last()[i]);
            }
        }
        if ms.last().base.register <= max_register(ms.drop_last()) {
            let j = choose|j: int|
                0 <= j < ms.drop_last().len() && ms.drop_last()[j].base.register == max_register(
                    ms.drop_last(),
                );
            assert(ms[j] == ms.drop_last()[j]);
        }
    } else {
        assert(ms[0].base.register == max_register(ms));
    }
}

impl MetricSetView {
    /// No entry holds a value yet.
    pub open spec fn all_absent(self) -> bool {
        forall|i: int| 0 <= i < self.metrics.len() ==> #[trigger] self.metrics[i].value is None
    }

    /// Entries that share a name share a kind.
    pub open spec fn kinds_agree(self) -> bool {
        forall|i: int, j: int|
            0 <= i < self.metrics.len() && 0 <= j < self.metrics.len() && #[trigger] self.metrics[i].base.name
                == #[trigger] self.metrics[j].base.name ==> self.metrics[i].base.metric_type
                == self.metrics[j].base.metric_type
    }

    /// Every entry starts at or after the catalog's first register.
    pub open spec fn wf(self) -> bool {
        forall|i: int| 0 <= i < self.metrics.len() ==> self.base <= #[trigger] self.metrics[i].base.register
    }

    /// The number of registers that the read command asks for: enough to
    /// reach the first word of the highest entry.
    pub open spec fn register_count(self) -> int {
        max_register(self.metrics) - self.base + 1
    }

    /// The catalog is well formed, non-empty, and its register count fits in
    /// a command.
    pub open spec fn command_ready(self) -> bool {
        &&& self.wf()
        &&& self.metrics.len() > 0
        &&& self.register_count() <= 0xffff
    }

    /// Entry `i` and every entry before it lie within a payload of `len`
    /// bytes.
    pub open spec fn fits_through(self, i: int, len: nat) -> bool {
        forall|j: int| 0 <= j <= i ==> fits(#[trigger] self.metrics[j], self.base, len)
    }

    /// The catalog after a decode pass over `data`: each entry up to the first
    /// one that does not fit holds the value read for it; that one and all
    /// after it are unchanged.
    pub open spec fn decoded(self, data: Seq<u8>) -> MetricSetView {
        MetricSetView {
            base: self.base,
            metrics: Seq::new(
                self.metrics.len(),
                |i: int|
                    if self.fits_through(i, data.len()) {
                        self.metrics[i].with_value(Some(read_value(self.metrics[i], self.base, data)))
                    } else {
                        self.metrics[i]
                    },
            ),
        }
    }
}

/// A catalog: the entries polled together with one read command, and the
/// first register that the command asks for.
pub struct MetricSet {
    base: u16,
    metrics: Vec<Metric>,
}

impl View for MetricSet {
    type V = MetricSetView;

    closed spec fn view(&self) -> MetricSetView {
        MetricSetView { base: self.base, metrics: self.metrics@.map_values(|m: Metric| m@) }
    }
}

impl MetricSet {
    pub fn new(base: u16, metrics: Vec<Metric>) -> (r: MetricSet)
        ensures
            r@ == (MetricSetView { base, metrics: metrics@.map_values(|m: Metric| m@) }),
    {
        MetricSet { base, metrics }
    }

    pub fn get_base(&self) -> (r: u16)
        ensures
            r == self@.base,
    {
        self.base
    }

    pub fn entries(&self) -> (r: &Vec<Metric>)
        ensures
            r@.map_values(|m: Metric| m@) == self@.metrics,
    {
        &self.metrics
    }

    /// Decodes every entry, in catalog order, out of `data`, a payload that
    /// starts at the catalog's first register. Stops at the first entry whose
    /// bytes do not lie within the payload: the entries before it keep their
    /// new values, it and the rest keep their old ones.
    pub fn read_data(&mut self, data: &[u8]) -> (r: Result<(), MetricReadError>)
        ensures
            final(self)@ == old(self)@.decoded(data@),
            r is Ok <==> old(self)@.fits_through(old(self)@.metrics.len() - 1, data@.len()),
            r is Err ==> r == Err::<(), MetricReadError>(MetricReadError::OutOfBounds),
    {
        let ghost start = self@;
        let ghost target = start.decoded(data@);
        let n = self.metrics.len();
        let base = self.base;
        let mut i: usize = 0;
        while i < n
            invariant
                0 <= i <= n,
                n == self.metrics@.len(),
                n == start.metrics.len(),
                base == start.base,
                target == start.decoded(data@),
                start == old(self)@,
                self@.base == start.base,
                start.fits_through(i - 1, data@.len()),
                forall|j: int| 0 <= j < i ==> #[trigger] self@.metrics[j] == target.metrics[j],
                forall|j: int| i <= j < n ==> #[trigger] self@.metrics[j] == start.metrics[j],
            decreases n - i,
        {
            let ghost before = self@;
            assert(before.metrics[i as int] == self.metrics@[i as int]@);
            let res = self.metrics[i].read_data(base, data);
            assert(self@.metrics[i as int] == self.metrics@[i as int]@);
            assert forall|j: int| 0 <= j < n && j != i implies #[trigger] self@.metrics[j]
                == before.metrics[j] by {
                assert(self@.metrics[j] == self.metrics@[j]@);
            }
            if res.is_err() {
                assert(!fits(start.metrics[i as int], start.base, data@.len()));
                assert(target.metrics.len() == n);
                assert(self@.metrics.len() == n);
                assert forall|j: int| 0 <= j < n implies #[trigger] self@.metrics[j]
                    == target.metrics[j] by {
                    if j >= i {
                        assert(!start.fits_through(j, data@.len()));
                        assert(target.metrics[j] == start.metrics[j]);
                        if j == i {
                            assert(self@.metrics[j] == before.metrics[j]);
                        }
                        assert(self@.metrics[j] == start.metrics[j]);
                    }
                }
                assert(self@.metrics =~= target.metrics);
                assert(self@ == target);
                assert(!start.fits_through(n - 1, data@.len()));
                return Err(MetricReadError::OutOfBounds);
            }
            assert(start.fits_through(i as int, data@.len())) by {
                assert forall|j: int| 0 <= j <= i implies fits(#[trigger] start.metrics[j], start.base, data@.len()) by {
                    if j < i {
                        assert(start.fits_through(i - 1, data@.len()));
                    }
                }
            }
            i = i + 1;
        }
        assert(self@.metrics =~= target.metrics);
        assert(self@ == target);
        Ok(())
    }

    /// Whether the catalog can build its read command: every entry starts at or
    /// after the first register, there is at least one entry, and the register
    /// count fits in 16 bits.
    pub fn is_command_ready(&self) -> (r: bool)
        ensures
            r == self@.command_ready(),
    {
        let n = self.metrics.len();
        if n == 0 {
            return false;
        }
        let mut i: usize = 0;
        while i < n
            invariant
                i <= n,
                n == self@.metrics.len(),
                forall|j: int| 0 <= j < i ==> self@.base <= #[trigger] self@.metrics[j].base.register,
            decreases n - i,
        {
            assert(self@.metrics[i as int] == self.metrics@[i as int]@);
            if self.metrics[i].get_register() < self.base {
                return false;
            }
            i = i + 1;
        }
        let max = self.highest_register();
        proof {
            lemma_max_register(self@.metrics);
        }
        max - self.base < 0xffff
    }

    /// The highest starting register of the entries.
    fn highest_register(&self) -> (r: u16)
        requires
            self@.metrics.len() > 0,
        ensures
            r == max_register(self@.metrics),
    {
        let n = self.metrics.len();
        let mut max: u16 = self.metrics[0].get_register();
        let mut i: usize = 1;
        assert(self@.metrics[0] == self.metrics@[0]@);
        assert(self@.metrics.take(1) =~= seq![self@.metrics[0]]);
        while i < n
            invariant
                1 <= i <= n,
                n == self@.metrics.len(),
                max == max_register(self@.metrics.take(i as int)),
            decreases n - i,
        {
            let reg = self.metrics[i].get_register();
            assert(self@.metrics[i as int] == self.metrics@[i as int]@);
            assert(self@.metrics.take(i + 1).drop_last() =~= self@.metrics.take(i as int));
            if reg > max {
                max = reg;
            }
            i = i + 1;
        }
        assert(self@.metrics.take(n as int) =~= self@.metrics);
        max
    }

    /// Builds the command that reads every register of the catalog from
    /// device `addr`: a read of `max_register - base + 1` registers starting
    /// at `base`.
    pub fn get_modbus_command(&self, addr: u8) -> (r: Vec<u8>)
        requires
            self@.command_ready(),
        ensures
            r@ == command_frame(0x03, addr, self@.base, self@.register_count() as u16),
            r@.len() == 8,
    {
        let max = self.highest_register();
        proof {
            lemma_max_register(self@.metrics);
        }
        create_command(Command::ReadMulti, addr, self.base, max - self.base + 1)
    }
}


/// Adding one more entry keeps the first kind of every name already present.
proof fn lemma_first_type_extend(ms: Seq<MetricView>, m: MetricView, n: Seq<char>)
    requires
        has_name(ms, n),
    ensures
        has_name(ms.push(m), n),
        first_type(ms.push(m), n) == first_type(ms, n),
{
    let i = choose|i: int| 0 <= i < ms.len() && #[trigger] ms[i].base.name == n;
    assert(ms.push(m)[i] == ms[i]);
    assert(ms.push(m).drop_last() =~= ms);
}

/// Inserting a name at the first position whose name is not before it keeps a
/// strictly sorted list sorted, when the name is not already there.
proof fn lemma_sorted_insert(ts: Seq<(Seq<char>, MetricType)>, p: int, t: (Seq<char>, MetricType))
    requires
        0 <= p <= ts.len(),
        forall|i: int, j: int| 0 <= i < j < ts.len() ==> name_lt(#[trigger] ts[i].0, #[trigger] ts[j].0),
        forall|q: int| 0 <= q < p ==> name_lt(#[trigger] ts[q].0, t.0),
        p < ts.len() ==> !name_lt(ts[p].0, t.0) && ts[p].0 != t.0,
    ensures
        forall|q: int| 0 <= q < ts.len() ==> #[trigger] ts[q].0 != t.0,
        forall|i: int, j: int|
            0 <= i < j < ts.insert(p, t).len() ==> name_lt(
                #[trigger] ts.insert(p, t)[i].0,
                #[trigger] ts.insert(p, t)[j].0,
            ),
{
    if p < ts.len() {
        lemma_name_lt_total(ts[p].0, t.0);
    }
    assert forall|q: int| p <= q < ts.len() implies name_lt(t.0, #[trigger] ts[q].0) by {
        if q > p {
            lemma_name_lt_transitive(t.0, ts[p].0, ts[q].0);
        }
    }
    assert forall|q: int| 0 <= q < ts.len() implies #[trigger] ts[q].0 != t.0 by {
        lemma_name_lt_total(ts[q].0, t.0);
    }
    let us = ts.insert(p, t);
    assert forall|i: int, j: int| 0 <= i < j < us.len() implies name_lt(
        #[trigger] us[i].0,
        #[trigger] us[j].0,
    ) by {
        if j < p {
            assert(us[i] == ts[i] && us[j] == ts[j]);
        } else if j == p {
            assert(us[i] == ts[i]);
        } else if i < p {
            assert(us[i] == ts[i] && us[j] == ts[j - 1]);
            lemma_name_lt_transitive(ts[i].0, t.0, ts[j - 1].0);
        } else if i == p {
            assert(us[j] == ts[j - 1]);
        } else {
            assert(us[i] == ts[i - 1] && us[j] == ts[j - 1]);
        }
    }
}

/// Two strictly sorted lists of names that hold the same names are equal.
proof fn lemma_sorted_names_unique(a: Seq<Seq<char>>, b: Seq<Seq<char>>)
    requires
        forall|i: int, j: int| 0 <= i < j < a.len() ==> name_lt(#[trigger] a[i], #[trigger] a[j]),
        forall|i: int, j: int| 0 <= i < j < b.len() ==> name_lt(#[trigger] b[i], #[trigger] b[j]),
        forall|i: int| 0 <= i < a.len() ==> b.contains(#[trigger] a[i]),
        forall|i: int| 0 <= i < b.len() ==> a.contains(#[trigger] b[i]),
    ensures
        a == b,
    decreases a.len(),
{
    if a.len() == 0 || b.len() == 0 {
        if a.len() > 0 {
            assert(b.contains(a[0]));
        }
        if b.len() > 0 {
            assert(a.contains(b[0]));
        }
        assert(a =~= b);
    } else {
        assert(b.contains(a[0]));
        assert(a.contains(b[0]));
        let j = choose|j: int| 0 <= j < b.len() && b[j] == a[0];
        let i = choose|i: int| 0 <= i < a.len() && a[i] == b[0];
        lemma_name_lt_total(a[0], b[0]);
        lemma_name_lt_total(a[0], a[0]);
        if j > 0 && i > 0 {
            assert(name_lt(b[0], b[j]));
            assert(name_lt(a[0], a[i]));
        } else if j > 0 {
            assert(name_lt(b[0], b[j]));
        } else if i > 0 {
            assert(name_lt(a[0], a[i]));
        }
        assert(a[0] == b[0]);
        let a1 = a.drop_first();
        let b1 = b.drop_first();
        assert forall|k: int| 0 <= k < a1.len() implies b1.contains(#[trigger] a1[k]) by {
            assert(a1[k] == a[k + 1]);
            assert(b.contains(a[k + 1]));
            let m = choose|m: int| 0 <= m < b.len() && b[m] == a[k + 1];
            assert(name_lt(a[0], a[k + 1]));
            lemma_name_lt_total(a[k + 1], a[k + 1]);
            assert(m != 0);
            assert(b1[m - 1] == b[m]);
        }
        assert forall|k: int| 0 <= k < b1.len() implies a1.contains(#[trigger] b1[k]) by {
            assert(b1[k] == b[k + 1]);
            assert(a.contains(b[k + 1]));
            let m = choose|m: int| 0 <= m < a.len() && a[m] == b[k + 1];
            assert(name_lt(b[0], b[k + 1]));
            lemma_name_lt_total(b[k + 1], b[k + 1]);
            assert(m != 0);
            assert(a1[m - 1] == a[m]);
        }
        assert forall|x: int, y: int| 0 <= x < y < a1.len() implies name_lt(#[trigger] a1[x], #[trigger] a1[y]) by {
            assert(a1[x] == a[x + 1] && a1[y] == a[y + 1]);
        }
        assert forall|x: int, y: int| 0 <= x < y < b1.len() implies name_lt(#[trigger] b1[x], #[trigger] b1[y]) by {
            assert(b1[x] == b[x + 1] && b1[y] == b[y + 1]);
        }
        lemma_sorted_names_unique(a1, b1);
        assert(a =~= seq![a[0]] + a1);
        assert(b =~= seq![b[0]] + b1);
    }
}

/// The names of a listing.
pub open spec fn listed_names(ts: Seq<(Seq<char>, MetricType)>) -> Seq<Seq<char>> {
    ts.map_values(|t: (Seq<char>, MetricType)| t.0)
}

/// The `# TYPE` block of a catalog is determined by its entries: two listings
/// of the same entries are equal, so the rendered text is too.
pub proof fn lemma_type_listing_unique(
    ms: Seq<MetricView>,
    t1: Seq<(Seq<char>, MetricType)>,
    t2: Seq<(Seq<char>, MetricType)>,
)
    requires
        is_type_listing(ms, t1),
        is_type_listing(ms, t2),
    ensures
        t1 == t2,
{
    let a = listed_names(t1);
    let b = listed_names(t2);
    assert forall|i: int, j: int| 0 <= i < j < a.len() implies name_lt(#[trigger] a[i], #[trigger] a[j]) by {
        assert(name_lt(t1[i].0, t1[j].0));
    }
    assert forall|i: int, j: int| 0 <= i < j < b.len() implies name_lt(#[trigger] b[i], #[trigger] b[j]) by {
        assert(name_lt(t2[i].0, t2[j].0));
    }
    assert forall|i: int| 0 <= i < a.len() implies b.contains(#[trigger] a[i]) by {
        assert(has_name(ms, t1[i].0));
        let m = choose|m: int| 0 <= m < ms.len() && #[trigger] ms[m].base.name == t1[i].0;
        let k = choose|k: int| 0 <= k < t2.len() && #[trigger] t2[k].0 == #[trigger] ms[m].base.name;
        assert(b[k] == a[i]);
    }
    assert forall|i: int| 0 <= i < b.len() implies a.contains(#[trigger] b[i]) by {
        assert(has_name(ms, t2[i].0));
        let m = choose|m: int| 0 <= m < ms.len() && #[trigger] ms[m].base.name == t2[i].0;
        let k = choose|k: int| 0 <= k < t1.len() && #[trigger] t1[k].0 == #[trigger] ms[m].base.name;
        assert(a[k] == b[i]);
    }
    lemma_sorted_names_unique(a, b);
    assert forall|k: int| 0 <= k < t1.len() implies t1[k] == t2[k] by {
        assert(a[k] == b[k]);
    }
    assert(t1 =~= t2);
}

impl MetricSet {
    /// The distinct metric names with the kind of each name's first entry,
    /// sorted by name.
    fn gen_types_list(&self) -> (r: Vec<(String, MetricType)>)
        ensures
            is_type_listing(self@.metrics, types_view(r@)),
    {
        let mut types: Vec<(String, MetricType)> = Vec::new();
        let n = self.metrics.len();
        let mut i: usize = 0;
        assert(types_view(types@) =~= Seq::<(Seq<char>, MetricType)>::empty());
        while i < n
            invariant
                i <= n,
                n == self@.metrics.len(),
                is_type_listing(self@.metrics.take(i as int), types_view(types@)),
            decreases n - i,
        {
            let name = self.metrics[i].get_name();
            let kind = self.metrics[i].get_type();
            let ghost ms = self@.metrics.take(i as int);
            let ghost m = self@.metrics[i as int];
            let ghost ts = types_view(types@);
            assert(m == self.metrics@[i as int]@);
            assert(self@.metrics.take(i + 1) =~= ms.push(m));
            let mut p: usize = 0;
            while p < types.len() && name_before(types[p].0.as_str(), name.as_str())
                invariant
                    p <= types@.len(),
                    ts == types_view(types@),
                    forall|q: int| 0 <= q < p ==> name_lt(#[trigger] ts[q].0, name@),
                decreases types.len() - p,
            {
                p = p + 1;
            }
            if p < types.len() && types[p].0 == name {
                proof {
                    assert forall|k: int| 0 <= k < ts.len() implies has_name(ms.push(m), #[trigger] ts[k].0)
                        && ts[k].1 == first_type(ms.push(m), ts[k].0) by {
                        lemma_first_type_extend(ms, m, ts[k].0);
                    }
                    assert forall|j: int| 0 <= j < ms.push(m).len() implies exists|k: int|
                        0 <= k < ts.len() && #[trigger] ts[k].0 == #[trigger] ms.push(m)[j].base.name by {
                        if j < ms.len() {
                            assert(ms.push(m)[j] == ms[j]);
                            let k = choose|k: int| 0 <= k < ts.len() && #[trigger] ts[k].0 == #[trigger] ms[j].base.name;
                            assert(ts[k].0 == ms.push(m)[j].base.name);
                        } else {
                            assert(ts[p as int].0 == ms.push(m)[j].base.name);
                        }
                    }
                }
            } else {
                let ghost t = (name@, kind);
                proof {
                    lemma_sorted_insert(ts, p as int, t);
                    assert(!has_name(ms, name@)) by {
                        if has_name(ms, name@) {
                            let j = choose|j: int| 0 <= j < ms.len() && #[trigger] ms[j].base.name == name@;
                            let k = choose|k: int| 0 <= k < ts.len() && #[trigger] ts[k].0 == #[trigger] ms[j].base.name;
                        }
                    }
                }
                types.insert(p, (name, kind));
                proof {
                    let us = types_view(types@);
                    assert(us =~= ts.insert(p as int, t));
                    let ms2 = ms.push(m);
                    assert(ms2.drop_last() =~= ms);
                    assert(ms2[ms.len() as int] == m);
                    assert(has_name(ms2, name@));
                    assert forall|k: int| 0 <= k < us.len() implies has_name(ms2, #[trigger] us[k].0)
                        && us[k].1 == first_type(ms2, us[k].0) by {
                        if k < p {
                            assert(us[k] == ts[k]);
                            lemma_first_type_extend(ms, m, ts[k].0);
                        } else if k > p {
                            assert(us[k] == ts[k - 1]);
                            lemma_first_type_extend(ms, m, ts[k - 1].0);
                        }
                    }
                    assert forall|j: int| 0 <= j < ms2.len() implies exists|k: int|
                        0 <= k < us.len() && #[trigger] us[k].0 == #[trigger] ms2[j].base.name by {
                        if j < ms.len() {
                            assert(ms2[j] == ms[j]);
                            let k = choose|k: int| 0 <= k < ts.len() && #[trigger] ts[k].0 == #[trigger] ms[j].base.name;
                            if k < p {
                                assert(us[k] == ts[k]);
                            } else {
                                assert(us[k + 1] == ts[k]);
                            }
                        } else {
                            assert(us[p as int].0 == ms2[j].base.name);
                        }
                    }
                }
            }
            i = i + 1;
        }
        assert(self@.metrics.take(n as int) =~= self@.metrics);
        types
    }

    /// The catalog as exposition text: one `# TYPE` line per distinct name,
    /// sorted by name, then one line per entry in catalog order.
    pub fn render(&self) -> (r: String)
        ensures
            exists|ts: Seq<(Seq<char>, MetricType)>|
                is_type_listing(self@.metrics, ts) && r@ == type_lines(ts) + metric_lines(self@.metrics),
    {
        let types = self.gen_types_list();
        let mut out = String::new();
        let mut i: usize = 0;
        while i < types.len()
            invariant
                i <= types@.len(),
                out@ == type_lines(types_view(types@).take(i as int)),
            decreases types.len() - i,
        {
            proof {
                reveal_strlit("# TYPE ");
                reveal_strlit(" ");
                reveal_strlit("\n");
            }
            let ghost prev = out@;
            out.append("# TYPE ");
            out.append(types[i].0.as_str());
            out.append(" ");
            out.append(types[i].1.as_str());
            out.append("\n");
            assert(types_view(types@).take(i + 1).drop_last() =~= types_view(types@).take(i as int));
            assert(out@ =~= type_lines(types_view(types@).take(i + 1)));
            i = i + 1;
        }
        assert(types_view(types@).take(types@.len() as int) =~= types_view(types@));
        let ghost head = out@;
        let n = self.metrics.len();
        let mut j: usize = 0;
        while j < n
            invariant
                j <= n,
                n == self@.metrics.len(),
                out@ == head + metric_lines(self@.metrics.take(j as int)),
            decreases n - j,
        {
            let ghost prev = out@;
            self.metrics[j].render_line(&mut out);
            assert(self@.metrics[j as int] == self.metrics@[j as int]@);
            assert(self@.metrics.take(j + 1).drop_last() =~= self@.metrics.take(j as int));
            assert(out@ =~= head + metric_lines(self@.metrics.take(j + 1)));
            j = j + 1;
        }
        assert(self@.metrics.take(n as int) =~= self@.metrics);
        out
    }
}

} // verus!
