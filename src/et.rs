//! The register catalogs of the ET inverter family: inverter, battery and
//! meter telemetry.
use vstd::prelude::*;

use crate::definitions::{
    identities, layout, lemma_kinds_agree_by, lemma_prefix_cancel, metric_prefix, Encoding, MetricType, Current, Decimal, Energy, FloatEnergy, Frequency, Integer, LargeEnergy, LargePower, MetricSet,
    Percentage, Power, Temperature, Voltage,
};

verus! {

pub const METRIC_VOLTAGE_PV: &'static str = "voltage_pv_volts";
pub const METRIC_CURRENT_PV: &'static str = "current_pv_amperes";
pub const METRIC_POWER_PV: &'static str = "power_pv_watts";
pub const METRIC_VOLTAGE_GRID: &'static str = "voltage_grid_volts";
pub const METRIC_CURRENT_GRID: &'static str = "current_grid_amperes";
pub const METRIC_POWER_GRID: &'static str = "power_grid_watts";
pub const METRIC_FREQUENCY_GRID: &'static str = "frequency_grid_hertz";
pub const METRIC_VOLTAGE_BACKUP: &'static str = "voltage_backup_volts";
pub const METRIC_CURRENT_BACKUP: &'static str = "current_backup_amperes";
pub const METRIC_POWER_BACKUP: &'static str = "power_backup_watts";
pub const METRIC_FREQUENCY_BACKUP: &'static str = "frequency_backup_hertz";
pub const METRIC_LOAD: &'static str = "load_watts";
pub const METRIC_TEMP: &'static str = "temperature_celsius";
pub const METRIC_INT_VOLTAGE: &'static str = "voltage_internal_volts";
pub const METRIC_ACTIVE_POWER: &'static str = "active_power_watts";
pub const METRIC_METER_ACTIVE_POWER: &'static str = "meter_active_power_watts";
pub const METRIC_METER_REACTIVE_POWER: &'static str = "meter_reactive_power_var";
pub const METRIC_METER_APPARENT_POWER: &'static str = "meter_apparent_power_va";
pub const METRIC_VOLTAGE_METER: &'static str = "voltage_meter_volts";
pub const METRIC_CURRENT_METER: &'static str = "current_meter_amperes";
pub const METRIC_POWER_FACTOR: &'static str = "power_factor";

/// The inverter telemetry: photovoltaic strings, grid and backup phases,
/// loads, temperatures, battery power and energy counters.
pub fn base_metrics() -> (r: MetricSet)
    ensures
        r@.base == 35100,
        r@.metrics.len() == 58,
        r@.command_ready(),
        r@.all_absent(),
        r@.kinds_agree(),
        identities(r@.metrics) == seq![
            (metric_prefix() + METRIC_VOLTAGE_PV@, seq![("mppt"@, "pv1"@)]),
            (metric_prefix() + METRIC_CURRENT_PV@, seq![("mppt"@, "pv1"@)]),
            (metric_prefix() + METRIC_POWER_PV@, seq![("mppt"@, "pv1"@)]),
            (metric_prefix() + METRIC_VOLTAGE_PV@, seq![("mppt"@, "pv2"@)]),
            (metric_prefix() + METRIC_CURRENT_PV@, seq![("mppt"@, "pv2"@)]),
            (metric_prefix() + METRIC_POWER_PV@, seq![("mppt"@, "pv2"@)]),
            (metric_prefix() + METRIC_VOLTAGE_PV@, seq![("mppt"@, "pv3"@)]),
            (metric_prefix() + METRIC_CURRENT_PV@, seq![("mppt"@, "pv3"@)]),
            (metric_prefix() + METRIC_POWER_PV@, seq![("mppt"@, "pv3"@)]),
            (metric_prefix() + METRIC_VOLTAGE_PV@, seq![("mppt"@, "pv4"@)]),
            (metric_prefix() + METRIC_CURRENT_PV@, seq![("mppt"@, "pv4"@)]),
            (metric_prefix() + METRIC_POWER_PV@, seq![("mppt"@, "pv4"@)]),
            (metric_prefix() + METRIC_VOLTAGE_GRID@, seq![("phase"@, "L1"@)]),
            (metric_prefix() + METRIC_CURRENT_GRID@, seq![("phase"@, "L1"@)]),
            (metric_prefix() + METRIC_FREQUENCY_GRID@, seq![("phase"@, "L1"@)]),
            (metric_prefix() + METRIC_POWER_GRID@, seq![("phase"@, "L1"@)]),
            (metric_prefix() + METRIC_VOLTAGE_GRID@, seq![("phase"@, "L2"@)]),
            (metric_prefix() + METRIC_CURRENT_GRID@, seq![("phase"@, "L2"@)]),
            (metric_prefix() + METRIC_FREQUENCY_GRID@, seq![("phase"@, "L2"@)]),
            (metric_prefix() + METRIC_POWER_GRID@, seq![("phase"@, "L2"@)]),
            (metric_prefix() + METRIC_VOLTAGE_GRID@, seq![("phase"@, "L3"@)]),
            (metric_prefix() + METRIC_CURRENT_GRID@, seq![("phase"@, "L3"@)]),
            (metric_prefix() + METRIC_FREQUENCY_GRID@, seq![("phase"@, "L3"@)]),
            (metric_prefix() + METRIC_POWER_GRID@, seq![("phase"@, "L3"@)]),
            (metric_prefix() + "inverter_power_total_watts"@, seq![("none"@, "none"@)]),
            (metric_prefix() + "active_power_total_watts"@, seq![("none"@, "none"@)]),
            (metric_prefix() + METRIC_VOLTAGE_BACKUP@, seq![("phase"@, "L1"@)]),
            (metric_prefix() + METRIC_CURRENT_BACKUP@, seq![("phase"@, "L1"@)]),
            (metric_prefix() + METRIC_FREQUENCY_BACKUP@, seq![("phase"@, "L1"@)]),
            (metric_prefix() + METRIC_POWER_BACKUP@, seq![("phase"@, "L1"@)]),
            (metric_prefix() + METRIC_VOLTAGE_BACKUP@, seq![("phase"@, "L2"@)]),
            (metric_prefix() + METRIC_CURRENT_BACKUP@, seq![("phase"@, "L2"@)]),
            (metric_prefix() + METRIC_FREQUENCY_BACKUP@, seq![("phase"@, "L2"@)]),
            (metric_prefix() + METRIC_POWER_BACKUP@, seq![("phase"@, "L2"@)]),
            (metric_prefix() + METRIC_VOLTAGE_BACKUP@, seq![("phase"@, "L3"@)]),
            (metric_prefix() + METRIC_CURRENT_BACKUP@, seq![("phase"@, "L3"@)]),
            (metric_prefix() + METRIC_FREQUENCY_BACKUP@, seq![("phase"@, "L3"@)]),
            (metric_prefix() + METRIC_POWER_BACKUP@, seq![("phase"@, "L3"@)]),
            (metric_prefix() + METRIC_LOAD@, seq![("phase"@, "L1"@)]),
            (metric_prefix() + METRIC_LOAD@, seq![("phase"@, "L2"@)]),
            (metric_prefix() + METRIC_LOAD@, seq![("phase"@, "L3"@)]),
            (metric_prefix() + METRIC_LOAD@, seq![("type"@, "Backup"@)]),
            (metric_prefix() + METRIC_LOAD@, seq![("type"@, "Total"@)]),
            (metric_prefix() + "backup_utilization_ratio"@, seq![("none"@, "none"@)]),
            (metric_prefix() + METRIC_TEMP@, seq![("sensor"@, "Air"@)]),
            (metric_prefix() + METRIC_TEMP@, seq![("sensor"@, "Module"@)]),
            (metric_prefix() + METRIC_TEMP@, seq![("sensor"@, "Radiator"@)]),
            (metric_prefix() + METRIC_INT_VOLTAGE@, seq![("sensor"@, "Bus"@)]),
            (metric_prefix() + METRIC_INT_VOLTAGE@, seq![("sensor"@, "NBus"@)]),
            (metric_prefix() + "voltage_battery_volts"@, seq![("none"@, "none"@)]),
            (metric_prefix() + "current_battery_volts"@, seq![("string"@, "Battery"@)]),
            (metric_prefix() + "power_battery_watts"@, seq![("none"@, "none"@)]),
            (metric_prefix() + "pv_generation_total"@, seq![("timeframe"@, "all"@)]),
            (metric_prefix() + "pv_generation_total"@, seq![("timeframe"@, "today"@)]),
            (metric_prefix() + "pv_export_total"@, seq![("timeframe"@, "all"@)]),
            (metric_prefix() + "pv_export_total"@, seq![("timeframe"@, "today"@)]),
            (metric_prefix() + "energy_import_total"@, seq![("timeframe"@, "all"@)]),
            (metric_prefix() + "energy_import_total"@, seq![("timeframe"@, "today"@)]),
        ],
        layout(r@.metrics) == seq![
            (35103u16, MetricType::Gauge, Encoding::Tenths16),
            (35104, MetricType::Gauge, Encoding::Tenths16),
            (35105, MetricType::Gauge, Encoding::Signed32),
            (35107, MetricType::Gauge, Encoding::Tenths16),
            (35108, MetricType::Gauge, Encoding::Tenths16),
            (35109, MetricType::Gauge, Encoding::Signed32),
            (35111, MetricType::Gauge, Encoding::Tenths16),
            (35112, MetricType::Gauge, Encoding::Tenths16),
            (35113, MetricType::Gauge, Encoding::Signed32),
            (35115, MetricType::Gauge, Encoding::Tenths16),
            (35116, MetricType::Gauge, Encoding::Tenths16),
            (35117, MetricType::Gauge, Encoding::Signed32),
            (35121, MetricType::Gauge, Encoding::Tenths16),
            (35122, MetricType::Gauge, Encoding::Tenths16),
            (35123, MetricType::Gauge, Encoding::Hundredths16),
            (35125, MetricType::Gauge, Encoding::Signed16),
            (35126, MetricType::Gauge, Encoding::Tenths16),
            (35127, MetricType::Gauge, Encoding::Tenths16),
            (35128, MetricType::Gauge, Encoding::Hundredths16),
            (35130, MetricType::Gauge, Encoding::Signed16),
            (35131, MetricType::Gauge, Encoding::Tenths16),
            (35132, MetricType::Gauge, Encoding::Tenths16),
            (35133, MetricType::Gauge, Encoding::Hundredths16),
            (35135, MetricType::Gauge, Encoding::Signed16),
            (35138, MetricType::Gauge, Encoding::Signed16),
            (35140, MetricType::Gauge, Encoding::Signed16),
            (35145, MetricType::Gauge, Encoding::Tenths16),
            (35146, MetricType::Gauge, Encoding::Tenths16),
            (35147, MetricType::Gauge, Encoding::Hundredths16),
            (35150, MetricType::Gauge, Encoding::Signed16),
            (35151, MetricType::Gauge, Encoding::Tenths16),
            (35152, MetricType::Gauge, Encoding::Tenths16),
            (35153, MetricType::Gauge, Encoding::Hundredths16),
            (35156, MetricType::Gauge, Encoding::Signed16),
            (35157, MetricType::Gauge, Encoding::Tenths16),
            (35158, MetricType::Gauge, Encoding::Tenths16),
            (35159, MetricType::Gauge, Encoding::Hundredths16),
            (35162, MetricType::Gauge, Encoding::Signed16),
            (35164, MetricType::Gauge, Encoding::Signed16),
            (35166, MetricType::Gauge, Encoding::Signed16),
            (35168, MetricType::Gauge, Encoding::Signed16),
            (35170, MetricType::Gauge, Encoding::Signed16),
            (35172, MetricType::Gauge, Encoding::Signed16),
            (35173, MetricType::Gauge, Encoding::Unsigned16),
            (35174, MetricType::Gauge, Encoding::Tenths16),
            (35175, MetricType::Gauge, Encoding::Tenths16),
            (35176, MetricType::Gauge, Encoding::Tenths16),
            (35178, MetricType::Gauge, Encoding::Tenths16),
            (35179, MetricType::Gauge, Encoding::Tenths16),
            (35180, MetricType::Gauge, Encoding::Tenths16),
            (35181, MetricType::Gauge, Encoding::Tenths16),
            (35182, MetricType::Gauge, Encoding::Signed32),
            (35191, MetricType::Counter, Encoding::Tenths32),
            (35193, MetricType::Counter, Encoding::Tenths32),
            (35195, MetricType::Counter, Encoding::Tenths32),
            (35199, MetricType::Counter, Encoding::Tenths16),
            (35200, MetricType::Counter, Encoding::Tenths16),
            (35202, MetricType::Counter, Encoding::Tenths16),
        ],
{
    let metrics = vec![
        // ignore the first three words, they're some timestamp
        Voltage::easy(35103, METRIC_VOLTAGE_PV, "mppt", "pv1"),
        Current::easy(35104, METRIC_CURRENT_PV, "mppt", "pv1"),
        LargePower::easy(35105, METRIC_POWER_PV, "mppt", "pv1"),
        Voltage::easy(35107, METRIC_VOLTAGE_PV, "mppt", "pv2"),
        Current::easy(35108, METRIC_CURRENT_PV, "mppt", "pv2"),
        LargePower::easy(35109, METRIC_POWER_PV, "mppt", "pv2"),
        Voltage::easy(35111, METRIC_VOLTAGE_PV, "mppt", "pv3"),
        Current::easy(35112, METRIC_CURRENT_PV, "mppt", "pv3"),
        LargePower::easy(35113, METRIC_POWER_PV, "mppt", "pv3"),
        Voltage::easy(35115, METRIC_VOLTAGE_PV, "mppt", "pv4"),
        Current::easy(35116, METRIC_CURRENT_PV, "mppt", "pv4"),
        LargePower::easy(35117, METRIC_POWER_PV, "mppt", "pv4"),
        Voltage::easy(35121, METRIC_VOLTAGE_GRID, "phase", "L1"),
        Current::easy(35122, METRIC_CURRENT_GRID, "phase", "L1"),
        Frequency::easy(35123, METRIC_FREQUENCY_GRID, "phase", "L1"),
        Power::easy(35125, METRIC_POWER_GRID, "phase", "L1"),
        Voltage::easy(35126, METRIC_VOLTAGE_GRID, "phase", "L2"),
        Current::easy(35127, METRIC_CURRENT_GRID, "phase", "L2"),
        Frequency::easy(35128, METRIC_FREQUENCY_GRID, "phase", "L2"),
        Power::easy(35130, METRIC_POWER_GRID, "phase", "L2"),
        Voltage::easy(35131, METRIC_VOLTAGE_GRID, "phase", "L3"),
        Current::easy(35132, METRIC_CURRENT_GRID, "phase", "L3"),
        Frequency::easy(35133, METRIC_FREQUENCY_GRID, "phase", "L3"),
        Power::easy(35135, METRIC_POWER_GRID, "phase", "L3"),
        Power::easy(35138, "inverter_power_total_watts", "none", "none"),
        Power::easy(35140, "active_power_total_watts", "none", "none"),
        Voltage::easy(35145, METRIC_VOLTAGE_BACKUP, "phase", "L1"),
        Current::easy(35146, METRIC_CURRENT_BACKUP, "phase", "L1"),
        Frequency::easy(35147, METRIC_FREQUENCY_BACKUP, "phase", "L1"),
        Power::easy(35150, METRIC_POWER_BACKUP, "phase", "L1"),
        Voltage::easy(35151, METRIC_VOLTAGE_BACKUP, "phase", "L2"),
        Current::easy(35152, METRIC_CURRENT_BACKUP, "phase", "L2"),
        Frequency::easy(35153, METRIC_FREQUENCY_BACKUP, "phase", "L2"),
        Power::easy(35156, METRIC_POWER_BACKUP, "phase", "L2"),
        Voltage::easy(35157, METRIC_VOLTAGE_BACKUP, "phase", "L3"),
        Current::easy(35158, METRIC_CURRENT_BACKUP, "phase", "L3"),
        Frequency::easy(35159, METRIC_FREQUENCY_BACKUP, "phase", "L3"),
        Power::easy(35162, METRIC_POWER_BACKUP, "phase", "L3"),
        Power::easy(35164, METRIC_LOAD, "phase", "L1"),
        Power::easy(35166, METRIC_LOAD, "phase", "L2"),
        Power::easy(35168, METRIC_LOAD, "phase", "L3"),
        Power::easy(35170, METRIC_LOAD, "type", "Backup"),
        Power::easy(35172, METRIC_LOAD, "type", "Total"),
        Percentage::easy(35173, "backup_utilization_ratio", "none", "none"),
        Temperature::easy(35174, METRIC_TEMP, "sensor", "Air"),
        Temperature::easy(35175, METRIC_TEMP, "sensor", "Module"),
        Temperature::easy(35176, METRIC_TEMP, "sensor", "Radiator"),
        Voltage::easy(35178, METRIC_INT_VOLTAGE, "sensor", "Bus"),
        Voltage::easy(35179, METRIC_INT_VOLTAGE, "sensor", "NBus"),
        Voltage::easy(35180, "voltage_battery_volts", "none", "none"),
        Current::easy(35181, "current_battery_volts", "string", "Battery"),
        // two-word value
        LargePower::easy(35182, "power_battery_watts", "none", "none"),
        // It seems those counters consist of two words
        LargeEnergy::easy(35191, "pv_generation_total", "timeframe", "all"),
        LargeEnergy::easy(35193, "pv_generation_total", "timeframe", "today"),
        LargeEnergy::easy(35195, "pv_export_total", "timeframe", "all"),
        // 35197: Total hours
        Energy::easy(35199, "pv_export_total", "timeframe", "today"),
        // Two-word counter
        Energy::easy(35200, "energy_import_total", "timeframe", "all"),
        Energy::easy(35202, "energy_import_total", "timeframe", "today"),
    ];
    let r = MetricSet::new(35100, metrics);
    proof {
        reveal_strlit("voltage_pv_volts");
        reveal_strlit("current_pv_amperes");
        reveal_strlit("power_pv_watts");
        reveal_strlit("voltage_grid_volts");
        reveal_strlit("current_grid_amperes");
        reveal_strlit("frequency_grid_hertz");
        reveal_strlit("power_grid_watts");
        reveal_strlit("inverter_power_total_watts");
        reveal_strlit("active_power_total_watts");
        reveal_strlit("voltage_backup_volts");
        reveal_strlit("current_backup_amperes");
        reveal_strlit("frequency_backup_hertz");
        reveal_strlit("power_backup_watts");
        reveal_strlit("load_watts");
        reveal_strlit("backup_utilization_ratio");
        reveal_strlit("temperature_celsius");
        reveal_strlit("voltage_internal_volts");
        reveal_strlit("voltage_battery_volts");
        reveal_strlit("current_battery_volts");
        reveal_strlit("power_battery_watts");
        reveal_strlit("pv_generation_total");
        reveal_strlit("pv_export_total");
        reveal_strlit("energy_import_total");
        let set = r@;
        // each entry's kind follows from its name alone
        let kind_of = |n: Seq<char>|
            if n == metric_prefix() + "pv_generation_total"@
                || n == metric_prefix() + "pv_export_total"@
                || n == metric_prefix() + "energy_import_total"@ {
                MetricType::Counter
            } else {
                MetricType::Gauge
            };
        assert forall|i: int| 0 <= i < set.metrics.len() implies #[trigger] set.metrics[i].base.metric_type
            == kind_of(set.metrics[i].base.name) by {
            assert(set.metrics[i].base.name =~= metric_prefix() + set.metrics[i].base.name.skip(7));
            lemma_prefix_cancel(set.metrics[i].base.name.skip(7), "pv_generation_total"@);
            assert("pv_generation_total"@[0] == 'p' && "pv_generation_total"@[1] == 'v');
            lemma_prefix_cancel(set.metrics[i].base.name.skip(7), "pv_export_total"@);
            assert("pv_export_total"@[0] == 'p' && "pv_export_total"@[1] == 'v');
            lemma_prefix_cancel(set.metrics[i].base.name.skip(7), "energy_import_total"@);
            assert("energy_import_total"@[0] == 'e' && "energy_import_total"@[1] == 'n');
        }
        lemma_kinds_agree_by(set, kind_of);
    }
    r
}

/// The battery telemetry: management-system state, limits, health and
/// cell extremes.
pub fn battery_metrics() -> (r: MetricSet)
    ensures
        r@.base == 37000,
        r@.metrics.len() == 23,
        r@.command_ready(),
        r@.all_absent(),
        r@.kinds_agree(),
        identities(r@.metrics) == seq![
            (metric_prefix() + "battery_bms"@, seq![("none"@, "none"@)]),
            (metric_prefix() + "battery_index"@, seq![("none"@, "none"@)]),
            (metric_prefix() + "battery_status"@, seq![("none"@, "none"@)]),
            (metric_prefix() + METRIC_TEMP@, seq![("sensor"@, "Battery"@)]),
            (metric_prefix() + "battery_current_limit_amperes"@, seq![("type"@, "Charge"@)]),
            (metric_prefix() + "battery_current_limit_amperes"@, seq![("type"@, "Discharge"@)]),
            (metric_prefix() + "battery_error"@, seq![("side"@, "L"@)]),
            (metric_prefix() + "battery_state_ratio"@, seq![("type"@, "State of Charge"@)]),
            (metric_prefix() + "battery_state_ratio"@, seq![("type"@, "State of Health"@)]),
            (metric_prefix() + "battery_modules"@, seq![("none"@, "none"@)]),
            (metric_prefix() + "battery_warning"@, seq![("side"@, "L"@)]),
            (metric_prefix() + "battery_error"@, seq![("side"@, "H"@)]),
            (metric_prefix() + "battery_warning"@, seq![("side"@, "H"@)]),
            (metric_prefix() + "battery_version"@, seq![("part"@, "SW"@)]),
            (metric_prefix() + "battery_version"@, seq![("part"@, "HW"@)]),
            (metric_prefix() + "battery_cell_temp_id"@, seq![("type"@, "Max"@)]),
            (metric_prefix() + "battery_cell_temp_id"@, seq![("type"@, "Min"@)]),
            (metric_prefix() + "battery_cell_voltage_id"@, seq![("type"@, "Max"@)]),
            (metric_prefix() + "battery_cell_voltage_id"@, seq![("type"@, "Min"@)]),
            (metric_prefix() + "battery_cell_temp_celsius"@, seq![("type"@, "Max"@)]),
            (metric_prefix() + "battery_cell_temp_celsius"@, seq![("type"@, "Min"@)]),
            (metric_prefix() + "battery_cell_voltage_volts"@, seq![("type"@, "Max"@)]),
            (metric_prefix() + "battery_cell_voltage_volts"@, seq![("type"@, "Min"@)]),
        ],
        layout(r@.metrics) == seq![
            (37000u16, MetricType::Counter, Encoding::Signed16),
            (37001, MetricType::Counter, Encoding::Signed16),
            (37002, MetricType::Counter, Encoding::Signed16),
            (37003, MetricType::Gauge, Encoding::Tenths16),
            (37004, MetricType::Counter, Encoding::Signed16),
            (37005, MetricType::Counter, Encoding::Signed16),
            (37006, MetricType::Counter, Encoding::Signed16),
            (37007, MetricType::Gauge, Encoding::Unsigned16),
            (37008, MetricType::Gauge, Encoding::Unsigned16),
            (37009, MetricType::Counter, Encoding::Signed16),
            (37010, MetricType::Counter, Encoding::Signed16),
            (37011, MetricType::Counter, Encoding::Signed16),
            (37013, MetricType::Counter, Encoding::Signed16),
            (37014, MetricType::Counter, Encoding::Signed16),
            (37015, MetricType::Counter, Encoding::Signed16),
            (37016, MetricType::Counter, Encoding::Signed16),
            (37017, MetricType::Counter, Encoding::Signed16),
            (37018, MetricType::Counter, Encoding::Signed16),
            (37019, MetricType::Counter, Encoding::Signed16),
            (37020, MetricType::Gauge, Encoding::Tenths16),
            (37021, MetricType::Gauge, Encoding::Tenths16),
            (37022, MetricType::Gauge, Encoding::Tenths16),
            (37023, MetricType::Gauge, Encoding::Tenths16),
        ],
{
    let metrics = vec![
        Integer::easy(37000, "battery_bms", "none", "none"),
        Integer::easy(37001, "battery_index", "none", "none"),
        Integer::easy(37002, "battery_status", "none", "none"),
        Temperature::easy(37003, METRIC_TEMP, "sensor", "Battery"),
        Integer::easy(37004, "battery_current_limit_amperes", "type", "Charge"),
        Integer::easy(37005, "battery_current_limit_amperes", "type", "Discharge"),
        Integer::easy(37006, "battery_error", "side", "L"),
        Percentage::easy(37007, "battery_state_ratio", "type", "State of Charge"),
        Percentage::easy(37008, "battery_state_ratio", "type", "State of Health"),
        Integer::easy(37009, "battery_modules", "none", "none"),
        Integer::easy(37010, "battery_warning", "side", "L"),
        Integer::easy(37011, "battery_error", "side", "H"),
        Integer::easy(37013, "battery_warning", "side", "H"),
        Integer::easy(37014, "battery_version", "part", "SW"),
        Integer::easy(37015, "battery_version", "part", "HW"),
        Integer::easy(37016, "battery_cell_temp_id", "type", "Max"),
        Integer::easy(37017, "battery_cell_temp_id", "type", "Min"),
        Integer::easy(37018, "battery_cell_voltage_id", "type", "Max"),
        Integer::easy(37019, "battery_cell_voltage_id", "type", "Min"),
        Temperature::easy(37020, "battery_cell_temp_celsius", "type", "Max"),
        Temperature::easy(37021, "battery_cell_temp_celsius", "type", "Min"),
        Voltage::easy(37022, "battery_cell_voltage_volts", "type", "Max"),
        Voltage::easy(37023, "battery_cell_voltage_volts", "type", "Min"),
    ];
    let r = MetricSet::new(37000, metrics);
    proof {
        reveal_strlit("battery_bms");
        reveal_strlit("battery_index");
        reveal_strlit("battery_status");
        reveal_strlit("temperature_celsius");
        reveal_strlit("battery_current_limit_amperes");
        reveal_strlit("battery_error");
        reveal_strlit("battery_state_ratio");
        reveal_strlit("battery_modules");
        reveal_strlit("battery_warning");
        reveal_strlit("battery_version");
        reveal_strlit("battery_cell_temp_id");
        reveal_strlit("battery_cell_voltage_id");
        reveal_strlit("battery_cell_temp_celsius");
        reveal_strlit("battery_cell_voltage_volts");
        let set = r@;
        // each entry's kind follows from its name alone
        let kind_of = |n: Seq<char>|
            if n == metric_prefix() + "temperature_celsius"@
                || n == metric_prefix() + "battery_state_ratio"@
                || n == metric_prefix() + "battery_cell_temp_celsius"@
                || n == metric_prefix() + "battery_cell_voltage_volts"@ {
                MetricType::Gauge
            } else {
                MetricType::Counter
            };
        assert forall|i: int| 0 <= i < set.metrics.len() implies #[trigger] set.metrics[i].base.metric_type
            == kind_of(set.metrics[i].base.name) by {
            assert(set.metrics[i].base.name =~= metric_prefix() + set.metrics[i].base.name.skip(7));
            lemma_prefix_cancel(set.metrics[i].base.name.skip(7), "temperature_celsius"@);
            assert("temperature_celsius"@[0] == 't' && "temperature_celsius"@[1] == 'e');
            lemma_prefix_cancel(set.metrics[i].base.name.skip(7), "battery_state_ratio"@);
            assert("battery_state_ratio"@[0] == 'b' && "battery_state_ratio"@[1] == 'a');
            lemma_prefix_cancel(set.metrics[i].base.name.skip(7), "battery_cell_temp_celsius"@);
            assert("battery_cell_temp_celsius"@[0] == 'b' && "battery_cell_temp_celsius"@[1] == 'a');
            lemma_prefix_cancel(set.metrics[i].base.name.skip(7), "battery_cell_voltage_volts"@);
            assert("battery_cell_voltage_volts"@[0] == 'b' && "battery_cell_voltage_volts"@[1] == 'a');
        }
        lemma_kinds_agree_by(set, kind_of);
    }
    r
}

/// The smart meter telemetry: per-phase power, power factors, energy
/// totals, voltages and currents.
pub fn meter_metrics() -> (r: MetricSet)
    ensures
        r@.base == 36000,
        r@.metrics.len() == 37,
        r@.command_ready(),
        r@.all_absent(),
        r@.kinds_agree(),
        identities(r@.metrics) == seq![
            (metric_prefix() + "commode"@, seq![("none"@, "none"@)]),
            (metric_prefix() + "rssi"@, seq![("none"@, "none"@)]),
            (metric_prefix() + "manufacture_code"@, seq![("none"@, "none"@)]),
            (metric_prefix() + "meter_test_status"@, seq![("none"@, "none"@)]),
            (metric_prefix() + "meter_comm_status"@, seq![("none"@, "none"@)]),
            (metric_prefix() + METRIC_ACTIVE_POWER@, seq![("phase"@, "L1"@)]),
            (metric_prefix() + METRIC_ACTIVE_POWER@, seq![("phase"@, "L2"@)]),
            (metric_prefix() + METRIC_ACTIVE_POWER@, seq![("phase"@, "L3"@)]),
            (metric_prefix() + METRIC_ACTIVE_POWER@, seq![("phase"@, "all"@)]),
            (metric_prefix() + "reactive_power_total_var"@, seq![("phase"@, "all"@)]),
            (metric_prefix() + METRIC_POWER_FACTOR@, seq![("phase"@, "L1"@)]),
            (metric_prefix() + METRIC_POWER_FACTOR@, seq![("phase"@, "L2"@)]),
            (metric_prefix() + METRIC_POWER_FACTOR@, seq![("phase"@, "L3"@)]),
            (metric_prefix() + METRIC_POWER_FACTOR@, seq![("phase"@, "all"@)]),
            (metric_prefix() + "meter_frequency_hertz"@, seq![("none"@, "none"@)]),
            (metric_prefix() + "meter_energy_total_kwh"@, seq![("type"@, "export"@)]),
            (metric_prefix() + "meter_energy_total_kwh"@, seq![("type"@, "import"@)]),
            (metric_prefix() + METRIC_METER_ACTIVE_POWER@, seq![("phase"@, "L1"@)]),
            (metric_prefix() + METRIC_METER_ACTIVE_POWER@, seq![("phase"@, "L2"@)]),
            (metric_prefix() + METRIC_METER_ACTIVE_POWER@, seq![("phase"@, "L3"@)]),
            (metric_prefix() + METRIC_METER_ACTIVE_POWER@, seq![("phase"@, "all"@)]),
            (metric_prefix() + METRIC_METER_REACTIVE_POWER@, seq![("phase"@, "L1"@)]),
            (metric_prefix() + METRIC_METER_REACTIVE_POWER@, seq![("phase"@, "L2"@)]),
            (metric_prefix() + METRIC_METER_REACTIVE_POWER@, seq![("phase"@, "L3"@)]),
            (metric_prefix() + METRIC_METER_REACTIVE_POWER@, seq![("phase"@, "all"@)]),
            (metric_prefix() + METRIC_METER_APPARENT_POWER@, seq![("phase"@, "L1"@)]),
            (metric_prefix() + METRIC_METER_APPARENT_POWER@, seq![("phase"@, "L2"@)]),
            (metric_prefix() + METRIC_METER_APPARENT_POWER@, seq![("phase"@, "L3"@)]),
            (metric_prefix() + METRIC_METER_APPARENT_POWER@, seq![("phase"@, "all"@)]),
            (metric_prefix() + "meter_type"@, seq![("none"@, "none"@)]),
            (metric_prefix() + "meter_sw_version"@, seq![("none"@, "none"@)]),
            (metric_prefix() + METRIC_VOLTAGE_METER@, seq![("phase"@, "L1"@)]),
            (metric_prefix() + METRIC_VOLTAGE_METER@, seq![("phase"@, "L2"@)]),
            (metric_prefix() + METRIC_VOLTAGE_METER@, seq![("phase"@, "L3"@)]),
            (metric_prefix() + METRIC_CURRENT_METER@, seq![("phase"@, "L1"@)]),
            (metric_prefix() + METRIC_CURRENT_METER@, seq![("phase"@, "L2"@)]),
            (metric_prefix() + METRIC_CURRENT_METER@, seq![("phase"@, "L3"@)]),
        ],
        layout(r@.metrics) == seq![
            (36000u16, MetricType::Counter, Encoding::Signed16),
            (36001, MetricType::Counter, Encoding::Signed16),
            (36002, MetricType::Counter, Encoding::Signed16),
            (36003, MetricType::Counter, Encoding::Signed16),
            (36004, MetricType::Counter, Encoding::Signed16),
            (36005, MetricType::Gauge, Encoding::Signed16),
            (36006, MetricType::Gauge, Encoding::Signed16),
            (36007, MetricType::Gauge, Encoding::Signed16),
            (36008, MetricType::Gauge, Encoding::Signed16),
            (36009, MetricType::Gauge, Encoding::Signed16),
            (36010, MetricType::Gauge, Encoding::Hundredths16),
            (36011, MetricType::Gauge, Encoding::Hundredths16),
            (36012, MetricType::Gauge, Encoding::Hundredths16),
            (36013, MetricType::Gauge, Encoding::Hundredths16),
            (36014, MetricType::Gauge, Encoding::Hundredths16),
            (36015, MetricType::Counter, Encoding::Thousandths32),
            (36017, MetricType::Counter, Encoding::Thousandths32),
            (36019, MetricType::Gauge, Encoding::Signed32),
            (36021, MetricType::Gauge, Encoding::Signed32),
            (36023, MetricType::Gauge, Encoding::Signed32),
            (36025, MetricType::Gauge, Encoding::Signed32),
            (36027, MetricType::Gauge, Encoding::Signed32),
            (36029, MetricType::Gauge, Encoding::Signed32),
            (36031, MetricType::Gauge, Encoding::Signed32),
            (36033, MetricType::Gauge, Encoding::Signed32),
            (36035, MetricType::Gauge, Encoding::Signed32),
            (36037, MetricType::Gauge, Encoding::Signed32),
            (36039, MetricType::Gauge, Encoding::Signed32),
            (36041, MetricType::Gauge, Encoding::Signed32),
            (36043, MetricType::Counter, Encoding::Signed16),
            (36044, MetricType::Counter, Encoding::Signed16),
            (36052, MetricType::Gauge, Encoding::Tenths16),
            (36053, MetricType::Gauge, Encoding::Tenths16),
            (36054, MetricType::Gauge, Encoding::Tenths16),
            (36055, MetricType::Gauge, Encoding::Tenths16),
            (36056, MetricType::Gauge, Encoding::Tenths16),
            (36057, MetricType::Gauge, Encoding::Tenths16),
        ],
{
    let metrics = vec![
        Integer::easy(36000, "commode", "none", "none"),
        Integer::easy(36001, "rssi", "none", "none"),
        Integer::easy(36002, "manufacture_code", "none", "none"),
        // 1: correct, 2: reverse, 3: incorrect, 0: not checked
        Integer::easy(36003, "meter_test_status", "none", "none"),
        // 1: OK, 0: NOK
        Integer::easy(36004, "meter_comm_status", "none", "none"),
        Power::easy(36005, METRIC_ACTIVE_POWER, "phase", "L1"),
        Power::easy(36006, METRIC_ACTIVE_POWER, "phase", "L2"),
        Power::easy(36007, METRIC_ACTIVE_POWER, "phase", "L3"),
        Power::easy(36008, METRIC_ACTIVE_POWER, "phase", "all"),
        Power::easy(36009, "reactive_power_total_var", "phase", "all"),
        Decimal::easy(36010, METRIC_POWER_FACTOR, "phase", "L1"),
        Decimal::easy(36011, METRIC_POWER_FACTOR, "phase", "L2"),
        Decimal::easy(36012, METRIC_POWER_FACTOR, "phase", "L3"),
        Decimal::easy(36013, METRIC_POWER_FACTOR, "phase", "all"),
        Frequency::easy(36014, "meter_frequency_hertz", "none", "none"),
        FloatEnergy::easy(36015, "meter_energy_total_kwh", "type", "export"),
        FloatEnergy::easy(36017, "meter_energy_total_kwh", "type", "import"),
        LargePower::easy(36019, METRIC_METER_ACTIVE_POWER, "phase", "L1"),
        LargePower::easy(36021, METRIC_METER_ACTIVE_POWER, "phase", "L2"),
        LargePower::easy(36023, METRIC_METER_ACTIVE_POWER, "phase", "L3"),
        LargePower::easy(36025, METRIC_METER_ACTIVE_POWER, "phase", "all"),
        LargePower::easy(36027, METRIC_METER_REACTIVE_POWER, "phase", "L1"),
        LargePower::easy(36029, METRIC_METER_REACTIVE_POWER, "phase", "L2"),
        LargePower::easy(36031, METRIC_METER_REACTIVE_POWER, "phase", "L3"),
        LargePower::easy(36033, METRIC_METER_REACTIVE_POWER, "phase", "all"),
        LargePower::easy(36035, METRIC_METER_APPARENT_POWER, "phase", "L1"),
        LargePower::easy(36037, METRIC_METER_APPARENT_POWER, "phase", "L2"),
        LargePower::easy(36039, METRIC_METER_APPARENT_POWER, "phase", "L3"),
        LargePower::easy(36041, METRIC_METER_APPARENT_POWER, "phase", "all"),
        // 0: Single Phase, 1: 3P3W, 2: 3P4W, 3: HomeKit
        Integer::easy(36043, "meter_type", "none", "none"),
        Integer::easy(36044, "meter_sw_version", "none", "none"),
        Voltage::easy(36052, METRIC_VOLTAGE_METER, "phase", "L1"),
        Voltage::easy(36053, METRIC_VOLTAGE_METER, "phase", "L2"),
        Voltage::easy(36054, METRIC_VOLTAGE_METER, "phase", "L3"),
        Current::easy(36055, METRIC_CURRENT_METER, "phase", "L1"),
        Current::easy(36056, METRIC_CURRENT_METER, "phase", "L2"),
        Current::easy(36057, METRIC_CURRENT_METER, "phase", "L3"),
    ];
    let r = MetricSet::new(36000, metrics);
    proof {
        reveal_strlit("commode");
        reveal_strlit("rssi");
        reveal_strlit("manufacture_code");
        reveal_strlit("meter_test_status");
        reveal_strlit("meter_comm_status");
        reveal_strlit("active_power_watts");
        reveal_strlit("reactive_power_total_var");
        reveal_strlit("power_factor");
        reveal_strlit("meter_frequency_hertz");
        reveal_strlit("meter_energy_total_kwh");
        reveal_strlit("meter_active_power_watts");
        reveal_strlit("meter_reactive_power_var");
        reveal_strlit("meter_apparent_power_va");
        reveal_strlit("meter_type");
        reveal_strlit("meter_sw_version");
        reveal_strlit("voltage_meter_volts");
        reveal_strlit("current_meter_amperes");
        let set = r@;
        // each entry's kind follows from its name alone
        let kind_of = |n: Seq<char>|
            if n == metric_prefix() + "commode"@
                || n == metric_prefix() + "rssi"@
                || n == metric_prefix() + "manufacture_code"@
                || n == metric_prefix() + "meter_test_status"@
                || n == metric_prefix() + "meter_comm_status"@
                || n == metric_prefix() + "meter_energy_total_kwh"@
                || n == metric_prefix() + "meter_type"@
                || n == metric_prefix() + "meter_sw_version"@ {
                MetricType::Counter
            } else {
                MetricType::Gauge
            };
        assert forall|i: int| 0 <= i < set.metrics.len() implies #[trigger] set.metrics[i].base.metric_type
            == kind_of(set.metrics[i].base.name) by {
            assert(set.metrics[i].base.name =~= metric_prefix() + set.metrics[i].base.name.skip(7));
            lemma_prefix_cancel(set.metrics[i].base.name.skip(7), "commode"@);
            assert("commode"@[0] == 'c' && "commode"@[1] == 'o');
            lemma_prefix_cancel(set.metrics[i].base.name.skip(7), "rssi"@);
            assert("rssi"@[0] == 'r' && "rssi"@[1] == 's');
            lemma_prefix_cancel(set.metrics[i].base.name.skip(7), "manufacture_code"@);
            assert("manufacture_code"@[0] == 'm' && "manufacture_code"@[1] == 'a');
            lemma_prefix_cancel(set.metrics[i].base.name.skip(7), "meter_test_status"@);
            assert("meter_test_status"@[0] == 'm' && "meter_test_status"@[1] == 'e');
            lemma_prefix_cancel(set.metrics[i].base.name.skip(7), "meter_comm_status"@);
            assert("meter_comm_status"@[0] == 'm' && "meter_comm_status"@[1] == 'e');
            lemma_prefix_cancel(set.metrics[i].base.name.skip(7), "meter_energy_total_kwh"@);
            assert("meter_energy_total_kwh"@[0] == 'm' && "meter_energy_total_kwh"@[1] == 'e');
            lemma_prefix_cancel(set.metrics[i].base.name.skip(7), "meter_type"@);
            assert("meter_type"@[0] == 'm' && "meter_type"@[1] == 'e');
            lemma_prefix_cancel(set.metrics[i].base.name.skip(7), "meter_sw_version"@);
            assert("meter_sw_version"@[0] == 'm' && "meter_sw_version"@[1] == 'e');
        }
        lemma_kinds_agree_by(set, kind_of);
    }
    r
}

} // verus!
