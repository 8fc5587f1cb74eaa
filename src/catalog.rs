//! The fixed table of measurement points: which register of which module
//! feeds which metric, and how its contents are encoded.
use vstd::prelude::*;

verus! {

/// Bus address of the first power module.
pub const MOD1_ADDR: u16 = 0x58;
/// Bus address of the second power module.
pub const MOD2_ADDR: u16 = 0x59;

pub const IVOLT_CMD: u8 = 0x88;
pub const OVOLT_EXP_CMD: u8 = 0x20;
pub const OVOLT_MANT_CMD: u8 = 0x8B;
pub const TEMP1_CMD: u8 = 0x8D;
pub const TEMP2_CMD: u8 = 0x8E;
pub const ICUR_CMD: u8 = 0x89;
pub const OCUR_CMD: u8 = 0x8C;
pub const IPOW_CMD: u8 = 0x97;
pub const OPOW_CMD: u8 = 0x96;
pub const FAN_SPEED_CMD: u8 = 0x90;

/// How the contents of a register map to a measurement.
#[derive(Clone, Copy, Debug, PartialEq, Eq, Structural)]
pub enum Encoding {
    /// One byte, taken as an unsigned integer.
    RawByte,
    /// One word, taken as an unsigned integer.
    RawWord,
    /// One word in the LINEAR11 encoding.
    Linear11,
    /// A mantissa word and an exponent byte from two registers (LINEAR16).
    Linear16Split,
}

/// The metric that a measurement point feeds.
#[derive(Clone, Copy, Debug, PartialEq, Eq, Structural)]
pub enum Metric {
    FanRpm,
    InputVoltage,
    InputCurrent,
    InputPower,
    OutputVoltage,
    OutputCurrent,
    OutputPower,
    Temperature,
}

impl Metric {
    pub open spec fn name_spec(self) -> Seq<char> {
        match self {
            Metric::FanRpm => "fan_rpm"@,
            Metric::InputVoltage => "input_voltage"@,
            Metric::InputCurrent => "input_current"@,
            Metric::InputPower => "input_power"@,
            Metric::OutputVoltage => "output_voltage"@,
            Metric::OutputCurrent => "output_current"@,
            Metric::OutputPower => "output_power"@,
            Metric::Temperature => "temperature"@,
        }
    }

    /// The metric's name, without the exporter's prefix.
    pub fn name(&self) -> (r: &'static str)
        ensures
            r@ == self.name_spec(),
    {
        match self {
            Metric::FanRpm => "fan_rpm",
            Metric::InputVoltage => "input_voltage",
            Metric::InputCurrent => "input_current",
            Metric::InputPower => "input_power",
            Metric::OutputVoltage => "output_voltage",
            Metric::OutputCurrent => "output_current",
            Metric::OutputPower => "output_power",
            Metric::Temperature => "temperature",
        }
    }
}

/// One register (or register pair) of one module, and where its value goes.
#[derive(Clone, Copy, Debug, PartialEq, Eq, Structural)]
pub struct MeasurementPoint {
    pub metric: Metric,
    /// The `module` label: 1 or 2.
    pub module: u8,
    /// The `sensor` label, for temperatures only.
    pub sensor: Option<u8>,
    /// Bus address of the module.
    pub slave: u16,
    /// The register read first: the value, or the mantissa for `Linear16Split`.
    pub command: u8,
    /// The exponent register, read second for `Linear16Split`; unused otherwise.
    pub exponent_command: u8,
    pub encoding: Encoding,
}

impl MeasurementPoint {
    /// The label tuple under which the point's value is published, besides
    /// the bus path that all points share.
    pub open spec fn label_key(self) -> (Metric, u8, Option<u8>) {
        (self.metric, self.module, self.sensor)
    }
}

/// The point of a module at position `slot` (0 to 8) of its sensor list:
/// fan, input voltage, current and power, output voltage, current and
/// power, then the two temperature sensors.
pub open spec fn slot_point(module: u8, slave: u16, slot: int) -> MeasurementPoint {
    let (metric, sensor, command, encoding) = if slot == 0 {
        (Metric::FanRpm, None, FAN_SPEED_CMD, Encoding::RawWord)
    } else if slot == 1 {
        (Metric::InputVoltage, None, IVOLT_CMD, Encoding::Linear16Split)
    } else if slot == 2 {
        (Metric::InputCurrent, None, ICUR_CMD, Encoding::Linear11)
    } else if slot == 3 {
        (Metric::InputPower, None, IPOW_CMD, Encoding::Linear11)
    } else if slot == 4 {
        (Metric::OutputVoltage, None, OVOLT_MANT_CMD, Encoding::Linear16Split)
    } else if slot == 5 {
        (Metric::OutputCurrent, None, OCUR_CMD, Encoding::Linear11)
    } else if slot == 6 {
        (Metric::OutputPower, None, OPOW_CMD, Encoding::Linear11)
    } else if slot == 7 {
        (Metric::Temperature, Some(1u8), TEMP1_CMD, Encoding::Linear11)
    } else {
        (Metric::Temperature, Some(2u8), TEMP2_CMD, Encoding::Linear11)
    };
    MeasurementPoint {
        metric,
        module,
        sensor,
        slave,
        command,
        exponent_command: OVOLT_EXP_CMD,
        encoding,
    }
}

/// Number of points per module.
pub const POINTS_PER_MODULE: usize = 9;

/// The whole table: the nine points of module 1, then those of module 2,
/// each read at its own module's address.
pub open spec fn catalog() -> Seq<MeasurementPoint> {
    Seq::new(
        18,
        |i: int|
            if i < 9 {
                slot_point(1, MOD1_ADDR, i)
            } else {
                slot_point(2, MOD2_ADDR, i - 9)
            },
    )
}

fn module_point(module: u8, slave: u16, slot: usize) -> (r: MeasurementPoint)
    requires
        slot < POINTS_PER_MODULE,
    ensures
        r == slot_point(module, slave, slot as int),
{
    let (metric, sensor, command, encoding) = if slot == 0 {
        (Metric::FanRpm, None, FAN_SPEED_CMD, Encoding::RawWord)
    } else if slot == 1 {
        (Metric::InputVoltage, None, IVOLT_CMD, Encoding::Linear16Split)
    } else if slot == 2 {
        (Metric::InputCurrent, None, ICUR_CMD, Encoding::Linear11)
    } else if slot == 3 {
        (Metric::InputPower, None, IPOW_CMD, Encoding::Linear11)
    } else if slot == 4 {
        (Metric::OutputVoltage, None, OVOLT_MANT_CMD, Encoding::Linear16Split)
    } else if slot == 5 {
        (Metric::OutputCurrent, None, OCUR_CMD, Encoding::Linear11)
    } else if slot == 6 {
        (Metric::OutputPower, None, OPOW_CMD, Encoding::Linear11)
    } else if slot == 7 {
        (Metric::Temperature, Some(1u8), TEMP1_CMD, Encoding::Linear11)
    } else {
        (Metric::Temperature, Some(2u8), TEMP2_CMD, Encoding::Linear11)
    };
    MeasurementPoint {
        metric,
        module,
        sensor,
        slave,
        command,
        exponent_command: OVOLT_EXP_CMD,
        encoding,
    }
}

fn push_module(points: &mut Vec<MeasurementPoint>, module: u8, slave: u16)
    ensures
        final(points)@ == old(points)@ + Seq::new(9, |s: int| slot_point(module, slave, s)),
{
    let ghost start = points@;
    let mut slot: usize = 0;
    while slot < POINTS_PER_MODULE
        invariant
            slot <= 9,
            points@ == start + Seq::new(slot as nat, |s: int| slot_point(module, slave, s)),
        decreases 9 - slot,
    {
        let p = module_point(module, slave, slot);
        points.push(p);
        slot = slot + 1;
        assert(points@ =~= start + Seq::new(slot as nat, |s: int| slot_point(module, slave, s)));
    }
}

/// Builds the measurement point table.
pub fn measurement_points() -> (r: Vec<MeasurementPoint>)
    ensures
        r@ == catalog(),
{
    let mut points: Vec<MeasurementPoint> = Vec::new();
    push_module(&mut points, 1, MOD1_ADDR);
    push_module(&mut points, 2, MOD2_ADDR);
    assert(points@ =~= catalog());
    points
}

/// The table holds eighteen points, two modules of nine, and no two of them
/// share a label tuple.
pub proof fn lemma_catalog_labels_distinct()
    ensures
        catalog().len() == 18,
        forall|i: int, j: int|
            0 <= i < j < 18 ==> #[trigger] catalog()[i].label_key() != #[trigger] catalog()[j].label_key(),
{
}

} // verus!
