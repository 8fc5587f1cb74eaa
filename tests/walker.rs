use pmbus_exporter::catalog::{
    measurement_points, Encoding, MeasurementPoint, Metric, FAN_SPEED_CMD, IVOLT_CMD,
    MOD1_ADDR, MOD2_ADDR, OVOLT_EXP_CMD, TEMP2_CMD,
};
use pmbus_exporter::decode::Linear;
use pmbus_exporter::walker::{BusRead, Reading, Value, Walker, Width};

fn answer(r: &BusRead) -> Reading {
    match r.width {
        Width::Byte => Reading::Byte(0x1E),
        Width::Word => Reading::Word(0x0010),
    }
}

#[test]
fn table_has_eighteen_distinct_points() {
    let t = measurement_points();
    assert_eq!(t.len(), 18);
    for i in 0..t.len() {
        for j in (i + 1)..t.len() {
            let a = (t[i].metric, t[i].module, t[i].sensor);
            let b = (t[j].metric, t[j].module, t[j].sensor);
            assert_ne!(a, b);
        }
    }
    assert_eq!(t.iter().filter(|p| p.module == 1).count(), 9);
    assert_eq!(t.iter().filter(|p| p.metric == Metric::Temperature).count(), 4);
}

#[test]
fn table_addresses_each_module() {
    let t = measurement_points();
    assert!(t[..9].iter().all(|p| p.slave == MOD1_ADDR));
    assert!(t[9..].iter().all(|p| p.slave == MOD2_ADDR));
    assert_eq!(
        t[0],
        MeasurementPoint {
            metric: Metric::FanRpm,
            module: 1,
            sensor: None,
            slave: MOD1_ADDR,
            command: FAN_SPEED_CMD,
            exponent_command: OVOLT_EXP_CMD,
            encoding: Encoding::RawWord,
        }
    );
    assert_eq!(t[17].metric, Metric::Temperature);
    assert_eq!(t[17].sensor, Some(2));
    assert_eq!(t[17].command, TEMP2_CMD);
    assert_eq!(t[17].module, 2);
}

#[test]
fn metric_names() {
    assert_eq!(Metric::FanRpm.name(), "fan_rpm");
    assert_eq!(Metric::OutputPower.name(), "output_power");
    assert_eq!(Metric::Temperature.name(), "temperature");
}

#[test]
fn full_cycle_records_every_point() {
    let mut w = Walker::new(measurement_points());
    let mut reads = 0;
    while let Some(r) = w.request() {
        w.deliver(Some(answer(&r)));
        reads += 1;
    }
    assert!(w.is_finished());
    assert!(!w.is_aborted());
    // two of the nine points per module take two reads
    assert_eq!(reads, 22);
    let s = w.samples();
    assert_eq!(s.len(), 18);
    let t = measurement_points();
    for i in 0..18 {
        assert_eq!(s[i].point, t[i]);
    }
    assert_eq!(s[0].value, Value::Raw(16));
    assert_eq!(s[1].value, Value::Linear(Linear { mantissa: 16, exponent: -2 }));
    assert_eq!(s[2].value, Value::Linear(Linear { mantissa: 16, exponent: 0 }));
}

#[test]
fn requests_follow_the_encoding() {
    let mut w = Walker::new(measurement_points());
    assert_eq!(
        w.request(),
        Some(BusRead { slave: MOD1_ADDR, command: FAN_SPEED_CMD, width: Width::Word })
    );
    w.deliver(Some(Reading::Word(3000)));
    assert_eq!(w.request(), Some(BusRead { slave: MOD1_ADDR, command: IVOLT_CMD, width: Width::Word }));
    w.deliver(Some(Reading::Word(920)));
    assert_eq!(
        w.request(),
        Some(BusRead { slave: MOD1_ADDR, command: OVOLT_EXP_CMD, width: Width::Byte })
    );
    w.deliver(Some(Reading::Byte(0x1D)));
    assert_eq!(w.samples()[0].value, Value::Raw(3000));
    assert_eq!(w.samples()[1].value, Value::Linear(Linear { mantissa: 920, exponent: -3 }));
}

#[test]
fn failure_keeps_earlier_samples() {
    let mut w = Walker::new(measurement_points());
    w.deliver(Some(Reading::Word(3000)));
    w.deliver(Some(Reading::Word(100)));
    w.deliver(Some(Reading::Byte(0x1E)));
    let before: Vec<_> = w.samples().clone();
    assert_eq!(before.len(), 2);
    w.deliver(None);
    assert!(w.is_aborted());
    assert!(w.is_finished());
    assert_eq!(w.request(), None);
    assert_eq!(w.samples(), &before);
    // nothing more is taken once the cycle has ended
    w.deliver(Some(Reading::Word(5)));
    assert_eq!(w.samples(), &before);
    assert_eq!(before[1].value, Value::Linear(Linear { mantissa: 100, exponent: -2 }));
}

#[test]
fn wrong_width_ends_the_cycle() {
    let mut w = Walker::new(measurement_points());
    w.deliver(Some(Reading::Byte(7)));
    assert!(w.is_aborted());
    assert!(w.samples().is_empty());
}

#[test]
fn raw_byte_point() {
    let p = MeasurementPoint {
        metric: Metric::FanRpm,
        module: 1,
        sensor: None,
        slave: 0x25,
        command: 0x19,
        exponent_command: 0,
        encoding: Encoding::RawByte,
    };
    let mut w = Walker::new(vec![p]);
    assert_eq!(w.request(), Some(BusRead { slave: 0x25, command: 0x19, width: Width::Byte }));
    w.deliver(Some(Reading::Byte(200)));
    assert!(w.is_finished());
    assert!(!w.is_aborted());
    assert_eq!(w.samples()[0].value, Value::Raw(200));
}

#[test]
fn empty_table_is_finished() {
    let w = Walker::new(Vec::new());
    assert!(w.is_finished());
    assert_eq!(w.request(), None);
}
