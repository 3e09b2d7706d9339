use pole_detector::bringup::{
    bindings_clash, bringup_plan, check_bindings, default_bindings, select_writes, steps_for,
    BringupError, BringupStep, LineLevels, LineWrite, RangingMode, SensorBinding,
    SensorPosition, DEFAULT_BUS_ADDRESS, MID_BUS_ADDRESS, REAR_BUS_ADDRESS,
};

#[test]
fn standard_plan_is_rear_mid_front() {
    let bs = default_bindings(105, 106, 43);
    let plan = bringup_plan(&bs);
    let rear = SensorPosition::Rear;
    let mid = SensorPosition::Mid;
    let front = SensorPosition::Front;
    let expected = vec![
        BringupStep::Select(rear),
        BringupStep::Connect(rear),
        BringupStep::SoftReset(rear),
        BringupStep::Init(rear),
        BringupStep::SetAddress(rear, 0x31),
        BringupStep::Init(rear),
        BringupStep::StartRanging(rear, RangingMode::Mid),
        BringupStep::Select(mid),
        BringupStep::Connect(mid),
        BringupStep::SoftReset(mid),
        BringupStep::Init(mid),
        BringupStep::SetAddress(mid, 0x30),
        BringupStep::Init(mid),
        BringupStep::StartRanging(mid, RangingMode::Mid),
        BringupStep::Select(front),
        BringupStep::Connect(front),
        BringupStep::SoftReset(front),
        BringupStep::Init(front),
        BringupStep::StartRanging(front, RangingMode::Mid),
    ];
    assert_eq!(plan, expected);
}

#[test]
fn standard_addresses_are_distinct_and_front_default() {
    let bs = default_bindings(105, 106, 43);
    assert_eq!(bs[0].sensor, SensorPosition::Rear);
    assert_eq!(bs[0].select_line, 43);
    assert_eq!(bs[0].bus_address, REAR_BUS_ADDRESS);
    assert_eq!(bs[1].bus_address, MID_BUS_ADDRESS);
    assert_eq!(bs[2].bus_address, DEFAULT_BUS_ADDRESS);
    assert_eq!(DEFAULT_BUS_ADDRESS, 0x29);
    assert_ne!(bs[0].bus_address, bs[1].bus_address);
    assert_eq!(check_bindings(&bs), Ok(()));
}

#[test]
fn default_address_sensor_is_not_readdressed() {
    let b = SensorBinding::new(SensorPosition::Mid, 7, DEFAULT_BUS_ADDRESS);
    let steps = steps_for(&b);
    assert_eq!(steps.len(), 5);
    assert!(!steps.iter().any(|s| matches!(s, BringupStep::SetAddress(..))));
}

#[test]
fn clashing_address_is_refused() {
    let bs = vec![
        SensorBinding::new(SensorPosition::Rear, 1, 0x31),
        SensorBinding::new(SensorPosition::Mid, 2, 0x31),
        SensorBinding::new(SensorPosition::Front, 3, 0x29),
    ];
    assert_eq!(
        check_bindings(&bs),
        Err(BringupError::Clash { first: 0, second: 1 })
    );
}

#[test]
fn clashing_line_and_sensor_are_refused() {
    let same_line = vec![
        SensorBinding::new(SensorPosition::Rear, 1, 0x31),
        SensorBinding::new(SensorPosition::Front, 1, 0x29),
    ];
    assert!(check_bindings(&same_line).is_err());
    let a = SensorBinding::new(SensorPosition::Mid, 4, 0x30);
    let b = SensorBinding::new(SensorPosition::Mid, 5, 0x31);
    assert!(bindings_clash(&a, &b));
    assert!(check_bindings(&Vec::new()).is_ok());
}

#[test]
fn select_lowers_others_before_raising() {
    let ws = select_writes(SensorPosition::Mid);
    assert_eq!(
        ws,
        vec![
            LineWrite { sensor: SensorPosition::Front, high: false },
            LineWrite { sensor: SensorPosition::Rear, high: false },
            LineWrite { sensor: SensorPosition::Mid, high: true },
        ]
    );
}

#[test]
fn bring_up_never_has_two_lines_high() {
    let plan = bringup_plan(&default_bindings(105, 106, 43));
    let mut levels = LineLevels::all_low();
    let mut selected = Vec::new();
    for step in &plan {
        if let BringupStep::Select(s) = step {
            for w in &select_writes(*s) {
                levels.apply(w);
                let high = [levels.front, levels.mid, levels.rear]
                    .iter()
                    .filter(|h| **h)
                    .count();
                assert!(high <= 1);
            }
            selected.push(*s);
        }
    }
    assert_eq!(
        selected,
        vec![SensorPosition::Rear, SensorPosition::Mid, SensorPosition::Front]
    );
    assert_eq!(
        levels,
        LineLevels { front: true, mid: false, rear: false }
    );
}
