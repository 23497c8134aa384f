use linux_battery_info::battery::{
    PowerSupplyCapacity, PowerSupplyCapacityLevel, PowerSupplyManufacturer, PowerSupplyModelName,
    PowerSupplySerialNumber, PowerSupplyStatus,
};
use linux_battery_info::error::Error;
use std::convert::TryFrom;

#[test]
fn known_statuses_parse_and_render() {
    let cases = [
        ("Charging", PowerSupplyStatus::Charging, "Charging"),
        ("Discharging", PowerSupplyStatus::Discharging, "Discharging"),
        ("Not_charging", PowerSupplyStatus::NotCharging, "Not charging"),
        ("Full", PowerSupplyStatus::Full, "Full"),
    ];
    for (text, status, label) in cases {
        let parsed = PowerSupplyStatus::try_from(text).unwrap();
        assert_eq!(parsed, status);
        assert_eq!(parsed.to_string(), label);
    }
}

#[test]
fn status_text_is_trimmed_before_matching() {
    let parsed = PowerSupplyStatus::try_from("Discharging\n").unwrap();
    assert_eq!(parsed, PowerSupplyStatus::Discharging);
}

#[test]
fn unrecognised_status_is_unknown() {
    for text in ["Garbage", "charging", "Not charging", "FULL", "   ", "\n"] {
        let parsed = PowerSupplyStatus::try_from(text).unwrap();
        assert_eq!(parsed, PowerSupplyStatus::Unknown);
        assert_eq!(parsed.to_string(), "Unknown");
    }
}

#[test]
fn empty_status_is_an_error() {
    assert!(matches!(PowerSupplyStatus::try_from(""), Err(Error::TryFromConversion)));
}

#[test]
fn capacity_fifty_seven() {
    let parsed = PowerSupplyCapacity::try_from("57").unwrap();
    assert_eq!(parsed, PowerSupplyCapacity::Level(57));
    assert_eq!(parsed.to_string(), "57");
}

#[test]
fn capacity_bounds() {
    assert_eq!(PowerSupplyCapacity::try_from("0").unwrap(), PowerSupplyCapacity::Level(0));
    assert_eq!(PowerSupplyCapacity::try_from("100\n").unwrap(), PowerSupplyCapacity::Level(100));
    assert_eq!(PowerSupplyCapacity::try_from("+7").unwrap(), PowerSupplyCapacity::Level(7));
    assert_eq!(PowerSupplyCapacity::try_from("007").unwrap().to_string(), "7");
    assert_eq!(PowerSupplyCapacity::Level(100).to_string(), "100");
    assert_eq!(PowerSupplyCapacity::Unknown.to_string(), "Unknown");
}

#[test]
fn capacity_over_one_hundred_is_an_error() {
    assert!(matches!(PowerSupplyCapacity::try_from("101"), Err(Error::TryFromConversion)));
    assert!(matches!(PowerSupplyCapacity::try_from("256"), Err(Error::TryFromConversion)));
}

#[test]
fn empty_capacity_is_an_error() {
    assert!(matches!(PowerSupplyCapacity::try_from(""), Err(Error::TryFromConversion)));
    assert!(matches!(PowerSupplyCapacity::try_from("  "), Err(Error::TryFromConversion)));
}

#[test]
fn non_numeric_capacity_is_an_error() {
    assert!(matches!(PowerSupplyCapacity::try_from("abc"), Err(Error::TryFromConversion)));
    assert!(matches!(PowerSupplyCapacity::try_from("-5"), Err(Error::TryFromConversion)));
    assert!(matches!(PowerSupplyCapacity::try_from("+"), Err(Error::TryFromConversion)));
    assert!(matches!(PowerSupplyCapacity::try_from("4 2"), Err(Error::TryFromConversion)));
}

#[test]
fn capacity_levels_parse_and_render() {
    let cases = [
        ("Critical", PowerSupplyCapacityLevel::Critical),
        ("Low", PowerSupplyCapacityLevel::Low),
        ("Normal", PowerSupplyCapacityLevel::Normal),
        ("High", PowerSupplyCapacityLevel::High),
        ("Full", PowerSupplyCapacityLevel::Full),
    ];
    for (text, level) in cases {
        let parsed = PowerSupplyCapacityLevel::try_from(text).unwrap();
        assert_eq!(parsed, level);
        assert_eq!(parsed.to_string(), text);
    }
    let unknown = PowerSupplyCapacityLevel::try_from("Medium\n").unwrap();
    assert_eq!(unknown, PowerSupplyCapacityLevel::Unknown);
    assert_eq!(unknown.to_string(), "Unknown");
    assert!(matches!(PowerSupplyCapacityLevel::try_from(""), Err(Error::TryFromConversion)));
}

#[test]
fn text_attributes_are_trimmed() {
    let maker = PowerSupplyManufacturer::try_from("  Acme  ").unwrap();
    assert_eq!(maker.to_string(), "Acme");
    let model = PowerSupplyModelName::try_from("\tX100\n").unwrap();
    assert_eq!(model.to_string(), "X100");
    let serial = PowerSupplySerialNumber::try_from(" SN123 ").unwrap();
    assert_eq!(serial.to_string(), "SN123");
}

#[test]
fn empty_text_attributes_are_errors() {
    assert!(matches!(PowerSupplyManufacturer::try_from(""), Err(Error::TryFromConversion)));
    assert!(matches!(PowerSupplyModelName::try_from(""), Err(Error::TryFromConversion)));
    assert!(matches!(PowerSupplySerialNumber::try_from(""), Err(Error::TryFromConversion)));
}

#[test]
fn defaults_are_unknown() {
    assert_eq!(PowerSupplyStatus::default(), PowerSupplyStatus::Unknown);
    assert_eq!(PowerSupplyCapacity::default(), PowerSupplyCapacity::Unknown);
    assert_eq!(PowerSupplyCapacityLevel::default(), PowerSupplyCapacityLevel::Unknown);
    assert_eq!(PowerSupplyManufacturer::default().to_string(), "Unknown");
    assert_eq!(PowerSupplyModelName::default().to_string(), "Unknown");
    assert_eq!(PowerSupplySerialNumber::default().to_string(), "Unknown");
}

#[test]
fn blank_text_attributes_are_errors() {
    for text in ["  ", "\n", " \t\n"] {
        assert!(matches!(PowerSupplyManufacturer::try_from(text), Err(Error::TryFromConversion)));
        assert!(matches!(PowerSupplyModelName::try_from(text), Err(Error::TryFromConversion)));
        assert!(matches!(PowerSupplySerialNumber::try_from(text), Err(Error::TryFromConversion)));
    }
}
