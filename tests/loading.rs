use linux_battery_info::error::{io_message, Error};
use linux_battery_info::loader::{Attribute, AttributeFile, DeviceReadings, DEVICE_PATH};
use linux_battery_info::run;

fn text(t: &str) -> AttributeFile {
    AttributeFile::Text(t.to_string())
}

fn good_readings() -> DeviceReadings {
    DeviceReadings {
        device_is_dir: true,
        capacity: text("42"),
        capacity_level: text("Normal"),
        manufacturer: text("Acme"),
        model_name: text("X100"),
        serial_number: text("SN123"),
        status: text("Charging"),
    }
}

#[test]
fn full_record_renders_one_line() {
    let battery = run(good_readings()).unwrap();
    assert_eq!(battery.to_string(), "Acme: X100 (SN123) | 42% (Normal) | Charging ");
}

#[test]
fn newline_terminated_files_render_the_same() {
    let readings = DeviceReadings {
        device_is_dir: true,
        capacity: text("42\n"),
        capacity_level: text("Normal\n"),
        manufacturer: text("Acme\n"),
        model_name: text("X100\n"),
        serial_number: text("SN123\n"),
        status: text("Not_charging\n"),
    };
    let battery = run(readings).unwrap();
    assert_eq!(battery.to_string(), "Acme: X100 (SN123) | 42% (Normal) | Not charging ");
}

#[test]
fn missing_device_directory() {
    let mut readings = good_readings();
    readings.device_is_dir = false;
    match run(readings) {
        Err(Error::SysFsBatteryPath(p)) => {
            assert_eq!(p, DEVICE_PATH);
            assert_eq!(p, "/sys/class/power_supply/BAT1/");
        }
        other => panic!("unexpected outcome: {:?}", other),
    }
}

#[test]
fn one_empty_attribute_file() {
    let mut readings = good_readings();
    readings.serial_number = text("");
    assert!(matches!(run(readings), Err(Error::SysFsBatteryItem)));
}

#[test]
fn missing_attribute_file() {
    let mut readings = good_readings();
    readings.model_name = AttributeFile::NotAFile;
    match run(readings) {
        Err(Error::SysFsBatteryItemPath(p)) => {
            assert_eq!(p, "/sys/class/power_supply/BAT1/model_name")
        }
        other => panic!("unexpected outcome: {:?}", other),
    }
}

#[test]
fn unreadable_attribute_file() {
    let mut readings = good_readings();
    readings.status = AttributeFile::Unreadable(std::io::Error::new(
        std::io::ErrorKind::PermissionDenied,
        "denied",
    ));
    match run(readings) {
        Err(Error::IOError(e)) => assert_eq!(e.kind(), std::io::ErrorKind::PermissionDenied),
        other => panic!("unexpected outcome: {:?}", other),
    }
}

#[test]
fn bad_capacity_fails_the_whole_record() {
    let mut readings = good_readings();
    readings.capacity = text("101");
    assert!(matches!(run(readings), Err(Error::TryFromConversion)));
}

#[test]
fn first_failure_in_file_order_wins() {
    let mut readings = good_readings();
    readings.capacity_level = text("");
    readings.manufacturer = AttributeFile::NotAFile;
    assert!(matches!(run(readings), Err(Error::SysFsBatteryItem)));
    let mut readings = good_readings();
    readings.capacity = AttributeFile::NotAFile;
    readings.status = text("");
    match run(readings) {
        Err(Error::SysFsBatteryItemPath(p)) => {
            assert_eq!(p, "/sys/class/power_supply/BAT1/capacity")
        }
        other => panic!("unexpected outcome: {:?}", other),
    }
}

#[test]
fn unknown_states_still_build_a_record() {
    let mut readings = good_readings();
    readings.status = text("Idle");
    readings.capacity_level = text("Medium");
    let battery = run(readings).unwrap();
    assert_eq!(battery.to_string(), "Acme: X100 (SN123) | 42% (Unknown) | Unknown ");
}

#[test]
fn attribute_paths() {
    assert_eq!(Attribute::Capacity.path(), "/sys/class/power_supply/BAT1/capacity");
    assert_eq!(Attribute::CapacityLevel.name(), "capacity_level");
    assert_eq!(Attribute::SerialNumber.path(), "/sys/class/power_supply/BAT1/serial_number");
}

#[test]
fn error_messages() {
    assert_eq!(Error::TryFromConversion.message(), "A conversion error occurred.");
    assert_eq!(Error::SysFsBatteryItem.message(), "The requested item is empty.");
    assert_eq!(
        Error::SysFsBatteryItemPath("/x/status".to_string()).message(),
        "/x/status is not a file."
    );
    assert_eq!(
        Error::SysFsBatteryItemUnknown("voltage".to_string()).message(),
        "voltage is an unknown item."
    );
    assert_eq!(
        Error::SysFsBatteryPath("/x/".to_string()).message(),
        "/x/ is not a directory."
    );
    let io = Error::from(std::io::Error::new(std::io::ErrorKind::Other, "boom"));
    assert_eq!(io.message(), "An IO error occurred: boom");
}

#[test]
fn blank_maker_fails_the_whole_record() {
    let mut readings = good_readings();
    readings.manufacturer = text("  \n");
    assert!(matches!(run(readings), Err(Error::TryFromConversion)));
}

#[test]
fn io_message_puts_the_cause_after_the_prefix() {
    assert_eq!(io_message("disk gone"), "An IO error occurred: disk gone");
    assert_eq!(io_message(""), "An IO error occurred: ");
}
