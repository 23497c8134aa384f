use vstd::prelude::*;
use vstd::string::*;

pub mod battery;
pub mod error;
pub mod loader;
pub mod text;

use battery::{
    Battery,
    PowerSupplyCapacity,
    PowerSupplyCapacityLevel,
    PowerSupplyManufacturer,
    PowerSupplyModelName,
    PowerSupplySerialNumber,
    PowerSupplyStatus,
};
use error::Error;
use loader::{load, outcome_view, read_text, Attribute, DeviceReadings, DEVICE_PATH};

verus! {

/// Builds the battery record from what was found on the device. The device
/// directory is checked first, then the attribute files in the order
/// capacity, capacity level, manufacturer, model name, serial number, status;
/// the first failure is returned and no record is built.
pub fn run(readings: DeviceReadings) -> (r: Result<Battery, Error>)
    ensures
        outcome_view(r) == load(readings@),
{
    let DeviceReadings {
        device_is_dir,
        capacity,
        capacity_level,
        manufacturer,
        model_name,
        serial_number,
        status,
    } = readings;
    if !device_is_dir {
        return Err(Error::SysFsBatteryPath(String::from_str(DEVICE_PATH)));
    }
    let capacity = match read_text(capacity, Attribute::Capacity) {
        Ok(t) => match PowerSupplyCapacity::try_from(t.as_str()) {
            Ok(v) => v,
            Err(e) => return Err(e),
        },
        Err(e) => return Err(e),
    };
    let capacity_level = match read_text(capacity_level, Attribute::CapacityLevel) {
        Ok(t) => match PowerSupplyCapacityLevel::try_from(t.as_str()) {
            Ok(v) => v,
            Err(e) => return Err(e),
        },
        Err(e) => return Err(e),
    };
    let manufacturer = match read_text(manufacturer, Attribute::Manufacturer) {
        Ok(t) => match PowerSupplyManufacturer::try_from(t.as_str()) {
            Ok(v) => v,
            Err(e) => return Err(e),
        },
        Err(e) => return Err(e),
    };
    let model_name = match read_text(model_name, Attribute::ModelName) {
        Ok(t) => match PowerSupplyModelName::try_from(t.as_str()) {
            Ok(v) => v,
            Err(e) => return Err(e),
        },
        Err(e) => return Err(e),
    };
    let serial_number = match read_text(serial_number, Attribute::SerialNumber) {
        Ok(t) => match PowerSupplySerialNumber::try_from(t.as_str()) {
            Ok(v) => v,
            Err(e) => return Err(e),
        },
        Err(e) => return Err(e),
    };
    let status = match read_text(status, Attribute::Status) {
        Ok(t) => match PowerSupplyStatus::try_from(t.as_str()) {
            Ok(v) => v,
            Err(e) => return Err(e),
        },
        Err(e) => return Err(e),
    };
    Ok(Battery { capacity, status, capacity_level, manufacturer, model_name, serial_number })
}

} // verus!
