use vstd::prelude::*;
use vstd::string::*;
use crate::battery::{
    Battery,
    BatteryView,
    PowerSupplyCapacity,
    PowerSupplyCapacityLevel,
    PowerSupplyManufacturer,
    PowerSupplyModelName,
    PowerSupplySerialNumber,
    PowerSupplyStatus,
};
use crate::error::{Error, ErrorView};
use crate::text::trimmed;

verus! {

/// The directory that holds the battery's attribute files.
pub const DEVICE_PATH: &'static str = "/sys/class/power_supply/BAT1/";

/// The attributes that make up a battery record, one file each.
#[derive(Debug, Clone, Copy, PartialEq, Eq, Structural)]
pub enum Attribute {
    Capacity,
    CapacityLevel,
    Manufacturer,
    ModelName,
    SerialNumber,
    Status,
}

impl Attribute {
    /// The name of the attribute's file.
    pub open spec fn spec_name(self) -> Seq<char> {
        match self {
            Attribute::Capacity => "capacity"@,
            Attribute::CapacityLevel => "capacity_level"@,
            Attribute::Manufacturer => "manufacturer"@,
            Attribute::ModelName => "model_name"@,
            Attribute::SerialNumber => "serial_number"@,
            Attribute::Status => "status"@,
        }
    }

    /// Where the attribute's file lies.
    pub open spec fn spec_path(self) -> Seq<char> {
        DEVICE_PATH@ + self.spec_name()
    }

    pub fn name(&self) -> (r: &'static str)
        ensures
            r@ == self.spec_name(),
    {
        match self {
            Attribute::Capacity => "capacity",
            Attribute::CapacityLevel => "capacity_level",
            Attribute::Manufacturer => "manufacturer",
            Attribute::ModelName => "model_name",
            Attribute::SerialNumber => "serial_number",
            Attribute::Status => "status",
        }
    }

    pub fn path(&self) -> (r: String)
        ensures
            r@ == self.spec_path(),
    {
        String::from_str(DEVICE_PATH).concat(self.name())
    }
}

/// What was found at one attribute's path.
#[derive(Debug)]
pub enum AttributeFile {
    /// Nothing, or something that is not a regular file.
    NotAFile,
    /// A regular file whose reading failed.
    Unreadable(std::io::Error),
    /// A regular file and all of its text.
    Text(String),
}

pub enum AttributeFileView {
    NotAFile,
    Unreadable(std::io::Error),
    Text(Seq<char>),
}

impl View for AttributeFile {
    type V = AttributeFileView;

    open spec fn view(&self) -> AttributeFileView {
        match self {
            AttributeFile::NotAFile => AttributeFileView::NotAFile,
            AttributeFile::Unreadable(e) => AttributeFileView::Unreadable(*e),
            AttributeFile::Text(t) => AttributeFileView::Text(t@),
        }
    }
}

/// What was found on the device: whether its directory is there, and each
/// attribute's file.
#[derive(Debug)]
pub struct DeviceReadings {
    pub device_is_dir: bool,
    pub capacity: AttributeFile,
    pub capacity_level: AttributeFile,
    pub manufacturer: AttributeFile,
    pub model_name: AttributeFile,
    pub serial_number: AttributeFile,
    pub status: AttributeFile,
}

pub struct DeviceReadingsView {
    pub device_is_dir: bool,
    pub capacity: AttributeFileView,
    pub capacity_level: AttributeFileView,
    pub manufacturer: AttributeFileView,
    pub model_name: AttributeFileView,
    pub serial_number: AttributeFileView,
    pub status: AttributeFileView,
}

impl View for DeviceReadings {
    type V = DeviceReadingsView;

    open spec fn view(&self) -> DeviceReadingsView {
        DeviceReadingsView {
            device_is_dir: self.device_is_dir,
            capacity: self.capacity@,
            capacity_level: self.capacity_level@,
            manufacturer: self.manufacturer@,
            model_name: self.model_name@,
            serial_number: self.serial_number@,
            status: self.status@,
        }
    }
}

/// The text of one attribute's file, or why there is none.
pub open spec fn attribute_text(f: AttributeFileView, a: Attribute) -> Result<Seq<char>, ErrorView> {
    match f {
        AttributeFileView::NotAFile => Err(ErrorView::SysFsBatteryItemPath(a.spec_path())),
        AttributeFileView::Unreadable(e) => Err(ErrorView::IOError(e)),
        AttributeFileView::Text(t) => if t.len() == 0 {
            Err(ErrorView::SysFsBatteryItem)
        } else {
            Ok(t)
        },
    }
}

/// A parsed value, or a conversion failure, as the loader reports them.
pub open spec fn converted<T>(r: Result<T, Error>) -> Result<T, ErrorView> {
    match r {
        Ok(v) => Ok(v),
        Err(_) => Err(ErrorView::TryFromConversion),
    }
}

pub open spec fn capacity_reading(f: AttributeFileView) -> Result<PowerSupplyCapacity, ErrorView> {
    match attribute_text(f, Attribute::Capacity) {
        Ok(t) => converted(PowerSupplyCapacity::spec_parse(t)),
        Err(e) => Err(e),
    }
}

pub open spec fn capacity_level_reading(f: AttributeFileView) -> Result<
    PowerSupplyCapacityLevel,
    ErrorView,
> {
    match attribute_text(f, Attribute::CapacityLevel) {
        Ok(t) => converted(PowerSupplyCapacityLevel::spec_parse(t)),
        Err(e) => Err(e),
    }
}

pub open spec fn status_reading(f: AttributeFileView) -> Result<PowerSupplyStatus, ErrorView> {
    match attribute_text(f, Attribute::Status) {
        Ok(t) => converted(PowerSupplyStatus::spec_parse(t)),
        Err(e) => Err(e),
    }
}

/// A free-text attribute: its trimmed text, which must not be empty.
pub open spec fn text_reading(f: AttributeFileView, a: Attribute) -> Result<
    Option<Seq<char>>,
    ErrorView,
> {
    match attribute_text(f, a) {
        Ok(t) => if trimmed(t).len() == 0 {
            Err(ErrorView::TryFromConversion)
        } else {
            Ok(Some(trimmed(t)))
        },
        Err(e) => Err(e),
    }
}

/// The outcome of loading a battery record from what was found on the
/// device: the first failure in file order, else the record.
pub open spec fn load(d: DeviceReadingsView) -> Result<BatteryView, ErrorView> {
    let capacity = capacity_reading(d.capacity);
    let capacity_level = capacity_level_reading(d.capacity_level);
    let manufacturer = text_reading(d.manufacturer, Attribute::Manufacturer);
    let model_name = text_reading(d.model_name, Attribute::ModelName);
    let serial_number = text_reading(d.serial_number, Attribute::SerialNumber);
    let status = status_reading(d.status);
    if !d.device_is_dir {
        Err(ErrorView::SysFsBatteryPath(DEVICE_PATH@))
    } else if capacity is Err {
        Err(capacity->Err_0)
    } else if capacity_level is Err {
        Err(capacity_level->Err_0)
    } else if manufacturer is Err {
        Err(manufacturer->Err_0)
    } else if model_name is Err {
        Err(model_name->Err_0)
    } else if serial_number is Err {
        Err(serial_number->Err_0)
    } else if status is Err {
        Err(status->Err_0)
    } else {
        Ok(
            BatteryView {
                capacity: capacity->Ok_0,
                status: status->Ok_0,
                capacity_level: capacity_level->Ok_0,
                manufacturer: manufacturer->Ok_0,
                model_name: model_name->Ok_0,
                serial_number: serial_number->Ok_0,
            },
        )
    }
}

pub open spec fn outcome_view(r: Result<Battery, Error>) -> Result<BatteryView, ErrorView> {
    match r {
        Ok(b) => Ok(b@),
        Err(e) => Err(e@),
    }
}

/// The text of one attribute's file, or the error that its absence, a failed
/// read or an empty file gives.
pub fn read_text(f: AttributeFile, a: Attribute) -> (r: Result<String, Error>)
    ensures
        match r {
            Ok(t) => attribute_text(f@, a) == Ok::<Seq<char>, ErrorView>(t@),
            Err(e) => attribute_text(f@, a) == Err::<Seq<char>, ErrorView>(e@),
        },
{
    match f {
        AttributeFile::NotAFile => Err(Error::SysFsBatteryItemPath(a.path())),
        AttributeFile::Unreadable(e) => Err(Error::from(e)),
        AttributeFile::Text(t) => {
            if t.as_str().is_empty() {
                Err(Error::SysFsBatteryItem)
            } else {
                Ok(t)
            }
        },
    }
}

} // verus!
