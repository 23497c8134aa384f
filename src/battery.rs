use vstd::prelude::*;
use vstd::string::*;
use crate::error::Error;
use crate::text::{
    decimal_text,
    decimal_u8,
    is_white_space,
    lemma_trimmed_edges,
    parse_u8,
    same_text,
    trim_text,
    trimmed,
    u8_text,
};

verus! {

/// What the device says it is doing with its charge.
#[derive(Debug, Clone, Copy, PartialEq, Eq, Structural)]
pub enum PowerSupplyStatus {
    Unknown,
    Charging,
    Discharging,
    NotCharging,
    Full,
}

/// The status that trimmed attribute text names.
pub open spec fn status_of_text(t: Seq<char>) -> PowerSupplyStatus {
    if t == "Charging"@ {
        PowerSupplyStatus::Charging
    } else if t == "Discharging"@ {
        PowerSupplyStatus::Discharging
    } else if t == "Not_charging"@ {
        PowerSupplyStatus::NotCharging
    } else if t == "Full"@ {
        PowerSupplyStatus::Full
    } else {
        PowerSupplyStatus::Unknown
    }
}

impl Default for PowerSupplyStatus {
    fn default() -> (r: Self)
        ensures
            r == PowerSupplyStatus::Unknown,
    {
        PowerSupplyStatus::Unknown
    }
}

impl PowerSupplyStatus {
    /// The status read from raw attribute text: empty text is an error.
    pub open spec fn spec_parse(s: Seq<char>) -> Result<PowerSupplyStatus, Error> {
        if s.len() == 0 {
            Err(Error::TryFromConversion)
        } else {
            Ok(status_of_text(trimmed(s)))
        }
    }
}

impl PowerSupplyStatus {
    /// The text that shows this status.
    pub open spec fn label(self) -> Seq<char> {
        match self {
            PowerSupplyStatus::Unknown => "Unknown"@,
            PowerSupplyStatus::Charging => "Charging"@,
            PowerSupplyStatus::Discharging => "Discharging"@,
            PowerSupplyStatus::NotCharging => "Not charging"@,
            PowerSupplyStatus::Full => "Full"@,
        }
    }

    pub fn to_string(&self) -> (r: String)
        ensures
            r@ == self.label(),
    {
        let label = match self {
            PowerSupplyStatus::Unknown => "Unknown",
            PowerSupplyStatus::Charging => "Charging",
            PowerSupplyStatus::Discharging => "Discharging",
            PowerSupplyStatus::NotCharging => "Not charging",
            PowerSupplyStatus::Full => "Full",
        };
        String::from_str(label)
    }
}

impl<'a> TryFrom<&'a str> for PowerSupplyStatus {
    type Error = Error;

    fn try_from(value: &'a str) -> (r: Result<Self, Self::Error>)
        ensures
            r == Self::spec_parse(value@),
    {
        if value.is_empty() {
            return Err(Error::TryFromConversion);
        }
        let t = trim_text(value);
        let status = if same_text(t, "Charging") {
            PowerSupplyStatus::Charging
        } else if same_text(t, "Discharging") {
            PowerSupplyStatus::Discharging
        } else if same_text(t, "Not_charging") {
            PowerSupplyStatus::NotCharging
        } else if same_text(t, "Full") {
            PowerSupplyStatus::Full
        } else {
            PowerSupplyStatus::Unknown
        };
        Ok(status)
    }
}

impl<'a> vstd::std_specs::convert::TryFromSpecImpl<&'a str> for PowerSupplyStatus {
    open spec fn obeys_try_from_spec() -> bool {
        true
    }

    open spec fn try_from_spec(value: &'a str) -> Result<Self, Error> {
        Self::spec_parse(value@)
    }
}

/// The charge in percent, when the device reports it.
#[derive(Debug, Clone, Copy, PartialEq, Eq, Structural)]
pub enum PowerSupplyCapacity {
    Unknown,
    Level(u8),
}

impl Default for PowerSupplyCapacity {
    fn default() -> (r: Self)
        ensures
            r == PowerSupplyCapacity::Unknown,
    {
        PowerSupplyCapacity::Unknown
    }
}

impl PowerSupplyCapacity {
    /// The capacity read from raw attribute text: a number from 0 to 100 once
    /// trimmed, else an error.
    pub open spec fn spec_parse(s: Seq<char>) -> Result<PowerSupplyCapacity, Error> {
        match decimal_u8(trimmed(s)) {
            Some(n) => if n <= 100 {
                Ok(PowerSupplyCapacity::Level(n))
            } else {
                Err(Error::TryFromConversion)
            },
            None => Err(Error::TryFromConversion),
        }
    }

    /// The text that shows this capacity.
    pub open spec fn label(self) -> Seq<char> {
        match self {
            PowerSupplyCapacity::Unknown => "Unknown"@,
            PowerSupplyCapacity::Level(n) => decimal_text(n as nat),
        }
    }

    pub fn to_string(&self) -> (r: String)
        ensures
            r@ == self.label(),
    {
        match self {
            PowerSupplyCapacity::Level(n) => u8_text(*n),
            PowerSupplyCapacity::Unknown => String::from_str("Unknown"),
        }
    }
}

impl<'a> TryFrom<&'a str> for PowerSupplyCapacity {
    type Error = Error;

    fn try_from(value: &'a str) -> (r: Result<Self, Self::Error>)
        ensures
            r == Self::spec_parse(value@),
    {
        if value.is_empty() {
            return Err(Error::TryFromConversion);
        }
        match parse_u8(trim_text(value)) {
            Some(level) => {
                if level > 100 {
                    return Err(Error::TryFromConversion);
                }
                Ok(PowerSupplyCapacity::Level(level))
            },
            None => Err(Error::TryFromConversion),
        }
    }
}

impl<'a> vstd::std_specs::convert::TryFromSpecImpl<&'a str> for PowerSupplyCapacity {
    open spec fn obeys_try_from_spec() -> bool {
        true
    }

    open spec fn try_from_spec(value: &'a str) -> Result<Self, Error> {
        Self::spec_parse(value@)
    }
}

/// The coarse charge bucket that the device reports.
#[derive(Debug, Clone, Copy, PartialEq, Eq, Structural)]
pub enum PowerSupplyCapacityLevel {
    Unknown,
    Critical,
    Low,
    Normal,
    High,
    Full,
}

/// The capacity level that trimmed attribute text names.
pub open spec fn capacity_level_of_text(t: Seq<char>) -> PowerSupplyCapacityLevel {
    if t == "Critical"@ {
        PowerSupplyCapacityLevel::Critical
    } else if t == "Low"@ {
        PowerSupplyCapacityLevel::Low
    } else if t == "Normal"@ {
        PowerSupplyCapacityLevel::Normal
    } else if t == "High"@ {
        PowerSupplyCapacityLevel::High
    } else if t == "Full"@ {
        PowerSupplyCapacityLevel::Full
    } else {
        PowerSupplyCapacityLevel::Unknown
    }
}

impl Default for PowerSupplyCapacityLevel {
    fn default() -> (r: Self)
        ensures
            r == PowerSupplyCapacityLevel::Unknown,
    {
        PowerSupplyCapacityLevel::Unknown
    }
}

impl PowerSupplyCapacityLevel {
    /// The capacity level read from raw attribute text: empty text is an error.
    pub open spec fn spec_parse(s: Seq<char>) -> Result<PowerSupplyCapacityLevel, Error> {
        if s.len() == 0 {
            Err(Error::TryFromConversion)
        } else {
            Ok(capacity_level_of_text(trimmed(s)))
        }
    }

    /// The text that shows this capacity level.
    pub open spec fn label(self) -> Seq<char> {
        match self {
            PowerSupplyCapacityLevel::Unknown => "Unknown"@,
            PowerSupplyCapacityLevel::Critical => "Critical"@,
            PowerSupplyCapacityLevel::Low => "Low"@,
            PowerSupplyCapacityLevel::Normal => "Normal"@,
            PowerSupplyCapacityLevel::High => "High"@,
            PowerSupplyCapacityLevel::Full => "Full"@,
        }
    }

    pub fn to_string(&self) -> (r: String)
        ensures
            r@ == self.label(),
    {
        let label = match self {
            PowerSupplyCapacityLevel::Unknown => "Unknown",
            PowerSupplyCapacityLevel::Critical => "Critical",
            PowerSupplyCapacityLevel::Low => "Low",
            PowerSupplyCapacityLevel::Normal => "Normal",
            PowerSupplyCapacityLevel::High => "High",
            PowerSupplyCapacityLevel::Full => "Full",
        };
        String::from_str(label)
    }
}

impl<'a> TryFrom<&'a str> for PowerSupplyCapacityLevel {
    type Error = Error;

    fn try_from(value: &'a str) -> (r: Result<Self, Self::Error>)
        ensures
            r == Self::spec_parse(value@),
    {
        if value.is_empty() {
            return Err(Error::TryFromConversion);
        }
        let t = trim_text(value);
        let capacity_level = if same_text(t, "Critical") {
            PowerSupplyCapacityLevel::Critical
        } else if same_text(t, "Low") {
            PowerSupplyCapacityLevel::Low
        } else if same_text(t, "Normal") {
            PowerSupplyCapacityLevel::Normal
        } else if same_text(t, "High") {
            PowerSupplyCapacityLevel::High
        } else if same_text(t, "Full") {
            PowerSupplyCapacityLevel::Full
        } else {
            PowerSupplyCapacityLevel::Unknown
        };
        Ok(capacity_level)
    }
}

impl<'a> vstd::std_specs::convert::TryFromSpecImpl<&'a str> for PowerSupplyCapacityLevel {
    open spec fn obeys_try_from_spec() -> bool {
        true
    }

    open spec fn try_from_spec(value: &'a str) -> Result<Self, Error> {
        Self::spec_parse(value@)
    }
}

/// The maker's name, when the device reports it.
#[derive(Debug)]
pub enum PowerSupplyManufacturer {
    Unknown,
    Manufacturer(String),
}

impl View for PowerSupplyManufacturer {
    type V = Option<Seq<char>>;

    open spec fn view(&self) -> Option<Seq<char>> {
        match self {
            PowerSupplyManufacturer::Unknown => None,
            PowerSupplyManufacturer::Manufacturer(t) => Some(t@),
        }
    }
}

impl Default for PowerSupplyManufacturer {
    fn default() -> (r: Self)
        ensures
            r@ == None::<Seq<char>>,
    {
        PowerSupplyManufacturer::Unknown
    }
}

impl PowerSupplyManufacturer {
    pub fn to_string(&self) -> (r: String)
        ensures
            r@ == text_label(self@),
    {
        match self {
            PowerSupplyManufacturer::Manufacturer(name) => name.clone(),
            PowerSupplyManufacturer::Unknown => String::from_str("Unknown"),
        }
    }
}

impl<'a> TryFrom<&'a str> for PowerSupplyManufacturer {
    type Error = Error;

    fn try_from(value: &'a str) -> (r: Result<Self, Self::Error>)
        ensures
            r is Err <==> trimmed(value@).len() == 0,
            r matches Err(e) ==> e is TryFromConversion,
            r matches Ok(v) ==> v@ == Some(trimmed(value@)),
    {
        let text = trim_text(value);
        if text.is_empty() {
            return Err(Error::TryFromConversion);
        }
        let manufacturer = String::from_str(text);
        Ok(PowerSupplyManufacturer::Manufacturer(manufacturer))
    }
}

impl<'a> vstd::std_specs::convert::TryFromSpecImpl<&'a str> for PowerSupplyManufacturer {
    /// The text in the result is a fresh `String`, so the method's own
    /// `ensures` speaks of its view instead.
    open spec fn obeys_try_from_spec() -> bool {
        false
    }

    open spec fn try_from_spec(value: &'a str) -> Result<Self, Error> {
        if trimmed(value@).len() == 0 {
            Err(Error::TryFromConversion)
        } else {
            Ok(PowerSupplyManufacturer::Manufacturer(choose|t: String| t@ == trimmed(value@)))
        }
    }
}

/// The model's name, when the device reports it.
#[derive(Debug)]
pub enum PowerSupplyModelName {
    Unknown,
    ModelName(String),
}

impl View for PowerSupplyModelName {
    type V = Option<Seq<char>>;

    open spec fn view(&self) -> Option<Seq<char>> {
        match self {
            PowerSupplyModelName::Unknown => None,
            PowerSupplyModelName::ModelName(t) => Some(t@),
        }
    }
}

impl Default for PowerSupplyModelName {
    fn default() -> (r: Self)
        ensures
            r@ == None::<Seq<char>>,
    {
        PowerSupplyModelName::Unknown
    }
}

impl PowerSupplyModelName {
    pub fn to_string(&self) -> (r: String)
        ensures
            r@ == text_label(self@),
    {
        match self {
            PowerSupplyModelName::ModelName(name) => name.clone(),
            PowerSupplyModelName::Unknown => String::from_str("Unknown"),
        }
    }
}

impl<'a> TryFrom<&'a str> for PowerSupplyModelName {
    type Error = Error;

    fn try_from(value: &'a str) -> (r: Result<Self, Self::Error>)
        ensures
            r is Err <==> trimmed(value@).len() == 0,
            r matches Err(e) ==> e is TryFromConversion,
            r matches Ok(v) ==> v@ == Some(trimmed(value@)),
    {
        let text = trim_text(value);
        if text.is_empty() {
            return Err(Error::TryFromConversion);
        }
        let model_name = String::from_str(text);
        Ok(PowerSupplyModelName::ModelName(model_name))
    }
}

impl<'a> vstd::std_specs::convert::TryFromSpecImpl<&'a str> for PowerSupplyModelName {
    /// The text in the result is a fresh `String`, so the method's own
    /// `ensures` speaks of its view instead.
    open spec fn obeys_try_from_spec() -> bool {
        false
    }

    open spec fn try_from_spec(value: &'a str) -> Result<Self, Error> {
        if trimmed(value@).len() == 0 {
            Err(Error::TryFromConversion)
        } else {
            Ok(PowerSupplyModelName::ModelName(choose|t: String| t@ == trimmed(value@)))
        }
    }
}

/// The serial number, when the device reports it.
#[derive(Debug)]
pub enum PowerSupplySerialNumber {
    Unknown,
    SerialNumber(String),
}

impl View for PowerSupplySerialNumber {
    type V = Option<Seq<char>>;

    open spec fn view(&self) -> Option<Seq<char>> {
        match self {
            PowerSupplySerialNumber::Unknown => None,
            PowerSupplySerialNumber::SerialNumber(t) => Some(t@),
        }
    }
}

impl Default for PowerSupplySerialNumber {
    fn default() -> (r: Self)
        ensures
            r@ == None::<Seq<char>>,
    {
        PowerSupplySerialNumber::Unknown
    }
}

impl PowerSupplySerialNumber {
    pub fn to_string(&self) -> (r: String)
        ensures
            r@ == text_label(self@),
    {
        match self {
            PowerSupplySerialNumber::SerialNumber(name) => name.clone(),
            PowerSupplySerialNumber::Unknown => String::from_str("Unknown"),
        }
    }
}

impl<'a> TryFrom<&'a str> for PowerSupplySerialNumber {
    type Error = Error;

    fn try_from(value: &'a str) -> (r: Result<Self, Self::Error>)
        ensures
            r is Err <==> trimmed(value@).len() == 0,
            r matches Err(e) ==> e is TryFromConversion,
            r matches Ok(v) ==> v@ == Some(trimmed(value@)),
    {
        let text = trim_text(value);
        if text.is_empty() {
            return Err(Error::TryFromConversion);
        }
        let serial_number = String::from_str(text);
        Ok(PowerSupplySerialNumber::SerialNumber(serial_number))
    }
}

impl<'a> vstd::std_specs::convert::TryFromSpecImpl<&'a str> for PowerSupplySerialNumber {
    /// The text in the result is a fresh `String`, so the method's own
    /// `ensures` speaks of its view instead.
    open spec fn obeys_try_from_spec() -> bool {
        false
    }

    open spec fn try_from_spec(value: &'a str) -> Result<Self, Error> {
        if trimmed(value@).len() == 0 {
            Err(Error::TryFromConversion)
        } else {
            Ok(PowerSupplySerialNumber::SerialNumber(choose|t: String| t@ == trimmed(value@)))
        }
    }
}

/// How an optional reported text shows: `Unknown` when it is absent.
pub open spec fn text_label(t: Option<Seq<char>>) -> Seq<char> {
    match t {
        Some(t) => t,
        None => "Unknown"@,
    }
}

/// The six attributes of one battery, each parsed from its attribute file.
#[derive(Debug)]
pub struct Battery {
    pub capacity: PowerSupplyCapacity,
    pub status: PowerSupplyStatus,
    pub capacity_level: PowerSupplyCapacityLevel,
    pub manufacturer: PowerSupplyManufacturer,
    pub model_name: PowerSupplyModelName,
    pub serial_number: PowerSupplySerialNumber,
}

/// A battery record with its texts as character sequences.
pub struct BatteryView {
    pub capacity: PowerSupplyCapacity,
    pub status: PowerSupplyStatus,
    pub capacity_level: PowerSupplyCapacityLevel,
    pub manufacturer: Option<Seq<char>>,
    pub model_name: Option<Seq<char>>,
    pub serial_number: Option<Seq<char>>,
}

impl View for Battery {
    type V = BatteryView;

    open spec fn view(&self) -> BatteryView {
        BatteryView {
            capacity: self.capacity,
            status: self.status,
            capacity_level: self.capacity_level,
            manufacturer: self.manufacturer@,
            model_name: self.model_name@,
            serial_number: self.serial_number@,
        }
    }
}

/// The one-line summary of a battery:
/// `maker: model (serial) | capacity% (level) | status `.
pub open spec fn summary(b: BatteryView) -> Seq<char> {
    text_label(b.manufacturer) + ": "@ + text_label(b.model_name) + " ("@ + text_label(
        b.serial_number,
    ) + ") | "@ + b.capacity.label() + "% ("@ + b.capacity_level.label() + ") | "@
        + b.status.label() + " "@
}

impl Battery {
    pub fn to_string(&self) -> (r: String)
        ensures
            r@ == summary(self@),
    {
        let mut out = self.manufacturer.to_string();
        out.append(": ");
        out.append(self.model_name.to_string().as_str());
        out.append(" (");
        out.append(self.serial_number.to_string().as_str());
        out.append(") | ");
        out.append(self.capacity.to_string().as_str());
        out.append("% (");
        out.append(self.capacity_level.to_string().as_str());
        out.append(") | ");
        out.append(self.status.to_string().as_str());
        out.append(" ");
        out
    }
}

/// Text that starts and ends with other characters than white space is its
/// own trimmed form.
pub proof fn lemma_trimmed_unchanged(s: Seq<char>)
    requires
        s.len() > 0,
        !is_white_space(s[0]),
        !is_white_space(s.last()),
    ensures
        trimmed(s) == s,
{
}

/// Each status name that the device writes parses to its own status, and
/// that status shows as the same name, but for `Not_charging`, which shows
/// as `Not charging`.
pub proof fn lemma_known_status_round_trip(s: Seq<char>)
    requires
        s == "Charging"@ || s == "Discharging"@ || s == "Not_charging"@ || s == "Full"@,
    ensures
        s == "Charging"@ ==> PowerSupplyStatus::spec_parse(s) == Ok::<PowerSupplyStatus, Error>(
            PowerSupplyStatus::Charging,
        ),
        s == "Discharging"@ ==> PowerSupplyStatus::spec_parse(s) == Ok::<PowerSupplyStatus, Error>(
            PowerSupplyStatus::Discharging,
        ),
        s == "Not_charging"@ ==> PowerSupplyStatus::spec_parse(s) == Ok::<
            PowerSupplyStatus,
            Error,
        >(PowerSupplyStatus::NotCharging),
        s == "Full"@ ==> PowerSupplyStatus::spec_parse(s) == Ok::<PowerSupplyStatus, Error>(
            PowerSupplyStatus::Full,
        ),
        PowerSupplyStatus::spec_parse(s) matches Ok(v) && v.label() == (if s == "Not_charging"@ {
            "Not charging"@
        } else {
            s
        }),
{
    reveal_strlit("Charging");
    reveal_strlit("Discharging");
    reveal_strlit("Not_charging");
    reveal_strlit("Not charging");
    reveal_strlit("Full");
    lemma_trimmed_unchanged(s);
}

/// Non-empty text that, once trimmed, is none of the status names parses to
/// `Unknown` rather than failing.
pub proof fn lemma_unrecognised_status_is_unknown(s: Seq<char>)
    requires
        s.len() > 0,
        trimmed(s) != "Charging"@,
        trimmed(s) != "Discharging"@,
        trimmed(s) != "Not_charging"@,
        trimmed(s) != "Full"@,
    ensures
        PowerSupplyStatus::spec_parse(s) == Ok::<PowerSupplyStatus, Error>(
            PowerSupplyStatus::Unknown,
        ),
{
}

/// A maker, model or serial text that parses shows as its input with the
/// white space at both ends removed: a text that is not empty and neither
/// starts nor ends with white space.
pub proof fn lemma_text_attribute_shows_trimmed(s: Seq<char>)
    requires
        trimmed(s).len() > 0,
    ensures
        text_label(Some(trimmed(s))) == trimmed(s),
        !is_white_space(trimmed(s)[0]),
        !is_white_space(trimmed(s).last()),
{
    lemma_trimmed_edges(s);
}

} // verus!
