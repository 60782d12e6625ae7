//! Lemonbeat types that payloads use: device-description properties, value
//! types and the codes of status reports.

use vstd::prelude::*;

verus! {

/// The device description types as described in Table 2.17 (2.2.6.2).
///
/// Settable types are marked with **rw**.
///
/// As with [Property], we are using a different name to reduce confusion.
#[derive(Clone, Copy, Debug, PartialEq, Eq, Structural)]
pub enum PropertyId {
    /// Manufacturer type ID
    Type,
    /// The manufacturer of the device.
    /// See Table 2.20(`Manufacturer`) for a list of manufacturers.
    Manufacturer,
    /// Serialized Global Trade Item Number, which is a unique device number
    Sgtin,
    /// The MAC address of the device, which is a unique device
    MacAddress,
    /// The version of the hardware
    HardwareVersion,
    /// The version of the bootloader
    BootloaderVersion,
    /// The version of the stack
    StackVersion,
    /// The version of the application
    ApplicationVersion,
    /// The communication protocol that the device uses.
    /// See Table 2.18(`Protocol`) for a list of protocols.
    Protocol,
    /// Manufacturer product ID
    Product,
    /// Boolean value that indicates if the device is included.
    /// **rw**
    Included,
    /// The name of the device.
    /// **rw**
    Name,
    /// Device communication mode. See Table 2.19(`RadioMode`)
    RadioMode,
    /// The time in milliseconds that the device is offline between
    /// consecutive RX-active periods. Currently set to 333 ms.
    /// **rw**
    WakeupInterval,
    /// The offset in milliseconds needed for the calculation of the
    /// RX-active period. Not needed in the current version.
    WakeupOffset,
    /// The radio channel that the device listens on for wake-up frames.
    /// **rw**
    WakeupChannel,
    /// The current channel map having 4 channels defined as bit.
    /// **rw**
    ChannelMap,
    /// The time it takes to scan a single channel
    ChannelScanTime,
    /// IPv6 address
    Ipv6Address,
    /// The time the device should stay awake. Only valid in the Partner Service.
    /// **rw**
    WakeupNow,
    /// The diversity mode used in the device: 0 = off, 1 = on
    DiversityMode,
    /// The TX power of the transceiver in dBm.
    /// **rw**
    TxPower,
    /// Uptime (time since last reset) in seconds, since stack 1.6.0
    Uptime,
}

impl PropertyId {
    /// The number that stands for this variant.
    pub open spec fn spec_to_u32(self) -> u32 {
        match self {
            PropertyId::Type => 1,
            PropertyId::Manufacturer => 2,
            PropertyId::Sgtin => 3,
            PropertyId::MacAddress => 4,
            PropertyId::HardwareVersion => 5,
            PropertyId::BootloaderVersion => 6,
            PropertyId::StackVersion => 7,
            PropertyId::ApplicationVersion => 8,
            PropertyId::Protocol => 9,
            PropertyId::Product => 10,
            PropertyId::Included => 11,
            PropertyId::Name => 12,
            PropertyId::RadioMode => 13,
            PropertyId::WakeupInterval => 14,
            PropertyId::WakeupOffset => 15,
            PropertyId::WakeupChannel => 16,
            PropertyId::ChannelMap => 17,
            PropertyId::ChannelScanTime => 18,
            PropertyId::Ipv6Address => 19,
            PropertyId::WakeupNow => 20,
            PropertyId::DiversityMode => 21,
            PropertyId::TxPower => 27,
            PropertyId::Uptime => 49,
        }
    }

    /// The variant that `n` stands for, if any.
    pub open spec fn spec_from_u32(n: u32) -> Option<Self> {
        if n == 1 {
            Some(PropertyId::Type)
        }         else if n == 2 {
            Some(PropertyId::Manufacturer)
        }         else if n == 3 {
            Some(PropertyId::Sgtin)
        }         else if n == 4 {
            Some(PropertyId::MacAddress)
        }         else if n == 5 {
            Some(PropertyId::HardwareVersion)
        }         else if n == 6 {
            Some(PropertyId::BootloaderVersion)
        }         else if n == 7 {
            Some(PropertyId::StackVersion)
        }         else if n == 8 {
            Some(PropertyId::ApplicationVersion)
        }         else if n == 9 {
            Some(PropertyId::Protocol)
        }         else if n == 10 {
            Some(PropertyId::Product)
        }         else if n == 11 {
            Some(PropertyId::Included)
        }         else if n == 12 {
            Some(PropertyId::Name)
        }         else if n == 13 {
            Some(PropertyId::RadioMode)
        }         else if n == 14 {
            Some(PropertyId::WakeupInterval)
        }         else if n == 15 {
            Some(PropertyId::WakeupOffset)
        }         else if n == 16 {
            Some(PropertyId::WakeupChannel)
        }         else if n == 17 {
            Some(PropertyId::ChannelMap)
        }         else if n == 18 {
            Some(PropertyId::ChannelScanTime)
        }         else if n == 19 {
            Some(PropertyId::Ipv6Address)
        }         else if n == 20 {
            Some(PropertyId::WakeupNow)
        }         else if n == 21 {
            Some(PropertyId::DiversityMode)
        }         else if n == 27 {
            Some(PropertyId::TxPower)
        }         else if n == 49 {
            Some(PropertyId::Uptime)
        } else {
            None
        }
    }

    /// The number that stands for this variant.
    pub fn to_u32(&self) -> (n: u32)
        ensures
            n == self.spec_to_u32(),
            Self::spec_from_u32(n) == Some(*self),
    {
        match self {
            PropertyId::Type => 1,
            PropertyId::Manufacturer => 2,
            PropertyId::Sgtin => 3,
            PropertyId::MacAddress => 4,
            PropertyId::HardwareVersion => 5,
            PropertyId::BootloaderVersion => 6,
            PropertyId::StackVersion => 7,
            PropertyId::ApplicationVersion => 8,
            PropertyId::Protocol => 9,
            PropertyId::Product => 10,
            PropertyId::Included => 11,
            PropertyId::Name => 12,
            PropertyId::RadioMode => 13,
            PropertyId::WakeupInterval => 14,
            PropertyId::WakeupOffset => 15,
            PropertyId::WakeupChannel => 16,
            PropertyId::ChannelMap => 17,
            PropertyId::ChannelScanTime => 18,
            PropertyId::Ipv6Address => 19,
            PropertyId::WakeupNow => 20,
            PropertyId::DiversityMode => 21,
            PropertyId::TxPower => 27,
            PropertyId::Uptime => 49,
        }
    }

    /// The variant that `n` stands for, if any.
    pub fn from_u32(n: u32) -> (r: Option<Self>)
        ensures
            r == Self::spec_from_u32(n),
            r matches Some(v) ==> v.spec_to_u32() == n,
    {
        if n == 1 {
            Some(PropertyId::Type)
        }         else if n == 2 {
            Some(PropertyId::Manufacturer)
        }         else if n == 3 {
            Some(PropertyId::Sgtin)
        }         else if n == 4 {
            Some(PropertyId::MacAddress)
        }         else if n == 5 {
            Some(PropertyId::HardwareVersion)
        }         else if n == 6 {
            Some(PropertyId::BootloaderVersion)
        }         else if n == 7 {
            Some(PropertyId::StackVersion)
        }         else if n == 8 {
            Some(PropertyId::ApplicationVersion)
        }         else if n == 9 {
            Some(PropertyId::Protocol)
        }         else if n == 10 {
            Some(PropertyId::Product)
        }         else if n == 11 {
            Some(PropertyId::Included)
        }         else if n == 12 {
            Some(PropertyId::Name)
        }         else if n == 13 {
            Some(PropertyId::RadioMode)
        }         else if n == 14 {
            Some(PropertyId::WakeupInterval)
        }         else if n == 15 {
            Some(PropertyId::WakeupOffset)
        }         else if n == 16 {
            Some(PropertyId::WakeupChannel)
        }         else if n == 17 {
            Some(PropertyId::ChannelMap)
        }         else if n == 18 {
            Some(PropertyId::ChannelScanTime)
        }         else if n == 19 {
            Some(PropertyId::Ipv6Address)
        }         else if n == 20 {
            Some(PropertyId::WakeupNow)
        }         else if n == 21 {
            Some(PropertyId::DiversityMode)
        }         else if n == 27 {
            Some(PropertyId::TxPower)
        }         else if n == 49 {
            Some(PropertyId::Uptime)
        } else {
            None
        }
    }
}

/// The different protocols as described in Table 2.18 (2.2.6.2.1)
#[derive(Clone, Copy, Debug, PartialEq, Eq, Structural)]
pub enum Protocol {
    Lemonbeat,
    WiFi,
    Ethernet,
}

impl Protocol {
    /// The number that stands for this variant.
    pub open spec fn spec_to_u32(self) -> u32 {
        match self {
            Protocol::Lemonbeat => 1,
            Protocol::WiFi => 2,
            Protocol::Ethernet => 3,
        }
    }

    /// The variant that `n` stands for, if any.
    pub open spec fn spec_from_u32(n: u32) -> Option<Self> {
        if n == 1 {
            Some(Protocol::Lemonbeat)
        }         else if n == 2 {
            Some(Protocol::WiFi)
        }         else if n == 3 {
            Some(Protocol::Ethernet)
        } else {
            None
        }
    }

    /// The number that stands for this variant.
    pub fn to_u32(&self) -> (n: u32)
        ensures
            n == self.spec_to_u32(),
            Self::spec_from_u32(n) == Some(*self),
    {
        match self {
            Protocol::Lemonbeat => 1,
            Protocol::WiFi => 2,
            Protocol::Ethernet => 3,
        }
    }

    /// The variant that `n` stands for, if any.
    pub fn from_u32(n: u32) -> (r: Option<Self>)
        ensures
            r == Self::spec_from_u32(n),
            r matches Some(v) ==> v.spec_to_u32() == n,
    {
        if n == 1 {
            Some(Protocol::Lemonbeat)
        }         else if n == 2 {
            Some(Protocol::WiFi)
        }         else if n == 3 {
            Some(Protocol::Ethernet)
        } else {
            None
        }
    }
}

/// The Radio Mode describes how a device communicates over the air.
///
/// The default value for this is [RadioMode::AlwaysOnline].
/// Therefore, this information can be omitted in a device_description_report tag.
#[derive(Clone, Copy, Debug, PartialEq, Eq, Structural)]
pub enum RadioMode {
    AlwaysOnline,
    /// only UDP is supported
    WakeOnRadio,
    /// only UDP is supported
    WakeOnEvent,
    TxOnly,
    RxOnly,
}

impl RadioMode {
    /// The number that stands for this variant.
    pub open spec fn spec_to_u32(self) -> u32 {
        match self {
            RadioMode::AlwaysOnline => 0,
            RadioMode::WakeOnRadio => 1,
            RadioMode::WakeOnEvent => 2,
            RadioMode::TxOnly => 3,
            RadioMode::RxOnly => 4,
        }
    }

    /// The variant that `n` stands for, if any.
    pub open spec fn spec_from_u32(n: u32) -> Option<Self> {
        if n == 0 {
            Some(RadioMode::AlwaysOnline)
        }         else if n == 1 {
            Some(RadioMode::WakeOnRadio)
        }         else if n == 2 {
            Some(RadioMode::WakeOnEvent)
        }         else if n == 3 {
            Some(RadioMode::TxOnly)
        }         else if n == 4 {
            Some(RadioMode::RxOnly)
        } else {
            None
        }
    }

    /// The number that stands for this variant.
    pub fn to_u32(&self) -> (n: u32)
        ensures
            n == self.spec_to_u32(),
            Self::spec_from_u32(n) == Some(*self),
    {
        match self {
            RadioMode::AlwaysOnline => 0,
            RadioMode::WakeOnRadio => 1,
            RadioMode::WakeOnEvent => 2,
            RadioMode::TxOnly => 3,
            RadioMode::RxOnly => 4,
        }
    }

    /// The variant that `n` stands for, if any.
    pub fn from_u32(n: u32) -> (r: Option<Self>)
        ensures
            r == Self::spec_from_u32(n),
            r matches Some(v) ==> v.spec_to_u32() == n,
    {
        if n == 0 {
            Some(RadioMode::AlwaysOnline)
        }         else if n == 1 {
            Some(RadioMode::WakeOnRadio)
        }         else if n == 2 {
            Some(RadioMode::WakeOnEvent)
        }         else if n == 3 {
            Some(RadioMode::TxOnly)
        }         else if n == 4 {
            Some(RadioMode::RxOnly)
        } else {
            None
        }
    }
}

/// The different manufacturers as defined in Table 2.20 (2.2.6.2.3)
#[derive(Clone, Copy, Debug, PartialEq, Eq, Structural)]
pub enum Manufacturer {
    /// RWE
    Rwe,
    /// Seluxit
    Seluxit,
    /// Gardena
    Gardena,
    /// Lemonbeat
    Lemonbeat,
    /// Alko
    Alko,
    /// bit.b
    BitB,
    /// innogy Metering
    InnogyMetering,
    /// Pikkerton
    Pikkerton,
}

impl Manufacturer {
    /// The number that stands for this variant.
    pub open spec fn spec_to_u32(self) -> u32 {
        match self {
            Manufacturer::Rwe => 1,
            Manufacturer::Seluxit => 2,
            Manufacturer::Gardena => 3,
            Manufacturer::Lemonbeat => 4,
            Manufacturer::Alko => 5,
            Manufacturer::BitB => 6,
            Manufacturer::InnogyMetering => 7,
            Manufacturer::Pikkerton => 8,
        }
    }

    /// The variant that `n` stands for, if any.
    pub open spec fn spec_from_u32(n: u32) -> Option<Self> {
        if n == 1 {
            Some(Manufacturer::Rwe)
        }         else if n == 2 {
            Some(Manufacturer::Seluxit)
        }         else if n == 3 {
            Some(Manufacturer::Gardena)
        }         else if n == 4 {
            Some(Manufacturer::Lemonbeat)
        }         else if n == 5 {
            Some(Manufacturer::Alko)
        }         else if n == 6 {
            Some(Manufacturer::BitB)
        }         else if n == 7 {
            Some(Manufacturer::InnogyMetering)
        }         else if n == 8 {
            Some(Manufacturer::Pikkerton)
        } else {
            None
        }
    }

    /// The number that stands for this variant.
    pub fn to_u32(&self) -> (n: u32)
        ensures
            n == self.spec_to_u32(),
            Self::spec_from_u32(n) == Some(*self),
    {
        match self {
            Manufacturer::Rwe => 1,
            Manufacturer::Seluxit => 2,
            Manufacturer::Gardena => 3,
            Manufacturer::Lemonbeat => 4,
            Manufacturer::Alko => 5,
            Manufacturer::BitB => 6,
            Manufacturer::InnogyMetering => 7,
            Manufacturer::Pikkerton => 8,
        }
    }

    /// The variant that `n` stands for, if any.
    pub fn from_u32(n: u32) -> (r: Option<Self>)
        ensures
            r == Self::spec_from_u32(n),
            r matches Some(v) ==> v.spec_to_u32() == n,
    {
        if n == 1 {
            Some(Manufacturer::Rwe)
        }         else if n == 2 {
            Some(Manufacturer::Seluxit)
        }         else if n == 3 {
            Some(Manufacturer::Gardena)
        }         else if n == 4 {
            Some(Manufacturer::Lemonbeat)
        }         else if n == 5 {
            Some(Manufacturer::Alko)
        }         else if n == 6 {
            Some(Manufacturer::BitB)
        }         else if n == 7 {
            Some(Manufacturer::InnogyMetering)
        }         else if n == 8 {
            Some(Manufacturer::Pikkerton)
        } else {
            None
        }
    }
}

/// The valid options for the `memory_id` attributes in the
/// `memory_information` tag from Table 2.14.
#[derive(Clone, Copy, Debug, PartialEq, Eq, Structural)]
pub enum MemoryId {
    Value,
    PartnerInformation,
    ActionItems,
    Calculation,
    Timer,
    Calendar,
    Statemachine,
    StatemachineTransactions,
}

impl MemoryId {
    /// The number that stands for this variant.
    pub open spec fn spec_to_u32(self) -> u32 {
        match self {
            MemoryId::Value => 1,
            MemoryId::PartnerInformation => 2,
            MemoryId::ActionItems => 3,
            MemoryId::Calculation => 4,
            MemoryId::Timer => 5,
            MemoryId::Calendar => 6,
            MemoryId::Statemachine => 7,
            MemoryId::StatemachineTransactions => 8,
        }
    }

    /// The variant that `n` stands for, if any.
    pub open spec fn spec_from_u32(n: u32) -> Option<Self> {
        if n == 1 {
            Some(MemoryId::Value)
        }         else if n == 2 {
            Some(MemoryId::PartnerInformation)
        }         else if n == 3 {
            Some(MemoryId::ActionItems)
        }         else if n == 4 {
            Some(MemoryId::Calculation)
        }         else if n == 5 {
            Some(MemoryId::Timer)
        }         else if n == 6 {
            Some(MemoryId::Calendar)
        }         else if n == 7 {
            Some(MemoryId::Statemachine)
        }         else if n == 8 {
            Some(MemoryId::StatemachineTransactions)
        } else {
            None
        }
    }

    /// The number that stands for this variant.
    pub fn to_u32(&self) -> (n: u32)
        ensures
            n == self.spec_to_u32(),
            Self::spec_from_u32(n) == Some(*self),
    {
        match self {
            MemoryId::Value => 1,
            MemoryId::PartnerInformation => 2,
            MemoryId::ActionItems => 3,
            MemoryId::Calculation => 4,
            MemoryId::Timer => 5,
            MemoryId::Calendar => 6,
            MemoryId::Statemachine => 7,
            MemoryId::StatemachineTransactions => 8,
        }
    }

    /// The variant that `n` stands for, if any.
    pub fn from_u32(n: u32) -> (r: Option<Self>)
        ensures
            r == Self::spec_from_u32(n),
            r matches Some(v) ==> v.spec_to_u32() == n,
    {
        if n == 1 {
            Some(MemoryId::Value)
        }         else if n == 2 {
            Some(MemoryId::PartnerInformation)
        }         else if n == 3 {
            Some(MemoryId::ActionItems)
        }         else if n == 4 {
            Some(MemoryId::Calculation)
        }         else if n == 5 {
            Some(MemoryId::Timer)
        }         else if n == 6 {
            Some(MemoryId::Calendar)
        }         else if n == 7 {
            Some(MemoryId::Statemachine)
        }         else if n == 8 {
            Some(MemoryId::StatemachineTransactions)
        } else {
            None
        }
    }
}

/// The valid options for the `type_id` attribute in the Value Description as
/// listed in Table 2.25 (2.2.7.1.1).
#[derive(Clone, Copy, Debug, PartialEq, Eq, Structural)]
pub enum ValueType {
    Temperature,
    Luminance,
    Power,
    Electricity,
    Humidity,
    Velocity,
    Direction,
    Atmospheric,
    Barometric,
    SolarRadiation,
    DewPoint,
    RainRate,
    TideLevel,
    OnOff,
    AwakeState,
    Event,
    GeneralPurpose,
    Counter,
    Energy,
    Level,
    CO2,
    AirFlow,
    TankCapacity,
    Distance,
    ClimateControl,
    Program,
    FanSpeed,
    ErrorCode,
    OperationMode,
    Louvre,
    Mode,
    Time,
    DutyCycle,
    Voltage,
    Current,
    Frequency,
    Battery,
    TimezoneOffset,
    Year,
    Month,
    DayOfMonth,
    Weekday,
    Hour,
    Minute,
}

impl ValueType {
    /// The number that stands for this variant.
    pub open spec fn spec_to_u32(self) -> u32 {
        match self {
            ValueType::Temperature => 1,
            ValueType::Luminance => 2,
            ValueType::Power => 3,
            ValueType::Electricity => 4,
            ValueType::Humidity => 5,
            ValueType::Velocity => 6,
            ValueType::Direction => 7,
            ValueType::Atmospheric => 8,
            ValueType::Barometric => 9,
            ValueType::SolarRadiation => 10,
            ValueType::DewPoint => 11,
            ValueType::RainRate => 12,
            ValueType::TideLevel => 13,
            ValueType::OnOff => 14,
            ValueType::AwakeState => 15,
            ValueType::Event => 16,
            ValueType::GeneralPurpose => 17,
            ValueType::Counter => 18,
            ValueType::Energy => 19,
            ValueType::Level => 20,
            ValueType::CO2 => 21,
            ValueType::AirFlow => 22,
            ValueType::TankCapacity => 23,
            ValueType::Distance => 24,
            ValueType::ClimateControl => 25,
            ValueType::Program => 26,
            ValueType::FanSpeed => 27,
            ValueType::ErrorCode => 28,
            ValueType::OperationMode => 29,
            ValueType::Louvre => 30,
            ValueType::Mode => 31,
            ValueType::Time => 32,
            ValueType::DutyCycle => 33,
            ValueType::Voltage => 34,
            ValueType::Current => 35,
            ValueType::Frequency => 36,
            ValueType::Battery => 37,
            ValueType::TimezoneOffset => 38,
            ValueType::Year => 39,
            ValueType::Month => 40,
            ValueType::DayOfMonth => 41,
            ValueType::Weekday => 42,
            ValueType::Hour => 43,
            ValueType::Minute => 44,
        }
    }

    /// The variant that `n` stands for, if any.
    pub open spec fn spec_from_u32(n: u32) -> Option<Self> {
        if n == 1 {
            Some(ValueType::Temperature)
        }         else if n == 2 {
            Some(ValueType::Luminance)
        }         else if n == 3 {
            Some(ValueType::Power)
        }         else if n == 4 {
            Some(ValueType::Electricity)
        }         else if n == 5 {
            Some(ValueType::Humidity)
        }         else if n == 6 {
            Some(ValueType::Velocity)
        }         else if n == 7 {
            Some(ValueType::Direction)
        }         else if n == 8 {
            Some(ValueType::Atmospheric)
        }         else if n == 9 {
            Some(ValueType::Barometric)
        }         else if n == 10 {
            Some(ValueType::SolarRadiation)
        }         else if n == 11 {
            Some(ValueType::DewPoint)
        }         else if n == 12 {
            Some(ValueType::RainRate)
        }         else if n == 13 {
            Some(ValueType::TideLevel)
        }         else if n == 14 {
            Some(ValueType::OnOff)
        }         else if n == 15 {
            Some(ValueType::AwakeState)
        }         else if n == 16 {
            Some(ValueType::Event)
        }         else if n == 17 {
            Some(ValueType::GeneralPurpose)
        }         else if n == 18 {
            Some(ValueType::Counter)
        }         else if n == 19 {
            Some(ValueType::Energy)
        }         else if n == 20 {
            Some(ValueType::Level)
        }         else if n == 21 {
            Some(ValueType::CO2)
        }         else if n == 22 {
            Some(ValueType::AirFlow)
        }         else if n == 23 {
            Some(ValueType::TankCapacity)
        }         else if n == 24 {
            Some(ValueType::Distance)
        }         else if n == 25 {
            Some(ValueType::ClimateControl)
        }         else if n == 26 {
            Some(ValueType::Program)
        }         else if n == 27 {
            Some(ValueType::FanSpeed)
        }         else if n == 28 {
            Some(ValueType::ErrorCode)
        }         else if n == 29 {
            Some(ValueType::OperationMode)
        }         else if n == 30 {
            Some(ValueType::Louvre)
        }         else if n == 31 {
            Some(ValueType::Mode)
        }         else if n == 32 {
            Some(ValueType::Time)
        }         else if n == 33 {
            Some(ValueType::DutyCycle)
        }         else if n == 34 {
            Some(ValueType::Voltage)
        }         else if n == 35 {
            Some(ValueType::Current)
        }         else if n == 36 {
            Some(ValueType::Frequency)
        }         else if n == 37 {
            Some(ValueType::Battery)
        }         else if n == 38 {
            Some(ValueType::TimezoneOffset)
        }         else if n == 39 {
            Some(ValueType::Year)
        }         else if n == 40 {
            Some(ValueType::Month)
        }         else if n == 41 {
            Some(ValueType::DayOfMonth)
        }         else if n == 42 {
            Some(ValueType::Weekday)
        }         else if n == 43 {
            Some(ValueType::Hour)
        }         else if n == 44 {
            Some(ValueType::Minute)
        } else {
            None
        }
    }

    /// The number that stands for this variant.
    pub fn to_u32(&self) -> (n: u32)
        ensures
            n == self.spec_to_u32(),
            Self::spec_from_u32(n) == Some(*self),
    {
        match self {
            ValueType::Temperature => 1,
            ValueType::Luminance => 2,
            ValueType::Power => 3,
            ValueType::Electricity => 4,
            ValueType::Humidity => 5,
            ValueType::Velocity => 6,
            ValueType::Direction => 7,
            ValueType::Atmospheric => 8,
            ValueType::Barometric => 9,
            ValueType::SolarRadiation => 10,
            ValueType::DewPoint => 11,
            ValueType::RainRate => 12,
            ValueType::TideLevel => 13,
            ValueType::OnOff => 14,
            ValueType::AwakeState => 15,
            ValueType::Event => 16,
            ValueType::GeneralPurpose => 17,
            ValueType::Counter => 18,
            ValueType::Energy => 19,
            ValueType::Level => 20,
            ValueType::CO2 => 21,
            ValueType::AirFlow => 22,
            ValueType::TankCapacity => 23,
            ValueType::Distance => 24,
            ValueType::ClimateControl => 25,
            ValueType::Program => 26,
            ValueType::FanSpeed => 27,
            ValueType::ErrorCode => 28,
            ValueType::OperationMode => 29,
            ValueType::Louvre => 30,
            ValueType::Mode => 31,
            ValueType::Time => 32,
            ValueType::DutyCycle => 33,
            ValueType::Voltage => 34,
            ValueType::Current => 35,
            ValueType::Frequency => 36,
            ValueType::Battery => 37,
            ValueType::TimezoneOffset => 38,
            ValueType::Year => 39,
            ValueType::Month => 40,
            ValueType::DayOfMonth => 41,
            ValueType::Weekday => 42,
            ValueType::Hour => 43,
            ValueType::Minute => 44,
        }
    }

    /// The variant that `n` stands for, if any.
    pub fn from_u32(n: u32) -> (r: Option<Self>)
        ensures
            r == Self::spec_from_u32(n),
            r matches Some(v) ==> v.spec_to_u32() == n,
    {
        if n == 1 {
            Some(ValueType::Temperature)
        }         else if n == 2 {
            Some(ValueType::Luminance)
        }         else if n == 3 {
            Some(ValueType::Power)
        }         else if n == 4 {
            Some(ValueType::Electricity)
        }         else if n == 5 {
            Some(ValueType::Humidity)
        }         else if n == 6 {
            Some(ValueType::Velocity)
        }         else if n == 7 {
            Some(ValueType::Direction)
        }         else if n == 8 {
            Some(ValueType::Atmospheric)
        }         else if n == 9 {
            Some(ValueType::Barometric)
        }         else if n == 10 {
            Some(ValueType::SolarRadiation)
        }         else if n == 11 {
            Some(ValueType::DewPoint)
        }         else if n == 12 {
            Some(ValueType::RainRate)
        }         else if n == 13 {
            Some(ValueType::TideLevel)
        }         else if n == 14 {
            Some(ValueType::OnOff)
        }         else if n == 15 {
            Some(ValueType::AwakeState)
        }         else if n == 16 {
            Some(ValueType::Event)
        }         else if n == 17 {
            Some(ValueType::GeneralPurpose)
        }         else if n == 18 {
            Some(ValueType::Counter)
        }         else if n == 19 {
            Some(ValueType::Energy)
        }         else if n == 20 {
            Some(ValueType::Level)
        }         else if n == 21 {
            Some(ValueType::CO2)
        }         else if n == 22 {
            Some(ValueType::AirFlow)
        }         else if n == 23 {
            Some(ValueType::TankCapacity)
        }         else if n == 24 {
            Some(ValueType::Distance)
        }         else if n == 25 {
            Some(ValueType::ClimateControl)
        }         else if n == 26 {
            Some(ValueType::Program)
        }         else if n == 27 {
            Some(ValueType::FanSpeed)
        }         else if n == 28 {
            Some(ValueType::ErrorCode)
        }         else if n == 29 {
            Some(ValueType::OperationMode)
        }         else if n == 30 {
            Some(ValueType::Louvre)
        }         else if n == 31 {
            Some(ValueType::Mode)
        }         else if n == 32 {
            Some(ValueType::Time)
        }         else if n == 33 {
            Some(ValueType::DutyCycle)
        }         else if n == 34 {
            Some(ValueType::Voltage)
        }         else if n == 35 {
            Some(ValueType::Current)
        }         else if n == 36 {
            Some(ValueType::Frequency)
        }         else if n == 37 {
            Some(ValueType::Battery)
        }         else if n == 38 {
            Some(ValueType::TimezoneOffset)
        }         else if n == 39 {
            Some(ValueType::Year)
        }         else if n == 40 {
            Some(ValueType::Month)
        }         else if n == 41 {
            Some(ValueType::DayOfMonth)
        }         else if n == 42 {
            Some(ValueType::Weekday)
        }         else if n == 43 {
            Some(ValueType::Hour)
        }         else if n == 44 {
            Some(ValueType::Minute)
        } else {
            None
        }
    }
}

/// Possible interaction with value
///
#[derive(Clone, Copy, Debug, PartialEq, Eq, Structural)]
pub enum Permission {
    /// Read Only (from the device)
    ReadOnly,
    /// Read/Write (to and from the device)
    ReadWrite,
    /// Write Only (to the device)
    WriteOnly,
}

impl Permission {
    /// The number that stands for this variant.
    pub open spec fn spec_to_u32(self) -> u32 {
        match self {
            Permission::ReadOnly => 1,
            Permission::ReadWrite => 2,
            Permission::WriteOnly => 3,
        }
    }

    /// The variant that `n` stands for, if any.
    pub open spec fn spec_from_u32(n: u32) -> Option<Self> {
        if n == 1 {
            Some(Permission::ReadOnly)
        }         else if n == 2 {
            Some(Permission::ReadWrite)
        }         else if n == 3 {
            Some(Permission::WriteOnly)
        } else {
            None
        }
    }

    /// The number that stands for this variant.
    pub fn to_u32(&self) -> (n: u32)
        ensures
            n == self.spec_to_u32(),
            Self::spec_from_u32(n) == Some(*self),
    {
        match self {
            Permission::ReadOnly => 1,
            Permission::ReadWrite => 2,
            Permission::WriteOnly => 3,
        }
    }

    /// The variant that `n` stands for, if any.
    pub fn from_u32(n: u32) -> (r: Option<Self>)
        ensures
            r == Self::spec_from_u32(n),
            r matches Some(v) ==> v.spec_to_u32() == n,
    {
        if n == 1 {
            Some(Permission::ReadOnly)
        }         else if n == 2 {
            Some(Permission::ReadWrite)
        }         else if n == 3 {
            Some(Permission::WriteOnly)
        } else {
            None
        }
    }
}

/// The configuration mode from Table 3.68 (3.2.17.1)
#[derive(Clone, Copy, Debug, PartialEq, Eq, Structural)]
pub enum ConfigurationMode {
    /// Rollback any configuration changes
    Rollback,
    /// Save any configuration changes and reset the state machine states
    SaveAndReset,
    /// Save any configuration changes and do not change the state machine states
    SaveAndPreserve,
    /// Clear the configuration and set the default configuration
    SetDefault,
    /// Clear the configuration
    Clear,
}

impl ConfigurationMode {
    /// The number that stands for this variant.
    pub open spec fn spec_to_u32(self) -> u32 {
        match self {
            ConfigurationMode::Rollback => 0,
            ConfigurationMode::SaveAndReset => 1,
            ConfigurationMode::SaveAndPreserve => 2,
            ConfigurationMode::SetDefault => 3,
            ConfigurationMode::Clear => 4,
        }
    }

    /// The variant that `n` stands for, if any.
    pub open spec fn spec_from_u32(n: u32) -> Option<Self> {
        if n == 0 {
            Some(ConfigurationMode::Rollback)
        }         else if n == 1 {
            Some(ConfigurationMode::SaveAndReset)
        }         else if n == 2 {
            Some(ConfigurationMode::SaveAndPreserve)
        }         else if n == 3 {
            Some(ConfigurationMode::SetDefault)
        }         else if n == 4 {
            Some(ConfigurationMode::Clear)
        } else {
            None
        }
    }

    /// The number that stands for this variant.
    pub fn to_u32(&self) -> (n: u32)
        ensures
            n == self.spec_to_u32(),
            Self::spec_from_u32(n) == Some(*self),
    {
        match self {
            ConfigurationMode::Rollback => 0,
            ConfigurationMode::SaveAndReset => 1,
            ConfigurationMode::SaveAndPreserve => 2,
            ConfigurationMode::SetDefault => 3,
            ConfigurationMode::Clear => 4,
        }
    }

    /// The variant that `n` stands for, if any.
    pub fn from_u32(n: u32) -> (r: Option<Self>)
        ensures
            r == Self::spec_from_u32(n),
            r matches Some(v) ==> v.spec_to_u32() == n,
    {
        if n == 0 {
            Some(ConfigurationMode::Rollback)
        }         else if n == 1 {
            Some(ConfigurationMode::SaveAndReset)
        }         else if n == 2 {
            Some(ConfigurationMode::SaveAndPreserve)
        }         else if n == 3 {
            Some(ConfigurationMode::SetDefault)
        }         else if n == 4 {
            Some(ConfigurationMode::Clear)
        } else {
            None
        }
    }
}

/// Status type from Table 3.52
#[derive(Clone, Copy, Debug, PartialEq, Eq, Structural)]
pub enum StatusType {
    PublicKey,
    MemoryInformation,
    DeviceDescription,
    ValueDescription,
    Value,
    PartnerInformation,
    Action,
    Calculation,
    Timer,
    Calendar,
    StateMachine,
    FirmwareUpdate,
    Configuration,
    Exi,
    System,
    Application,
}

impl StatusType {
    /// The number that stands for this variant.
    pub open spec fn spec_to_u32(self) -> u32 {
        match self {
            StatusType::PublicKey => 1,
            StatusType::MemoryInformation => 2,
            StatusType::DeviceDescription => 3,
            StatusType::ValueDescription => 4,
            StatusType::Value => 5,
            StatusType::PartnerInformation => 6,
            StatusType::Action => 7,
            StatusType::Calculation => 8,
            StatusType::Timer => 9,
            StatusType::Calendar => 10,
            StatusType::StateMachine => 11,
            StatusType::FirmwareUpdate => 12,
            StatusType::Configuration => 13,
            StatusType::Exi => 100,
            StatusType::System => 101,
            StatusType::Application => 200,
        }
    }

    /// The variant that `n` stands for, if any.
    pub open spec fn spec_from_u32(n: u32) -> Option<Self> {
        if n == 1 {
            Some(StatusType::PublicKey)
        }         else if n == 2 {
            Some(StatusType::MemoryInformation)
        }         else if n == 3 {
            Some(StatusType::DeviceDescription)
        }         else if n == 4 {
            Some(StatusType::ValueDescription)
        }         else if n == 5 {
            Some(StatusType::Value)
        }         else if n == 6 {
            Some(StatusType::PartnerInformation)
        }         else if n == 7 {
            Some(StatusType::Action)
        }         else if n == 8 {
            Some(StatusType::Calculation)
        }         else if n == 9 {
            Some(StatusType::Timer)
        }         else if n == 10 {
            Some(StatusType::Calendar)
        }         else if n == 11 {
            Some(StatusType::StateMachine)
        }         else if n == 12 {
            Some(StatusType::FirmwareUpdate)
        }         else if n == 13 {
            Some(StatusType::Configuration)
        }         else if n == 100 {
            Some(StatusType::Exi)
        }         else if n == 101 {
            Some(StatusType::System)
        }         else if n == 200 {
            Some(StatusType::Application)
        } else {
            None
        }
    }

    /// The number that stands for this variant.
    pub fn to_u32(&self) -> (n: u32)
        ensures
            n == self.spec_to_u32(),
            Self::spec_from_u32(n) == Some(*self),
    {
        match self {
            StatusType::PublicKey => 1,
            StatusType::MemoryInformation => 2,
            StatusType::DeviceDescription => 3,
            StatusType::ValueDescription => 4,
            StatusType::Value => 5,
            StatusType::PartnerInformation => 6,
            StatusType::Action => 7,
            StatusType::Calculation => 8,
            StatusType::Timer => 9,
            StatusType::Calendar => 10,
            StatusType::StateMachine => 11,
            StatusType::FirmwareUpdate => 12,
            StatusType::Configuration => 13,
            StatusType::Exi => 100,
            StatusType::System => 101,
            StatusType::Application => 200,
        }
    }

    /// The variant that `n` stands for, if any.
    pub fn from_u32(n: u32) -> (r: Option<Self>)
        ensures
            r == Self::spec_from_u32(n),
            r matches Some(v) ==> v.spec_to_u32() == n,
    {
        if n == 1 {
            Some(StatusType::PublicKey)
        }         else if n == 2 {
            Some(StatusType::MemoryInformation)
        }         else if n == 3 {
            Some(StatusType::DeviceDescription)
        }         else if n == 4 {
            Some(StatusType::ValueDescription)
        }         else if n == 5 {
            Some(StatusType::Value)
        }         else if n == 6 {
            Some(StatusType::PartnerInformation)
        }         else if n == 7 {
            Some(StatusType::Action)
        }         else if n == 8 {
            Some(StatusType::Calculation)
        }         else if n == 9 {
            Some(StatusType::Timer)
        }         else if n == 10 {
            Some(StatusType::Calendar)
        }         else if n == 11 {
            Some(StatusType::StateMachine)
        }         else if n == 12 {
            Some(StatusType::FirmwareUpdate)
        }         else if n == 13 {
            Some(StatusType::Configuration)
        }         else if n == 100 {
            Some(StatusType::Exi)
        }         else if n == 101 {
            Some(StatusType::System)
        }         else if n == 200 {
            Some(StatusType::Application)
        } else {
            None
        }
    }
}

/// Status level from Table 3.53
#[derive(Clone, Copy, Debug, PartialEq, Eq, Structural)]
pub enum StatusLevel {
    /// No status reports will be sent
    Disabled,
    /// Only important status information will be sent
    Important,
    /// An error
    Error,
    /// A warning
    Warning,
    /// Very verbose information
    Info,
    /// Debug information
    Debug,
}

impl StatusLevel {
    /// The number that stands for this variant.
    pub open spec fn spec_to_u32(self) -> u32 {
        match self {
            StatusLevel::Disabled => 0,
            StatusLevel::Important => 1,
            StatusLevel::Error => 2,
            StatusLevel::Warning => 3,
            StatusLevel::Info => 4,
            StatusLevel::Debug => 5,
        }
    }

    /// The variant that `n` stands for, if any.
    pub open spec fn spec_from_u32(n: u32) -> Option<Self> {
        if n == 0 {
            Some(StatusLevel::Disabled)
        }         else if n == 1 {
            Some(StatusLevel::Important)
        }         else if n == 2 {
            Some(StatusLevel::Error)
        }         else if n == 3 {
            Some(StatusLevel::Warning)
        }         else if n == 4 {
            Some(StatusLevel::Info)
        }         else if n == 5 {
            Some(StatusLevel::Debug)
        } else {
            None
        }
    }

    /// The number that stands for this variant.
    pub fn to_u32(&self) -> (n: u32)
        ensures
            n == self.spec_to_u32(),
            Self::spec_from_u32(n) == Some(*self),
    {
        match self {
            StatusLevel::Disabled => 0,
            StatusLevel::Important => 1,
            StatusLevel::Error => 2,
            StatusLevel::Warning => 3,
            StatusLevel::Info => 4,
            StatusLevel::Debug => 5,
        }
    }

    /// The variant that `n` stands for, if any.
    pub fn from_u32(n: u32) -> (r: Option<Self>)
        ensures
            r == Self::spec_from_u32(n),
            r matches Some(v) ==> v.spec_to_u32() == n,
    {
        if n == 0 {
            Some(StatusLevel::Disabled)
        }         else if n == 1 {
            Some(StatusLevel::Important)
        }         else if n == 2 {
            Some(StatusLevel::Error)
        }         else if n == 3 {
            Some(StatusLevel::Warning)
        }         else if n == 4 {
            Some(StatusLevel::Info)
        }         else if n == 5 {
            Some(StatusLevel::Debug)
        } else {
            None
        }
    }
}

/// device description code from Table 3.54
#[derive(Clone, Copy, Debug, PartialEq, Eq, Structural)]
pub enum StatusCodeDeviceDescription {
    /// Trying to set a read-only value
    WrongId,
    /// Trying to set a channel map that does not contain 4 channels
    WrongSizeOfChannelMap,
    /// Trying to set a channel map without the required synchronization channels
    MissingSynchronizationChannels,
}

impl StatusCodeDeviceDescription {
    /// The number that stands for this variant.
    pub open spec fn spec_to_u32(self) -> u32 {
        match self {
            StatusCodeDeviceDescription::WrongId => 11,
            StatusCodeDeviceDescription::WrongSizeOfChannelMap => 12,
            StatusCodeDeviceDescription::MissingSynchronizationChannels => 13,
        }
    }

    /// The variant that `n` stands for, if any.
    pub open spec fn spec_from_u32(n: u32) -> Option<Self> {
        if n == 11 {
            Some(StatusCodeDeviceDescription::WrongId)
        }         else if n == 12 {
            Some(StatusCodeDeviceDescription::WrongSizeOfChannelMap)
        }         else if n == 13 {
            Some(StatusCodeDeviceDescription::MissingSynchronizationChannels)
        } else {
            None
        }
    }

    /// The number that stands for this variant.
    pub fn to_u32(&self) -> (n: u32)
        ensures
            n == self.spec_to_u32(),
            Self::spec_from_u32(n) == Some(*self),
    {
        match self {
            StatusCodeDeviceDescription::WrongId => 11,
            StatusCodeDeviceDescription::WrongSizeOfChannelMap => 12,
            StatusCodeDeviceDescription::MissingSynchronizationChannels => 13,
        }
    }

    /// The variant that `n` stands for, if any.
    pub fn from_u32(n: u32) -> (r: Option<Self>)
        ensures
            r == Self::spec_from_u32(n),
            r matches Some(v) ==> v.spec_to_u32() == n,
    {
        if n == 11 {
            Some(StatusCodeDeviceDescription::WrongId)
        }         else if n == 12 {
            Some(StatusCodeDeviceDescription::WrongSizeOfChannelMap)
        }         else if n == 13 {
            Some(StatusCodeDeviceDescription::MissingSynchronizationChannels)
        } else {
            None
        }
    }
}

/// value description code from Table 3.55
#[derive(Clone, Copy, Debug, PartialEq, Eq, Structural)]
pub enum StatusCodeValueDescription {
    /// Trying to get a value description with an invalid ID
    GetWrongId,
    /// Trying to add a virtual value description with an invalid ID
    SetWrongId,
    /// Trying to delete a virtual value with an invalid ID
    DeleteWrongId,
    /// Trying to add a virtual value with a type that is not supported
    NotSupported,
    /// Trying to add a virtual value with an invalid step
    InvalidStep,
}

impl StatusCodeValueDescription {
    /// The number that stands for this variant.
    pub open spec fn spec_to_u32(self) -> u32 {
        match self {
            StatusCodeValueDescription::GetWrongId => 1,
            StatusCodeValueDescription::SetWrongId => 2,
            StatusCodeValueDescription::DeleteWrongId => 3,
            StatusCodeValueDescription::NotSupported => 11,
            StatusCodeValueDescription::InvalidStep => 12,
        }
    }

    /// The variant that `n` stands for, if any.
    pub open spec fn spec_from_u32(n: u32) -> Option<Self> {
        if n == 1 {
            Some(StatusCodeValueDescription::GetWrongId)
        }         else if n == 2 {
            Some(StatusCodeValueDescription::SetWrongId)
        }         else if n == 3 {
            Some(StatusCodeValueDescription::DeleteWrongId)
        }         else if n == 11 {
            Some(StatusCodeValueDescription::NotSupported)
        }         else if n == 12 {
            Some(StatusCodeValueDescription::InvalidStep)
        } else {
            None
        }
    }

    /// The number that stands for this variant.
    pub fn to_u32(&self) -> (n: u32)
        ensures
            n == self.spec_to_u32(),
            Self::spec_from_u32(n) == Some(*self),
    {
        match self {
            StatusCodeValueDescription::GetWrongId => 1,
            StatusCodeValueDescription::SetWrongId => 2,
            StatusCodeValueDescription::DeleteWrongId => 3,
            StatusCodeValueDescription::NotSupported => 11,
            StatusCodeValueDescription::InvalidStep => 12,
        }
    }

    /// The variant that `n` stands for, if any.
    pub fn from_u32(n: u32) -> (r: Option<Self>)
        ensures
            r == Self::spec_from_u32(n),
            r matches Some(v) ==> v.spec_to_u32() == n,
    {
        if n == 1 {
            Some(StatusCodeValueDescription::GetWrongId)
        }         else if n == 2 {
            Some(StatusCodeValueDescription::SetWrongId)
        }         else if n == 3 {
            Some(StatusCodeValueDescription::DeleteWrongId)
        }         else if n == 11 {
            Some(StatusCodeValueDescription::NotSupported)
        }         else if n == 12 {
            Some(StatusCodeValueDescription::InvalidStep)
        } else {
            None
        }
    }
}

/// value code from Table 3.56
#[derive(Clone, Copy, Debug, PartialEq, Eq, Structural)]
pub enum StatusCodeValue {
    /// Trying to get a value with an invalid ID
    GetWrongId,
    /// Trying to set a value with an invalid ID
    SetWrongId,
    /// Trying to use a value with an invalid ID
    CheckWrongId,
    /// The value is invalid
    ValueInvalid,
    /// Trying to set a value with a wrong data type
    WrongDataType,
    /// The step is not supported
    InvalidStep,
    /// Trying to read a write-only value.
    CannotReadWriteonly,
    /// Trying to write a read-only value.
    CannotWriteReadonly,
}

impl StatusCodeValue {
    /// The number that stands for this variant.
    pub open spec fn spec_to_u32(self) -> u32 {
        match self {
            StatusCodeValue::GetWrongId => 1,
            StatusCodeValue::SetWrongId => 2,
            StatusCodeValue::CheckWrongId => 11,
            StatusCodeValue::ValueInvalid => 12,
            StatusCodeValue::WrongDataType => 13,
            StatusCodeValue::InvalidStep => 14,
            StatusCodeValue::CannotReadWriteonly => 15,
            StatusCodeValue::CannotWriteReadonly => 16,
        }
    }

    /// The variant that `n` stands for, if any.
    pub open spec fn spec_from_u32(n: u32) -> Option<Self> {
        if n == 1 {
            Some(StatusCodeValue::GetWrongId)
        }         else if n == 2 {
            Some(StatusCodeValue::SetWrongId)
        }         else if n == 11 {
            Some(StatusCodeValue::CheckWrongId)
        }         else if n == 12 {
            Some(StatusCodeValue::ValueInvalid)
        }         else if n == 13 {
            Some(StatusCodeValue::WrongDataType)
        }         else if n == 14 {
            Some(StatusCodeValue::InvalidStep)
        }         else if n == 15 {
            Some(StatusCodeValue::CannotReadWriteonly)
        }         else if n == 16 {
            Some(StatusCodeValue::CannotWriteReadonly)
        } else {
            None
        }
    }

    /// The number that stands for this variant.
    pub fn to_u32(&self) -> (n: u32)
        ensures
            n == self.spec_to_u32(),
            Self::spec_from_u32(n) == Some(*self),
    {
        match self {
            StatusCodeValue::GetWrongId => 1,
            StatusCodeValue::SetWrongId => 2,
            StatusCodeValue::CheckWrongId => 11,
            StatusCodeValue::ValueInvalid => 12,
            StatusCodeValue::WrongDataType => 13,
            StatusCodeValue::InvalidStep => 14,
            StatusCodeValue::CannotReadWriteonly => 15,
            StatusCodeValue::CannotWriteReadonly => 16,
        }
    }

    /// The variant that `n` stands for, if any.
    pub fn from_u32(n: u32) -> (r: Option<Self>)
        ensures
            r == Self::spec_from_u32(n),
            r matches Some(v) ==> v.spec_to_u32() == n,
    {
        if n == 1 {
            Some(StatusCodeValue::GetWrongId)
        }         else if n == 2 {
            Some(StatusCodeValue::SetWrongId)
        }         else if n == 11 {
            Some(StatusCodeValue::CheckWrongId)
        }         else if n == 12 {
            Some(StatusCodeValue::ValueInvalid)
        }         else if n == 13 {
            Some(StatusCodeValue::WrongDataType)
        }         else if n == 14 {
            Some(StatusCodeValue::InvalidStep)
        }         else if n == 15 {
            Some(StatusCodeValue::CannotReadWriteonly)
        }         else if n == 16 {
            Some(StatusCodeValue::CannotWriteReadonly)
        } else {
            None
        }
    }
}

/// partner information code from Table 3.57
#[derive(Clone, Copy, Debug, PartialEq, Eq, Structural)]
pub enum StatusCodePartnerInformation {
    /// Trying to get a partner that is not configured
    GetWrongId,
    /// Trying to set a partner with a wrong ID
    SetWrongId,
    /// Trying to delete a partner that is not configured
    DeleteWrongId,
    /// The reference partner is not configured
    WrongId,
    /// Sending a message to a partner but there was no reply
    FailedToSendToPartner,
    /// Trying to set a partner with an unsupported info type
    SetWrongType,
    /// Trying to add a group to a group
    GroupInGriupNotAllowed,
    /// Trying to add more partners to a group than allowed
    TooManyPartnersInGroup,
    /// Trying to add a partner with an address of an existing partner
    PartnerAlreadyExists,
    AddressWrongLength,
    ChannelMapWrongLength,
    RadioSettingsWrongLength,
}

impl StatusCodePartnerInformation {
    /// The number that stands for this variant.
    pub open spec fn spec_to_u32(self) -> u32 {
        match self {
            StatusCodePartnerInformation::GetWrongId => 1,
            StatusCodePartnerInformation::SetWrongId => 2,
            StatusCodePartnerInformation::DeleteWrongId => 3,
            StatusCodePartnerInformation::WrongId => 11,
            StatusCodePartnerInformation::FailedToSendToPartner => 12,
            StatusCodePartnerInformation::SetWrongType => 13,
            StatusCodePartnerInformation::GroupInGriupNotAllowed => 14,
            StatusCodePartnerInformation::TooManyPartnersInGroup => 15,
            StatusCodePartnerInformation::PartnerAlreadyExists => 16,
            StatusCodePartnerInformation::AddressWrongLength => 17,
            StatusCodePartnerInformation::ChannelMapWrongLength => 18,
            StatusCodePartnerInformation::RadioSettingsWrongLength => 19,
        }
    }

    /// The variant that `n` stands for, if any.
    pub open spec fn spec_from_u32(n: u32) -> Option<Self> {
        if n == 1 {
            Some(StatusCodePartnerInformation::GetWrongId)
        }         else if n == 2 {
            Some(StatusCodePartnerInformation::SetWrongId)
        }         else if n == 3 {
            Some(StatusCodePartnerInformation::DeleteWrongId)
        }         else if n == 11 {
            Some(StatusCodePartnerInformation::WrongId)
        }         else if n == 12 {
            Some(StatusCodePartnerInformation::FailedToSendToPartner)
        }         else if n == 13 {
            Some(StatusCodePartnerInformation::SetWrongType)
        }         else if n == 14 {
            Some(StatusCodePartnerInformation::GroupInGriupNotAllowed)
        }         else if n == 15 {
            Some(StatusCodePartnerInformation::TooManyPartnersInGroup)
        }         else if n == 16 {
            Some(StatusCodePartnerInformation::PartnerAlreadyExists)
        }         else if n == 17 {
            Some(StatusCodePartnerInformation::AddressWrongLength)
        }         else if n == 18 {
            Some(StatusCodePartnerInformation::ChannelMapWrongLength)
        }         else if n == 19 {
            Some(StatusCodePartnerInformation::RadioSettingsWrongLength)
        } else {
            None
        }
    }

    /// The number that stands for this variant.
    pub fn to_u32(&self) -> (n: u32)
        ensures
            n == self.spec_to_u32(),
            Self::spec_from_u32(n) == Some(*self),
    {
        match self {
            StatusCodePartnerInformation::GetWrongId => 1,
            StatusCodePartnerInformation::SetWrongId => 2,
            StatusCodePartnerInformation::DeleteWrongId => 3,
            StatusCodePartnerInformation::WrongId => 11,
            StatusCodePartnerInformation::FailedToSendToPartner => 12,
            StatusCodePartnerInformation::SetWrongType => 13,
            StatusCodePartnerInformation::GroupInGriupNotAllowed => 14,
            StatusCodePartnerInformation::TooManyPartnersInGroup => 15,
            StatusCodePartnerInformation::PartnerAlreadyExists => 16,
            StatusCodePartnerInformation::AddressWrongLength => 17,
            StatusCodePartnerInformation::ChannelMapWrongLength => 18,
            StatusCodePartnerInformation::RadioSettingsWrongLength => 19,
        }
    }

    /// The variant that `n` stands for, if any.
    pub fn from_u32(n: u32) -> (r: Option<Self>)
        ensures
            r == Self::spec_from_u32(n),
            r matches Some(v) ==> v.spec_to_u32() == n,
    {
        if n == 1 {
            Some(StatusCodePartnerInformation::GetWrongId)
        }         else if n == 2 {
            Some(StatusCodePartnerInformation::SetWrongId)
        }         else if n == 3 {
            Some(StatusCodePartnerInformation::DeleteWrongId)
        }         else if n == 11 {
            Some(StatusCodePartnerInformation::WrongId)
        }         else if n == 12 {
            Some(StatusCodePartnerInformation::FailedToSendToPartner)
        }         else if n == 13 {
            Some(StatusCodePartnerInformation::SetWrongType)
        }         else if n == 14 {
            Some(StatusCodePartnerInformation::GroupInGriupNotAllowed)
        }         else if n == 15 {
            Some(StatusCodePartnerInformation::TooManyPartnersInGroup)
        }         else if n == 16 {
            Some(StatusCodePartnerInformation::PartnerAlreadyExists)
        }         else if n == 17 {
            Some(StatusCodePartnerInformation::AddressWrongLength)
        }         else if n == 18 {
            Some(StatusCodePartnerInformation::ChannelMapWrongLength)
        }         else if n == 19 {
            Some(StatusCodePartnerInformation::RadioSettingsWrongLength)
        } else {
            None
        }
    }
}

/// action code from Table 3.58
#[derive(Clone, Copy, Debug, PartialEq, Eq, Structural)]
pub enum StatusCodeAction {
    /// Trying to get an action that is not configured
    GetWrongId,
    /// Trying to set an action with an invalid ID
    SetWrongId,
    /// Trying to delete an action that is not configured
    DeleteWrongId,
    /// Trying to execute an action that is not configured
    ExecuteWrongId,
    /// Trying to enqueue action, but queue is full
    ExecuteQueueOverflow,
    TransportModeNotSupported,
}

impl StatusCodeAction {
    /// The number that stands for this variant.
    pub open spec fn spec_to_u32(self) -> u32 {
        match self {
            StatusCodeAction::GetWrongId => 1,
            StatusCodeAction::SetWrongId => 2,
            StatusCodeAction::DeleteWrongId => 3,
            StatusCodeAction::ExecuteWrongId => 11,
            StatusCodeAction::ExecuteQueueOverflow => 12,
            StatusCodeAction::TransportModeNotSupported => 13,
        }
    }

    /// The variant that `n` stands for, if any.
    pub open spec fn spec_from_u32(n: u32) -> Option<Self> {
        if n == 1 {
            Some(StatusCodeAction::GetWrongId)
        }         else if n == 2 {
            Some(StatusCodeAction::SetWrongId)
        }         else if n == 3 {
            Some(StatusCodeAction::DeleteWrongId)
        }         else if n == 11 {
            Some(StatusCodeAction::ExecuteWrongId)
        }         else if n == 12 {
            Some(StatusCodeAction::ExecuteQueueOverflow)
        }         else if n == 13 {
            Some(StatusCodeAction::TransportModeNotSupported)
        } else {
            None
        }
    }

    /// The number that stands for this variant.
    pub fn to_u32(&self) -> (n: u32)
        ensures
            n == self.spec_to_u32(),
            Self::spec_from_u32(n) == Some(*self),
    {
        match self {
            StatusCodeAction::GetWrongId => 1,
            StatusCodeAction::SetWrongId => 2,
            StatusCodeAction::DeleteWrongId => 3,
            StatusCodeAction::ExecuteWrongId => 11,
            StatusCodeAction::ExecuteQueueOverflow => 12,
            StatusCodeAction::TransportModeNotSupported => 13,
        }
    }

    /// The variant that `n` stands for, if any.
    pub fn from_u32(n: u32) -> (r: Option<Self>)
        ensures
            r == Self::spec_from_u32(n),
            r matches Some(v) ==> v.spec_to_u32() == n,
    {
        if n == 1 {
            Some(StatusCodeAction::GetWrongId)
        }         else if n == 2 {
            Some(StatusCodeAction::SetWrongId)
        }         else if n == 3 {
            Some(StatusCodeAction::DeleteWrongId)
        }         else if n == 11 {
            Some(StatusCodeAction::ExecuteWrongId)
        }         else if n == 12 {
            Some(StatusCodeAction::ExecuteQueueOverflow)
        }         else if n == 13 {
            Some(StatusCodeAction::TransportModeNotSupported)
        } else {
            None
        }
    }
}

#[derive(Clone, Copy, Debug, PartialEq, Eq, Structural)]
pub enum StatusCodeCalculation {
    /// Trying to get an calculation that is not configured
    GetWrongId,
    /// Trying to set an calculation with an invalid ID
    SetWrongId,
    /// Trying to delete an calculation that is not configured
    DeleteWrongId,
    /// Trying to evaluate a calculation that is not configured
    CheckWrongId,
}

impl StatusCodeCalculation {
    /// The number that stands for this variant.
    pub open spec fn spec_to_u32(self) -> u32 {
        match self {
            StatusCodeCalculation::GetWrongId => 1,
            StatusCodeCalculation::SetWrongId => 2,
            StatusCodeCalculation::DeleteWrongId => 3,
            StatusCodeCalculation::CheckWrongId => 11,
        }
    }

    /// The variant that `n` stands for, if any.
    pub open spec fn spec_from_u32(n: u32) -> Option<Self> {
        if n == 1 {
            Some(StatusCodeCalculation::GetWrongId)
        }         else if n == 2 {
            Some(StatusCodeCalculation::SetWrongId)
        }         else if n == 3 {
            Some(StatusCodeCalculation::DeleteWrongId)
        }         else if n == 11 {
            Some(StatusCodeCalculation::CheckWrongId)
        } else {
            None
        }
    }

    /// The number that stands for this variant.
    pub fn to_u32(&self) -> (n: u32)
        ensures
            n == self.spec_to_u32(),
            Self::spec_from_u32(n) == Some(*self),
    {
        match self {
            StatusCodeCalculation::GetWrongId => 1,
            StatusCodeCalculation::SetWrongId => 2,
            StatusCodeCalculation::DeleteWrongId => 3,
            StatusCodeCalculation::CheckWrongId => 11,
        }
    }

    /// The variant that `n` stands for, if any.
    pub fn from_u32(n: u32) -> (r: Option<Self>)
        ensures
            r == Self::spec_from_u32(n),
            r matches Some(v) ==> v.spec_to_u32() == n,
    {
        if n == 1 {
            Some(StatusCodeCalculation::GetWrongId)
        }         else if n == 2 {
            Some(StatusCodeCalculation::SetWrongId)
        }         else if n == 3 {
            Some(StatusCodeCalculation::DeleteWrongId)
        }         else if n == 11 {
            Some(StatusCodeCalculation::CheckWrongId)
        } else {
            None
        }
    }
}

#[derive(Clone, Copy, Debug, PartialEq, Eq, Structural)]
pub enum StatusCodeTimer {
    /// Trying to get a timer that is not configured
    GetWrongId,
    /// Trying to set a timer with a wrong ID
    SetWrongId,
    /// Trying to delete a timer that is not configured
    DeleteWrongId,
    /// Trying to start a timer that is not configured
    StartWrongId,
    /// Trying to stop a timer that is not configured
    StopWrongId,
}

impl StatusCodeTimer {
    /// The number that stands for this variant.
    pub open spec fn spec_to_u32(self) -> u32 {
        match self {
            StatusCodeTimer::GetWrongId => 1,
            StatusCodeTimer::SetWrongId => 2,
            StatusCodeTimer::DeleteWrongId => 3,
            StatusCodeTimer::StartWrongId => 11,
            StatusCodeTimer::StopWrongId => 12,
        }
    }

    /// The variant that `n` stands for, if any.
    pub open spec fn spec_from_u32(n: u32) -> Option<Self> {
        if n == 1 {
            Some(StatusCodeTimer::GetWrongId)
        }         else if n == 2 {
            Some(StatusCodeTimer::SetWrongId)
        }         else if n == 3 {
            Some(StatusCodeTimer::DeleteWrongId)
        }         else if n == 11 {
            Some(StatusCodeTimer::StartWrongId)
        }         else if n == 12 {
            Some(StatusCodeTimer::StopWrongId)
        } else {
            None
        }
    }

    /// The number that stands for this variant.
    pub fn to_u32(&self) -> (n: u32)
        ensures
            n == self.spec_to_u32(),
            Self::spec_from_u32(n) == Some(*self),
    {
        match self {
            StatusCodeTimer::GetWrongId => 1,
            StatusCodeTimer::SetWrongId => 2,
            StatusCodeTimer::DeleteWrongId => 3,
            StatusCodeTimer::StartWrongId => 11,
            StatusCodeTimer::StopWrongId => 12,
        }
    }

    /// The variant that `n` stands for, if any.
    pub fn from_u32(n: u32) -> (r: Option<Self>)
        ensures
            r == Self::spec_from_u32(n),
            r matches Some(v) ==> v.spec_to_u32() == n,
    {
        if n == 1 {
            Some(StatusCodeTimer::GetWrongId)
        }         else if n == 2 {
            Some(StatusCodeTimer::SetWrongId)
        }         else if n == 3 {
            Some(StatusCodeTimer::DeleteWrongId)
        }         else if n == 11 {
            Some(StatusCodeTimer::StartWrongId)
        }         else if n == 12 {
            Some(StatusCodeTimer::StopWrongId)
        } else {
            None
        }
    }
}

#[derive(Clone, Copy, Debug, PartialEq, Eq, Structural)]
pub enum StatusCodeCalendar {
    /// Trying to get a calendar task that is not configured
    GetWrongId,
    /// Trying to set a calendar task with a wrong ID
    SetWrongId,
    /// Trying to delete a calendar task that is not configured
    DeleteWrongId,
}

impl StatusCodeCalendar {
    /// The number that stands for this variant.
    pub open spec fn spec_to_u32(self) -> u32 {
        match self {
            StatusCodeCalendar::GetWrongId => 1,
            StatusCodeCalendar::SetWrongId => 2,
            StatusCodeCalendar::DeleteWrongId => 3,
        }
    }

    /// The variant that `n` stands for, if any.
    pub open spec fn spec_from_u32(n: u32) -> Option<Self> {
        if n == 1 {
            Some(StatusCodeCalendar::GetWrongId)
        }         else if n == 2 {
            Some(StatusCodeCalendar::SetWrongId)
        }         else if n == 3 {
            Some(StatusCodeCalendar::DeleteWrongId)
        } else {
            None
        }
    }

    /// The number that stands for this variant.
    pub fn to_u32(&self) -> (n: u32)
        ensures
            n == self.spec_to_u32(),
            Self::spec_from_u32(n) == Some(*self),
    {
        match self {
            StatusCodeCalendar::GetWrongId => 1,
            StatusCodeCalendar::SetWrongId => 2,
            StatusCodeCalendar::DeleteWrongId => 3,
        }
    }

    /// The variant that `n` stands for, if any.
    pub fn from_u32(n: u32) -> (r: Option<Self>)
        ensures
            r == Self::spec_from_u32(n),
            r matches Some(v) ==> v.spec_to_u32() == n,
    {
        if n == 1 {
            Some(StatusCodeCalendar::GetWrongId)
        }         else if n == 2 {
            Some(StatusCodeCalendar::SetWrongId)
        }         else if n == 3 {
            Some(StatusCodeCalendar::DeleteWrongId)
        } else {
            None
        }
    }
}

/// state machine code from Table 3.62
#[derive(Clone, Copy, Debug, PartialEq, Eq, Structural)]
pub enum StatusCodeStateMachine {
    /// Trying to get a state machine with an invalid ID
    GetWrongId,
    /// Trying to set a state machine with an invalid ID
    SetWrongId,
    /// Trying to delete a state machine with an invalid ID
    DeleteWrongId,
    /// Trying to get a state machine state with an invalid ID
    GetWrongStateId,
    /// Trying to set a state machine state with an invalid ID
    SetWrongStateId,
    /// Trying to delete a state machine state with an invalid ID
    DeleteWrongStateId,
    /// Trying to get a state machine state with invalid ID
    CheckWrongId,
    /// The execution of the state machine was been running too long
    RunningTooLong,
}

impl StatusCodeStateMachine {
    /// The number that stands for this variant.
    pub open spec fn spec_to_u32(self) -> u32 {
        match self {
            StatusCodeStateMachine::GetWrongId => 1,
            StatusCodeStateMachine::SetWrongId => 2,
            StatusCodeStateMachine::DeleteWrongId => 3,
            StatusCodeStateMachine::GetWrongStateId => 4,
            StatusCodeStateMachine::SetWrongStateId => 5,
            StatusCodeStateMachine::DeleteWrongStateId => 6,
            StatusCodeStateMachine::CheckWrongId => 11,
            StatusCodeStateMachine::RunningTooLong => 12,
        }
    }

    /// The variant that `n` stands for, if any.
    pub open spec fn spec_from_u32(n: u32) -> Option<Self> {
        if n == 1 {
            Some(StatusCodeStateMachine::GetWrongId)
        }         else if n == 2 {
            Some(StatusCodeStateMachine::SetWrongId)
        }         else if n == 3 {
            Some(StatusCodeStateMachine::DeleteWrongId)
        }         else if n == 4 {
            Some(StatusCodeStateMachine::GetWrongStateId)
        }         else if n == 5 {
            Some(StatusCodeStateMachine::SetWrongStateId)
        }         else if n == 6 {
            Some(StatusCodeStateMachine::DeleteWrongStateId)
        }         else if n == 11 {
            Some(StatusCodeStateMachine::CheckWrongId)
        }         else if n == 12 {
            Some(StatusCodeStateMachine::RunningTooLong)
        } else {
            None
        }
    }

    /// The number that stands for this variant.
    pub fn to_u32(&self) -> (n: u32)
        ensures
            n == self.spec_to_u32(),
            Self::spec_from_u32(n) == Some(*self),
    {
        match self {
            StatusCodeStateMachine::GetWrongId => 1,
            StatusCodeStateMachine::SetWrongId => 2,
            StatusCodeStateMachine::DeleteWrongId => 3,
            StatusCodeStateMachine::GetWrongStateId => 4,
            StatusCodeStateMachine::SetWrongStateId => 5,
            StatusCodeStateMachine::DeleteWrongStateId => 6,
            StatusCodeStateMachine::CheckWrongId => 11,
            StatusCodeStateMachine::RunningTooLong => 12,
        }
    }

    /// The variant that `n` stands for, if any.
    pub fn from_u32(n: u32) -> (r: Option<Self>)
        ensures
            r == Self::spec_from_u32(n),
            r matches Some(v) ==> v.spec_to_u32() == n,
    {
        if n == 1 {
            Some(StatusCodeStateMachine::GetWrongId)
        }         else if n == 2 {
            Some(StatusCodeStateMachine::SetWrongId)
        }         else if n == 3 {
            Some(StatusCodeStateMachine::DeleteWrongId)
        }         else if n == 4 {
            Some(StatusCodeStateMachine::GetWrongStateId)
        }         else if n == 5 {
            Some(StatusCodeStateMachine::SetWrongStateId)
        }         else if n == 6 {
            Some(StatusCodeStateMachine::DeleteWrongStateId)
        }         else if n == 11 {
            Some(StatusCodeStateMachine::CheckWrongId)
        }         else if n == 12 {
            Some(StatusCodeStateMachine::RunningTooLong)
        } else {
            None
        }
    }
}

/// firmware update code from Table 3.63
#[derive(Clone, Copy, Debug, PartialEq, Eq, Structural)]
pub enum StatusCodeFirmwareUpdate {
    /// Failed to upgrade firmware from boot loader
    FailedToUpgrade,
}

impl StatusCodeFirmwareUpdate {
    /// The number that stands for this variant.
    pub open spec fn spec_to_u32(self) -> u32 {
        match self {
            StatusCodeFirmwareUpdate::FailedToUpgrade => 11,
        }
    }

    /// The variant that `n` stands for, if any.
    pub open spec fn spec_from_u32(n: u32) -> Option<Self> {
        if n == 11 {
            Some(StatusCodeFirmwareUpdate::FailedToUpgrade)
        } else {
            None
        }
    }

    /// The number that stands for this variant.
    pub fn to_u32(&self) -> (n: u32)
        ensures
            n == self.spec_to_u32(),
            Self::spec_from_u32(n) == Some(*self),
    {
        match self {
            StatusCodeFirmwareUpdate::FailedToUpgrade => 11,
        }
    }

    /// The variant that `n` stands for, if any.
    pub fn from_u32(n: u32) -> (r: Option<Self>)
        ensures
            r == Self::spec_from_u32(n),
            r matches Some(v) ==> v.spec_to_u32() == n,
    {
        if n == 11 {
            Some(StatusCodeFirmwareUpdate::FailedToUpgrade)
        } else {
            None
        }
    }
}

/// configuration code from Table 3.64
#[derive(Clone, Copy, Debug, PartialEq, Eq, Structural)]
pub enum StatusCodeConfiguration {
    /// The started configuration timed out and the configuration is rolled back
    Timeout,
    /// The configuration saved on the device is invalid and needs to be validated
    Invalid,
    /// The configuration has started on the device and the statemachine is stopped
    Started,
}

impl StatusCodeConfiguration {
    /// The number that stands for this variant.
    pub open spec fn spec_to_u32(self) -> u32 {
        match self {
            StatusCodeConfiguration::Timeout => 11,
            StatusCodeConfiguration::Invalid => 12,
            StatusCodeConfiguration::Started => 13,
        }
    }

    /// The variant that `n` stands for, if any.
    pub open spec fn spec_from_u32(n: u32) -> Option<Self> {
        if n == 11 {
            Some(StatusCodeConfiguration::Timeout)
        }         else if n == 12 {
            Some(StatusCodeConfiguration::Invalid)
        }         else if n == 13 {
            Some(StatusCodeConfiguration::Started)
        } else {
            None
        }
    }

    /// The number that stands for this variant.
    pub fn to_u32(&self) -> (n: u32)
        ensures
            n == self.spec_to_u32(),
            Self::spec_from_u32(n) == Some(*self),
    {
        match self {
            StatusCodeConfiguration::Timeout => 11,
            StatusCodeConfiguration::Invalid => 12,
            StatusCodeConfiguration::Started => 13,
        }
    }

    /// The variant that `n` stands for, if any.
    pub fn from_u32(n: u32) -> (r: Option<Self>)
        ensures
            r == Self::spec_from_u32(n),
            r matches Some(v) ==> v.spec_to_u32() == n,
    {
        if n == 11 {
            Some(StatusCodeConfiguration::Timeout)
        }         else if n == 12 {
            Some(StatusCodeConfiguration::Invalid)
        }         else if n == 13 {
            Some(StatusCodeConfiguration::Started)
        } else {
            None
        }
    }
}

#[derive(Clone, Copy, Debug, PartialEq, Eq, Structural)]
pub enum StatusCodeExi {
    BufferOverflow,
}

impl StatusCodeExi {
    /// The number that stands for this variant.
    pub open spec fn spec_to_u32(self) -> u32 {
        match self {
            StatusCodeExi::BufferOverflow => 1,
        }
    }

    /// The variant that `n` stands for, if any.
    pub open spec fn spec_from_u32(n: u32) -> Option<Self> {
        if n == 1 {
            Some(StatusCodeExi::BufferOverflow)
        } else {
            None
        }
    }

    /// The number that stands for this variant.
    pub fn to_u32(&self) -> (n: u32)
        ensures
            n == self.spec_to_u32(),
            Self::spec_from_u32(n) == Some(*self),
    {
        match self {
            StatusCodeExi::BufferOverflow => 1,
        }
    }

    /// The variant that `n` stands for, if any.
    pub fn from_u32(n: u32) -> (r: Option<Self>)
        ensures
            r == Self::spec_from_u32(n),
            r matches Some(v) ==> v.spec_to_u32() == n,
    {
        if n == 1 {
            Some(StatusCodeExi::BufferOverflow)
        } else {
            None
        }
    }
}

/// system code from Table 3.65
#[derive(Clone, Copy, Debug, PartialEq, Eq, Structural)]
pub enum StatusCodeSystem {
    /// Failed to synchronize with the NTP Server
    NoNtp,
    /// Device was woken up and is now awake
    Awake,
    /// The device has detected a problem with the dataflash
    HardwareFailDataflash,
    FactoryResetPending,
    GatewayBusy,
}

impl StatusCodeSystem {
    /// The number that stands for this variant.
    pub open spec fn spec_to_u32(self) -> u32 {
        match self {
            StatusCodeSystem::NoNtp => 11,
            StatusCodeSystem::Awake => 12,
            StatusCodeSystem::HardwareFailDataflash => 20,
            StatusCodeSystem::FactoryResetPending => 13,
            StatusCodeSystem::GatewayBusy => 30,
        }
    }

    /// The variant that `n` stands for, if any.
    pub open spec fn spec_from_u32(n: u32) -> Option<Self> {
        if n == 11 {
            Some(StatusCodeSystem::NoNtp)
        }         else if n == 12 {
            Some(StatusCodeSystem::Awake)
        }         else if n == 20 {
            Some(StatusCodeSystem::HardwareFailDataflash)
        }         else if n == 13 {
            Some(StatusCodeSystem::FactoryResetPending)
        }         else if n == 30 {
            Some(StatusCodeSystem::GatewayBusy)
        } else {
            None
        }
    }

    /// The number that stands for this variant.
    pub fn to_u32(&self) -> (n: u32)
        ensures
            n == self.spec_to_u32(),
            Self::spec_from_u32(n) == Some(*self),
    {
        match self {
            StatusCodeSystem::NoNtp => 11,
            StatusCodeSystem::Awake => 12,
            StatusCodeSystem::HardwareFailDataflash => 20,
            StatusCodeSystem::FactoryResetPending => 13,
            StatusCodeSystem::GatewayBusy => 30,
        }
    }

    /// The variant that `n` stands for, if any.
    pub fn from_u32(n: u32) -> (r: Option<Self>)
        ensures
            r == Self::spec_from_u32(n),
            r matches Some(v) ==> v.spec_to_u32() == n,
    {
        if n == 11 {
            Some(StatusCodeSystem::NoNtp)
        }         else if n == 12 {
            Some(StatusCodeSystem::Awake)
        }         else if n == 20 {
            Some(StatusCodeSystem::HardwareFailDataflash)
        }         else if n == 13 {
            Some(StatusCodeSystem::FactoryResetPending)
        }         else if n == 30 {
            Some(StatusCodeSystem::GatewayBusy)
        } else {
            None
        }
    }
}

/// The valid values for type_id in partner information as described in Table 3.30
#[derive(Clone, Copy, Debug, PartialEq, Eq, Structural)]
pub enum PartnerPropertyId {
    /// The partners radio mode. See Table 3.19 or [RadioMode]
    RadioMode,
    /// The offset in milliseconds indicating when the partner starts to wake up.
    /// Currently set to fixed 333 ms.
    WakeupInterval,
    /// How often in milliseconds the partner will wake up.
    /// Not in use right now. For future purposes.
    WakeupOffset,
    /// The radio channel that the partner listens on to see if it has to wake up
    WakeupChannel,
    /// The current channel map
    ChannelMap,
    /// The time is takes to scan a single channel
    ChannelScanTime,
    /// The full IPv6 address of the partner
    Ipv6Address,
    /// The time in milliseconds the partner should be awake
    WakeupNow,
}

impl PartnerPropertyId {
    /// The number that stands for this variant.
    pub open spec fn spec_to_u32(self) -> u32 {
        match self {
            PartnerPropertyId::RadioMode => 13,
            PartnerPropertyId::WakeupInterval => 14,
            PartnerPropertyId::WakeupOffset => 15,
            PartnerPropertyId::WakeupChannel => 16,
            PartnerPropertyId::ChannelMap => 17,
            PartnerPropertyId::ChannelScanTime => 18,
            PartnerPropertyId::Ipv6Address => 19,
            PartnerPropertyId::WakeupNow => 20,
        }
    }

    /// The variant that `n` stands for, if any.
    pub open spec fn spec_from_u32(n: u32) -> Option<Self> {
        if n == 13 {
            Some(PartnerPropertyId::RadioMode)
        }         else if n == 14 {
            Some(PartnerPropertyId::WakeupInterval)
        }         else if n == 15 {
            Some(PartnerPropertyId::WakeupOffset)
        }         else if n == 16 {
            Some(PartnerPropertyId::WakeupChannel)
        }         else if n == 17 {
            Some(PartnerPropertyId::ChannelMap)
        }         else if n == 18 {
            Some(PartnerPropertyId::ChannelScanTime)
        }         else if n == 19 {
            Some(PartnerPropertyId::Ipv6Address)
        }         else if n == 20 {
            Some(PartnerPropertyId::WakeupNow)
        } else {
            None
        }
    }

    /// The number that stands for this variant.
    pub fn to_u32(&self) -> (n: u32)
        ensures
            n == self.spec_to_u32(),
            Self::spec_from_u32(n) == Some(*self),
    {
        match self {
            PartnerPropertyId::RadioMode => 13,
            PartnerPropertyId::WakeupInterval => 14,
            PartnerPropertyId::WakeupOffset => 15,
            PartnerPropertyId::WakeupChannel => 16,
            PartnerPropertyId::ChannelMap => 17,
            PartnerPropertyId::ChannelScanTime => 18,
            PartnerPropertyId::Ipv6Address => 19,
            PartnerPropertyId::WakeupNow => 20,
        }
    }

    /// The variant that `n` stands for, if any.
    pub fn from_u32(n: u32) -> (r: Option<Self>)
        ensures
            r == Self::spec_from_u32(n),
            r matches Some(v) ==> v.spec_to_u32() == n,
    {
        if n == 13 {
            Some(PartnerPropertyId::RadioMode)
        }         else if n == 14 {
            Some(PartnerPropertyId::WakeupInterval)
        }         else if n == 15 {
            Some(PartnerPropertyId::WakeupOffset)
        }         else if n == 16 {
            Some(PartnerPropertyId::WakeupChannel)
        }         else if n == 17 {
            Some(PartnerPropertyId::ChannelMap)
        }         else if n == 18 {
            Some(PartnerPropertyId::ChannelScanTime)
        }         else if n == 19 {
            Some(PartnerPropertyId::Ipv6Address)
        }         else if n == 20 {
            Some(PartnerPropertyId::WakeupNow)
        } else {
            None
        }
    }
}


/// A decoded status code: the status type and its code.
#[derive(Clone, Copy, Debug, PartialEq, Eq, Structural)]
pub enum StatusCode {
    DeviceDescription(StatusCodeDeviceDescription),
    ValueDescription(StatusCodeValueDescription),
    Value(StatusCodeValue),
    PartnerInformation(StatusCodePartnerInformation),
    Action(StatusCodeAction),
    Calculation(StatusCodeCalculation),
    Timer(StatusCodeTimer),
    Calendar(StatusCodeCalendar),
    StateMachine(StatusCodeStateMachine),
    FirmwareUpdate(StatusCodeFirmwareUpdate),
    Configuration(StatusCodeConfiguration),
    Exi(StatusCodeExi),
    System(StatusCodeSystem),
    // we don't have any values for those
    PublicKey(u32),
    MemoryInformation(u32),
    Application(u32),
}

/// Why a status report's code could not be decoded.
#[derive(Clone, Copy, Debug, PartialEq, Eq, Structural)]
pub enum StatusCodeError {
    /// "unknown type_id"
    UnknownTypeId,
    /// The code is unknown for this status type ("unknown ... code").
    UnknownCode(StatusType),
}

/// The message that describes the error `e`.
pub open spec fn spec_error_message(e: StatusCodeError) -> Seq<char> {
    match e {
        StatusCodeError::UnknownTypeId => "unknown type_id"@,
        StatusCodeError::UnknownCode(t) => match t {
            StatusType::DeviceDescription => "unknown device-description code"@,
            StatusType::ValueDescription => "unknown value-description code"@,
            StatusType::Value => "unknown value code"@,
            StatusType::PartnerInformation => "unknown partner-information code"@,
            StatusType::Action => "unknown action code"@,
            StatusType::Calculation => "unknown calculation code"@,
            StatusType::Timer => "unknown timer code"@,
            StatusType::Calendar => "unknown calendar code"@,
            StatusType::StateMachine => "unknown state-machine code"@,
            StatusType::FirmwareUpdate => "unknown firmware-update code"@,
            StatusType::Configuration => "unknown configuration code"@,
            StatusType::Exi => "unknown exi code"@,
            StatusType::System => "unknown system code"@,
            _ => "unknown code"@,
        },
    }
}

impl StatusCodeError {
    /// The message that describes this error.
    pub fn message(&self) -> (r: &'static str)
        ensures
            r@ == spec_error_message(*self),
    {
        proof {
            reveal_strlit("unknown type_id");
            reveal_strlit("unknown device-description code");
            reveal_strlit("unknown value-description code");
            reveal_strlit("unknown value code");
            reveal_strlit("unknown partner-information code");
            reveal_strlit("unknown action code");
            reveal_strlit("unknown calculation code");
            reveal_strlit("unknown timer code");
            reveal_strlit("unknown calendar code");
            reveal_strlit("unknown state-machine code");
            reveal_strlit("unknown firmware-update code");
            reveal_strlit("unknown configuration code");
            reveal_strlit("unknown exi code");
            reveal_strlit("unknown system code");
            reveal_strlit("unknown code");
        }
        match self {
            StatusCodeError::UnknownTypeId => "unknown type_id",
            StatusCodeError::UnknownCode(t) => match t {
                StatusType::DeviceDescription => "unknown device-description code",
                StatusType::ValueDescription => "unknown value-description code",
                StatusType::Value => "unknown value code",
                StatusType::PartnerInformation => "unknown partner-information code",
                StatusType::Action => "unknown action code",
                StatusType::Calculation => "unknown calculation code",
                StatusType::Timer => "unknown timer code",
                StatusType::Calendar => "unknown calendar code",
                StatusType::StateMachine => "unknown state-machine code",
                StatusType::FirmwareUpdate => "unknown firmware-update code",
                StatusType::Configuration => "unknown configuration code",
                StatusType::Exi => "unknown exi code",
                StatusType::System => "unknown system code",
                _ => "unknown code",
            },
        }
    }
}

/// Turn a decoded code into the status code, or the error for its type.
pub open spec fn code_or<T>(c: Option<T>, t: StatusType, f: spec_fn(T) -> StatusCode) -> Result<StatusCode, StatusCodeError> {
    match c {
        Some(c) => Ok(f(c)),
        None => Err(StatusCodeError::UnknownCode(t)),
    }
}

/// The status code of a report with type `type_id` and code `code`.
pub open spec fn spec_status_code(type_id: u32, code: u32) -> Result<StatusCode, StatusCodeError> {
    match StatusType::spec_from_u32(type_id) {
        None => Err(StatusCodeError::UnknownTypeId),
        Some(t) => match t {
            StatusType::PublicKey => Ok(StatusCode::PublicKey(code)),
            StatusType::MemoryInformation => Ok(StatusCode::MemoryInformation(code)),
            StatusType::DeviceDescription => code_or(
                StatusCodeDeviceDescription::spec_from_u32(code), t,
                |c| StatusCode::DeviceDescription(c)),
            StatusType::ValueDescription => code_or(
                StatusCodeValueDescription::spec_from_u32(code), t,
                |c| StatusCode::ValueDescription(c)),
            StatusType::Value => code_or(StatusCodeValue::spec_from_u32(code), t, |c| StatusCode::Value(c)),
            StatusType::PartnerInformation => code_or(
                StatusCodePartnerInformation::spec_from_u32(code), t,
                |c| StatusCode::PartnerInformation(c)),
            StatusType::Action => code_or(StatusCodeAction::spec_from_u32(code), t, |c| StatusCode::Action(c)),
            StatusType::Calculation => code_or(
                StatusCodeCalculation::spec_from_u32(code), t,
                |c| StatusCode::Calculation(c)),
            StatusType::Timer => code_or(StatusCodeTimer::spec_from_u32(code), t, |c| StatusCode::Timer(c)),
            StatusType::Calendar => code_or(StatusCodeCalendar::spec_from_u32(code), t, |c| StatusCode::Calendar(c)),
            StatusType::StateMachine => code_or(
                StatusCodeStateMachine::spec_from_u32(code), t,
                |c| StatusCode::StateMachine(c)),
            StatusType::FirmwareUpdate => code_or(
                StatusCodeFirmwareUpdate::spec_from_u32(code), t,
                |c| StatusCode::FirmwareUpdate(c)),
            StatusType::Configuration => code_or(
                StatusCodeConfiguration::spec_from_u32(code), t,
                |c| StatusCode::Configuration(c)),
            StatusType::Exi => code_or(StatusCodeExi::spec_from_u32(code), t, |c| StatusCode::Exi(c)),
            StatusType::System => code_or(StatusCodeSystem::spec_from_u32(code), t, |c| StatusCode::System(c)),
            StatusType::Application => Ok(StatusCode::Application(code)),
        },
    }
}

/// A status report as received from a device.
#[derive(Clone, Debug)]
pub struct RawStatus {
    pub type_id: u32,
    pub code: u32,
    pub level: u32,
    pub data: Option<String>,
}

impl RawStatus {
    /// The report's level, if it is a known one.
    pub fn level(&self) -> (r: Option<StatusLevel>)
        ensures
            r == StatusLevel::spec_from_u32(self.level),
    {
        StatusLevel::from_u32(self.level)
    }

    /// The report's code, decoded according to its type.
    pub fn code(&self) -> (r: Result<StatusCode, StatusCodeError>)
        ensures
            r == spec_status_code(self.type_id, self.code),
    {
        let t = match StatusType::from_u32(self.type_id) {
            Some(t) => t,
            None => return Err(StatusCodeError::UnknownTypeId),
        };
        let unknown = StatusCodeError::UnknownCode(t);
        let code = match t {
            StatusType::PublicKey => StatusCode::PublicKey(self.code),
            StatusType::MemoryInformation => StatusCode::MemoryInformation(self.code),
            StatusType::DeviceDescription => match StatusCodeDeviceDescription::from_u32(self.code) {
                Some(c) => StatusCode::DeviceDescription(c),
                None => return Err(unknown),
            },
            StatusType::ValueDescription => match StatusCodeValueDescription::from_u32(self.code) {
                Some(c) => StatusCode::ValueDescription(c),
                None => return Err(unknown),
            },
            StatusType::Value => match StatusCodeValue::from_u32(self.code) {
                Some(c) => StatusCode::Value(c),
                None => return Err(unknown),
            },
            StatusType::PartnerInformation => match StatusCodePartnerInformation::from_u32(self.code) {
                Some(c) => StatusCode::PartnerInformation(c),
                None => return Err(unknown),
            },
            StatusType::Action => match StatusCodeAction::from_u32(self.code) {
                Some(c) => StatusCode::Action(c),
                None => return Err(unknown),
            },
            StatusType::Calculation => match StatusCodeCalculation::from_u32(self.code) {
                Some(c) => StatusCode::Calculation(c),
                None => return Err(unknown),
            },
            StatusType::Timer => match StatusCodeTimer::from_u32(self.code) {
                Some(c) => StatusCode::Timer(c),
                None => return Err(unknown),
            },
            StatusType::Calendar => match StatusCodeCalendar::from_u32(self.code) {
                Some(c) => StatusCode::Calendar(c),
                None => return Err(unknown),
            },
            StatusType::StateMachine => match StatusCodeStateMachine::from_u32(self.code) {
                Some(c) => StatusCode::StateMachine(c),
                None => return Err(unknown),
            },
            StatusType::FirmwareUpdate => match StatusCodeFirmwareUpdate::from_u32(self.code) {
                Some(c) => StatusCode::FirmwareUpdate(c),
                None => return Err(unknown),
            },
            StatusType::Configuration => match StatusCodeConfiguration::from_u32(self.code) {
                Some(c) => StatusCode::Configuration(c),
                None => return Err(unknown),
            },
            StatusType::Exi => match StatusCodeExi::from_u32(self.code) {
                Some(c) => StatusCode::Exi(c),
                None => return Err(unknown),
            },
            StatusType::System => match StatusCodeSystem::from_u32(self.code) {
                Some(c) => StatusCode::System(c),
                None => return Err(unknown),
            },
            StatusType::Application => StatusCode::Application(self.code),
        };
        Ok(code)
    }
}

/// The value of a hexadecimal digit byte (either case).
pub open spec fn hex_value(b: u8) -> Option<u8> {
    if 0x30 <= b <= 0x39 {
        Some((b - 0x30) as u8)
    } else if 0x41 <= b <= 0x46 {
        Some((b - 0x41 + 10) as u8)
    } else if 0x61 <= b <= 0x66 {
        Some((b - 0x61 + 10) as u8)
    } else {
        None
    }
}

/// The upper-case hexadecimal digit of a value below 16.
pub open spec fn hex_digit_upper(n: int) -> char {
    if n < 10 {
        (0x30 + n) as char
    } else {
        (0x41 + n - 10) as char
    }
}

/// The upper-case hexadecimal text of `data`: two digits per byte, the high
/// nibble first.
pub open spec fn hex_encode_upper(data: Seq<u8>) -> Seq<char> {
    Seq::new(
        2 * data.len(),
        |i: int|
            if i % 2 == 0 {
                hex_digit_upper(data[i / 2] as int / 16)
            } else {
                hex_digit_upper(data[i / 2] as int % 16)
            },
    )
}

/// The index of the first byte from `i` on that is no hexadecimal digit, or
/// the length if there is none.
pub open spec fn first_non_hex_from(b: Seq<u8>, i: int) -> int
    decreases b.len() - i,
{
    if i >= b.len() || i < 0 {
        b.len() as int
    } else if hex_value(b[i]) is None {
        i
    } else {
        first_non_hex_from(b, i + 1)
    }
}

/// Errors of hexadecimal decoding.
#[derive(Clone, Copy, Debug, PartialEq, Eq, Structural)]
pub enum HexError {
    /// A byte is no hexadecimal digit.
    InvalidHexCharacter { c: char, index: usize },
    /// The text has an odd number of digits.
    OddLength,
    /// The text doesn't fit the size of the output.
    InvalidStringLength,
}

/// Decoding of hexadecimal text given as bytes: two digits of either case
/// per byte; the first offending byte is reported.
pub open spec fn hex_decode_spec(b: Seq<u8>) -> Result<Seq<u8>, HexError> {
    if b.len() % 2 != 0 {
        Err(HexError::OddLength)
    } else {
        let i = first_non_hex_from(b, 0);
        if i < b.len() {
            Err(HexError::InvalidHexCharacter { c: b[i] as char, index: i as usize })
        } else {
            Ok(
                Seq::new(
                    b.len() / 2,
                    |k: int| (hex_value(b[2 * k]).unwrap() * 16 + hex_value(b[2 * k + 1]).unwrap()) as u8,
                ),
            )
        }
    }
}

/// Calls `hex::encode_upper`, which writes two upper-case hexadecimal digits
/// per byte, the high nibble first.
#[verifier::external_body]
fn hex_encode_upper_string(data: &[u8]) -> (r: String)
    ensures
        r@ == hex_encode_upper(data@),
{
    hex::encode_upper(data)
}

/// Calls `hex::decode` on the bytes of `s`: it fails for an odd number of
/// bytes, else at the first byte that is no hexadecimal digit of either case,
/// and otherwise returns one byte per pair of digits. The error is passed on
/// variant by variant.
#[verifier::external_body]
fn hex_decode_str(s: &str) -> (r: Result<Vec<u8>, HexError>)
    ensures
        match hex_decode_spec(vstd::utf8::encode_utf8(s@)) {
            Ok(b) => r matches Ok(v) && v@ == b,
            Err(e) => r == Err::<Vec<u8>, HexError>(e),
        },
{
    match hex::decode(s) {
        Ok(v) => Ok(v),
        Err(hex::FromHexError::InvalidHexCharacter { c, index }) => Err(
            HexError::InvalidHexCharacter { c, index },
        ),
        Err(hex::FromHexError::OddLength) => Err(HexError::OddLength),
        Err(hex::FromHexError::InvalidStringLength) => Err(HexError::InvalidStringLength),
    }
}

/// Errors of reading a property's value.
#[derive(Clone, Copy, Debug, PartialEq, Eq, Structural)]
pub enum PropertyError {
    /// "`{0}` is not a number"
    NotANumber(u32),
    /// "`{0}` is not a string"
    NotAString(u32),
    /// "`{0}` is not hex"
    NotHex(u32),
    /// "`{0}` is not valid hex: {1}"
    FromHex(u32, HexError),
}

/// A property ID that doesn't fit in 32 bits ("can't convert property id to u32").
#[derive(Clone, Copy, Debug, PartialEq, Eq, Structural)]
pub struct PropertyIdTooLarge(pub u64);

/// Lemonbeat device description property (`infoType`): an ID and a number,
/// string or hex value.
#[derive(Clone, Debug)]
pub struct Property {
    pub type_id: u32,
    pub number: Option<u64>,
    pub string: Option<String>,
    pub hex: Option<String>,
}

impl Property {
    /// A number property.
    pub fn new_number(id: u64, value: u64) -> (r: Result<Self, PropertyIdTooLarge>)
        ensures
            id <= u32::MAX ==> (r matches Ok(p) && p.type_id == id && p.number == Some(value)
                && p.string is None && p.hex is None),
            id > u32::MAX ==> r == Err::<Self, PropertyIdTooLarge>(PropertyIdTooLarge(id)),
    {
        if id > u32::MAX as u64 {
            return Err(PropertyIdTooLarge(id));
        }
        Ok(Property { type_id: id as u32, number: Some(value), string: None, hex: None })
    }

    /// A string property.
    pub fn new_string(id: u64, value: String) -> (r: Result<Self, PropertyIdTooLarge>)
        ensures
            id <= u32::MAX ==> (r matches Ok(p) && p.type_id == id && p.number is None
                && p.string == Some(value) && p.hex is None),
            id > u32::MAX ==> r == Err::<Self, PropertyIdTooLarge>(PropertyIdTooLarge(id)),
    {
        if id > u32::MAX as u64 {
            return Err(PropertyIdTooLarge(id));
        }
        Ok(Property { type_id: id as u32, number: None, string: Some(value), hex: None })
    }

    /// A hex property: `value` is stored as upper-case hexadecimal text.
    pub fn new_hex(id: u64, value: &[u8]) -> (r: Result<Self, PropertyIdTooLarge>)
        ensures
            id <= u32::MAX ==> (r matches Ok(p) && p.type_id == id && p.number is None
                && p.string is None && (p.hex matches Some(h) && h@ == hex_encode_upper(value@))),
            id > u32::MAX ==> r == Err::<Self, PropertyIdTooLarge>(PropertyIdTooLarge(id)),
    {
        if id > u32::MAX as u64 {
            return Err(PropertyIdTooLarge(id));
        }
        Ok(
            Property {
                type_id: id as u32,
                number: None,
                string: None,
                hex: Some(hex_encode_upper_string(value)),
            },
        )
    }

    /// The property's ID, if it is a known device-description ID.
    pub fn id(&self) -> (r: Option<PropertyId>)
        ensures
            r == PropertyId::spec_from_u32(self.type_id),
    {
        PropertyId::from_u32(self.type_id)
    }

    /// The property's ID, if it is a known partner-information ID.
    pub fn partner_id(&self) -> (r: Option<PartnerPropertyId>)
        ensures
            r == PartnerPropertyId::spec_from_u32(self.type_id),
    {
        PartnerPropertyId::from_u32(self.type_id)
    }

    /// The value of a number property.
    pub fn number(&self) -> (r: Result<u64, PropertyError>)
        ensures
            match self.number {
                Some(n) => r == Ok::<u64, PropertyError>(n),
                None => r == Err::<u64, PropertyError>(PropertyError::NotANumber(self.type_id)),
            },
    {
        match self.number {
            Some(n) => Ok(n),
            None => Err(PropertyError::NotANumber(self.type_id)),
        }
    }

    /// The value of a string property.
    pub fn str(&self) -> (r: Result<&str, PropertyError>)
        ensures
            match self.string {
                Some(s) => r matches Ok(v) && v@ == s@,
                None => r == Err::<&str, PropertyError>(PropertyError::NotAString(self.type_id)),
            },
    {
        match &self.string {
            Some(s) => Ok(s.as_str()),
            None => Err(PropertyError::NotAString(self.type_id)),
        }
    }

    /// The value of a hex property, decoded from its hexadecimal text.
    pub fn hex(&self) -> (r: Result<Vec<u8>, PropertyError>)
        ensures
            match self.hex {
                None => r == Err::<Vec<u8>, PropertyError>(PropertyError::NotHex(self.type_id)),
                Some(h) => match hex_decode_spec(vstd::utf8::encode_utf8(h@)) {
                    Ok(b) => r matches Ok(v) && v@ == b,
                    Err(e) => r == Err::<Vec<u8>, PropertyError>(PropertyError::FromHex(self.type_id, e)),
                },
            },
    {
        match &self.hex {
            None => Err(PropertyError::NotHex(self.type_id)),
            Some(h) => match hex_decode_str(h.as_str()) {
                Ok(v) => Ok(v),
                Err(e) => Err(PropertyError::FromHex(self.type_id, e)),
            },
        }
    }
}

pub const FIRMWARE_UPDATE_STATUS_OK: u32 = 1;
pub const FIRMWARE_UPDATE_STATUS_NOT_OK: u32 = 2;
pub const FIRMWARE_UPDATE_TOO_BIG: u32 = 3;
pub const FIRMWARE_UPDATE_CHECKSUM_ERR: u32 = 4;
pub const FIRMWARE_UPDATE_WRONG_OFFSET: u32 = 6;
pub const FIRMWARE_UPDATE_BLOCKED_BY_APPLICATION: u32 = 10;

pub const CONFIGURATION_STATUS_IDLE: u32 = 0;
pub const CONFIGURATION_STATUS_INIT: u32 = 1;
pub const CONFIGURATION_STATUS_STARTED: u32 = 2;

/// Implemented by the network types: the UDP port of the service that
/// exchanges them.
pub trait NetworkPort {
    /// The port of this network type's service.
    fn get_port() -> u16;
}

/// The lemonbeat services, each listening on a port of its own.
#[derive(Clone, Copy, Debug, PartialEq, Eq, Structural)]
pub enum NetworkService {
    Value,
    DeviceDescription,
    PublicKey,
    NetworkManagement,
    ValueDescription,
    ServiceDescription,
    MemoryInformation,
    PartnerInformation,
    Action,
    Timer,
    Calendar,
    FirmwareUpdate,
    Status,
    Configuration,
}

/// The UDP port of a lemonbeat service.
pub open spec fn spec_port(s: NetworkService) -> u16 {
    match s {
        NetworkService::Value => 20000,
        NetworkService::DeviceDescription => 20001,
        NetworkService::PublicKey => 20002,
        NetworkService::NetworkManagement => 20003,
        NetworkService::ValueDescription => 20004,
        NetworkService::ServiceDescription => 20005,
        NetworkService::MemoryInformation => 20006,
        NetworkService::PartnerInformation => 20007,
        NetworkService::Action => 20008,
        NetworkService::Timer => 20010,
        NetworkService::Calendar => 20011,
        NetworkService::FirmwareUpdate => 20013,
        NetworkService::Status => 20015,
        NetworkService::Configuration => 20016,
    }
}

impl NetworkService {
    /// The UDP port of this service.
    pub fn port(&self) -> (r: u16)
        ensures
            r == spec_port(*self),
    {
        match self {
            NetworkService::Value => 20000,
            NetworkService::DeviceDescription => 20001,
            NetworkService::PublicKey => 20002,
            NetworkService::NetworkManagement => 20003,
            NetworkService::ValueDescription => 20004,
            NetworkService::ServiceDescription => 20005,
            NetworkService::MemoryInformation => 20006,
            NetworkService::PartnerInformation => 20007,
            NetworkService::Action => 20008,
            NetworkService::Timer => 20010,
            NetworkService::Calendar => 20011,
            NetworkService::FirmwareUpdate => 20013,
            NetworkService::Status => 20015,
            NetworkService::Configuration => 20016,
        }
    }
}

/// Why the native (de)compression failed.
#[derive(Debug, Clone, Copy, PartialEq, Eq, Structural)]
pub enum NativeError {
    /// A number does not fit in the integer type it is converted to.
    TryFromInt,
    /// "native LSDL error: {0}"
    Native(u64),
}

/// The length of the output of a native (de)compression that returned `rc`
/// into a buffer of `buffer_len` bytes: nothing written, or a buffer too
/// small for the output, is an error.
pub fn native_length(rc: u64, buffer_len: usize) -> (r: Result<usize, NativeError>)
    ensures
        rc > usize::MAX ==> r == Err::<usize, NativeError>(NativeError::TryFromInt),
        rc <= usize::MAX && (rc == 0 || rc >= buffer_len) ==> r == Err::<usize, NativeError>(
            NativeError::Native(rc),
        ),
        rc <= usize::MAX && rc != 0 && rc < buffer_len ==> r == Ok::<usize, NativeError>(rc as usize),
{
    if rc > usize::MAX as u64 {
        return Err(NativeError::TryFromInt);
    }
    let len = rc as usize;
    if rc == 0 || len >= buffer_len {
        return Err(NativeError::Native(rc));
    }
    Ok(len)
}

/// The raw go-to-sleep value of a device message for a sleep of `millis`
/// milliseconds, if any: the milliseconds must fit in a `u32`.
pub fn go_to_sleep_raw(millis: Option<u128>) -> (r: Result<Option<u32>, NativeError>)
    ensures
        match millis {
            None => r == Ok::<Option<u32>, NativeError>(None),
            Some(m) => if m <= u32::MAX {
                r == Ok::<Option<u32>, NativeError>(Some(m as u32))
            } else {
                r == Err::<Option<u32>, NativeError>(NativeError::TryFromInt)
            },
        },
{
    match millis {
        None => Ok(None),
        Some(m) => {
            if m <= u32::MAX as u128 {
                Ok(Some(m as u32))
            } else {
                Err(NativeError::TryFromInt)
            }
        },
    }
}

proof fn lemma_hex_digit(n: int)
    requires
        0 <= n < 16,
    ensures
        '\0' <= hex_digit_upper(n) <= '\u{7f}',
        hex_value(hex_digit_upper(n) as u8) == Some(n as u8),
{
    if n < 10 {
        assert(hex_digit_upper(n) as u8 == (0x30 + n) as u8);
    } else {
        assert(hex_digit_upper(n) as u8 == (0x41 + n - 10) as u8);
    }
}

proof fn lemma_all_hex_from(b: Seq<u8>, i: int)
    requires
        0 <= i <= b.len(),
        forall|j: int| 0 <= j < b.len() ==> hex_value(#[trigger] b[j]) is Some,
    ensures
        first_non_hex_from(b, i) == b.len(),
    decreases b.len() - i,
{
    if i < b.len() {
        lemma_all_hex_from(b, i + 1);
    }
}

/// The hexadecimal text of bytes decodes back to the same bytes: a hex
/// property gives back the data it was made from.
pub proof fn law_hex_roundtrip(data: Seq<u8>)
    ensures
        hex_decode_spec(vstd::utf8::encode_utf8(hex_encode_upper(data))) == Ok::<Seq<u8>, HexError>(
            data,
        ),
{
    let chars = hex_encode_upper(data);
    assert forall|i: int| 0 <= i < chars.len() implies '\0' <= #[trigger] chars[i] <= '\u{7f}'
        && hex_value(chars[i] as u8) is Some by {
        if i % 2 == 0 {
            lemma_hex_digit(data[i / 2] as int / 16);
        } else {
            lemma_hex_digit(data[i / 2] as int % 16);
        }
    }
    assert(vstd::utf8::is_ascii_chars(chars));
    vstd::utf8::is_ascii_chars_encode_utf8(chars);
    let b = vstd::utf8::encode_utf8(chars);
    assert forall|j: int| 0 <= j < b.len() implies hex_value(#[trigger] b[j]) is Some by {
        assert(chars[j] as u8 == b[j]);
    }
    lemma_all_hex_from(b, 0);
    assert(b.len() % 2 == 0) by (nonlinear_arith)
        requires
            b.len() == 2 * data.len(),
    ;
    let decoded = Seq::new(
        b.len() / 2,
        |k: int| (hex_value(b[2 * k]).unwrap() * 16 + hex_value(b[2 * k + 1]).unwrap()) as u8,
    );
    assert forall|k: int| 0 <= k < data.len() implies decoded[k] == data[k] by {
        assert(b[2 * k] == chars[2 * k] as u8);
        assert(b[2 * k + 1] == chars[2 * k + 1] as u8);
        assert((2 * k) / 2 == k && (2 * k) % 2 == 0 && (2 * k + 1) / 2 == k && (2 * k + 1) % 2 == 1)
            by (nonlinear_arith);
        lemma_hex_digit(data[k] as int / 16);
        lemma_hex_digit(data[k] as int % 16);
        assert(data[k] as int / 16 * 16 + data[k] as int % 16 == data[k]) by (nonlinear_arith);
    }
    assert(decoded =~= data);
}

/// The numbers of the `PropertyId` variants are those that the Lemonbeat protocol gives
/// them, both ways.
pub proof fn law_property_id_numbers()
    ensures
        PropertyId::Type.spec_to_u32() == 1,
        PropertyId::Manufacturer.spec_to_u32() == 2,
        PropertyId::Sgtin.spec_to_u32() == 3,
        PropertyId::MacAddress.spec_to_u32() == 4,
        PropertyId::HardwareVersion.spec_to_u32() == 5,
        PropertyId::BootloaderVersion.spec_to_u32() == 6,
        PropertyId::StackVersion.spec_to_u32() == 7,
        PropertyId::ApplicationVersion.spec_to_u32() == 8,
        PropertyId::Protocol.spec_to_u32() == 9,
        PropertyId::Product.spec_to_u32() == 10,
        PropertyId::Included.spec_to_u32() == 11,
        PropertyId::Name.spec_to_u32() == 12,
        PropertyId::RadioMode.spec_to_u32() == 13,
        PropertyId::WakeupInterval.spec_to_u32() == 14,
        PropertyId::WakeupOffset.spec_to_u32() == 15,
        PropertyId::WakeupChannel.spec_to_u32() == 16,
        PropertyId::ChannelMap.spec_to_u32() == 17,
        PropertyId::ChannelScanTime.spec_to_u32() == 18,
        PropertyId::Ipv6Address.spec_to_u32() == 19,
        PropertyId::WakeupNow.spec_to_u32() == 20,
        PropertyId::DiversityMode.spec_to_u32() == 21,
        PropertyId::TxPower.spec_to_u32() == 27,
        PropertyId::Uptime.spec_to_u32() == 49,
        PropertyId::spec_from_u32(1) == Some(PropertyId::Type),
        PropertyId::spec_from_u32(2) == Some(PropertyId::Manufacturer),
        PropertyId::spec_from_u32(3) == Some(PropertyId::Sgtin),
        PropertyId::spec_from_u32(4) == Some(PropertyId::MacAddress),
        PropertyId::spec_from_u32(5) == Some(PropertyId::HardwareVersion),
        PropertyId::spec_from_u32(6) == Some(PropertyId::BootloaderVersion),
        PropertyId::spec_from_u32(7) == Some(PropertyId::StackVersion),
        PropertyId::spec_from_u32(8) == Some(PropertyId::ApplicationVersion),
        PropertyId::spec_from_u32(9) == Some(PropertyId::Protocol),
        PropertyId::spec_from_u32(10) == Some(PropertyId::Product),
        PropertyId::spec_from_u32(11) == Some(PropertyId::Included),
        PropertyId::spec_from_u32(12) == Some(PropertyId::Name),
        PropertyId::spec_from_u32(13) == Some(PropertyId::RadioMode),
        PropertyId::spec_from_u32(14) == Some(PropertyId::WakeupInterval),
        PropertyId::spec_from_u32(15) == Some(PropertyId::WakeupOffset),
        PropertyId::spec_from_u32(16) == Some(PropertyId::WakeupChannel),
        PropertyId::spec_from_u32(17) == Some(PropertyId::ChannelMap),
        PropertyId::spec_from_u32(18) == Some(PropertyId::ChannelScanTime),
        PropertyId::spec_from_u32(19) == Some(PropertyId::Ipv6Address),
        PropertyId::spec_from_u32(20) == Some(PropertyId::WakeupNow),
        PropertyId::spec_from_u32(21) == Some(PropertyId::DiversityMode),
        PropertyId::spec_from_u32(27) == Some(PropertyId::TxPower),
        PropertyId::spec_from_u32(49) == Some(PropertyId::Uptime),
{
}

/// The numbers of the `Protocol` variants are those that the Lemonbeat protocol gives
/// them, both ways.
pub proof fn law_protocol_numbers()
    ensures
        Protocol::Lemonbeat.spec_to_u32() == 1,
        Protocol::WiFi.spec_to_u32() == 2,
        Protocol::Ethernet.spec_to_u32() == 3,
        Protocol::spec_from_u32(1) == Some(Protocol::Lemonbeat),
        Protocol::spec_from_u32(2) == Some(Protocol::WiFi),
        Protocol::spec_from_u32(3) == Some(Protocol::Ethernet),
{
}

/// The numbers of the `RadioMode` variants are those that the Lemonbeat protocol gives
/// them, both ways.
pub proof fn law_radio_mode_numbers()
    ensures
        RadioMode::AlwaysOnline.spec_to_u32() == 0,
        RadioMode::WakeOnRadio.spec_to_u32() == 1,
        RadioMode::WakeOnEvent.spec_to_u32() == 2,
        RadioMode::TxOnly.spec_to_u32() == 3,
        RadioMode::RxOnly.spec_to_u32() == 4,
        RadioMode::spec_from_u32(0) == Some(RadioMode::AlwaysOnline),
        RadioMode::spec_from_u32(1) == Some(RadioMode::WakeOnRadio),
        RadioMode::spec_from_u32(2) == Some(RadioMode::WakeOnEvent),
        RadioMode::spec_from_u32(3) == Some(RadioMode::TxOnly),
        RadioMode::spec_from_u32(4) == Some(RadioMode::RxOnly),
{
}

/// The numbers of the `Manufacturer` variants are those that the Lemonbeat protocol gives
/// them, both ways.
pub proof fn law_manufacturer_numbers()
    ensures
        Manufacturer::Rwe.spec_to_u32() == 1,
        Manufacturer::Seluxit.spec_to_u32() == 2,
        Manufacturer::Gardena.spec_to_u32() == 3,
        Manufacturer::Lemonbeat.spec_to_u32() == 4,
        Manufacturer::Alko.spec_to_u32() == 5,
        Manufacturer::BitB.spec_to_u32() == 6,
        Manufacturer::InnogyMetering.spec_to_u32() == 7,
        Manufacturer::Pikkerton.spec_to_u32() == 8,
        Manufacturer::spec_from_u32(1) == Some(Manufacturer::Rwe),
        Manufacturer::spec_from_u32(2) == Some(Manufacturer::Seluxit),
        Manufacturer::spec_from_u32(3) == Some(Manufacturer::Gardena),
        Manufacturer::spec_from_u32(4) == Some(Manufacturer::Lemonbeat),
        Manufacturer::spec_from_u32(5) == Some(Manufacturer::Alko),
        Manufacturer::spec_from_u32(6) == Some(Manufacturer::BitB),
        Manufacturer::spec_from_u32(7) == Some(Manufacturer::InnogyMetering),
        Manufacturer::spec_from_u32(8) == Some(Manufacturer::Pikkerton),
{
}

/// The numbers of the `MemoryId` variants are those that the Lemonbeat protocol gives
/// them, both ways.
pub proof fn law_memory_id_numbers()
    ensures
        MemoryId::Value.spec_to_u32() == 1,
        MemoryId::PartnerInformation.spec_to_u32() == 2,
        MemoryId::ActionItems.spec_to_u32() == 3,
        MemoryId::Calculation.spec_to_u32() == 4,
        MemoryId::Timer.spec_to_u32() == 5,
        MemoryId::Calendar.spec_to_u32() == 6,
        MemoryId::Statemachine.spec_to_u32() == 7,
        MemoryId::StatemachineTransactions.spec_to_u32() == 8,
        MemoryId::spec_from_u32(1) == Some(MemoryId::Value),
        MemoryId::spec_from_u32(2) == Some(MemoryId::PartnerInformation),
        MemoryId::spec_from_u32(3) == Some(MemoryId::ActionItems),
        MemoryId::spec_from_u32(4) == Some(MemoryId::Calculation),
        MemoryId::spec_from_u32(5) == Some(MemoryId::Timer),
        MemoryId::spec_from_u32(6) == Some(MemoryId::Calendar),
        MemoryId::spec_from_u32(7) == Some(MemoryId::Statemachine),
        MemoryId::spec_from_u32(8) == Some(MemoryId::StatemachineTransactions),
{
}

/// The numbers of the `ValueType` variants are those that the Lemonbeat protocol gives
/// them, both ways.
pub proof fn law_value_type_numbers()
    ensures
        ValueType::Temperature.spec_to_u32() == 1,
        ValueType::Luminance.spec_to_u32() == 2,
        ValueType::Power.spec_to_u32() == 3,
        ValueType::Electricity.spec_to_u32() == 4,
        ValueType::Humidity.spec_to_u32() == 5,
        ValueType::Velocity.spec_to_u32() == 6,
        ValueType::Direction.spec_to_u32() == 7,
        ValueType::Atmospheric.spec_to_u32() == 8,
        ValueType::Barometric.spec_to_u32() == 9,
        ValueType::SolarRadiation.spec_to_u32() == 10,
        ValueType::DewPoint.spec_to_u32() == 11,
        ValueType::RainRate.spec_to_u32() == 12,
        ValueType::TideLevel.spec_to_u32() == 13,
        ValueType::OnOff.spec_to_u32() == 14,
        ValueType::AwakeState.spec_to_u32() == 15,
        ValueType::Event.spec_to_u32() == 16,
        ValueType::GeneralPurpose.spec_to_u32() == 17,
        ValueType::Counter.spec_to_u32() == 18,
        ValueType::Energy.spec_to_u32() == 19,
        ValueType::Level.spec_to_u32() == 20,
        ValueType::CO2.spec_to_u32() == 21,
        ValueType::AirFlow.spec_to_u32() == 22,
        ValueType::TankCapacity.spec_to_u32() == 23,
        ValueType::Distance.spec_to_u32() == 24,
        ValueType::ClimateControl.spec_to_u32() == 25,
        ValueType::Program.spec_to_u32() == 26,
        ValueType::FanSpeed.spec_to_u32() == 27,
        ValueType::ErrorCode.spec_to_u32() == 28,
        ValueType::OperationMode.spec_to_u32() == 29,
        ValueType::Louvre.spec_to_u32() == 30,
        ValueType::Mode.spec_to_u32() == 31,
        ValueType::Time.spec_to_u32() == 32,
        ValueType::DutyCycle.spec_to_u32() == 33,
        ValueType::Voltage.spec_to_u32() == 34,
        ValueType::Current.spec_to_u32() == 35,
        ValueType::Frequency.spec_to_u32() == 36,
        ValueType::Battery.spec_to_u32() == 37,
        ValueType::TimezoneOffset.spec_to_u32() == 38,
        ValueType::Year.spec_to_u32() == 39,
        ValueType::Month.spec_to_u32() == 40,
        ValueType::DayOfMonth.spec_to_u32() == 41,
        ValueType::Weekday.spec_to_u32() == 42,
        ValueType::Hour.spec_to_u32() == 43,
        ValueType::Minute.spec_to_u32() == 44,
        ValueType::spec_from_u32(1) == Some(ValueType::Temperature),
        ValueType::spec_from_u32(2) == Some(ValueType::Luminance),
        ValueType::spec_from_u32(3) == Some(ValueType::Power),
        ValueType::spec_from_u32(4) == Some(ValueType::Electricity),
        ValueType::spec_from_u32(5) == Some(ValueType::Humidity),
        ValueType::spec_from_u32(6) == Some(ValueType::Velocity),
        ValueType::spec_from_u32(7) == Some(ValueType::Direction),
        ValueType::spec_from_u32(8) == Some(ValueType::Atmospheric),
        ValueType::spec_from_u32(9) == Some(ValueType::Barometric),
        ValueType::spec_from_u32(10) == Some(ValueType::SolarRadiation),
        ValueType::spec_from_u32(11) == Some(ValueType::DewPoint),
        ValueType::spec_from_u32(12) == Some(ValueType::RainRate),
        ValueType::spec_from_u32(13) == Some(ValueType::TideLevel),
        ValueType::spec_from_u32(14) == Some(ValueType::OnOff),
        ValueType::spec_from_u32(15) == Some(ValueType::AwakeState),
        ValueType::spec_from_u32(16) == Some(ValueType::Event),
        ValueType::spec_from_u32(17) == Some(ValueType::GeneralPurpose),
        ValueType::spec_from_u32(18) == Some(ValueType::Counter),
        ValueType::spec_from_u32(19) == Some(ValueType::Energy),
        ValueType::spec_from_u32(20) == Some(ValueType::Level),
        ValueType::spec_from_u32(21) == Some(ValueType::CO2),
        ValueType::spec_from_u32(22) == Some(ValueType::AirFlow),
        ValueType::spec_from_u32(23) == Some(ValueType::TankCapacity),
        ValueType::spec_from_u32(24) == Some(ValueType::Distance),
        ValueType::spec_from_u32(25) == Some(ValueType::ClimateControl),
        ValueType::spec_from_u32(26) == Some(ValueType::Program),
        ValueType::spec_from_u32(27) == Some(ValueType::FanSpeed),
        ValueType::spec_from_u32(28) == Some(ValueType::ErrorCode),
        ValueType::spec_from_u32(29) == Some(ValueType::OperationMode),
        ValueType::spec_from_u32(30) == Some(ValueType::Louvre),
        ValueType::spec_from_u32(31) == Some(ValueType::Mode),
        ValueType::spec_from_u32(32) == Some(ValueType::Time),
        ValueType::spec_from_u32(33) == Some(ValueType::DutyCycle),
        ValueType::spec_from_u32(34) == Some(ValueType::Voltage),
        ValueType::spec_from_u32(35) == Some(ValueType::Current),
        ValueType::spec_from_u32(36) == Some(ValueType::Frequency),
        ValueType::spec_from_u32(37) == Some(ValueType::Battery),
        ValueType::spec_from_u32(38) == Some(ValueType::TimezoneOffset),
        ValueType::spec_from_u32(39) == Some(ValueType::Year),
        ValueType::spec_from_u32(40) == Some(ValueType::Month),
        ValueType::spec_from_u32(41) == Some(ValueType::DayOfMonth),
        ValueType::spec_from_u32(42) == Some(ValueType::Weekday),
        ValueType::spec_from_u32(43) == Some(ValueType::Hour),
        ValueType::spec_from_u32(44) == Some(ValueType::Minute),
{
}

/// The numbers of the `Permission` variants are those that the Lemonbeat protocol gives
/// them, both ways.
pub proof fn law_permission_numbers()
    ensures
        Permission::ReadOnly.spec_to_u32() == 1,
        Permission::ReadWrite.spec_to_u32() == 2,
        Permission::WriteOnly.spec_to_u32() == 3,
        Permission::spec_from_u32(1) == Some(Permission::ReadOnly),
        Permission::spec_from_u32(2) == Some(Permission::ReadWrite),
        Permission::spec_from_u32(3) == Some(Permission::WriteOnly),
{
}

/// The numbers of the `ConfigurationMode` variants are those that the Lemonbeat protocol gives
/// them, both ways.
pub proof fn law_configuration_mode_numbers()
    ensures
        ConfigurationMode::Rollback.spec_to_u32() == 0,
        ConfigurationMode::SaveAndReset.spec_to_u32() == 1,
        ConfigurationMode::SaveAndPreserve.spec_to_u32() == 2,
        ConfigurationMode::SetDefault.spec_to_u32() == 3,
        ConfigurationMode::Clear.spec_to_u32() == 4,
        ConfigurationMode::spec_from_u32(0) == Some(ConfigurationMode::Rollback),
        ConfigurationMode::spec_from_u32(1) == Some(ConfigurationMode::SaveAndReset),
        ConfigurationMode::spec_from_u32(2) == Some(ConfigurationMode::SaveAndPreserve),
        ConfigurationMode::spec_from_u32(3) == Some(ConfigurationMode::SetDefault),
        ConfigurationMode::spec_from_u32(4) == Some(ConfigurationMode::Clear),
{
}

/// The numbers of the `StatusType` variants are those that the Lemonbeat protocol gives
/// them, both ways.
pub proof fn law_status_type_numbers()
    ensures
        StatusType::PublicKey.spec_to_u32() == 1,
        StatusType::MemoryInformation.spec_to_u32() == 2,
        StatusType::DeviceDescription.spec_to_u32() == 3,
        StatusType::ValueDescription.spec_to_u32() == 4,
        StatusType::Value.spec_to_u32() == 5,
        StatusType::PartnerInformation.spec_to_u32() == 6,
        StatusType::Action.spec_to_u32() == 7,
        StatusType::Calculation.spec_to_u32() == 8,
        StatusType::Timer.spec_to_u32() == 9,
        StatusType::Calendar.spec_to_u32() == 10,
        StatusType::StateMachine.spec_to_u32() == 11,
        StatusType::FirmwareUpdate.spec_to_u32() == 12,
        StatusType::Configuration.spec_to_u32() == 13,
        StatusType::Exi.spec_to_u32() == 100,
        StatusType::System.spec_to_u32() == 101,
        StatusType::Application.spec_to_u32() == 200,
        StatusType::spec_from_u32(1) == Some(StatusType::PublicKey),
        StatusType::spec_from_u32(2) == Some(StatusType::MemoryInformation),
        StatusType::spec_from_u32(3) == Some(StatusType::DeviceDescription),
        StatusType::spec_from_u32(4) == Some(StatusType::ValueDescription),
        StatusType::spec_from_u32(5) == Some(StatusType::Value),
        StatusType::spec_from_u32(6) == Some(StatusType::PartnerInformation),
        StatusType::spec_from_u32(7) == Some(StatusType::Action),
        StatusType::spec_from_u32(8) == Some(StatusType::Calculation),
        StatusType::spec_from_u32(9) == Some(StatusType::Timer),
        StatusType::spec_from_u32(10) == Some(StatusType::Calendar),
        StatusType::spec_from_u32(11) == Some(StatusType::StateMachine),
        StatusType::spec_from_u32(12) == Some(StatusType::FirmwareUpdate),
        StatusType::spec_from_u32(13) == Some(StatusType::Configuration),
        StatusType::spec_from_u32(100) == Some(StatusType::Exi),
        StatusType::spec_from_u32(101) == Some(StatusType::System),
        StatusType::spec_from_u32(200) == Some(StatusType::Application),
{
}

/// The numbers of the `StatusLevel` variants are those that the Lemonbeat protocol gives
/// them, both ways.
pub proof fn law_status_level_numbers()
    ensures
        StatusLevel::Disabled.spec_to_u32() == 0,
        StatusLevel::Important.spec_to_u32() == 1,
        StatusLevel::Error.spec_to_u32() == 2,
        StatusLevel::Warning.spec_to_u32() == 3,
        StatusLevel::Info.spec_to_u32() == 4,
        StatusLevel::Debug.spec_to_u32() == 5,
        StatusLevel::spec_from_u32(0) == Some(StatusLevel::Disabled),
        StatusLevel::spec_from_u32(1) == Some(StatusLevel::Important),
        StatusLevel::spec_from_u32(2) == Some(StatusLevel::Error),
        StatusLevel::spec_from_u32(3) == Some(StatusLevel::Warning),
        StatusLevel::spec_from_u32(4) == Some(StatusLevel::Info),
        StatusLevel::spec_from_u32(5) == Some(StatusLevel::Debug),
{
}

/// The numbers of the `StatusCodeDeviceDescription` variants are those that the Lemonbeat protocol gives
/// them, both ways.
pub proof fn law_status_code_device_description_numbers()
    ensures
        StatusCodeDeviceDescription::WrongId.spec_to_u32() == 11,
        StatusCodeDeviceDescription::WrongSizeOfChannelMap.spec_to_u32() == 12,
        StatusCodeDeviceDescription::MissingSynchronizationChannels.spec_to_u32() == 13,
        StatusCodeDeviceDescription::spec_from_u32(11) == Some(StatusCodeDeviceDescription::WrongId),
        StatusCodeDeviceDescription::spec_from_u32(12) == Some(StatusCodeDeviceDescription::WrongSizeOfChannelMap),
        StatusCodeDeviceDescription::spec_from_u32(13) == Some(StatusCodeDeviceDescription::MissingSynchronizationChannels),
{
}

/// The numbers of the `StatusCodeValueDescription` variants are those that the Lemonbeat protocol gives
/// them, both ways.
pub proof fn law_status_code_value_description_numbers()
    ensures
        StatusCodeValueDescription::GetWrongId.spec_to_u32() == 1,
        StatusCodeValueDescription::SetWrongId.spec_to_u32() == 2,
        StatusCodeValueDescription::DeleteWrongId.spec_to_u32() == 3,
        StatusCodeValueDescription::NotSupported.spec_to_u32() == 11,
        StatusCodeValueDescription::InvalidStep.spec_to_u32() == 12,
        StatusCodeValueDescription::spec_from_u32(1) == Some(StatusCodeValueDescription::GetWrongId),
        StatusCodeValueDescription::spec_from_u32(2) == Some(StatusCodeValueDescription::SetWrongId),
        StatusCodeValueDescription::spec_from_u32(3) == Some(StatusCodeValueDescription::DeleteWrongId),
        StatusCodeValueDescription::spec_from_u32(11) == Some(StatusCodeValueDescription::NotSupported),
        StatusCodeValueDescription::spec_from_u32(12) == Some(StatusCodeValueDescription::InvalidStep),
{
}

/// The numbers of the `StatusCodeValue` variants are those that the Lemonbeat protocol gives
/// them, both ways.
pub proof fn law_status_code_value_numbers()
    ensures
        StatusCodeValue::GetWrongId.spec_to_u32() == 1,
        StatusCodeValue::SetWrongId.spec_to_u32() == 2,
        StatusCodeValue::CheckWrongId.spec_to_u32() == 11,
        StatusCodeValue::ValueInvalid.spec_to_u32() == 12,
        StatusCodeValue::WrongDataType.spec_to_u32() == 13,
        StatusCodeValue::InvalidStep.spec_to_u32() == 14,
        StatusCodeValue::CannotReadWriteonly.spec_to_u32() == 15,
        StatusCodeValue::CannotWriteReadonly.spec_to_u32() == 16,
        StatusCodeValue::spec_from_u32(1) == Some(StatusCodeValue::GetWrongId),
        StatusCodeValue::spec_from_u32(2) == Some(StatusCodeValue::SetWrongId),
        StatusCodeValue::spec_from_u32(11) == Some(StatusCodeValue::CheckWrongId),
        StatusCodeValue::spec_from_u32(12) == Some(StatusCodeValue::ValueInvalid),
        StatusCodeValue::spec_from_u32(13) == Some(StatusCodeValue::WrongDataType),
        StatusCodeValue::spec_from_u32(14) == Some(StatusCodeValue::InvalidStep),
        StatusCodeValue::spec_from_u32(15) == Some(StatusCodeValue::CannotReadWriteonly),
        StatusCodeValue::spec_from_u32(16) == Some(StatusCodeValue::CannotWriteReadonly),
{
}

/// The numbers of the `StatusCodePartnerInformation` variants are those that the Lemonbeat protocol gives
/// them, both ways.
pub proof fn law_status_code_partner_information_numbers()
    ensures
        StatusCodePartnerInformation::GetWrongId.spec_to_u32() == 1,
        StatusCodePartnerInformation::SetWrongId.spec_to_u32() == 2,
        StatusCodePartnerInformation::DeleteWrongId.spec_to_u32() == 3,
        StatusCodePartnerInformation::WrongId.spec_to_u32() == 11,
        StatusCodePartnerInformation::FailedToSendToPartner.spec_to_u32() == 12,
        StatusCodePartnerInformation::SetWrongType.spec_to_u32() == 13,
        StatusCodePartnerInformation::GroupInGriupNotAllowed.spec_to_u32() == 14,
        StatusCodePartnerInformation::TooManyPartnersInGroup.spec_to_u32() == 15,
        StatusCodePartnerInformation::PartnerAlreadyExists.spec_to_u32() == 16,
        StatusCodePartnerInformation::AddressWrongLength.spec_to_u32() == 17,
        StatusCodePartnerInformation::ChannelMapWrongLength.spec_to_u32() == 18,
        StatusCodePartnerInformation::RadioSettingsWrongLength.spec_to_u32() == 19,
        StatusCodePartnerInformation::spec_from_u32(1) == Some(StatusCodePartnerInformation::GetWrongId),
        StatusCodePartnerInformation::spec_from_u32(2) == Some(StatusCodePartnerInformation::SetWrongId),
        StatusCodePartnerInformation::spec_from_u32(3) == Some(StatusCodePartnerInformation::DeleteWrongId),
        StatusCodePartnerInformation::spec_from_u32(11) == Some(StatusCodePartnerInformation::WrongId),
        StatusCodePartnerInformation::spec_from_u32(12) == Some(StatusCodePartnerInformation::FailedToSendToPartner),
        StatusCodePartnerInformation::spec_from_u32(13) == Some(StatusCodePartnerInformation::SetWrongType),
        StatusCodePartnerInformation::spec_from_u32(14) == Some(StatusCodePartnerInformation::GroupInGriupNotAllowed),
        StatusCodePartnerInformation::spec_from_u32(15) == Some(StatusCodePartnerInformation::TooManyPartnersInGroup),
        StatusCodePartnerInformation::spec_from_u32(16) == Some(StatusCodePartnerInformation::PartnerAlreadyExists),
        StatusCodePartnerInformation::spec_from_u32(17) == Some(StatusCodePartnerInformation::AddressWrongLength),
        StatusCodePartnerInformation::spec_from_u32(18) == Some(StatusCodePartnerInformation::ChannelMapWrongLength),
        StatusCodePartnerInformation::spec_from_u32(19) == Some(StatusCodePartnerInformation::RadioSettingsWrongLength),
{
}

/// The numbers of the `StatusCodeAction` variants are those that the Lemonbeat protocol gives
/// them, both ways.
pub proof fn law_status_code_action_numbers()
    ensures
        StatusCodeAction::GetWrongId.spec_to_u32() == 1,
        StatusCodeAction::SetWrongId.spec_to_u32() == 2,
        StatusCodeAction::DeleteWrongId.spec_to_u32() == 3,
        StatusCodeAction::ExecuteWrongId.spec_to_u32() == 11,
        StatusCodeAction::ExecuteQueueOverflow.spec_to_u32() == 12,
        StatusCodeAction::TransportModeNotSupported.spec_to_u32() == 13,
        StatusCodeAction::spec_from_u32(1) == Some(StatusCodeAction::GetWrongId),
        StatusCodeAction::spec_from_u32(2) == Some(StatusCodeAction::SetWrongId),
        StatusCodeAction::spec_from_u32(3) == Some(StatusCodeAction::DeleteWrongId),
        StatusCodeAction::spec_from_u32(11) == Some(StatusCodeAction::ExecuteWrongId),
        StatusCodeAction::spec_from_u32(12) == Some(StatusCodeAction::ExecuteQueueOverflow),
        StatusCodeAction::spec_from_u32(13) == Some(StatusCodeAction::TransportModeNotSupported),
{
}

/// The numbers of the `StatusCodeCalculation` variants are those that the Lemonbeat protocol gives
/// them, both ways.
pub proof fn law_status_code_calculation_numbers()
    ensures
        StatusCodeCalculation::GetWrongId.spec_to_u32() == 1,
        StatusCodeCalculation::SetWrongId.spec_to_u32() == 2,
        StatusCodeCalculation::DeleteWrongId.spec_to_u32() == 3,
        StatusCodeCalculation::CheckWrongId.spec_to_u32() == 11,
        StatusCodeCalculation::spec_from_u32(1) == Some(StatusCodeCalculation::GetWrongId),
        StatusCodeCalculation::spec_from_u32(2) == Some(StatusCodeCalculation::SetWrongId),
        StatusCodeCalculation::spec_from_u32(3) == Some(StatusCodeCalculation::DeleteWrongId),
        StatusCodeCalculation::spec_from_u32(11) == Some(StatusCodeCalculation::CheckWrongId),
{
}

/// The numbers of the `StatusCodeTimer` variants are those that the Lemonbeat protocol gives
/// them, both ways.
pub proof fn law_status_code_timer_numbers()
    ensures
        StatusCodeTimer::GetWrongId.spec_to_u32() == 1,
        StatusCodeTimer::SetWrongId.spec_to_u32() == 2,
        StatusCodeTimer::DeleteWrongId.spec_to_u32() == 3,
        StatusCodeTimer::StartWrongId.spec_to_u32() == 11,
        StatusCodeTimer::StopWrongId.spec_to_u32() == 12,
        StatusCodeTimer::spec_from_u32(1) == Some(StatusCodeTimer::GetWrongId),
        StatusCodeTimer::spec_from_u32(2) == Some(StatusCodeTimer::SetWrongId),
        StatusCodeTimer::spec_from_u32(3) == Some(StatusCodeTimer::DeleteWrongId),
        StatusCodeTimer::spec_from_u32(11) == Some(StatusCodeTimer::StartWrongId),
        StatusCodeTimer::spec_from_u32(12) == Some(StatusCodeTimer::StopWrongId),
{
}

/// The numbers of the `StatusCodeCalendar` variants are those that the Lemonbeat protocol gives
/// them, both ways.
pub proof fn law_status_code_calendar_numbers()
    ensures
        StatusCodeCalendar::GetWrongId.spec_to_u32() == 1,
        StatusCodeCalendar::SetWrongId.spec_to_u32() == 2,
        StatusCodeCalendar::DeleteWrongId.spec_to_u32() == 3,
        StatusCodeCalendar::spec_from_u32(1) == Some(StatusCodeCalendar::GetWrongId),
        StatusCodeCalendar::spec_from_u32(2) == Some(StatusCodeCalendar::SetWrongId),
        StatusCodeCalendar::spec_from_u32(3) == Some(StatusCodeCalendar::DeleteWrongId),
{
}

/// The numbers of the `StatusCodeStateMachine` variants are those that the Lemonbeat protocol gives
/// them, both ways.
pub proof fn law_status_code_state_machine_numbers()
    ensures
        StatusCodeStateMachine::GetWrongId.spec_to_u32() == 1,
        StatusCodeStateMachine::SetWrongId.spec_to_u32() == 2,
        StatusCodeStateMachine::DeleteWrongId.spec_to_u32() == 3,
        StatusCodeStateMachine::GetWrongStateId.spec_to_u32() == 4,
        StatusCodeStateMachine::SetWrongStateId.spec_to_u32() == 5,
        StatusCodeStateMachine::DeleteWrongStateId.spec_to_u32() == 6,
        StatusCodeStateMachine::CheckWrongId.spec_to_u32() == 11,
        StatusCodeStateMachine::RunningTooLong.spec_to_u32() == 12,
        StatusCodeStateMachine::spec_from_u32(1) == Some(StatusCodeStateMachine::GetWrongId),
        StatusCodeStateMachine::spec_from_u32(2) == Some(StatusCodeStateMachine::SetWrongId),
        StatusCodeStateMachine::spec_from_u32(3) == Some(StatusCodeStateMachine::DeleteWrongId),
        StatusCodeStateMachine::spec_from_u32(4) == Some(StatusCodeStateMachine::GetWrongStateId),
        StatusCodeStateMachine::spec_from_u32(5) == Some(StatusCodeStateMachine::SetWrongStateId),
        StatusCodeStateMachine::spec_from_u32(6) == Some(StatusCodeStateMachine::DeleteWrongStateId),
        StatusCodeStateMachine::spec_from_u32(11) == Some(StatusCodeStateMachine::CheckWrongId),
        StatusCodeStateMachine::spec_from_u32(12) == Some(StatusCodeStateMachine::RunningTooLong),
{
}

/// The numbers of the `StatusCodeFirmwareUpdate` variants are those that the Lemonbeat protocol gives
/// them, both ways.
pub proof fn law_status_code_firmware_update_numbers()
    ensures
        StatusCodeFirmwareUpdate::FailedToUpgrade.spec_to_u32() == 11,
        StatusCodeFirmwareUpdate::spec_from_u32(11) == Some(StatusCodeFirmwareUpdate::FailedToUpgrade),
{
}

/// The numbers of the `StatusCodeConfiguration` variants are those that the Lemonbeat protocol gives
/// them, both ways.
pub proof fn law_status_code_configuration_numbers()
    ensures
        StatusCodeConfiguration::Timeout.spec_to_u32() == 11,
        StatusCodeConfiguration::Invalid.spec_to_u32() == 12,
        StatusCodeConfiguration::Started.spec_to_u32() == 13,
        StatusCodeConfiguration::spec_from_u32(11) == Some(StatusCodeConfiguration::Timeout),
        StatusCodeConfiguration::spec_from_u32(12) == Some(StatusCodeConfiguration::Invalid),
        StatusCodeConfiguration::spec_from_u32(13) == Some(StatusCodeConfiguration::Started),
{
}

/// The numbers of the `StatusCodeExi` variants are those that the Lemonbeat protocol gives
/// them, both ways.
pub proof fn law_status_code_exi_numbers()
    ensures
        StatusCodeExi::BufferOverflow.spec_to_u32() == 1,
        StatusCodeExi::spec_from_u32(1) == Some(StatusCodeExi::BufferOverflow),
{
}

/// The numbers of the `StatusCodeSystem` variants are those that the Lemonbeat protocol gives
/// them, both ways.
pub proof fn law_status_code_system_numbers()
    ensures
        StatusCodeSystem::NoNtp.spec_to_u32() == 11,
        StatusCodeSystem::Awake.spec_to_u32() == 12,
        StatusCodeSystem::HardwareFailDataflash.spec_to_u32() == 20,
        StatusCodeSystem::FactoryResetPending.spec_to_u32() == 13,
        StatusCodeSystem::GatewayBusy.spec_to_u32() == 30,
        StatusCodeSystem::spec_from_u32(11) == Some(StatusCodeSystem::NoNtp),
        StatusCodeSystem::spec_from_u32(12) == Some(StatusCodeSystem::Awake),
        StatusCodeSystem::spec_from_u32(20) == Some(StatusCodeSystem::HardwareFailDataflash),
        StatusCodeSystem::spec_from_u32(13) == Some(StatusCodeSystem::FactoryResetPending),
        StatusCodeSystem::spec_from_u32(30) == Some(StatusCodeSystem::GatewayBusy),
{
}

/// The numbers of the `PartnerPropertyId` variants are those that the Lemonbeat protocol gives
/// them, both ways.
pub proof fn law_partner_property_id_numbers()
    ensures
        PartnerPropertyId::RadioMode.spec_to_u32() == 13,
        PartnerPropertyId::WakeupInterval.spec_to_u32() == 14,
        PartnerPropertyId::WakeupOffset.spec_to_u32() == 15,
        PartnerPropertyId::WakeupChannel.spec_to_u32() == 16,
        PartnerPropertyId::ChannelMap.spec_to_u32() == 17,
        PartnerPropertyId::ChannelScanTime.spec_to_u32() == 18,
        PartnerPropertyId::Ipv6Address.spec_to_u32() == 19,
        PartnerPropertyId::WakeupNow.spec_to_u32() == 20,
        PartnerPropertyId::spec_from_u32(13) == Some(PartnerPropertyId::RadioMode),
        PartnerPropertyId::spec_from_u32(14) == Some(PartnerPropertyId::WakeupInterval),
        PartnerPropertyId::spec_from_u32(15) == Some(PartnerPropertyId::WakeupOffset),
        PartnerPropertyId::spec_from_u32(16) == Some(PartnerPropertyId::WakeupChannel),
        PartnerPropertyId::spec_from_u32(17) == Some(PartnerPropertyId::ChannelMap),
        PartnerPropertyId::spec_from_u32(18) == Some(PartnerPropertyId::ChannelScanTime),
        PartnerPropertyId::spec_from_u32(19) == Some(PartnerPropertyId::Ipv6Address),
        PartnerPropertyId::spec_from_u32(20) == Some(PartnerPropertyId::WakeupNow),
{
}

/// Each Lemonbeat service listens on the UDP port that the protocol assigns
/// to it.
pub proof fn law_service_ports()
    ensures
        spec_port(NetworkService::Value) == 20000,
        spec_port(NetworkService::DeviceDescription) == 20001,
        spec_port(NetworkService::PublicKey) == 20002,
        spec_port(NetworkService::NetworkManagement) == 20003,
        spec_port(NetworkService::ValueDescription) == 20004,
        spec_port(NetworkService::ServiceDescription) == 20005,
        spec_port(NetworkService::MemoryInformation) == 20006,
        spec_port(NetworkService::PartnerInformation) == 20007,
        spec_port(NetworkService::Action) == 20008,
        spec_port(NetworkService::Timer) == 20010,
        spec_port(NetworkService::Calendar) == 20011,
        spec_port(NetworkService::FirmwareUpdate) == 20013,
        spec_port(NetworkService::Status) == 20015,
        spec_port(NetworkService::Configuration) == 20016,
{
}

} // verus!
