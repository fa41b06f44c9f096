use vstd::prelude::*;

use crate::commands::Response;
use crate::error::DecoderError;
use crate::time::{is_calendar_date, CalendarDate};

verus! {

/// Length of a system configuration payload: one leading byte and 128 bytes
/// of station memory.
pub const SYSTEM_CONFIGURATION_LENGTH: usize = 0x81;

/// Which of the eight SI6 card blocks the station reads.
#[derive(Debug, Clone, Copy, PartialEq, Eq, Structural)]
pub struct SI6CardBlocks {
    pub bits: u8,
}

/// Feedback that the station gives on a punch.
#[derive(Debug, Clone, Copy, PartialEq, Eq, Structural)]
pub struct PunchFeedback {
    pub bits: u8,
}

/// SRR radio configuration flags.
#[derive(Debug, Clone, Copy, PartialEq, Eq, Structural)]
pub struct SRRConfiguration {
    pub bits: u8,
}

/// The station's protocol configuration flags.
#[derive(Debug, Clone, Copy, PartialEq, Eq, Structural)]
pub struct ProtocolConfiguration {
    pub bits: u8,
}

pub const EXTENDED_PROTOCOL: u8 = 0b0000_0001;

pub const AUTO_SEND_OUT: u8 = 0b0000_0010;

pub const HANDSHAKE: u8 = 0b0000_0100;

pub const PASSWORD_ACCESS: u8 = 0b0001_0000;

pub const READ_OUT: u8 = 0b0010_0000;

impl ProtocolConfiguration {
    /// Every flag of `flags` is set.
    pub open spec fn spec_contains(self, flags: u8) -> bool {
        self.bits & flags == flags
    }

    pub fn contains(&self, flags: u8) -> (r: bool)
        ensures
            r == self.spec_contains(flags),
    {
        self.bits & flags == flags
    }

    /// The station speaks the extended protocol.
    pub fn is_extended_protocol(&self) -> (r: bool)
        ensures
            r == self.spec_contains(EXTENDED_PROTOCOL),
    {
        self.contains(EXTENDED_PROTOCOL)
    }

    /// The station sends punches as they happen.
    pub fn is_auto_send(&self) -> (r: bool)
        ensures
            r == self.spec_contains(AUTO_SEND_OUT),
    {
        self.contains(AUTO_SEND_OUT)
    }
}

#[derive(Debug, Clone, Copy, PartialEq, Eq, Structural)]
pub enum Model {
    SRRDongle,
    BSF3,
    BSF4,
    BSM4RS232,
    BSM6RS232,
    BSF5,
    BSF7V1,
    BSF8V1,
    BSF6,
    BSF7Master,
    BSF8Master,
    BSF7V2,
    BSF8V2,
    BSM7RS232,
    BSM8SRR,
    BS7S,
    BS11BL,
    BS7P,
    BS7GSM,
    BS11BS,
}

/// The station model with this model id.
pub open spec fn model_of(id: u16) -> Option<Model> {
    if id == 0x6F21 {
        Some(Model::SRRDongle)
    } else if id == 0x8003 {
        Some(Model::BSF3)
    } else if id == 0x8004 {
        Some(Model::BSF4)
    } else if id == 0x8084 {
        Some(Model::BSM4RS232)
    } else if id == 0x8086 {
        Some(Model::BSM6RS232)
    } else if id == 0x8115 {
        Some(Model::BSF5)
    } else if id == 0x8117 {
        Some(Model::BSF7V1)
    } else if id == 0x8118 {
        Some(Model::BSF8V1)
    } else if id == 0x8146 {
        Some(Model::BSF6)
    } else if id == 0x8187 {
        Some(Model::BSF7Master)
    } else if id == 0x8188 {
        Some(Model::BSF8Master)
    } else if id == 0x8197 {
        Some(Model::BSF7V2)
    } else if id == 0x8198 {
        Some(Model::BSF8V2)
    } else if id == 0x9197 {
        Some(Model::BSM7RS232)
    } else if id == 0x9198 {
        Some(Model::BSM8SRR)
    } else if id == 0x9597 {
        Some(Model::BS7S)
    } else if id == 0x9D9A {
        Some(Model::BS11BL)
    } else if id == 0xB197 {
        Some(Model::BS7P)
    } else if id == 0xB897 {
        Some(Model::BS7GSM)
    } else if id == 0xCD9B {
        Some(Model::BS11BS)
    } else {
        None
    }
}

impl Model {
    pub fn from_repr(id: u16) -> (r: Option<Model>)
        ensures
            r == model_of(id),
    {
        match id {
            0x6F21 => Some(Model::SRRDongle),
            0x8003 => Some(Model::BSF3),
            0x8004 => Some(Model::BSF4),
            0x8084 => Some(Model::BSM4RS232),
            0x8086 => Some(Model::BSM6RS232),
            0x8115 => Some(Model::BSF5),
            0x8117 => Some(Model::BSF7V1),
            0x8118 => Some(Model::BSF8V1),
            0x8146 => Some(Model::BSF6),
            0x8187 => Some(Model::BSF7Master),
            0x8188 => Some(Model::BSF8Master),
            0x8197 => Some(Model::BSF7V2),
            0x8198 => Some(Model::BSF8V2),
            0x9197 => Some(Model::BSM7RS232),
            0x9198 => Some(Model::BSM8SRR),
            0x9597 => Some(Model::BS7S),
            0x9D9A => Some(Model::BS11BL),
            0xB197 => Some(Model::BS7P),
            0xB897 => Some(Model::BS7GSM),
            0xCD9B => Some(Model::BS11BS),
            _ => None,
        }
    }
}

#[derive(Debug, Clone, Copy, PartialEq, Eq, Structural)]
pub enum SRRChannel {
    Red,
    Blue,
}

pub open spec fn srr_channel_of(v: u8) -> Option<SRRChannel> {
    if v == 0 {
        Some(SRRChannel::Red)
    } else if v == 1 {
        Some(SRRChannel::Blue)
    } else {
        None
    }
}

impl SRRChannel {
    pub fn from_repr(v: u8) -> (r: Option<SRRChannel>)
        ensures
            r == srr_channel_of(v),
    {
        match v {
            0 => Some(SRRChannel::Red),
            1 => Some(SRRChannel::Blue),
            _ => None,
        }
    }
}

#[derive(Debug, Clone, Copy, PartialEq, Eq, Structural)]
pub enum StationProgram {
    Competition,
    Training,
}

#[derive(Debug, Clone, Copy, PartialEq, Eq, Structural)]
pub enum StationMode {
    SIACSpecial,
    Control,
    Start,
    Finish,
    Readout,
    ClearOld,
    Clear,
    Check,
    PrintOut,
    StartTrigger,
    FinishTrigger,
    BeaconControl,
    BeaconStart,
    BeaconFinish,
    BeaconReadout,
}

pub open spec fn station_mode_of(v: u8) -> Option<StationMode> {
    if v == 0x01 {
        Some(StationMode::SIACSpecial)
    } else if v == 0x02 {
        Some(StationMode::Control)
    } else if v == 0x03 {
        Some(StationMode::Start)
    } else if v == 0x04 {
        Some(StationMode::Finish)
    } else if v == 0x05 {
        Some(StationMode::Readout)
    } else if v == 0x06 {
        Some(StationMode::ClearOld)
    } else if v == 0x07 {
        Some(StationMode::Clear)
    } else if v == 0x0A {
        Some(StationMode::Check)
    } else if v == 0x0B {
        Some(StationMode::PrintOut)
    } else if v == 0x0C {
        Some(StationMode::StartTrigger)
    } else if v == 0x0D {
        Some(StationMode::FinishTrigger)
    } else if v == 0x12 {
        Some(StationMode::BeaconControl)
    } else if v == 0x13 {
        Some(StationMode::BeaconStart)
    } else if v == 0x14 {
        Some(StationMode::BeaconFinish)
    } else if v == 0x15 {
        Some(StationMode::BeaconReadout)
    } else {
        None
    }
}

impl StationMode {
    pub fn from_repr(v: u8) -> (r: Option<StationMode>)
        ensures
            r == station_mode_of(v),
    {
        match v {
            0x01 => Some(StationMode::SIACSpecial),
            0x02 => Some(StationMode::Control),
            0x03 => Some(StationMode::Start),
            0x04 => Some(StationMode::Finish),
            0x05 => Some(StationMode::Readout),
            0x06 => Some(StationMode::ClearOld),
            0x07 => Some(StationMode::Clear),
            0x0A => Some(StationMode::Check),
            0x0B => Some(StationMode::PrintOut),
            0x0C => Some(StationMode::StartTrigger),
            0x0D => Some(StationMode::FinishTrigger),
            0x12 => Some(StationMode::BeaconControl),
            0x13 => Some(StationMode::BeaconStart),
            0x14 => Some(StationMode::BeaconFinish),
            0x15 => Some(StationMode::BeaconReadout),
            _ => None,
        }
    }
}

/// The station's description of itself.
#[derive(Debug, Clone, Copy, PartialEq, Eq)]
pub struct SystemConfiguration {
    pub serial_number: u32,
    pub srr_configuration: SRRConfiguration,
    pub firmware: [u8; 3],
    pub build_date: CalendarDate,
    pub model: Model,
    pub mem_kilobytes: u8,
    pub battery_date: CalendarDate,
    pub battery_capacity_milliampere_hour: u16,
    pub backup_pointer_high: u16,
    pub backup_pointer_low: u16,
    pub si6_card_blocks: SI6CardBlocks,
    pub srr_channel: SRRChannel,
    /// Used battery capacity, in steps of 2.778e-5 percent.
    pub used_battery_capacity: u32,
    pub memory_overflow: bool,
    /// Battery voltage, in steps of 5/65536 volt.
    pub battery_voltage: u16,
    pub station_program: StationProgram,
    pub mode: StationMode,
    pub station_code: u16,
    pub punch_feedback: PunchFeedback,
    pub protocol_configuration: ProtocolConfiguration,
    pub wakeup_date: CalendarDate,
    pub active_duration_minutes: u8,
}

/// Byte `k` of the station memory in a system configuration payload, which
/// is preceded by one byte that is not looked at.
pub open spec fn memory_byte(data: Seq<u8>, k: int) -> u8 {
    data[k + 1]
}

pub open spec fn memory_u16_be(data: Seq<u8>, k: int) -> int {
    memory_byte(data, k) as int * 256 + memory_byte(data, k + 1) as int
}

/// The fault of a date stored as year after 2000, month and day at `k`.
pub open spec fn date_fault(data: Seq<u8>, k: int) -> Option<DecoderError> {
    let year = 2000 + memory_byte(data, k) as int;
    let month = memory_byte(data, k + 1) as int;
    let day = memory_byte(data, k + 2) as int;
    if is_calendar_date(year, month, day) {
        None
    } else {
        Some(DecoderError::InvalidDate(year as i32, month as u32, day as u32))
    }
}

pub open spec fn date_at(data: Seq<u8>, k: int) -> CalendarDate {
    CalendarDate {
        year: (2000 + memory_byte(data, k) as int) as i32,
        month: memory_byte(data, k + 1) as u32,
        day: memory_byte(data, k + 2) as u32,
    }
}

/// The first fault of a system configuration payload, in the order the
/// fields are read: length, build date, model, battery date, SRR channel,
/// station mode, wakeup date.
pub open spec fn system_configuration_fault(data: Seq<u8>) -> Option<DecoderError> {
    if data.len() != SYSTEM_CONFIGURATION_LENGTH {
        Some(
            DecoderError::InvalidSystemConfiguration(
                SYSTEM_CONFIGURATION_LENGTH,
                data.len() as usize,
            ),
        )
    } else if date_fault(data, 8) is Some {
        date_fault(data, 8)
    } else if model_of(memory_u16_be(data, 11) as u16) is None {
        Some(DecoderError::UnknownModelId(memory_u16_be(data, 11) as u16))
    } else if date_fault(data, 21) is Some {
        date_fault(data, 21)
    } else if srr_channel_of(memory_byte(data, 52)) is None {
        Some(DecoderError::UnknownSRRChannel(memory_byte(data, 52)))
    } else if station_mode_of(memory_byte(data, 113)) is None {
        Some(DecoderError::UnknownStationMode(memory_byte(data, 113)))
    } else {
        date_fault(data, 117)
    }
}

/// `c` holds the fields of a fault-free system configuration payload.
pub open spec fn system_configuration_fields(data: Seq<u8>, c: SystemConfiguration) -> bool {
    &&& c.serial_number == memory_byte(data, 0) as int + memory_byte(data, 1) as int * 0x100
        + memory_byte(data, 2) as int * 0x1_0000 + memory_byte(data, 3) as int * 0x100_0000
    &&& c.srr_configuration.bits == memory_byte(data, 4)
    &&& c.firmware@ == data.subrange(6, 9)
    &&& c.build_date == date_at(data, 8)
    &&& Some(c.model) == model_of(memory_u16_be(data, 11) as u16)
    &&& c.mem_kilobytes == memory_byte(data, 13)
    &&& c.battery_date == date_at(data, 21)
    &&& c.battery_capacity_milliampere_hour == memory_u16_be(data, 25)
    &&& c.backup_pointer_high == memory_u16_be(data, 28)
    &&& c.backup_pointer_low == memory_u16_be(data, 33)
    &&& c.si6_card_blocks.bits == memory_byte(data, 51)
    &&& Some(c.srr_channel) == srr_channel_of(memory_byte(data, 52))
    &&& c.used_battery_capacity == memory_byte(data, 53) as int * 0x1_0000 + memory_byte(data, 54)
        as int * 0x100 + memory_byte(data, 55) as int
    &&& c.memory_overflow == (memory_byte(data, 61) != 0)
    &&& c.battery_voltage == memory_u16_be(data, 80)
    &&& c.station_program == if memory_byte(data, 112) & 0x20u8 == 0 {
        StationProgram::Competition
    } else {
        StationProgram::Training
    }
    &&& Some(c.mode) == station_mode_of(memory_byte(data, 113))
    &&& c.station_code == memory_byte(data, 114) as int * 256 + (memory_byte(data, 115) & 0xC0u8) as int
    &&& c.punch_feedback.bits == memory_byte(data, 115)
    &&& c.protocol_configuration.bits == memory_byte(data, 116)
    &&& c.wakeup_date == date_at(data, 117)
    &&& c.active_duration_minutes == memory_byte(data, 126)
}

/// The date stored at memory offset `k`.
fn date_from_data(data: &[u8], k: usize) -> (r: Result<CalendarDate, DecoderError>)
    requires
        data@.len() == SYSTEM_CONFIGURATION_LENGTH,
        k + 3 < SYSTEM_CONFIGURATION_LENGTH,
    ensures
        match date_fault(data@, k as int) {
            Some(e) => r == Err::<CalendarDate, DecoderError>(e),
            None => r == Ok::<CalendarDate, DecoderError>(date_at(data@, k as int)),
        },
{
    let year: i32 = 2000 + data[k + 1] as i32;
    let month: u32 = data[k + 2] as u32;
    let day: u32 = data[k + 3] as u32;
    match CalendarDate::from_ymd(year, month, day) {
        Some(d) => Ok(d),
        None => Err(DecoderError::InvalidDate(year, month, day)),
    }
}

fn memory_u16(data: &[u8], k: usize) -> (r: u16)
    requires
        data@.len() == SYSTEM_CONFIGURATION_LENGTH,
        k + 2 < SYSTEM_CONFIGURATION_LENGTH,
    ensures
        r == memory_u16_be(data@, k as int),
{
    (data[k + 1] as u16) * 256 + (data[k + 2] as u16)
}

impl Response for SystemConfiguration {
    /// A 129-byte payload whose first byte is not looked at.
    fn decode(data: &[u8]) -> (r: Result<SystemConfiguration, DecoderError>)
        ensures
            match system_configuration_fault(data@) {
                Some(e) => r == Err::<SystemConfiguration, DecoderError>(e),
                None => r matches Ok(c) && system_configuration_fields(data@, c),
            },
    {
        if data.len() != SYSTEM_CONFIGURATION_LENGTH {
            return Err(DecoderError::InvalidSystemConfiguration(SYSTEM_CONFIGURATION_LENGTH, data.len()));
        }
        let build_date = match date_from_data(data, 8) {
            Ok(d) => d,
            Err(e) => return Err(e),
        };
        let model_id = memory_u16(data, 11);
        let model = match Model::from_repr(model_id) {
            Some(m) => m,
            None => return Err(DecoderError::UnknownModelId(model_id)),
        };
        let battery_date = match date_from_data(data, 21) {
            Ok(d) => d,
            Err(e) => return Err(e),
        };
        let srr_channel = match SRRChannel::from_repr(data[53]) {
            Some(c) => c,
            None => return Err(DecoderError::UnknownSRRChannel(data[53])),
        };
        let mode = match StationMode::from_repr(data[114]) {
            Some(m) => m,
            None => return Err(DecoderError::UnknownStationMode(data[114])),
        };
        let wakeup_date = match date_from_data(data, 117) {
            Ok(d) => d,
            Err(e) => return Err(e),
        };
        let serial_number: u32 = (data[1] as u32) + (data[2] as u32) * 0x100 + (data[3] as u32)
            * 0x1_0000 + (data[4] as u32) * 0x100_0000;
        let firmware: [u8; 3] = [data[6], data[7], data[8]];
        let station_program = if data[113] & 0x20 == 0 {
            StationProgram::Competition
        } else {
            StationProgram::Training
        };
        let c = SystemConfiguration {
            serial_number,
            srr_configuration: SRRConfiguration { bits: data[5] },
            firmware,
            build_date,
            model,
            mem_kilobytes: data[14],
            battery_date,
            battery_capacity_milliampere_hour: memory_u16(data, 25),
            backup_pointer_high: memory_u16(data, 28),
            backup_pointer_low: memory_u16(data, 33),
            si6_card_blocks: SI6CardBlocks { bits: data[52] },
            srr_channel,
            used_battery_capacity: (data[54] as u32) * 0x1_0000 + (data[55] as u32) * 0x100
                + (data[56] as u32),
            memory_overflow: data[62] != 0,
            battery_voltage: memory_u16(data, 80),
            station_program,
            mode,
            station_code: (data[115] as u16) * 256 + ((data[116] & 0xC0) as u16),
            punch_feedback: PunchFeedback { bits: data[116] },
            protocol_configuration: ProtocolConfiguration { bits: data[117] },
            wakeup_date,
            active_duration_minutes: data[127],
        };
        proof {
            assert(c.firmware@ =~= data@.subrange(6, 9));
        }
        Ok(c)
    }
}

impl SystemConfiguration {
    /// Reading cards asks for the extended protocol and the readout mode.
    pub fn check_card_polling(&self) -> (r: Result<(), crate::error::Error>)
        ensures
            !self.protocol_configuration.spec_contains(EXTENDED_PROTOCOL) ==> r == Err::<
                (),
                crate::error::Error,
            >(crate::error::Error::NotExtendedProtocolMode),
            self.protocol_configuration.spec_contains(EXTENDED_PROTOCOL) && self.mode
                != StationMode::Readout ==> r == Err::<(), crate::error::Error>(
                crate::error::Error::NotReadoutMode,
            ),
            self.protocol_configuration.spec_contains(EXTENDED_PROTOCOL) && self.mode
                == StationMode::Readout ==> r is Ok,
    {
        if !self.protocol_configuration.is_extended_protocol() {
            return Err(crate::error::Error::NotExtendedProtocolMode);
        }
        if self.mode != StationMode::Readout {
            return Err(crate::error::Error::NotReadoutMode);
        }
        Ok(())
    }

    /// Waiting for auto-sent punches asks for the extended protocol and the
    /// auto-send flag.
    pub fn check_punch_polling(&self) -> (r: Result<(), crate::error::Error>)
        ensures
            !self.protocol_configuration.spec_contains(EXTENDED_PROTOCOL) ==> r == Err::<
                (),
                crate::error::Error,
            >(crate::error::Error::NotExtendedProtocolMode),
            self.protocol_configuration.spec_contains(EXTENDED_PROTOCOL)
                && !self.protocol_configuration.spec_contains(AUTO_SEND_OUT) ==> r == Err::<
                (),
                crate::error::Error,
            >(crate::error::Error::NotAutoSendMode),
            self.protocol_configuration.spec_contains(EXTENDED_PROTOCOL)
                && self.protocol_configuration.spec_contains(AUTO_SEND_OUT) ==> r is Ok,
    {
        if !self.protocol_configuration.is_extended_protocol() {
            return Err(crate::error::Error::NotExtendedProtocolMode);
        }
        if !self.protocol_configuration.is_auto_send() {
            return Err(crate::error::Error::NotAutoSendMode);
        }
        Ok(())
    }
}

} // verus!
