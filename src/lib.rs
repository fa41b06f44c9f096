//! Host-side driver logic for SportIdent timing stations: the framed wire
//! codec, the command and response formats, and the card-memory decoder.
pub mod bytes;
pub mod card;
pub mod card_blocks;
pub mod codec;
pub mod commands;
pub mod crc;
pub mod error;
pub mod owner_data;
pub mod punch;
pub mod readout;
pub mod responses;
pub mod session;
pub mod system_configuration;
pub mod time;

pub use crate::card::{Card, CardPunch, CardRemoved, CardType};
pub use crate::card_blocks::{CardBlocks, FromCardBlocks};
pub use crate::codec::Codec;
pub use crate::commands::{
    Beep, Command, Commands, GetSystemConfiguration, ReadCardData, Response, SetMasterSlave,
};
pub use crate::crc::crc;
pub use crate::error::{DecoderError, EncoderError, Error};
pub use crate::owner_data::CardOwnerData;
pub use crate::punch::{DayOfWeek, Punch, StartOrFinishPunch, SubSecondPunch, WeekCounter};
pub use crate::readout::CardReadout;
pub use crate::responses::{ReadCardDataResponse, Responses, SetMasterSlaveResponse, BLOCK_SIZE};
pub use crate::session::BlockCache;
pub use crate::system_configuration::{
    Model, ProtocolConfiguration, SRRChannel, StationMode, StationProgram, SystemConfiguration,
};
pub use crate::time::{CalendarDate, TimeOfDay};
