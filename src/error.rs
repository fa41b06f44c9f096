use vstd::prelude::*;

verus! {

/// Faults found while taking frames and responses apart.
#[derive(Debug, Clone, Copy, PartialEq, Eq, Structural)]
pub enum DecoderError {
    /// The station answered with a negative acknowledgement.
    InvalidCommandSent,
    /// A frame began with this byte instead of the start byte.
    InvalidStartByte(u8),
    /// A frame announced this payload length, shorter than its two leading bytes.
    InvalidLength(usize),
    /// A frame ended with this byte instead of the end byte.
    InvalidEndByte(u8),
    /// The checksum computed over a frame, and the one it carried.
    InvalidChecksum(u16, u16),
    /// A response opcode that this driver does not know.
    InvalidCommand(u8),
    /// Expected and actual length of a system configuration payload.
    InvalidSystemConfiguration(usize, usize),
    /// Year, month and day that do not name a calendar day.
    InvalidDate(i32, u32, u32),
    UnknownModelId(u16),
    UnknownSRRChannel(u8),
    UnknownStationMode(u8),
    /// Expected and actual length of a card-inserted payload.
    InvalidCardInsertedLength(usize, usize),
    /// A card number outside the ranges of all card generations.
    InvalidCardNumber(u32),
    /// Expected and actual size of a card memory block.
    InvalidBlockSize(usize, usize),
    /// The card memory is too short for what the card type asks of it.
    InvalidReadoutDataLength,
    /// A punch whose time field is out of range or absent where it is required.
    InvalidPunchTime,
    /// Owner data that is not UTF-8 or has too few fields.
    InvalidOwnerData,
    /// Least and actual length of an auto-sent punch payload.
    InvalidCardPunchLength(usize, usize),
}

/// Faults found while building a command frame.
#[derive(Debug, Clone, Copy, PartialEq, Eq, Structural)]
pub enum EncoderError {
    /// Largest allowed and actual number of parameter bytes.
    CommandParametersTooLong(usize, usize),
}

/// Everything the driver can report to its caller, short of transport faults.
#[derive(Debug, Clone, Copy, PartialEq, Eq, Structural)]
pub enum Error {
    DecoderError(DecoderError),
    EncoderError(EncoderError),
    InvalidResponseReceived,
    InputIsNotEmpty(u32),
    /// Expected and received command.
    ReceivedInvalidCommand(u8, u8),
    NotExtendedProtocolMode,
    NotReadoutMode,
    PortClosed,
    CardRemovedWhileReadingData,
    NotAutoSendMode,
    NoReaderDetected,
}

} // verus!
