use vstd::prelude::*;

use crate::card::{card_punch_spec, card_spec, Card, CardPunch, CardRemoved};
use crate::commands::Response;
use crate::error::DecoderError;
use crate::system_configuration::{
    system_configuration_fault, system_configuration_fields, SystemConfiguration,
};

verus! {

/// Size of one card memory block.
pub const BLOCK_SIZE: usize = 128;

/// One block of card memory, as the station sends it.
#[derive(Debug, Clone, Copy, PartialEq, Eq)]
pub struct ReadCardDataResponse(pub [u8; BLOCK_SIZE]);

/// The block-size fault of a card-data payload, if it has one: it must hold
/// the echoed block index and exactly one block.
pub open spec fn card_data_fault(data: Seq<u8>) -> Option<DecoderError> {
    if data.len() == 0 {
        Some(DecoderError::InvalidBlockSize(BLOCK_SIZE, 0))
    } else if data.len() != BLOCK_SIZE + 1 {
        Some(DecoderError::InvalidBlockSize(BLOCK_SIZE, (data.len() - 1) as usize))
    } else {
        None
    }
}

impl Response for ReadCardDataResponse {
    /// Byte 0 echoes the block index; the other 128 bytes are the block.
    fn decode(data: &[u8]) -> (r: Result<ReadCardDataResponse, DecoderError>)
        ensures
            match card_data_fault(data@) {
                Some(e) => r == Err::<ReadCardDataResponse, DecoderError>(e),
                None => r matches Ok(b) && b.0@ == data@.skip(1),
            },
    {
        if data.len() == 0 {
            return Err(DecoderError::InvalidBlockSize(BLOCK_SIZE, 0));
        }
        if data.len() != BLOCK_SIZE + 1 {
            return Err(DecoderError::InvalidBlockSize(BLOCK_SIZE, data.len() - 1));
        }
        let mut block: [u8; BLOCK_SIZE] = [0; BLOCK_SIZE];
        let mut i: usize = 0;
        while i < BLOCK_SIZE
            invariant
                i <= BLOCK_SIZE,
                data@.len() == BLOCK_SIZE + 1,
                forall|j: int| 0 <= j < i ==> block@[j] == data@[j + 1],
            decreases BLOCK_SIZE - i,
        {
            block[i] = data[i + 1];
            i = i + 1;
        }
        proof {
            assert(block@ =~= data@.skip(1));
        }
        Ok(ReadCardDataResponse(block))
    }
}

/// The station's acknowledgement of a master/slave switch.
#[derive(Debug, Clone, Copy, PartialEq, Eq, Structural)]
pub struct SetMasterSlaveResponse;

impl Response for SetMasterSlaveResponse {
    /// The acknowledgement's payload is not looked at.
    fn decode(data: &[u8]) -> (r: Result<SetMasterSlaveResponse, DecoderError>)
        ensures
            r == Ok::<SetMasterSlaveResponse, DecoderError>(SetMasterSlaveResponse),
    {
        Ok(SetMasterSlaveResponse)
    }
}

/// The responses and events that the station sends.
#[derive(Debug, Clone, Copy, PartialEq, Eq)]
pub enum Responses {
    SystemConfiguration(SystemConfiguration),
    SetMasterSlaveResponse(SetMasterSlaveResponse),
    CardInserted(Card),
    CardRemoved(CardRemoved),
    CardData(ReadCardDataResponse),
    CardPunch(CardPunch),
}

pub const SYSTEM_CONFIGURATION_COMMAND: u8 = 0x83;

pub const SET_MASTER_SLAVE_COMMAND: u8 = 0xF0;

pub const CARD_REMOVED_COMMAND: u8 = 0xE7;

pub const CARD_INSERTED_COMMAND: u8 = 0xE8;

pub const CARD_DATA_COMMAND: u8 = 0xEF;

pub const CARD_PUNCH_COMMAND: u8 = 0xD3;

/// `r` is what the frame data `data` of command `cmd` decodes to: the
/// response type is chosen by the command byte, and an unknown command is
/// refused with `InvalidCommand`.
pub open spec fn response_decodes(cmd: u8, data: Seq<u8>, r: Result<Responses, DecoderError>) -> bool {
    if cmd == SYSTEM_CONFIGURATION_COMMAND {
        match system_configuration_fault(data) {
            Some(e) => r == Err::<Responses, DecoderError>(e),
            None => r matches Ok(Responses::SystemConfiguration(c)) && system_configuration_fields(
                data,
                c,
            ),
        }
    } else if cmd == SET_MASTER_SLAVE_COMMAND {
        r == Ok::<Responses, DecoderError>(Responses::SetMasterSlaveResponse(SetMasterSlaveResponse))
    } else if cmd == CARD_REMOVED_COMMAND {
        r == Ok::<Responses, DecoderError>(Responses::CardRemoved(CardRemoved))
    } else if cmd == CARD_INSERTED_COMMAND {
        match card_spec(data) {
            Ok(c) => r == Ok::<Responses, DecoderError>(Responses::CardInserted(c)),
            Err(e) => r == Err::<Responses, DecoderError>(e),
        }
    } else if cmd == CARD_DATA_COMMAND {
        match card_data_fault(data) {
            Some(e) => r == Err::<Responses, DecoderError>(e),
            None => r matches Ok(Responses::CardData(b)) && b.0@ == data.skip(1),
        }
    } else if cmd == CARD_PUNCH_COMMAND {
        match card_punch_spec(data) {
            Ok(p) => r == Ok::<Responses, DecoderError>(Responses::CardPunch(p)),
            Err(e) => r == Err::<Responses, DecoderError>(e),
        }
    } else {
        r == Err::<Responses, DecoderError>(DecoderError::InvalidCommand(cmd))
    }
}

impl Responses {
    /// Decodes the data of a frame by its command byte.
    pub fn from_frame(cmd: u8, data: &[u8]) -> (r: Result<Responses, DecoderError>)
        ensures
            response_decodes(cmd, data@, r),
    {
        if cmd == SYSTEM_CONFIGURATION_COMMAND {
            match SystemConfiguration::decode(data) {
                Ok(c) => Ok(Responses::SystemConfiguration(c)),
                Err(e) => Err(e),
            }
        } else if cmd == SET_MASTER_SLAVE_COMMAND {
            match SetMasterSlaveResponse::decode(data) {
                Ok(c) => Ok(Responses::SetMasterSlaveResponse(c)),
                Err(e) => Err(e),
            }
        } else if cmd == CARD_REMOVED_COMMAND {
            match CardRemoved::decode(data) {
                Ok(c) => Ok(Responses::CardRemoved(c)),
                Err(e) => Err(e),
            }
        } else if cmd == CARD_INSERTED_COMMAND {
            match Card::decode(data) {
                Ok(c) => Ok(Responses::CardInserted(c)),
                Err(e) => Err(e),
            }
        } else if cmd == CARD_DATA_COMMAND {
            match ReadCardDataResponse::decode(data) {
                Ok(c) => Ok(Responses::CardData(c)),
                Err(e) => Err(e),
            }
        } else if cmd == CARD_PUNCH_COMMAND {
            match CardPunch::decode(data) {
                Ok(c) => Ok(Responses::CardPunch(c)),
                Err(e) => Err(e),
            }
        } else {
            Err(DecoderError::InvalidCommand(cmd))
        }
    }
}

} // verus!
