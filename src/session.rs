use std::collections::HashMap;
use vstd::prelude::*;

use crate::card::{Card, CardPunch};
use crate::card_blocks::CardBlocks;
use crate::error::{DecoderError, Error};
use crate::responses::{ReadCardDataResponse, Responses, BLOCK_SIZE};
use crate::system_configuration::SystemConfiguration;

verus! {

broadcast use vstd::std_specs::hash::group_hash_axioms;

/// The baud rate that a connection tries first.
pub const HIGH_SPEED_BAUD_RATE: u32 = 38_400;

/// The baud rate that a connection falls back to.
pub const LOW_SPEED_BAUD_RATE: u32 = 4_800;

/// The blocks of one card fetched so far during a poll, by index; each block
/// is fetched at most once.
pub struct BlockCache {
    cache: HashMap<u8, [u8; BLOCK_SIZE]>,
}

impl BlockCache {
    /// An empty cache.
    pub fn new() -> (r: BlockCache)
        ensures
            r.spec_blocks() == Map::<u8, Seq<u8>>::empty(),
    {
        let r = BlockCache { cache: HashMap::new() };
        proof {
            assert(r.spec_blocks() =~= Map::<u8, Seq<u8>>::empty());
        }
        r
    }

    /// The block at `index` has been fetched.
    pub fn contains(&self, index: u8) -> (r: bool)
        ensures
            r == self.spec_blocks().contains_key(index),
    {
        self.cache.contains_key(&index)
    }

    /// Keeps `block` as block `index`.
    pub fn insert(&mut self, index: u8, block: [u8; BLOCK_SIZE])
        ensures
            final(self).spec_blocks() == old(self).spec_blocks().insert(index, block@),
    {
        self.cache.insert(index, block);
        proof {
            assert(self.spec_blocks() =~= old(self).spec_blocks().insert(index, block@));
        }
    }
}

impl CardBlocks for BlockCache {
    closed spec fn spec_blocks(&self) -> Map<u8, Seq<u8>> {
        self.cache@.map_values(|b: [u8; BLOCK_SIZE]| b@)
    }

    fn get_block(&mut self, index: u8) -> (r: Result<[u8; BLOCK_SIZE], Error>) {
        match self.cache.get(&index) {
            Some(block) => Ok(*block),
            None => Err(Error::DecoderError(DecoderError::InvalidReadoutDataLength)),
        }
    }
}

/// The block that the station sent while a block read was awaited. A removed
/// card, or a negative acknowledgement (the station refuses reads once the
/// card is gone), fails with `CardRemovedWhileReadingData`; any other
/// response is not the one asked for.
pub fn card_data_from_response(received: Result<Responses, Error>) -> (r: Result<
    ReadCardDataResponse,
    Error,
>)
    ensures
        r == (match received {
            Err(Error::DecoderError(DecoderError::InvalidCommandSent)) => Err(
                Error::CardRemovedWhileReadingData,
            ),
            Err(e) => Err(e),
            Ok(Responses::CardRemoved(_)) => Err(Error::CardRemovedWhileReadingData),
            Ok(Responses::CardData(block)) => Ok(block),
            Ok(_) => Err(Error::InvalidResponseReceived),
        }),
{
    match received {
        Err(Error::DecoderError(DecoderError::InvalidCommandSent)) => Err(
            Error::CardRemovedWhileReadingData,
        ),
        Err(e) => Err(e),
        Ok(Responses::CardRemoved(_)) => Err(Error::CardRemovedWhileReadingData),
        Ok(Responses::CardData(block)) => Ok(block),
        Ok(_) => Err(Error::InvalidResponseReceived),
    }
}

/// The card of a card-inserted event; the card poll passes over every other
/// event.
pub fn inserted_card(event: Responses) -> (r: Option<Card>)
    ensures
        r == (match event {
            Responses::CardInserted(card) => Some(card),
            _ => None,
        }),
{
    match event {
        Responses::CardInserted(card) => Some(card),
        _ => None,
    }
}

/// The punch of an auto-send event; any other event is not the one awaited.
pub fn punch_from_event(event: Responses) -> (r: Result<CardPunch, Error>)
    ensures
        r == (match event {
            Responses::CardPunch(punch) => Ok(punch),
            _ => Err(Error::InvalidResponseReceived),
        }),
{
    match event {
        Responses::CardPunch(punch) => Ok(punch),
        _ => Err(Error::InvalidResponseReceived),
    }
}

/// The configuration that the station sent in answer to its request.
pub fn system_configuration_from_response(response: Responses) -> (r: Result<
    SystemConfiguration,
    Error,
>)
    ensures
        r == (match response {
            Responses::SystemConfiguration(c) => Ok(c),
            _ => Err(Error::InvalidResponseReceived),
        }),
{
    match response {
        Responses::SystemConfiguration(c) => Ok(c),
        _ => Err(Error::InvalidResponseReceived),
    }
}

/// The attempts to switch the station into master mode: first at high
/// speed, then once more at low speed.
#[derive(Debug, Clone, Copy, PartialEq, Eq, Structural)]
pub enum BaudProbe {
    HighSpeed,
    LowSpeed,
}

/// What to do after a master-mode attempt.
#[derive(Debug, Clone, Copy, PartialEq, Eq, Structural)]
pub enum ProbeAction {
    /// The station answered: fetch its configuration.
    Configure,
    /// Switch the port to this baud rate and try again.
    Retry(u32),
    /// Give up, with the fault of the last attempt.
    Fail,
}

impl BaudProbe {
    pub fn baud_rate(&self) -> (r: u32)
        ensures
            r == (match self {
                BaudProbe::HighSpeed => HIGH_SPEED_BAUD_RATE,
                BaudProbe::LowSpeed => LOW_SPEED_BAUD_RATE,
            }),
    {
        match self {
            BaudProbe::HighSpeed => HIGH_SPEED_BAUD_RATE,
            BaudProbe::LowSpeed => LOW_SPEED_BAUD_RATE,
        }
    }

    /// The next step after an attempt that was or was not `acknowledged`, and
    /// the attempt that a retry makes.
    pub fn next(self, acknowledged: bool) -> (r: (ProbeAction, BaudProbe))
        ensures
            acknowledged ==> r == (ProbeAction::Configure, self),
            !acknowledged && self == BaudProbe::HighSpeed ==> r == (
                ProbeAction::Retry(LOW_SPEED_BAUD_RATE),
                BaudProbe::LowSpeed,
            ),
            !acknowledged && self == BaudProbe::LowSpeed ==> r == (ProbeAction::Fail, self),
    {
        if acknowledged {
            (ProbeAction::Configure, self)
        } else {
            match self {
                BaudProbe::HighSpeed => (ProbeAction::Retry(LOW_SPEED_BAUD_RATE), BaudProbe::LowSpeed),
                BaudProbe::LowSpeed => (ProbeAction::Fail, self),
            }
        }
    }
}

} // verus!
