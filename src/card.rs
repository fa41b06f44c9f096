use vstd::prelude::*;

use crate::bytes::copy_range;
use crate::commands::Response;
use crate::error::DecoderError;
use crate::punch::{sub_second_punch_spec, SubSecondPunch};

verus! {

/// The generations of SportIdent cards.
#[derive(Debug, Clone, Copy, PartialEq, Eq, PartialOrd, Ord, Hash, Structural)]
pub enum CardType {
    Si8,
    Si9,
    Si10,
    Si11,
    Siac,
    PunchCard,
}

/// The card generation that a card number belongs to, by its range.
pub open spec fn card_type_of(number: u32) -> Option<CardType> {
    if 1_000_000 <= number <= 1_999_999 {
        Some(CardType::Si9)
    } else if 2_000_000 <= number <= 2_999_999 {
        Some(CardType::Si8)
    } else if 4_000_000 <= number <= 4_999_999 {
        Some(CardType::PunchCard)
    } else if 7_000_000 <= number <= 7_999_999 {
        Some(CardType::Si10)
    } else if 8_000_000 <= number <= 8_999_999 {
        Some(CardType::Siac)
    } else if 9_000_000 <= number <= 9_999_999 {
        Some(CardType::Si11)
    } else {
        None
    }
}

/// What classifying `number` gives: its generation, or `InvalidCardNumber`.
pub open spec fn card_type_result(number: u32) -> Result<CardType, DecoderError> {
    match card_type_of(number) {
        Some(t) => Ok(t),
        None => Err(DecoderError::InvalidCardNumber(number)),
    }
}

/// The number that a card-inserted payload carries: bytes 1 to 3, big-endian.
pub open spec fn inserted_card_number(data: Seq<u8>) -> u32 {
    (data[1] as int * 65536 + data[2] as int * 256 + data[3] as int) as u32
}

/// What a card-inserted payload decodes to.
pub open spec fn card_spec(data: Seq<u8>) -> Result<Card, DecoderError> {
    if data.len() != 4 {
        Err(DecoderError::InvalidCardInsertedLength(4, data.len() as usize))
    } else {
        let number = inserted_card_number(data);
        match card_type_of(number) {
            Some(t) => Ok(Card { card_type: t, number }),
            None => Err(DecoderError::InvalidCardNumber(number)),
        }
    }
}

impl CardType {
    /// The generation of the card with this number.
    pub fn new(number: u32) -> (r: Result<CardType, DecoderError>)
        ensures
            r == card_type_result(number),
    {
        if 2_000_000 <= number && number <= 2_999_999 {
            Ok(CardType::Si8)
        } else if 1_000_000 <= number && number <= 1_999_999 {
            Ok(CardType::Si9)
        } else if 7_000_000 <= number && number <= 7_999_999 {
            Ok(CardType::Si10)
        } else if 9_000_000 <= number && number <= 9_999_999 {
            Ok(CardType::Si11)
        } else if 8_000_000 <= number && number <= 8_999_999 {
            Ok(CardType::Siac)
        } else if 4_000_000 <= number && number <= 4_999_999 {
            Ok(CardType::PunchCard)
        } else {
            Err(DecoderError::InvalidCardNumber(number))
        }
    }
}

/// A card that was put into the station.
#[derive(Debug, Clone, Copy, PartialEq, Eq, PartialOrd, Ord, Hash, Structural)]
pub struct Card {
    pub card_type: CardType,
    pub number: u32,
}

impl Card {
    /// The card with this number, whose generation follows from it.
    pub fn new(number: u32) -> (r: Result<Card, DecoderError>)
        ensures
            r == (match card_type_of(number) {
                Some(t) => Ok(Card { card_type: t, number }),
                None => Err(DecoderError::InvalidCardNumber(number)),
            }),
    {
        let card_type = match CardType::new(number) {
            Ok(t) => t,
            Err(e) => return Err(e),
        };
        Ok(Card { card_type, number })
    }
}

impl Response for Card {
    /// A card-inserted payload: four bytes, the last three the card number.
    fn decode(data: &[u8]) -> (r: Result<Card, DecoderError>)
        ensures
            r == card_spec(data@),
    {
        if data.len() != 4 {
            return Err(DecoderError::InvalidCardInsertedLength(4, data.len()));
        }
        let number: u32 = (data[1] as u32) * 65536 + (data[2] as u32) * 256 + (data[3] as u32);
        Card::new(number)
    }
}

/// The event of a card leaving the station.
#[derive(Debug, Clone, Copy, PartialEq, Eq, Structural)]
pub struct CardRemoved;

impl Response for CardRemoved {
    /// A card-removed payload is not looked at.
    fn decode(data: &[u8]) -> (r: Result<CardRemoved, DecoderError>)
        ensures
            r == Ok::<CardRemoved, DecoderError>(CardRemoved),
    {
        Ok(CardRemoved)
    }
}

/// A punch that a station in auto-send mode reports as it happens.
#[derive(Debug, Clone, Copy, PartialEq, Eq, PartialOrd, Ord, Hash, Structural)]
pub struct CardPunch {
    pub punch: SubSecondPunch,
    pub card: Card,
}

/// The four punch bytes of an auto-send payload, in the order the punch
/// decoder reads them.
pub open spec fn card_punch_bytes(data: Seq<u8>) -> Seq<u8> {
    seq![data[4], data[7], data[5], data[6]]
}

/// What an auto-send payload decodes to: the card from its first four bytes,
/// the punch from the next four; an absent punch is refused.
pub open spec fn card_punch_spec(data: Seq<u8>) -> Result<CardPunch, DecoderError> {
    if data.len() < 8 {
        Err(DecoderError::InvalidCardPunchLength(8, data.len() as usize))
    } else {
        match card_spec(data.subrange(0, 4)) {
            Err(e) => Err(e),
            Ok(card) => match sub_second_punch_spec(card_punch_bytes(data)) {
                Err(e) => Err(e),
                Ok(None) => Err(DecoderError::InvalidPunchTime),
                Ok(Some(punch)) => Ok(CardPunch { punch, card }),
            },
        }
    }
}

impl Response for CardPunch {
    fn decode(data: &[u8]) -> (r: Result<CardPunch, DecoderError>)
        ensures
            r == card_punch_spec(data@),
    {
        if data.len() < 8 {
            return Err(DecoderError::InvalidCardPunchLength(8, data.len()));
        }
        let head = copy_range(data, 0, 4);
        let card = match Card::decode(head.as_slice()) {
            Ok(c) => c,
            Err(e) => return Err(e),
        };
        let bytes: [u8; 4] = [data[4], data[7], data[5], data[6]];
        proof {
            assert(bytes@ =~= card_punch_bytes(data@));
        }
        match SubSecondPunch::decode_punch(card.card_type, bytes) {
            Err(e) => Err(e),
            Ok(None) => Err(DecoderError::InvalidPunchTime),
            Ok(Some(punch)) => Ok(CardPunch { punch, card }),
        }
    }
}

} // verus!
