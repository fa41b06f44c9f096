use vstd::prelude::*;

use crate::card::CardType;
use crate::card_blocks::{
    block_present, blocks_image, fetch_blocks, lemma_image_agrees, missing_block_error, CardBlocks,
    FromCardBlocks,
};
use crate::error::{DecoderError, Error};
use crate::punch::{punch_spec, start_or_finish_spec, Punch, StartOrFinishPunch};

verus! {

/// The timing record read from a card.
#[derive(Debug, Clone, PartialEq, Eq, PartialOrd, Ord)]
pub struct CardReadout {
    pub card_number: u32,
    pub card_type: CardType,
    pub start: Option<StartOrFinishPunch>,
    pub finish: Option<StartOrFinishPunch>,
    pub check: Option<Punch>,
    /// The punches in the order the card recorded them.
    pub punches: Vec<Punch>,
}

/// A `CardReadout` with its punches as a sequence.
pub struct CardReadoutView {
    pub card_number: u32,
    pub card_type: CardType,
    pub start: Option<StartOrFinishPunch>,
    pub finish: Option<StartOrFinishPunch>,
    pub check: Option<Punch>,
    pub punches: Seq<Punch>,
}

impl View for CardReadout {
    type V = CardReadoutView;

    open spec fn view(&self) -> CardReadoutView {
        CardReadoutView {
            card_number: self.card_number,
            card_type: self.card_type,
            start: self.start,
            finish: self.finish,
            check: self.check,
            punches: self.punches@,
        }
    }
}

/// Where the punch records start in a card's readout image.
pub open spec fn spec_punches_offset(card_type: CardType) -> int {
    match card_type {
        CardType::Si8 => 136,
        CardType::Si9 => 56,
        CardType::PunchCard => 176,
        _ => 128,
    }
}

/// The four bytes at `k`.
pub open spec fn record_at(data: Seq<u8>, k: int) -> Seq<u8> {
    data.subrange(k, k + 4)
}

/// The punches of the first `count` slots from `offset`, in order; unused
/// slots are skipped, and the first slot that does not decode fails the lot.
pub open spec fn collect_punches(data: Seq<u8>, offset: int, count: nat) -> Result<Seq<Punch>, DecoderError>
    decreases count,
{
    if count == 0 {
        Ok(seq![])
    } else {
        match collect_punches(data, offset, (count - 1) as nat) {
            Err(e) => Err(e),
            Ok(ps) => match punch_spec(record_at(data, offset + 4 * (count - 1))) {
                Err(e) => Err(e),
                Ok(None) => Ok(ps),
                Ok(Some(p)) => Ok(ps.push(p)),
            },
        }
    }
}

/// The card number at bytes 25 to 27, big-endian.
pub open spec fn readout_card_number(data: Seq<u8>) -> u32 {
    (data[25] as int * 65536 + data[26] as int * 256 + data[27] as int) as u32
}

/// What a readout image decodes to. Byte 22 counts the punch slots; the
/// punches are read first, then start (12), finish (16) and check (8).
pub open spec fn readout_spec(data: Seq<u8>, card_type: CardType) -> Result<CardReadoutView, DecoderError> {
    if data.len() < 28 || data.len() < spec_punches_offset(card_type) + 4 * data[22] {
        Err(DecoderError::InvalidReadoutDataLength)
    } else {
        match collect_punches(data, spec_punches_offset(card_type), data[22] as nat) {
            Err(e) => Err(e),
            Ok(punches) => match start_or_finish_spec(record_at(data, 12)) {
                Err(e) => Err(e),
                Ok(start) => match start_or_finish_spec(record_at(data, 16)) {
                    Err(e) => Err(e),
                    Ok(finish) => match punch_spec(record_at(data, 8)) {
                        Err(e) => Err(e),
                        Ok(check) => Ok(
                            CardReadoutView {
                                card_number: readout_card_number(data),
                                card_type,
                                start,
                                finish,
                                check,
                                punches,
                            },
                        ),
                    },
                },
            },
        }
    }
}

/// The first block and the number of blocks of a card's readout image:
/// blocks 0 and 1 of the small cards, blocks 3 to 7 of Si10, Si11 and SIAC.
pub open spec fn readout_blocks(card_type: CardType) -> (int, nat) {
    match card_type {
        CardType::Si8 | CardType::Si9 | CardType::PunchCard => (0, 2),
        _ => (3, 5),
    }
}

/// The readout image of a card, if its source holds the blocks.
pub open spec fn readout_image(blocks: Map<u8, Seq<u8>>, card_type: CardType) -> Option<Seq<u8>> {
    blocks_image(blocks, readout_blocks(card_type).0, readout_blocks(card_type).1)
}

fn record(data: &[u8], k: usize) -> (r: [u8; 4])
    requires
        k + 4 <= data@.len(),
    ensures
        r@ == record_at(data@, k as int),
{
    let r = [data[k], data[k + 1], data[k + 2], data[k + 3]];
    proof {
        assert(r@ =~= record_at(data@, k as int));
    }
    r
}

impl CardReadout {
    /// Where the punch records start.
    pub fn punches_offset(card_type: CardType) -> (r: u8)
        ensures
            r == spec_punches_offset(card_type),
    {
        match card_type {
            CardType::Si8 => 136,
            CardType::Si9 => 56,
            CardType::PunchCard => 176,
            CardType::Si10 | CardType::Si11 | CardType::Siac => 128,
        }
    }

    /// Decodes a readout image.
    pub fn decode(data: &[u8], card_type: CardType) -> (r: Result<CardReadout, DecoderError>)
        ensures
            match readout_spec(data@, card_type) {
                Ok(v) => r matches Ok(x) && x@ == v,
                Err(e) => r == Err::<CardReadout, DecoderError>(e),
            },
    {
        if data.len() < 28 {
            return Err(DecoderError::InvalidReadoutDataLength);
        }
        let count = data[22];
        let offset = CardReadout::punches_offset(card_type) as usize;
        let end = offset + count as usize * 4;
        if data.len() < end {
            return Err(DecoderError::InvalidReadoutDataLength);
        }
        let mut punches: Vec<Punch> = Vec::new();
        let mut k: usize = 0;
        let mut pos: usize = offset;
        while k < count as usize
            invariant
                k <= count,
                pos == offset + 4 * k,
                data@.len() >= 28,
                count == data@[22],
                offset == spec_punches_offset(card_type),
                offset + 4 * count <= data@.len(),
                collect_punches(data@, offset as int, k as nat) == Ok::<Seq<Punch>, DecoderError>(
                    punches@,
                ),
            decreases count - k,
        {
            let slot = record(data, pos);
            let decoded = Punch::decode_punch(card_type, slot);
            proof {
                assert(offset + 4 * ((k + 1) - 1) == pos);
                assert(collect_punches(data@, offset as int, (k + 1) as nat) == match punch_spec(
                    record_at(data@, pos as int),
                ) {
                    Err(e) => Err(e),
                    Ok(None) => Ok(punches@),
                    Ok(Some(p)) => Ok(punches@.push(p)),
                });
            }
            match decoded {
                Err(e) => {
                    proof {
                        lemma_collect_fails(data@, offset as int, (k + 1) as nat, count as nat, e);
                    }
                    return Err(e);
                },
                Ok(None) => {},
                Ok(Some(p)) => {
                    punches.push(p);
                },
            }
            k = k + 1;
            pos = pos + 4;
        }
        let start = match StartOrFinishPunch::decode_punch(card_type, record(data, 12)) {
            Ok(s) => s,
            Err(e) => return Err(e),
        };
        let finish = match StartOrFinishPunch::decode_punch(card_type, record(data, 16)) {
            Ok(f) => f,
            Err(e) => return Err(e),
        };
        let check = match Punch::decode_punch(card_type, record(data, 8)) {
            Ok(c) => c,
            Err(e) => return Err(e),
        };
        let card_number: u32 = (data[25] as u32) * 65536 + (data[26] as u32) * 256 + (data[27] as u32);
        Ok(CardReadout { card_number, card_type, start, finish, check, punches })
    }
}

/// A failure among the first slots fails every longer run of slots with it.
pub proof fn lemma_collect_fails(data: Seq<u8>, offset: int, count: nat, more: nat, e: DecoderError)
    requires
        collect_punches(data, offset, count) == Err::<Seq<Punch>, DecoderError>(e),
        count <= more,
    ensures
        collect_punches(data, offset, more) == Err::<Seq<Punch>, DecoderError>(e),
    decreases more - count,
{
    if count < more {
        lemma_collect_fails(data, offset, count, (more - 1) as nat, e);
    }
}

impl FromCardBlocks for CardReadout {
    open spec fn spec_outcome(blocks: Map<u8, Seq<u8>>, card_type: CardType) -> Result<(), Error> {
        match readout_image(blocks, card_type) {
            None => Err(missing_block_error()),
            Some(image) => match readout_spec(image, card_type) {
                Ok(_) => Ok(()),
                Err(e) => Err(Error::DecoderError(e)),
            },
        }
    }

    open spec fn spec_assembled(blocks: Map<u8, Seq<u8>>, card_type: CardType, v: CardReadout) -> bool {
        &&& readout_image(blocks, card_type) matches Some(image)
        &&& readout_spec(image, card_type) == Ok::<CardReadoutView, DecoderError>(v@)
    }

    open spec fn spec_block_indices(card_type: CardType) -> Seq<u8> {
        match card_type {
            CardType::Si8 | CardType::Si9 | CardType::PunchCard => seq![0, 1],
            _ => seq![3, 4, 5, 6, 7],
        }
    }

    fn block_indices(card_type: CardType) -> (r: Vec<u8>) {
        let (first, count): (u8, u8) = match card_type {
            CardType::Si8 | CardType::Si9 | CardType::PunchCard => (0, 2),
            CardType::Si10 | CardType::Si11 | CardType::Siac => (3, 5),
        };
        let mut r: Vec<u8> = Vec::new();
        let mut k: u8 = 0;
        while k < count
            invariant
                k <= count,
                first as int + count as int <= 8,
                r@ == Seq::new(k as nat, |i: int| (first + i) as u8),
            decreases count - k,
        {
            r.push(first + k);
            k = k + 1;
            proof {
                assert(r@ =~= Seq::new(k as nat, |i: int| (first + i) as u8));
            }
        }
        proof {
            assert(r@ =~= Self::spec_block_indices(card_type));
        }
        r
    }

    /// Reads the readout image of the card (blocks 0 and 1, or 3 to 7) and
    /// decodes it.
    fn from_card_blocks<B: CardBlocks>(blocks: &mut B, card_type: CardType) -> (r: Result<CardReadout, Error>) {
        let (first, count): (u8, u8) = match card_type {
            CardType::Si8 | CardType::Si9 | CardType::PunchCard => (0, 2),
            CardType::Si10 | CardType::Si11 | CardType::Siac => (3, 5),
        };
        let image = match fetch_blocks(blocks, first, count) {
            Ok(image) => image,
            Err(e) => return Err(e),
        };
        match CardReadout::decode(image.as_slice(), card_type) {
            Ok(readout) => Ok(readout),
            Err(e) => Err(Error::DecoderError(e)),
        }
    }
}

/// A readout depends on nothing but the blocks it reads: two block sources
/// that agree on them give the same outcome and the same readout, call after
/// call.
pub proof fn lemma_readout_deterministic(
    a: Map<u8, Seq<u8>>,
    b: Map<u8, Seq<u8>>,
    card_type: CardType,
    v: CardReadout,
)
    requires
        forall|i: int|
            readout_blocks(card_type).0 <= i < readout_blocks(card_type).0 + readout_blocks(
                card_type,
            ).1 ==> (block_present(a, i) <==> block_present(b, i)),
        forall|i: int|
            readout_blocks(card_type).0 <= i < readout_blocks(card_type).0 + readout_blocks(
                card_type,
            ).1 && block_present(a, i) ==> a[i as u8] == b[i as u8],
    ensures
        <CardReadout as FromCardBlocks>::spec_outcome(a, card_type)
            == <CardReadout as FromCardBlocks>::spec_outcome(b, card_type),
        <CardReadout as FromCardBlocks>::spec_assembled(a, card_type, v)
            == <CardReadout as FromCardBlocks>::spec_assembled(b, card_type, v),
{
    lemma_image_agrees(a, b, readout_blocks(card_type).0, readout_blocks(card_type).1);
}

} // verus!
