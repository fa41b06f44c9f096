use vstd::prelude::*;

use crate::card::CardType;
use crate::error::{DecoderError, Error};
use crate::responses::BLOCK_SIZE;

verus! {

/// A full block stands at `index` in `blocks`.
pub open spec fn block_present(blocks: Map<u8, Seq<u8>>, index: int) -> bool {
    0 <= index < 256 && blocks.contains_key(index as u8) && blocks[index as u8].len() == BLOCK_SIZE
}

/// The error of a block source that does not hold a block asked of it.
pub open spec fn missing_block_error() -> Error {
    Error::DecoderError(DecoderError::InvalidReadoutDataLength)
}

/// The blocks `first .. first + count` of `blocks` one after the other, if
/// all of them are present.
pub open spec fn blocks_image(blocks: Map<u8, Seq<u8>>, first: int, count: nat) -> Option<Seq<u8>>
    decreases count,
{
    if count == 0 {
        Some(seq![])
    } else {
        match blocks_image(blocks, first, (count - 1) as nat) {
            None => None,
            Some(s) => if block_present(blocks, first + count - 1) {
                Some(s + blocks[(first + count - 1) as u8])
            } else {
                None
            },
        }
    }
}

/// Once a block is missing, every longer run of blocks is missing one.
pub proof fn lemma_image_missing(blocks: Map<u8, Seq<u8>>, first: int, count: nat, more: nat)
    requires
        blocks_image(blocks, first, count) is None,
        count <= more,
    ensures
        blocks_image(blocks, first, more) is None,
    decreases more - count,
{
    if count < more {
        lemma_image_missing(blocks, first, count, (more - 1) as nat);
    }
}

/// A source of card memory blocks, 128 bytes each, by index.
pub trait CardBlocks {
    /// The blocks that this source holds.
    spec fn spec_blocks(&self) -> Map<u8, Seq<u8>>;

    /// The block at `index`; fails with `missing_block_error` exactly when the
    /// source holds no full block there. Asking does not change the blocks.
    fn get_block(&mut self, index: u8) -> (r: Result<[u8; BLOCK_SIZE], Error>)
        ensures
            final(self).spec_blocks() == old(self).spec_blocks(),
            match r {
                Ok(b) => block_present(old(self).spec_blocks(), index as int) && b@ == old(
                    self,
                ).spec_blocks()[index],
                Err(e) => !block_present(old(self).spec_blocks(), index as int) && e
                    == missing_block_error(),
            },
    ;
}

/// The blocks `first .. first + count` of `blocks`, one after the other.
pub fn fetch_blocks<B: CardBlocks>(blocks: &mut B, first: u8, count: u8) -> (r: Result<Vec<u8>, Error>)
    requires
        first as int + count as int <= 256,
    ensures
        final(blocks).spec_blocks() == old(blocks).spec_blocks(),
        match blocks_image(old(blocks).spec_blocks(), first as int, count as nat) {
            Some(image) => r matches Ok(v) && v@ == image,
            None => r == Err::<Vec<u8>, Error>(missing_block_error()),
        },
{
    let ghost m = blocks.spec_blocks();
    let mut image: Vec<u8> = Vec::new();
    let mut k: u8 = 0;
    while k < count
        invariant
            k <= count,
            first as int + count as int <= 256,
            blocks.spec_blocks() == m,
            m == old(blocks).spec_blocks(),
            blocks_image(m, first as int, k as nat) == Some(image@),
        decreases count - k,
    {
        let block = match blocks.get_block(first + k) {
            Ok(b) => b,
            Err(e) => {
                proof {
                    assert(blocks_image(m, first as int, (k + 1) as nat) is None);
                    lemma_image_missing(m, first as int, (k + 1) as nat, count as nat);
                }
                return Err(e);
            },
        };
        let mut j: usize = 0;
        let ghost before = image@;
        while j < BLOCK_SIZE
            invariant
                j <= BLOCK_SIZE,
                image@ == before + block@.take(j as int),
            decreases BLOCK_SIZE - j,
        {
            image.push(block[j]);
            j = j + 1;
            proof {
                assert(image@ =~= before + block@.take(j as int));
            }
        }
        proof {
            assert(block@.take(BLOCK_SIZE as int) =~= block@);
        }
        k = k + 1;
    }
    Ok(image)
}

/// A value that can be assembled from the memory blocks of a card.
pub trait FromCardBlocks: Sized {
    /// Whether assembling from `blocks` succeeds, and the error if it does not.
    spec fn spec_outcome(blocks: Map<u8, Seq<u8>>, card_type: CardType) -> Result<(), Error>;

    /// `v` is the value assembled from `blocks`.
    spec fn spec_assembled(blocks: Map<u8, Seq<u8>>, card_type: CardType, v: Self) -> bool;

    /// The indices of the blocks that assembling reads.
    spec fn spec_block_indices(card_type: CardType) -> Seq<u8>;

    fn block_indices(card_type: CardType) -> (r: Vec<u8>)
        ensures
            r@ == Self::spec_block_indices(card_type),
    ;

    fn from_card_blocks<B: CardBlocks>(blocks: &mut B, card_type: CardType) -> (r: Result<Self, Error>)
        ensures
            final(blocks).spec_blocks() == old(blocks).spec_blocks(),
            match r {
                Ok(v) => Self::spec_outcome(old(blocks).spec_blocks(), card_type) is Ok
                    && Self::spec_assembled(old(blocks).spec_blocks(), card_type, v),
                Err(e) => Self::spec_outcome(old(blocks).spec_blocks(), card_type) == Err::<
                    (),
                    Error,
                >(e),
            },
    ;
}

/// Both values, assembled one after the other from the same blocks.
impl<U: FromCardBlocks, T: FromCardBlocks> FromCardBlocks for (U, T) {
    open spec fn spec_outcome(blocks: Map<u8, Seq<u8>>, card_type: CardType) -> Result<(), Error> {
        match U::spec_outcome(blocks, card_type) {
            Err(e) => Err(e),
            Ok(()) => T::spec_outcome(blocks, card_type),
        }
    }

    open spec fn spec_assembled(blocks: Map<u8, Seq<u8>>, card_type: CardType, v: (U, T)) -> bool {
        U::spec_assembled(blocks, card_type, v.0) && T::spec_assembled(blocks, card_type, v.1)
    }

    open spec fn spec_block_indices(card_type: CardType) -> Seq<u8> {
        U::spec_block_indices(card_type) + T::spec_block_indices(card_type)
    }

    fn block_indices(card_type: CardType) -> (r: Vec<u8>) {
        let mut r = U::block_indices(card_type);
        let tail = T::block_indices(card_type);
        crate::bytes::append_bytes(&mut r, tail.as_slice());
        r
    }

    fn from_card_blocks<B: CardBlocks>(blocks: &mut B, card_type: CardType) -> (r: Result<(U, T), Error>) {
        let u = match U::from_card_blocks(blocks, card_type) {
            Ok(u) => u,
            Err(e) => return Err(e),
        };
        let t = match T::from_card_blocks(blocks, card_type) {
            Ok(t) => t,
            Err(e) => return Err(e),
        };
        Ok((u, t))
    }
}

/// A card memory image held in one buffer: block `i` is bytes
/// `128 * i .. 128 * (i + 1)`.
impl CardBlocks for Vec<u8> {
    open spec fn spec_blocks(&self) -> Map<u8, Seq<u8>> {
        Map::new(
            |i: u8| (i as int + 1) * BLOCK_SIZE <= self@.len(),
            |i: u8| self@.subrange(i as int * BLOCK_SIZE, (i as int + 1) * BLOCK_SIZE),
        )
    }

    fn get_block(&mut self, index: u8) -> (r: Result<[u8; BLOCK_SIZE], Error>) {
        let base: usize = index as usize * BLOCK_SIZE;
        if self.len() < base || self.len() - base < BLOCK_SIZE {
            return Err(Error::DecoderError(DecoderError::InvalidReadoutDataLength));
        }
        let mut block: [u8; BLOCK_SIZE] = [0; BLOCK_SIZE];
        let mut j: usize = 0;
        while j < BLOCK_SIZE
            invariant
                j <= BLOCK_SIZE,
                base == index as int * BLOCK_SIZE,
                base + BLOCK_SIZE <= self@.len(),
                forall|i: int| 0 <= i < j ==> block@[i] == self@[base + i],
            decreases BLOCK_SIZE - j,
        {
            block[j] = self[base + j];
            j = j + 1;
        }
        proof {
            assert(block@ =~= self@.subrange(base as int, base + BLOCK_SIZE));
        }
        Ok(block)
    }
}

/// Two sources that agree on the blocks `first .. first + count` give the same
/// image of them.
pub proof fn lemma_image_agrees(a: Map<u8, Seq<u8>>, b: Map<u8, Seq<u8>>, first: int, count: nat)
    requires
        forall|i: int| first <= i < first + count ==> (block_present(a, i) <==> block_present(b, i)),
        forall|i: int|
            first <= i < first + count && block_present(a, i) ==> a[i as u8] == b[i as u8],
    ensures
        blocks_image(a, first, count) == blocks_image(b, first, count),
    decreases count,
{
    if count > 0 {
        lemma_image_agrees(a, b, first, (count - 1) as nat);
    }
}

} // verus!
