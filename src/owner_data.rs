use vstd::prelude::*;
use vstd::utf8::{decode_utf8, valid_utf8};

use crate::bytes::copy_range;
use crate::card::CardType;
use crate::card_blocks::{
    block_present, blocks_image, fetch_blocks, lemma_image_agrees, missing_block_error, CardBlocks,
    FromCardBlocks,
};
use crate::error::{DecoderError, Error};

verus! {

/// The card owner's data; only the names are required.
#[derive(Debug, Clone, PartialEq, Eq, PartialOrd, Ord)]
pub struct CardOwnerData {
    pub first_name: String,
    pub last_name: String,
    pub gender: Option<String>,
    pub birthday: Option<String>,
    pub club: Option<String>,
    pub email: Option<String>,
    pub phone: Option<String>,
    pub city: Option<String>,
    pub street: Option<String>,
    pub zip: Option<String>,
    pub country: Option<String>,
}

/// `CardOwnerData` with its texts as character sequences.
pub struct CardOwnerDataView {
    pub first_name: Seq<char>,
    pub last_name: Seq<char>,
    pub gender: Option<Seq<char>>,
    pub birthday: Option<Seq<char>>,
    pub club: Option<Seq<char>>,
    pub email: Option<Seq<char>>,
    pub phone: Option<Seq<char>>,
    pub city: Option<Seq<char>>,
    pub street: Option<Seq<char>>,
    pub zip: Option<Seq<char>>,
    pub country: Option<Seq<char>>,
}

pub open spec fn text_view(s: Option<String>) -> Option<Seq<char>> {
    match s {
        Some(t) => Some(t@),
        None => None,
    }
}

impl View for CardOwnerData {
    type V = CardOwnerDataView;

    open spec fn view(&self) -> CardOwnerDataView {
        CardOwnerDataView {
            first_name: self.first_name@,
            last_name: self.last_name@,
            gender: text_view(self.gender),
            birthday: text_view(self.birthday),
            club: text_view(self.club),
            email: text_view(self.email),
            phone: text_view(self.phone),
            city: text_view(self.city),
            street: text_view(self.street),
            zip: text_view(self.zip),
            country: text_view(self.country),
        }
    }
}

pub const SEPARATOR: u8 = 0x3B;

/// The position of the first separator at or after `i` (the length of `data`
/// if there is none).
pub open spec fn next_separator(data: Seq<u8>, i: int) -> int
    decreases data.len() - i,
{
    if i < 0 || i >= data.len() {
        i
    } else if data[i] == SEPARATOR {
        i
    } else {
        next_separator(data, i + 1)
    }
}

/// The first `n` separated fields of `data` from position `at`, the last of
/// them running to the end if no separator follows it; `None` if there are
/// fewer than `n`.
pub open spec fn split_fields(data: Seq<u8>, at: int, n: nat) -> Option<Seq<Seq<u8>>>
    decreases n,
{
    if n == 0 {
        Some(seq![])
    } else {
        let j = next_separator(data, at);
        if j < data.len() {
            match split_fields(data, j + 1, (n - 1) as nat) {
                Some(rest) => Some(seq![data.subrange(at, j)] + rest),
                None => None,
            }
        } else if n == 1 {
            Some(seq![data.subrange(at, data.len() as int)])
        } else {
            None
        }
    }
}

/// The texts of `fields`, if all of them are UTF-8.
pub open spec fn field_texts(fields: Seq<Seq<u8>>) -> Option<Seq<Seq<char>>> {
    if forall|i: int| 0 <= i < fields.len() ==> valid_utf8(#[trigger] fields[i]) {
        Some(fields.map_values(|f: Seq<u8>| decode_utf8(f)))
    } else {
        None
    }
}

/// The first `amount` fields of `data` as texts.
pub open spec fn owner_texts(data: Seq<u8>, amount: nat) -> Option<Seq<Seq<char>>> {
    match split_fields(data, 0, amount) {
        Some(fields) => field_texts(fields),
        None => None,
    }
}

/// Field `k` of `texts`, absent when it is missing or empty.
pub open spec fn optional_text(texts: Seq<Seq<char>>, k: int) -> Option<Seq<char>> {
    if k < texts.len() && texts[k].len() > 0 {
        Some(texts[k])
    } else {
        None
    }
}

/// The end of the owner region and its number of fields, by card type; the
/// region starts at byte 32 of blocks 0 and 1.
pub open spec fn owner_region(card_type: CardType) -> (int, nat) {
    match card_type {
        CardType::Si9 => (56, 2),
        CardType::Si8 => (136, 2),
        _ => (160, 11),
    }
}

/// What the owner data in `image` (blocks 0 and 1 of a card) decodes to.
pub open spec fn owner_spec(image: Seq<u8>, card_type: CardType) -> Result<CardOwnerDataView, DecoderError> {
    if image.len() < owner_region(card_type).0 {
        Err(DecoderError::InvalidReadoutDataLength)
    } else {
        owner_fields_spec(image, card_type)
    }
}

/// The owner data in an image that is long enough for its region.
pub open spec fn owner_fields_spec(image: Seq<u8>, card_type: CardType) -> Result<CardOwnerDataView, DecoderError> {
    match owner_texts(image.subrange(32, owner_region(card_type).0), owner_region(card_type).1) {
        None => Err(DecoderError::InvalidOwnerData),
        Some(t) => Ok(
            CardOwnerDataView {
                first_name: t[0],
                last_name: t[1],
                gender: optional_text(t, 2),
                birthday: optional_text(t, 3),
                club: optional_text(t, 4),
                email: optional_text(t, 5),
                phone: optional_text(t, 6),
                city: optional_text(t, 7),
                street: optional_text(t, 8),
                zip: optional_text(t, 9),
                country: optional_text(t, 10),
            },
        ),
    }
}

/// Relies on `std::str::from_utf8`, which accepts exactly the valid UTF-8 byte
/// strings; the text holds the characters that the bytes encode.
#[verifier::external_body]
fn utf8_text(bytes: &[u8]) -> (r: Option<String>)
    ensures
        r is Some <==> valid_utf8(bytes@),
        r matches Some(s) ==> s@ == decode_utf8(bytes@),
{
    match std::str::from_utf8(bytes) {
        Ok(s) => Some(s.to_string()),
        Err(_) => None,
    }
}

/// Splitting gives exactly the number of fields asked for.
pub proof fn lemma_split_length(data: Seq<u8>, at: int, n: nat)
    ensures
        split_fields(data, at, n) matches Some(f) ==> f.len() == n,
    decreases n,
{
    if n > 0 {
        lemma_split_length(data, next_separator(data, at) + 1, (n - 1) as nat);
    }
}

/// Splitting a prefix of the fields off the front.
proof fn lemma_split_step(data: Seq<u8>, at: int, n: nat)
    requires
        n > 0,
        next_separator(data, at) < data.len(),
    ensures
        match split_fields(data, next_separator(data, at) + 1, (n - 1) as nat) {
            Some(rest) => split_fields(data, at, n) == Some(seq![data.subrange(at, next_separator(data, at))] + rest),
            None => split_fields(data, at, n) is None,
        },
{
}

/// The position of the first separator at or after `from`.
fn find_separator(data: &[u8], from: usize) -> (r: usize)
    requires
        from <= data@.len(),
    ensures
        r == next_separator(data@, from as int),
        from <= r <= data@.len(),
{
    let mut j = from;
    while j < data.len() && data[j] != SEPARATOR
        invariant
            from <= j <= data@.len(),
            next_separator(data@, j as int) == next_separator(data@, from as int),
        decreases data@.len() - j,
    {
        j = j + 1;
    }
    j
}

impl CardOwnerData {
    /// The first `amount` `;`-separated fields of `data` as texts; fails with
    /// `InvalidOwnerData` when there are fewer or one is not UTF-8.
    pub fn parse_parts(amount: usize, data: &[u8]) -> (r: Result<Vec<String>, DecoderError>)
        ensures
            match owner_texts(data@, amount as nat) {
                Some(texts) => r matches Ok(v) && v@.len() == texts.len() && forall|i: int|
                    0 <= i < texts.len() ==> #[trigger] v@[i]@ == texts[i],
                None => r == Err::<Vec<String>, DecoderError>(DecoderError::InvalidOwnerData),
            },
    {
        let ghost whole = split_fields(data@, 0, amount as nat);
        let mut chunks: Vec<Vec<u8>> = Vec::new();
        let mut at: usize = 0;
        let mut k: usize = 0;
        while k < amount
            invariant
                k <= amount,
                at <= data@.len(),
                chunks@.len() == k,
                whole == split_fields(data@, 0, amount as nat),
                whole == match split_fields(data@, at as int, (amount - k) as nat) {
                    Some(rest) => Some(chunks@.map_values(|c: Vec<u8>| c@) + rest),
                    None => None::<Seq<Seq<u8>>>,
                },
            decreases amount - k,
        {
            let j = find_separator(data, at);
            if j < data.len() {
                let chunk = copy_range(data, at, j);
                proof {
                    lemma_split_step(data@, at as int, (amount - k) as nat);
                }
                let ghost before = chunks@;
                chunks.push(chunk);
                proof {
                    assert(chunks@.map_values(|c: Vec<u8>| c@) =~= before.map_values(|c: Vec<u8>| c@)
                        + seq![data@.subrange(at as int, j as int)]);
                    match split_fields(data@, j + 1, (amount - k - 1) as nat) {
                        Some(rest) => {
                            assert(before.map_values(|c: Vec<u8>| c@) + (seq![data@.subrange(at as int, j as int)] + rest)
                                =~= chunks@.map_values(|c: Vec<u8>| c@) + rest);
                        },
                        None => {},
                    }
                }
                at = j + 1;
            } else if k + 1 == amount {
                let chunk = copy_range(data, at, data.len());
                let ghost before = chunks@;
                chunks.push(chunk);
                proof {
                    assert(chunks@.map_values(|c: Vec<u8>| c@) + seq![] =~= before.map_values(|c: Vec<u8>| c@)
                        + seq![data@.subrange(at as int, data@.len() as int)]);
                }
                at = data.len();
            } else {
                return Err(DecoderError::InvalidOwnerData);
            }
            k = k + 1;
        }
        proof {
            assert(chunks@.map_values(|c: Vec<u8>| c@) + seq![] =~= chunks@.map_values(|c: Vec<u8>| c@));
        }
        let ghost fields = chunks@.map_values(|c: Vec<u8>| c@);
        let mut parts: Vec<String> = Vec::new();
        let mut i: usize = 0;
        while i < chunks.len()
            invariant
                i <= chunks@.len(),
                fields == chunks@.map_values(|c: Vec<u8>| c@),
                whole == Some(fields),
                whole == split_fields(data@, 0, amount as nat),
                parts@.len() == i,
                forall|m: int| 0 <= m < i ==> valid_utf8(#[trigger] fields[m]),
                forall|m: int| 0 <= m < i ==> #[trigger] parts@[m]@ == decode_utf8(fields[m]),
            decreases chunks@.len() - i,
        {
            match utf8_text(chunks[i].as_slice()) {
                Some(text) => {
                    parts.push(text);
                },
                None => {
                    assert(!valid_utf8(fields[i as int]));
                    assert(field_texts(fields) is None);
                    return Err(DecoderError::InvalidOwnerData);
                },
            }
            i = i + 1;
        }
        Ok(parts)
    }
}

/// The view of a list of texts.
pub open spec fn texts_view(parts: Seq<String>) -> Seq<Seq<char>> {
    parts.map_values(|s: String| s@)
}

/// Part `k` of `parts`, absent when it is missing or empty.
fn optional_part(parts: &Vec<String>, k: usize) -> (r: Option<String>)
    ensures
        text_view(r) == optional_text(texts_view(parts@), k as int),
{
    if k < parts.len() && !parts[k].as_str().is_empty() {
        Some(parts[k].clone())
    } else {
        None
    }
}

impl CardOwnerData {
    /// Decodes the owner data in `data`, the image of blocks 0 and 1.
    pub fn decode(data: &[u8], card_type: CardType) -> (r: Result<CardOwnerData, DecoderError>)
        ensures
            match owner_spec(data@, card_type) {
                Ok(v) => r matches Ok(x) && x@ == v,
                Err(e) => r == Err::<CardOwnerData, DecoderError>(e),
            },
    {
        let (end, amount): (usize, usize) = match card_type {
            CardType::Si9 => (56, 2),
            CardType::Si8 => (136, 2),
            CardType::PunchCard | CardType::Si10 | CardType::Si11 | CardType::Siac => (160, 11),
        };
        if data.len() < end {
            return Err(DecoderError::InvalidReadoutDataLength);
        }
        let region = copy_range(data, 32, end);
        let parts = match CardOwnerData::parse_parts(amount, region.as_slice()) {
            Ok(p) => p,
            Err(e) => return Err(e),
        };
        let ghost texts = owner_texts(region@, amount as nat)->Some_0;
        proof {
            lemma_split_length(region@, 0, amount as nat);
            assert(texts_view(parts@) =~= texts);
        }
        let first_name = parts[0].clone();
        let last_name = parts[1].clone();
        Ok(CardOwnerData {
            first_name,
            last_name,
            gender: optional_part(&parts, 2),
            birthday: optional_part(&parts, 3),
            club: optional_part(&parts, 4),
            email: optional_part(&parts, 5),
            phone: optional_part(&parts, 6),
            city: optional_part(&parts, 7),
            street: optional_part(&parts, 8),
            zip: optional_part(&parts, 9),
            country: optional_part(&parts, 10),
        })
    }
}

/// The image of blocks 0 and 1, if the source holds them.
pub open spec fn owner_image(blocks: Map<u8, Seq<u8>>) -> Option<Seq<u8>> {
    blocks_image(blocks, 0, 2)
}

impl FromCardBlocks for CardOwnerData {
    open spec fn spec_outcome(blocks: Map<u8, Seq<u8>>, card_type: CardType) -> Result<(), Error> {
        match owner_image(blocks) {
            None => Err(missing_block_error()),
            Some(image) => match owner_spec(image, card_type) {
                Ok(_) => Ok(()),
                Err(e) => Err(Error::DecoderError(e)),
            },
        }
    }

    open spec fn spec_assembled(blocks: Map<u8, Seq<u8>>, card_type: CardType, v: CardOwnerData) -> bool {
        &&& owner_image(blocks) matches Some(image)
        &&& owner_spec(image, card_type) == Ok::<CardOwnerDataView, DecoderError>(v@)
    }

    open spec fn spec_block_indices(card_type: CardType) -> Seq<u8> {
        seq![0, 1]
    }

    fn block_indices(card_type: CardType) -> (r: Vec<u8>) {
        let mut r: Vec<u8> = Vec::new();
        r.push(0);
        r.push(1);
        proof {
            assert(r@ =~= seq![0u8, 1u8]);
        }
        r
    }

    /// Reads blocks 0 and 1 and decodes the owner data in them.
    fn from_card_blocks<B: CardBlocks>(blocks: &mut B, card_type: CardType) -> (r: Result<CardOwnerData, Error>) {
        let image = match fetch_blocks(blocks, 0, 2) {
            Ok(image) => image,
            Err(e) => return Err(e),
        };
        match CardOwnerData::decode(image.as_slice(), card_type) {
            Ok(owner) => Ok(owner),
            Err(e) => Err(Error::DecoderError(e)),
        }
    }
}

/// Owner data depends on nothing but blocks 0 and 1: two block sources that
/// agree on them give the same outcome and the same owner data.
pub proof fn lemma_owner_data_deterministic(
    a: Map<u8, Seq<u8>>,
    b: Map<u8, Seq<u8>>,
    card_type: CardType,
    v: CardOwnerData,
)
    requires
        forall|i: int| 0 <= i < 2 ==> (block_present(a, i) <==> block_present(b, i)),
        forall|i: int| 0 <= i < 2 && block_present(a, i) ==> a[i as u8] == b[i as u8],
    ensures
        <CardOwnerData as FromCardBlocks>::spec_outcome(a, card_type)
            == <CardOwnerData as FromCardBlocks>::spec_outcome(b, card_type),
        <CardOwnerData as FromCardBlocks>::spec_assembled(a, card_type, v)
            == <CardOwnerData as FromCardBlocks>::spec_assembled(b, card_type, v),
{
    lemma_image_agrees(a, b, 0, 2);
}

} // verus!
