use vstd::prelude::*;

verus! {

/// The byte at `i`, or zero past the end of `s`.
pub open spec fn padded_byte(s: Seq<u8>, i: int) -> u8 {
    if 0 <= i < s.len() {
        s[i]
    } else {
        0
    }
}

/// The `k`-th big-endian 16-bit word of `s`, zero-padded at the end.
pub open spec fn padded_word(s: Seq<u8>, k: int) -> u16 {
    (padded_byte(s, 2 * k) as int * 256 + padded_byte(s, 2 * k + 1) as int) as u16
}

/// One of the sixteen shifts of a word: the register moves left, takes the top
/// bit of `val` as its new low bit, and is reduced by the feedback word when its
/// own top bit fell out.
pub open spec fn crc_shift(reg: u16, val: u16) -> u16 {
    let shifted: u16 = reg << 1u16;
    let fed: u16 = if val & 0x8000u16 != 0 {
        shifted.wrapping_add(1)
    } else {
        shifted
    };
    if reg & 0x8000u16 != 0 {
        fed ^ 0x8005u16
    } else {
        fed
    }
}

/// The register after `bits` shifts that feed in `val` from its top bit down.
pub open spec fn crc_word(reg: u16, val: u16, bits: nat) -> u16
    decreases bits,
{
    if bits == 0 {
        reg
    } else {
        crc_word(crc_shift(reg, val), val << 1u16, (bits - 1) as nat)
    }
}

/// The register after feeding in the words `k .. words` of `s`.
pub open spec fn crc_fold(s: Seq<u8>, reg: u16, k: int, words: int) -> u16
    decreases words - k,
{
    if k >= words {
        reg
    } else {
        crc_fold(s, crc_word(reg, padded_word(s, k), 16), k + 1, words)
    }
}

/// The station's checksum of `s`. Fewer than two bytes give zero, two bytes
/// give themselves read big-endian; otherwise the register starts as the first
/// word and takes in the words `1 ..= len / 2`, the last of them zero-padded.
pub open spec fn crc_spec(s: Seq<u8>) -> u16 {
    if s.len() < 2 {
        0
    } else if s.len() == 2 {
        padded_word(s, 0)
    } else {
        crc_fold(s, padded_word(s, 0), 1, (s.len() / 2 + 1) as int)
    }
}

fn word_at(buf: &[u8], k: usize) -> (r: u16)
    requires
        k <= buf@.len() / 2,
    ensures
        r == padded_word(buf@, k as int),
{
    let n = buf.len();
    let i = 2 * k;
    let hi: u8 = if i < n {
        buf[i]
    } else {
        0
    };
    let lo: u8 = if i < n && i + 1 < n {
        buf[i + 1]
    } else {
        0
    };
    (hi as u16) * 256 + (lo as u16)
}

fn shift_word(reg: u16, val: u16) -> (r: u16)
    ensures
        r == crc_word(reg, val, 16),
{
    let mut cur = reg;
    let mut v = val;
    let mut i: u32 = 0;
    while i < 16
        invariant
            i <= 16,
            crc_word(cur, v, (16 - i) as nat) == crc_word(reg, val, 16),
        decreases 16 - i,
    {
        let shifted: u16 = cur << 1u16;
        let fed: u16 = if v & 0x8000u16 != 0 {
            shifted.wrapping_add(1)
        } else {
            shifted
        };
        cur = if cur & 0x8000u16 != 0 {
            fed ^ 0x8005u16
        } else {
            fed
        };
        v = v << 1u16;
        i = i + 1;
    }
    cur
}

/// The checksum that frames carry: `crc_spec` of the bytes.
pub fn crc(buf: &[u8]) -> (r: u16)
    ensures
        r == crc_spec(buf@),
{
    let n = buf.len();
    if n < 2 {
        return 0;
    }
    let mut reg = word_at(buf, 0);
    if n == 2 {
        return reg;
    }
    let words = n / 2 + 1;
    let mut k: usize = 1;
    while k < words
        invariant
            n == buf@.len(),
            n > 2,
            words == n / 2 + 1,
            1 <= k <= words,
            crc_fold(buf@, reg, k as int, words as int) == crc_spec(buf@),
        decreases words - k,
    {
        let val = word_at(buf, k);
        reg = shift_word(reg, val);
        k = k + 1;
    }
    reg
}

} // verus!
