//! Single-length block cipher used by the legacy RFB challenge-response
//! authentication scheme.
//!
//! The key schedule reads the key bits most-significant-bit first within each
//! byte (the reverse of the textbook convention); this exact bit order is what
//! the authentication scheme defines, and reproducing it is the central
//! correctness requirement of this module.

use vstd::prelude::*;

verus! {

/// Key bit masks, most significant bit of each byte first.
pub const BYTEBIT: [u8; 8] = [0o1, 0o2, 0o4, 0o10, 0o20, 0o40, 0o100, 0o200];

pub const BIGBYTE: [u32; 24] = [
    0x800000, 0x400000, 0x200000, 0x100000, 0x80000, 0x40000, 0x20000, 0x10000, 0x8000, 0x4000,
    0x2000, 0x1000, 0x800, 0x400, 0x200, 0x100, 0x80, 0x40, 0x20, 0x10, 0x8, 0x4, 0x2, 0x1,
];

/// Key-bit selection permutation of the key schedule.
pub const PC1: [usize; 56] = [
    56, 48, 40, 32, 24, 16, 8, 0, 57, 49, 41, 33, 25, 17, 9, 1, 58, 50, 42, 34, 26, 18, 10, 2, 59,
    51, 43, 35, 62, 54, 46, 38, 30, 22, 14, 6, 61, 53, 45, 37, 29, 21, 13, 5, 60, 52, 44, 36, 28,
    20, 12, 4, 27, 19, 11, 3,
];

/// Cumulative left-rotation amounts of the two 28-bit key halves, per round.
pub const TOTROT: [u32; 16] = [1, 2, 4, 6, 8, 10, 12, 14, 15, 17, 19, 21, 23, 25, 27, 28];

/// Compression permutation from the rotated 56-bit key to a 48-bit round key.
pub const PC2: [usize; 48] = [
    13, 16, 10, 23, 0, 4, 2, 27, 14, 5, 20, 9, 22, 18, 11, 3, 25, 7, 15, 6, 26, 19, 12, 1, 40, 51,
    30, 36, 46, 54, 29, 39, 50, 44, 32, 47, 43, 48, 38, 55, 33, 52, 45, 41, 49, 35, 28, 31,
];

pub const SP1: [u32; 64] = [
    0x01010400, 0x00000000, 0x00010000, 0x01010404, 0x01010004, 0x00010404, 0x00000004, 0x00010000,
    0x00000400, 0x01010400, 0x01010404, 0x00000400, 0x01000404, 0x01010004, 0x01000000, 0x00000004,
    0x00000404, 0x01000400, 0x01000400, 0x00010400, 0x00010400, 0x01010000, 0x01010000, 0x01000404,
    0x00010004, 0x01000004, 0x01000004, 0x00010004, 0x00000000, 0x00000404, 0x00010404, 0x01000000,
    0x00010000, 0x01010404, 0x00000004, 0x01010000, 0x01010400, 0x01000000, 0x01000000, 0x00000400,
    0x01010004, 0x00010000, 0x00010400, 0x01000004, 0x00000400, 0x00000004, 0x01000404, 0x00010404,
    0x01010404, 0x00010004, 0x01010000, 0x01000404, 0x01000004, 0x00000404, 0x00010404, 0x01010400,
    0x00000404, 0x01000400, 0x01000400, 0x00000000, 0x00010004, 0x00010400, 0x00000000, 0x01010004,
];

pub const SP2: [u32; 64] = [
    0x80108020, 0x80008000, 0x00008000, 0x00108020, 0x00100000, 0x00000020, 0x80100020, 0x80008020,
    0x80000020, 0x80108020, 0x80108000, 0x80000000, 0x80008000, 0x00100000, 0x00000020, 0x80100020,
    0x00108000, 0x00100020, 0x80008020, 0x00000000, 0x80000000, 0x00008000, 0x00108020, 0x80100000,
    0x00100020, 0x80000020, 0x00000000, 0x00108000, 0x00008020, 0x80108000, 0x80100000, 0x00008020,
    0x00000000, 0x00108020, 0x80100020, 0x00100000, 0x80008020, 0x80100000, 0x80108000, 0x00008000,
    0x80100000, 0x80008000, 0x00000020, 0x80108020, 0x00108020, 0x00000020, 0x00008000, 0x80000000,
    0x00008020, 0x80108000, 0x00100000, 0x80000020, 0x00100020, 0x80008020, 0x80000020, 0x00100020,
    0x00108000, 0x00000000, 0x80008000, 0x00008020, 0x80000000, 0x80100020, 0x80108020, 0x00108000,
];

pub const SP3: [u32; 64] = [
    0x00000208, 0x08020200, 0x00000000, 0x08020008, 0x08000200, 0x00000000, 0x00020208, 0x08000200,
    0x00020008, 0x08000008, 0x08000008, 0x00020000, 0x08020208, 0x00020008, 0x08020000, 0x00000208,
    0x08000000, 0x00000008, 0x08020200, 0x00000200, 0x00020200, 0x08020000, 0x08020008, 0x00020208,
    0x08000208, 0x00020200, 0x00020000, 0x08000208, 0x00000008, 0x08020208, 0x00000200, 0x08000000,
    0x08020200, 0x08000000, 0x00020008, 0x00000208, 0x00020000, 0x08020200, 0x08000200, 0x00000000,
    0x00000200, 0x00020008, 0x08020208, 0x08000200, 0x08000008, 0x00000200, 0x00000000, 0x08020008,
    0x08000208, 0x00020000, 0x08000000, 0x08020208, 0x00000008, 0x00020208, 0x00020200, 0x08000008,
    0x08020000, 0x08000208, 0x00000208, 0x08020000, 0x00020208, 0x00000008, 0x08020008, 0x00020200,
];

pub const SP4: [u32; 64] = [
    0x00802001, 0x00002081, 0x00002081, 0x00000080, 0x00802080, 0x00800081, 0x00800001, 0x00002001,
    0x00000000, 0x00802000, 0x00802000, 0x00802081, 0x00000081, 0x00000000, 0x00800080, 0x00800001,
    0x00000001, 0x00002000, 0x00800000, 0x00802001, 0x00000080, 0x00800000, 0x00002001, 0x00002080,
    0x00800081, 0x00000001, 0x00002080, 0x00800080, 0x00002000, 0x00802080, 0x00802081, 0x00000081,
    0x00800080, 0x00800001, 0x00802000, 0x00802081, 0x00000081, 0x00000000, 0x00000000, 0x00802000,
    0x00002080, 0x00800080, 0x00800081, 0x00000001, 0x00802001, 0x00002081, 0x00002081, 0x00000080,
    0x00802081, 0x00000081, 0x00000001, 0x00002000, 0x00800001, 0x00002001, 0x00802080, 0x00800081,
    0x00002001, 0x00002080, 0x00800000, 0x00802001, 0x00000080, 0x00800000, 0x00002000, 0x00802080,
];

pub const SP5: [u32; 64] = [
    0x00000100, 0x02080100, 0x02080000, 0x42000100, 0x00080000, 0x00000100, 0x40000000, 0x02080000,
    0x40080100, 0x00080000, 0x02000100, 0x40080100, 0x42000100, 0x42080000, 0x00080100, 0x40000000,
    0x02000000, 0x40080000, 0x40080000, 0x00000000, 0x40000100, 0x42080100, 0x42080100, 0x02000100,
    0x42080000, 0x40000100, 0x00000000, 0x42000000, 0x02080100, 0x02000000, 0x42000000, 0x00080100,
    0x00080000, 0x42000100, 0x00000100, 0x02000000, 0x40000000, 0x02080000, 0x42000100, 0x40080100,
    0x02000100, 0x40000000, 0x42080000, 0x02080100, 0x40080100, 0x00000100, 0x02000000, 0x42080000,
    0x42080100, 0x00080100, 0x42000000, 0x42080100, 0x02080000, 0x00000000, 0x40080000, 0x42000000,
    0x00080100, 0x02000100, 0x40000100, 0x00080000, 0x00000000, 0x40080000, 0x02080100, 0x40000100,
];

pub const SP6: [u32; 64] = [
    0x20000010, 0x20400000, 0x00004000, 0x20404010, 0x20400000, 0x00000010, 0x20404010, 0x00400000,
    0x20004000, 0x00404010, 0x00400000, 0x20000010, 0x00400010, 0x20004000, 0x20000000, 0x00004010,
    0x00000000, 0x00400010, 0x20004010, 0x00004000, 0x00404000, 0x20004010, 0x00000010, 0x20400010,
    0x20400010, 0x00000000, 0x00404010, 0x20404000, 0x00004010, 0x00404000, 0x20404000, 0x20000000,
    0x20004000, 0x00000010, 0x20400010, 0x00404000, 0x20404010, 0x00400000, 0x00004010, 0x20000010,
    0x00400000, 0x20004000, 0x20000000, 0x00004010, 0x20000010, 0x20404010, 0x00404000, 0x20400000,
    0x00404010, 0x20404000, 0x00000000, 0x20400010, 0x00000010, 0x00004000, 0x20400000, 0x00404010,
    0x00004000, 0x00400010, 0x20004010, 0x00000000, 0x20404000, 0x20000000, 0x00400010, 0x20004010,
];

pub const SP7: [u32; 64] = [
    0x00200000, 0x04200002, 0x04000802, 0x00000000, 0x00000800, 0x04000802, 0x00200802, 0x04200800,
    0x04200802, 0x00200000, 0x00000000, 0x04000002, 0x00000002, 0x04000000, 0x04200002, 0x00000802,
    0x04000800, 0x00200802, 0x00200002, 0x04000800, 0x04000002, 0x04200000, 0x04200800, 0x00200002,
    0x04200000, 0x00000800, 0x00000802, 0x04200802, 0x00200800, 0x00000002, 0x04000000, 0x00200800,
    0x04000000, 0x00200800, 0x00200000, 0x04000802, 0x04000802, 0x04200002, 0x04200002, 0x00000002,
    0x00200002, 0x04000000, 0x04000800, 0x00200000, 0x04200800, 0x00000802, 0x00200802, 0x04200800,
    0x00000802, 0x04000002, 0x04200802, 0x04200000, 0x00200800, 0x00000000, 0x00000002, 0x04200802,
    0x00000000, 0x00200802, 0x04200000, 0x00000800, 0x04000002, 0x04000800, 0x00000800, 0x00200002,
];

pub const SP8: [u32; 64] = [
    0x10001040, 0x00001000, 0x00040000, 0x10041040, 0x10000000, 0x10001040, 0x00000040, 0x10000000,
    0x00040040, 0x10040000, 0x10041040, 0x00041000, 0x10041000, 0x00041040, 0x00001000, 0x00000040,
    0x10040000, 0x10000040, 0x10001000, 0x00001040, 0x00041000, 0x00040040, 0x10040040, 0x10041000,
    0x00001040, 0x00000000, 0x00000000, 0x10040040, 0x10000040, 0x10001000, 0x00041040, 0x00040000,
    0x00041040, 0x00040000, 0x10041000, 0x00001000, 0x00000040, 0x10040040, 0x00001000, 0x00041040,
    0x10001000, 0x00000040, 0x10000040, 0x10040000, 0x10040040, 0x10000000, 0x00040000, 0x10001040,
    0x00000000, 0x10041040, 0x00040040, 0x10000040, 0x10040000, 0x10001000, 0x10001040, 0x00000000,
    0x10041040, 0x00041000, 0x00041000, 0x00001040, 0x00001040, 0x00040040, 0x10000000, 0x10041000,
];

/// Whether the key schedule is generated in encrypting or decrypting order.
/// The round function itself is direction-agnostic; the direction only
/// reverses the order in which the round keys are laid out.
#[derive(Clone, Copy, PartialEq, Eq, Structural, Debug)]
pub enum Direction {
    Encrypt,
    Decrypt,
}

/// The cipher engine: 32 round-key words derived once from an 8-byte secret.
pub struct Des {
    generated_key: [u32; 32],
}

/// One 32-bit word packed from four bytes, most significant byte first.
pub open spec fn spec_word_be(b: Seq<u8>, i: int) -> u32 {
    ((b[i] as u32) << 24) | ((b[i + 1] as u32) << 16) | ((b[i + 2] as u32) << 8) | (b[i + 3] as u32)
}

/// An 8-byte block packed into two big-endian 32-bit words.
pub open spec fn spec_scrunch(b: Seq<u8>) -> Seq<u32> {
    seq![spec_word_be(b, 0), spec_word_be(b, 4)]
}

/// One byte extracted from a word; `sh` is the right-shift amount.
pub open spec fn spec_byte_of_word(w: u32, sh: u32) -> u8 {
    ((w >> sh) & 0xFF) as u8
}

/// Two 32-bit words unpacked back into 8 bytes, most significant byte first.
pub open spec fn spec_unscrunch(w: Seq<u32>) -> Seq<u8> {
    seq![
        spec_byte_of_word(w[0], 24),
        spec_byte_of_word(w[0], 16),
        spec_byte_of_word(w[0], 8),
        spec_byte_of_word(w[0], 0),
        spec_byte_of_word(w[1], 24),
        spec_byte_of_word(w[1], 16),
        spec_byte_of_word(w[1], 8),
        spec_byte_of_word(w[1], 0),
    ]
}

pub broadcast proof fn lemma_mask_ff_bound(x: u32)
    ensures
        #[trigger] (x & 0xFF) < 256,
{
    assert((x & 0xFF) < 256) by (bit_vector);
}

pub broadcast proof fn lemma_mask_3f_bound(x: u32)
    ensures
        #[trigger] (x & 0x3f) < 64,
{
    assert((x & 0x3f) < 64) by (bit_vector);
}

proof fn lemma_word_be_bytes(x0: u8, x1: u8, x2: u8, x3: u8)
    ensures
        ({
            let w = ((x0 as u32) << 24) | ((x1 as u32) << 16) | ((x2 as u32) << 8) | (x3 as u32);
            &&& ((w >> 24) & 0xFF) as u8 == x0
            &&& ((w >> 16) & 0xFF) as u8 == x1
            &&& ((w >> 8) & 0xFF) as u8 == x2
            &&& ((w >> 0) & 0xFF) as u8 == x3
        }),
{
    assert(({
        let w = ((x0 as u32) << 24) | ((x1 as u32) << 16) | ((x2 as u32) << 8) | (x3 as u32);
        &&& ((w >> 24) & 0xFF) as u8 == x0
        &&& ((w >> 16) & 0xFF) as u8 == x1
        &&& ((w >> 8) & 0xFF) as u8 == x2
        &&& ((w >> 0) & 0xFF) as u8 == x3
    })) by (bit_vector);
}

/// Unpacking the two words produced by packing an 8-byte block returns the
/// block unchanged.
pub proof fn lemma_unscrunch_scrunch(b: Seq<u8>)
    requires
        b.len() == 8,
    ensures
        spec_unscrunch(spec_scrunch(b)) =~= b,
{
    lemma_word_be_bytes(b[0], b[1], b[2], b[3]);
    lemma_word_be_bytes(b[4], b[5], b[6], b[7]);
}

/// The initial permutation of a block, expressed as the exchange-and-xor
/// sequence the round loop starts from. Returns the mixed (left, right) pair.
pub open spec fn spec_ip(b0: u32, b1: u32) -> (u32, u32) {
    let leftt = b0;
    let right = b1;
    let work = ((leftt >> 4) ^ right) & 0x0f0f0f0f;
    let right = right ^ work;
    let leftt = leftt ^ (work << 4);
    let work = ((leftt >> 16) ^ right) & 0x0000ffff;
    let right = right ^ work;
    let leftt = leftt ^ (work << 16);
    let work = ((right >> 2) ^ leftt) & 0x33333333;
    let leftt = leftt ^ work;
    let right = right ^ (work << 2);
    let work = ((right >> 8) ^ leftt) & 0x00ff00ff;
    let leftt = leftt ^ work;
    let right = right ^ (work << 8);
    let right = ((right << 1) | ((right >> 31) & 1)) & 0xffffffff;
    let work = (leftt ^ right) & 0xaaaaaaaa;
    let leftt = leftt ^ work;
    let right = right ^ work;
    let leftt = ((leftt << 1) | ((leftt >> 31) & 1)) & 0xffffffff;
    (leftt, right)
}

/// The combined substitution output of one Feistel round, keyed by the two
/// subkey words `ka` (rotated input) and `kb` (direct input).
pub open spec fn spec_f(h: u32, ka: u32, kb: u32) -> u32 {
    let w = ((h << 28) | (h >> 4)) ^ ka;
    let f1 = SP7[(w & 0x3f) as int];
    let f2 = f1 | SP5[((w >> 8) & 0x3f) as int];
    let f3 = f2 | SP3[((w >> 16) & 0x3f) as int];
    let f4 = f3 | SP1[((w >> 24) & 0x3f) as int];
    let w2 = h ^ kb;
    let f5 = f4 | SP8[(w2 & 0x3f) as int];
    let f6 = f5 | SP6[((w2 >> 8) & 0x3f) as int];
    let f7 = f6 | SP4[((w2 >> 16) & 0x3f) as int];
    f7 | SP2[((w2 >> 24) & 0x3f) as int]
}

/// Two consecutive Feistel rounds: the left half absorbs the round function
/// of the right half, then the right half absorbs that of the new left half.
pub open spec fn spec_two_rounds(l: u32, r: u32, k0: u32, k1: u32, k2: u32, k3: u32) -> (u32, u32) {
    let l2 = l ^ spec_f(r, k0, k1);
    let r2 = r ^ spec_f(l2, k2, k3);
    (l2, r2)
}

/// The block state after `n` double-rounds, consuming four subkey words each.
pub open spec fn spec_rounds(l: u32, r: u32, keys: Seq<u32>, n: nat) -> (u32, u32)
    decreases n,
{
    if n == 0 {
        (l, r)
    } else {
        let prev = spec_rounds(l, r, keys, (n - 1) as nat);
        let i = (n - 1) as int;
        spec_two_rounds(prev.0, prev.1, keys[4 * i], keys[4 * i + 1], keys[4 * i + 2], keys[4 * i + 3])
    }
}

/// The final permutation: the inverse of `spec_ip`, with the halves swapped
/// back. Returns the two output words in wire order.
pub open spec fn spec_fp(l: u32, r: u32) -> Seq<u32> {
    let leftt = l;
    let right = r;
    let right = (right << 31) | (right >> 1);
    let work = (leftt ^ right) & 0xaaaaaaaa;
    let leftt = leftt ^ work;
    let right = right ^ work;
    let leftt = (leftt << 31) | (leftt >> 1);
    let work = ((leftt >> 8) ^ right) & 0x00ff00ff;
    let right = right ^ work;
    let leftt = leftt ^ (work << 8);
    let work = ((leftt >> 2) ^ right) & 0x33333333;
    let right = right ^ work;
    let leftt = leftt ^ (work << 2);
    let work = ((right >> 16) ^ leftt) & 0x0000ffff;
    let leftt = leftt ^ work;
    let right = right ^ (work << 16);
    let work = ((right >> 4) ^ leftt) & 0x0f0f0f0f;
    let leftt = leftt ^ work;
    let right = right ^ (work << 4);
    seq![right, leftt]
}

/// The whole word-level block transform: initial permutation, 16 Feistel
/// rounds (8 double-rounds), final permutation.
pub open spec fn spec_desfn(keys: Seq<u32>, block: Seq<u32>) -> Seq<u32> {
    let ip = spec_ip(block[0], block[1]);
    let rounds = spec_rounds(ip.0, ip.1, keys, 8);
    spec_fp(rounds.0, rounds.1)
}

/// One 8-byte block transformed under a key schedule: pack, transform, unpack.
pub open spec fn spec_encrypt_block(keys: Seq<u32>, block: Seq<u8>) -> Seq<u8> {
    spec_unscrunch(spec_desfn(keys, spec_scrunch(block)))
}

/// One selected key bit: bit `PC1[j]` of the key, counting bits within each
/// byte from the most significant down — the deliberate inversion of the
/// textbook convention that the authentication scheme requires.
pub open spec fn spec_pc1m(key: Seq<u8>) -> Seq<u8> {
    Seq::new(56, |j: int| {
        let l = PC1[j] as int;
        if key[l / 8] & BYTEBIT[l % 8] != 0 {
            1u8
        } else {
            0u8
        }
    })
}

/// The 56 selected key bits after the cumulative rotation of round `i`,
/// applied separately to each 28-bit half.
pub open spec fn spec_pcr(pc1m: Seq<u8>, i: int) -> Seq<u8> {
    Seq::new(56, |j: int| {
        let l = j + TOTROT[i];
        if j < 28 {
            if l < 28 {
                pc1m[l]
            } else {
                pc1m[l - 28]
            }
        } else {
            if l < 56 {
                pc1m[l]
            } else {
                pc1m[l - 28]
            }
        }
    })
}

/// One 24-bit half of a round key: the first `count` of 24 compressed key
/// bits, selected through `PC2` starting at `off` and accumulated through
/// `BIGBYTE`.
pub open spec fn spec_kn_word(pcr: Seq<u8>, off: int, count: nat) -> u32
    decreases count,
{
    if count == 0 {
        0u32
    } else {
        let prev = spec_kn_word(pcr, off, (count - 1) as nat);
        let j = (count - 1) as int;
        if pcr[PC2[off + j] as int] != 0 {
            prev | BIGBYTE[j]
        } else {
            prev
        }
    }
}

/// Which rotation round the raw key word `k` belongs to. Decrypting reverses
/// the round order here, at schedule-generation time; the round function
/// itself never looks at the direction.
pub open spec fn spec_round_index(k: int, direction: Direction) -> int {
    if direction is Decrypt {
        15 - k / 2
    } else {
        k / 2
    }
}

/// The 32 raw round-key words (16 rounds of two 24-bit halves).
pub open spec fn spec_raw_key(key: Seq<u8>, direction: Direction) -> Seq<u32> {
    let pc1m = spec_pc1m(key);
    Seq::new(32, |k: int| {
        let off = if k % 2 == 0 { 0 } else { 24 };
        spec_kn_word(spec_pcr(pc1m, spec_round_index(k, direction)), off, 24)
    })
}

/// One raw round-key pair repacked into the word layout the round function
/// consumes directly.
pub open spec fn spec_cooked_word(raw: Seq<u32>, c: int) -> u32 {
    let r0 = raw[2 * (c / 2)];
    let r1 = raw[2 * (c / 2) + 1];
    if c % 2 == 0 {
        ((((r0 & 0x00fc0000) << 6) | ((r0 & 0x00000fc0) << 10)) | ((r1 & 0x00fc0000) >> 10)) | ((r1
            & 0x00000fc0) >> 6)
    } else {
        ((((r0 & 0x0003f000) << 12) | ((r0 & 0x0000003f) << 16)) | ((r1 & 0x0003f000) >> 4)) | (r1
            & 0x0000003f)
    }
}

/// The raw schedule repacked for the round function.
pub open spec fn spec_cookey(raw: Seq<u32>) -> Seq<u32> {
    Seq::new(32, |c: int| spec_cooked_word(raw, c))
}

/// The complete key schedule: 32 words derived from the first 8 key bytes
/// and the direction.
pub open spec fn spec_key_schedule(key: Seq<u8>, direction: Direction) -> Seq<u32> {
    spec_cookey(spec_raw_key(key, direction))
}

proof fn lemma_table_bounds()
    ensures
        forall|j: int| 0 <= j < 56 ==> #[trigger] PC1[j] < 64,
        forall|j: int| 0 <= j < 48 ==> #[trigger] PC2[j] < 56,
        forall|j: int| 0 <= j < 16 ==> 1 <= #[trigger] TOTROT[j] <= 28,
{
}

impl Des {
    /// The 32 round-key words this engine was built with.
    pub closed spec fn schedule(&self) -> Seq<u32> {
        self.generated_key@
    }

    /// Build an engine from the first 8 bytes of `key`, laying the round keys
    /// out in encrypting or decrypting order.
    pub fn new(key: &[u8], direction: Direction) -> (des: Des)
        requires
            key@.len() >= 8,
        ensures
            des.schedule() =~= spec_key_schedule(key@, direction),
    {
        Des { generated_key: Self::deskey(key, direction) }
    }

    /// The round-key words, in the order the round function consumes them.
    pub fn generated_key(&self) -> (r: [u32; 32])
        ensures
            r@ == self.schedule(),
    {
        self.generated_key
    }

    /// Derive the 32 round-key words from the first 8 key bytes.
    #[verifier::loop_isolation(false)]
    #[verifier::rlimit(60)]
    pub fn deskey(key: &[u8], direction: Direction) -> (r: [u32; 32])
        requires
            key@.len() >= 8,
        ensures
            r@ =~= spec_key_schedule(key@, direction),
    {
        proof {
            lemma_table_bounds();
        }
        let mut pc1m = [0u8; 56];
        let mut pcr = [0u8; 56];
        let mut kn = [0u32; 32];

        for j in 0..56usize
            invariant
                forall|t: int| 0 <= t < j ==> pc1m@[t] == spec_pc1m(key@)[t],
        {
            let l = PC1[j];
            pc1m[j] = if key[l / 8] & BYTEBIT[l % 8] != 0 {
                1
            } else {
                0
            };
        }
        assert(pc1m@ =~= spec_pc1m(key@));

        for i in 0..16usize
            invariant
                pc1m@ == spec_pc1m(key@),
                forall|k: int|
                    0 <= k < 32 && spec_round_index(k, direction) < i ==> kn@[k] == spec_raw_key(
                        key@,
                        direction,
                    )[k],
        {
            let m: usize = if direction == Direction::Decrypt {
                (15 - i) * 2
            } else {
                i * 2
            };
            let n = m + 1;
            assert(spec_round_index(m as int, direction) == i);
            assert(spec_round_index(n as int, direction) == i);
            kn[m] = 0;
            kn[n] = 0;

            for j in 0..28usize
                invariant
                    forall|t: int| 0 <= t < j ==> pcr@[t] == spec_pcr(pc1m@, i as int)[t],
            {
                let l = j + TOTROT[i] as usize;
                pcr[j] = if l < 28 {
                    pc1m[l]
                } else {
                    pc1m[l - 28]
                };
            }
            for j in 28..56usize
                invariant
                    forall|t: int| 0 <= t < j ==> pcr@[t] == spec_pcr(pc1m@, i as int)[t],
            {
                let l = j + TOTROT[i] as usize;
                pcr[j] = if l < 56 {
                    pc1m[l]
                } else {
                    pc1m[l - 28]
                };
            }
            assert(pcr@ =~= spec_pcr(pc1m@, i as int));

            let ghost kn_entry = kn@;
            for j in 0..24usize
                invariant
                    kn@[m as int] == spec_kn_word(pcr@, 0, j as nat),
                    kn@[n as int] == spec_kn_word(pcr@, 24, j as nat),
                    forall|t: int| 0 <= t < 32 && t != m && t != n ==> kn@[t] == kn_entry[t],
            {
                if pcr[PC2[j]] != 0 {
                    kn[m] = kn[m] | BIGBYTE[j];
                }
                if pcr[PC2[j + 24]] != 0 {
                    kn[n] = kn[n] | BIGBYTE[j];
                }
            }
            assert(kn@[m as int] == spec_raw_key(key@, direction)[m as int]);
            assert(kn@[n as int] == spec_raw_key(key@, direction)[n as int]);
            assert forall|k: int|
                0 <= k < 32 && spec_round_index(k, direction) < i + 1 implies kn@[k]
                == spec_raw_key(key@, direction)[k] by {
                if spec_round_index(k, direction) == i {
                    assert(k == 2 * (k / 2) + k % 2);
                    assert(k == m || k == n);
                } else {
                    assert(kn@[k] == kn_entry[k]);
                    assert(kn_entry[k] == spec_raw_key(key@, direction)[k]);
                }
            }
        }
        assert(kn@ =~= spec_raw_key(key@, direction)) by {
            assert(forall|k: int|
                0 <= k < 32 ==> spec_round_index(k, direction) < 16 && kn@[k] == spec_raw_key(
                    key@,
                    direction,
                )[k]);
        }
        Self::cookey(kn)
    }

    /// Repack the raw round-key pairs into the layout the round function
    /// consumes directly.
    #[verifier::loop_isolation(false)]
    pub fn cookey(raw1: [u32; 32]) -> (dough: [u32; 32])
        ensures
            dough@ =~= spec_cookey(raw1@),
    {
        let mut dough = [0u32; 32];

        let mut raw0_index: usize;
        let mut raw1_index: usize = 0;
        let mut cook_index: usize = 0;

        for it in 0..16usize
            invariant
                raw1_index == 2 * it,
                cook_index == 2 * it,
                forall|t: int| 0 <= t < cook_index ==> dough@[t] == spec_cooked_word(raw1@, t),
        {
            raw0_index = raw1_index;
            raw1_index = raw1_index + 1;
            let mut w: u32 = (raw1[raw0_index] & 0x00fc0000) << 6;
            w = w | ((raw1[raw0_index] & 0x00000fc0) << 10);
            w = w | ((raw1[raw1_index] & 0x00fc0000) >> 10);
            w = w | ((raw1[raw1_index] & 0x00000fc0) >> 6);
            dough[cook_index] = w;
            cook_index = cook_index + 1;
            let mut w2: u32 = (raw1[raw0_index] & 0x0003f000) << 12;
            w2 = w2 | ((raw1[raw0_index] & 0x0000003f) << 16);
            w2 = w2 | ((raw1[raw1_index] & 0x0003f000) >> 4);
            w2 = w2 | (raw1[raw1_index] & 0x0000003f);
            dough[cook_index] = w2;
            cook_index = cook_index + 1;
            raw1_index = raw1_index + 1;
        }
        dough
    }

    /// Encrypt (or, with a decrypting schedule, decrypt) one 8-byte block.
    pub fn encrypt_block(&self, inblock: &[u8]) -> (r: [u8; 8])
        requires
            inblock@.len() == 8,
        ensures
            r@ =~= spec_encrypt_block(self.schedule(), inblock@),
    {
        let work = Self::scrunch(inblock);
        let result = self.desfn(work.as_slice());
        Self::unscrunch(result.as_slice())
    }

    /// Pack an 8-byte block into two 32-bit words, most significant byte first.
    pub fn scrunch(outof: &[u8]) -> (into: [u32; 2])
        requires
            outof@.len() == 8,
        ensures
            into@ =~= spec_scrunch(outof@),
    {
        let mut into = [0u32; 2];
        into[0] = ((outof[0] as u32) << 24) | ((outof[1] as u32) << 16) | ((outof[2] as u32) << 8)
            | (outof[3] as u32);
        into[1] = ((outof[4] as u32) << 24) | ((outof[5] as u32) << 16) | ((outof[6] as u32) << 8)
            | (outof[7] as u32);
        into
    }

    /// Unpack two 32-bit words into 8 bytes, most significant byte first.
    pub fn unscrunch(outof: &[u32]) -> (into: [u8; 8])
        requires
            outof@.len() == 2,
        ensures
            into@ =~= spec_unscrunch(outof@),
    {
        broadcast use lemma_mask_ff_bound;

        let mut into = [0u8; 8];
        into[0] = ((outof[0] >> 24) & 0xFF) as u8;
        into[1] = ((outof[0] >> 16) & 0xFF) as u8;
        into[2] = ((outof[0] >> 8) & 0xFF) as u8;
        into[3] = ((outof[0] >> 0) & 0xFF) as u8;
        into[4] = ((outof[1] >> 24) & 0xFF) as u8;
        into[5] = ((outof[1] >> 16) & 0xFF) as u8;
        into[6] = ((outof[1] >> 8) & 0xFF) as u8;
        into[7] = ((outof[1] >> 0) & 0xFF) as u8;
        into
    }

    /// The word-level block transform under this engine's round keys.
    #[verifier::loop_isolation(false)]
    pub fn desfn(&self, block: &[u32]) -> (r: [u32; 2])
        requires
            block@.len() == 2,
        ensures
            r@ =~= spec_desfn(self.schedule(), block@),
    {
        broadcast use lemma_mask_3f_bound;

        let mut fval: u32;
        let mut leftt = block[0];
        let mut right = block[1];
        let mut work = ((leftt >> 4) ^ right) & 0x0f0f0f0f;

        right = right ^ work;
        leftt = leftt ^ (work << 4);
        work = ((leftt >> 16) ^ right) & 0x0000ffff;
        right = right ^ work;
        leftt = leftt ^ (work << 16);
        work = ((right >> 2) ^ leftt) & 0x33333333;
        leftt = leftt ^ work;
        right = right ^ (work << 2);
        work = ((right >> 8) ^ leftt) & 0x00ff00ff;
        leftt = leftt ^ work;
        right = right ^ (work << 8);
        right = ((right << 1) | ((right >> 31) & 1)) & 0xffffffff;
        work = (leftt ^ right) & 0xaaaaaaaa;
        leftt = leftt ^ work;
        right = right ^ work;
        leftt = ((leftt << 1) | ((leftt >> 31) & 1)) & 0xffffffff;

        let ghost l0 = leftt;
        let ghost r0 = right;
        assert((l0, r0) == spec_ip(block@[0], block@[1]));

        let mut key_index: usize = 0;
        for round in 0..8usize
            invariant
                key_index == 4 * round,
                leftt == spec_rounds(l0, r0, self.schedule(), round as nat).0,
                right == spec_rounds(l0, r0, self.schedule(), round as nat).1,
        {
            work = (right << 28) | (right >> 4);
            work = work ^ self.generated_key[key_index];
            key_index = key_index + 1;
            fval = SP7[(work & 0x3f) as usize];
            fval = fval | SP5[((work >> 8) & 0x3f) as usize];
            fval = fval | SP3[((work >> 16) & 0x3f) as usize];
            fval = fval | SP1[((work >> 24) & 0x3f) as usize];
            work = right ^ self.generated_key[key_index];
            key_index = key_index + 1;
            fval = fval | SP8[(work & 0x3f) as usize];
            fval = fval | SP6[((work >> 8) & 0x3f) as usize];
            fval = fval | SP4[((work >> 16) & 0x3f) as usize];
            fval = fval | SP2[((work >> 24) & 0x3f) as usize];
            leftt = leftt ^ fval;
            work = (leftt << 28) | (leftt >> 4);
            work = work ^ self.generated_key[key_index];
            key_index = key_index + 1;
            fval = SP7[(work & 0x3f) as usize];
            fval = fval | SP5[((work >> 8) & 0x3f) as usize];
            fval = fval | SP3[((work >> 16) & 0x3f) as usize];
            fval = fval | SP1[((work >> 24) & 0x3f) as usize];
            work = leftt ^ self.generated_key[key_index];
            key_index = key_index + 1;
            fval = fval | SP8[(work & 0x3f) as usize];
            fval = fval | SP6[((work >> 8) & 0x3f) as usize];
            fval = fval | SP4[((work >> 16) & 0x3f) as usize];
            fval = fval | SP2[((work >> 24) & 0x3f) as usize];
            right = right ^ fval;
        }

        right = (right << 31) | (right >> 1);
        work = (leftt ^ right) & 0xaaaaaaaa;
        leftt = leftt ^ work;
        right = right ^ work;
        leftt = (leftt << 31) | (leftt >> 1);
        work = ((leftt >> 8) ^ right) & 0x00ff00ff;
        right = right ^ work;
        leftt = leftt ^ (work << 8);
        work = ((leftt >> 2) ^ right) & 0x33333333;
        right = right ^ work;
        leftt = leftt ^ (work << 2);
        work = ((right >> 16) ^ leftt) & 0x0000ffff;
        leftt = leftt ^ work;
        right = right ^ (work << 16);
        work = ((right >> 4) ^ leftt) & 0x0f0f0f0f;
        leftt = leftt ^ work;
        right = right ^ (work << 4);

        [right, leftt]
    }
}

} // verus!
