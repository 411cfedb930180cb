use vstd::prelude::*;

verus! {

/// A 32-byte account address, held as four little-endian 64-bit words so that
/// equality is plain equality of integers.
#[derive(Clone, Copy, PartialEq, Eq, Structural, Debug, Hash)]
pub struct Pubkey {
    pub w0: u64,
    pub w1: u64,
    pub w2: u64,
    pub w3: u64,
}

impl Pubkey {

    /// The 32 bytes of the address, little-endian word by word.
    pub open spec fn spec_bytes(self) -> Seq<u8> {
        seq![word_byte(self.w0, 0), word_byte(self.w0, 1), word_byte(self.w0, 2), word_byte(self.w0, 3), word_byte(self.w0, 4), word_byte(self.w0, 5), word_byte(self.w0, 6), word_byte(self.w0, 7), word_byte(self.w1, 0), word_byte(self.w1, 1), word_byte(self.w1, 2), word_byte(self.w1, 3), word_byte(self.w1, 4), word_byte(self.w1, 5), word_byte(self.w1, 6), word_byte(self.w1, 7), word_byte(self.w2, 0), word_byte(self.w2, 1), word_byte(self.w2, 2), word_byte(self.w2, 3), word_byte(self.w2, 4), word_byte(self.w2, 5), word_byte(self.w2, 6), word_byte(self.w2, 7), word_byte(self.w3, 0), word_byte(self.w3, 1), word_byte(self.w3, 2), word_byte(self.w3, 3), word_byte(self.w3, 4), word_byte(self.w3, 5), word_byte(self.w3, 6), word_byte(self.w3, 7)
        ]
    }

    /// The address whose bytes are `b`.
    pub open spec fn spec_from_bytes(b: Seq<u8>) -> Pubkey {
        Pubkey {
            w0: word_of_bytes(b[0], b[1], b[2], b[3], b[4], b[5], b[6], b[7]),
            w1: word_of_bytes(b[8], b[9], b[10], b[11], b[12], b[13], b[14], b[15]),
            w2: word_of_bytes(b[16], b[17], b[18], b[19], b[20], b[21], b[22], b[23]),
            w3: word_of_bytes(b[24], b[25], b[26], b[27], b[28], b[29], b[30], b[31]),
        }
    }

    /// The 32 bytes of the address (`Pubkey::to_bytes`).
    pub fn to_bytes(&self) -> (r: [u8; 32])
        ensures
            r@ == self.spec_bytes(),
    {
        let r = [((self.w0 >> 0u64) & 0xffu64) as u8, ((self.w0 >> 8u64) & 0xffu64) as u8, ((self.w0 >> 16u64) & 0xffu64) as u8, ((self.w0 >> 24u64) & 0xffu64) as u8, ((self.w0 >> 32u64) & 0xffu64) as u8, ((self.w0 >> 40u64) & 0xffu64) as u8, ((self.w0 >> 48u64) & 0xffu64) as u8, ((self.w0 >> 56u64) & 0xffu64) as u8, ((self.w1 >> 0u64) & 0xffu64) as u8, ((self.w1 >> 8u64) & 0xffu64) as u8, ((self.w1 >> 16u64) & 0xffu64) as u8, ((self.w1 >> 24u64) & 0xffu64) as u8, ((self.w1 >> 32u64) & 0xffu64) as u8, ((self.w1 >> 40u64) & 0xffu64) as u8, ((self.w1 >> 48u64) & 0xffu64) as u8, ((self.w1 >> 56u64) & 0xffu64) as u8, ((self.w2 >> 0u64) & 0xffu64) as u8, ((self.w2 >> 8u64) & 0xffu64) as u8, ((self.w2 >> 16u64) & 0xffu64) as u8, ((self.w2 >> 24u64) & 0xffu64) as u8, ((self.w2 >> 32u64) & 0xffu64) as u8, ((self.w2 >> 40u64) & 0xffu64) as u8, ((self.w2 >> 48u64) & 0xffu64) as u8, ((self.w2 >> 56u64) & 0xffu64) as u8, ((self.w3 >> 0u64) & 0xffu64) as u8, ((self.w3 >> 8u64) & 0xffu64) as u8, ((self.w3 >> 16u64) & 0xffu64) as u8, ((self.w3 >> 24u64) & 0xffu64) as u8, ((self.w3 >> 32u64) & 0xffu64) as u8, ((self.w3 >> 40u64) & 0xffu64) as u8, ((self.w3 >> 48u64) & 0xffu64) as u8, ((self.w3 >> 56u64) & 0xffu64) as u8];
        assert(r@ =~= self.spec_bytes());
        r
    }

    /// The address whose bytes are `b` (`Pubkey::new_from_array`).
    pub fn from_bytes(b: [u8; 32]) -> (r: Pubkey)
        ensures
            r == Pubkey::spec_from_bytes(b@),
    {
        Pubkey {
            w0: (b[0] as u64) | ((b[1] as u64) << 8u64) | ((b[2] as u64) << 16u64) | ((b[3] as u64) << 24u64) | ((b[4] as u64) << 32u64) | ((b[5] as u64) << 40u64) | ((b[6] as u64) << 48u64) | ((b[7] as u64) << 56u64),
            w1: (b[8] as u64) | ((b[9] as u64) << 8u64) | ((b[10] as u64) << 16u64) | ((b[11] as u64) << 24u64) | ((b[12] as u64) << 32u64) | ((b[13] as u64) << 40u64) | ((b[14] as u64) << 48u64) | ((b[15] as u64) << 56u64),
            w2: (b[16] as u64) | ((b[17] as u64) << 8u64) | ((b[18] as u64) << 16u64) | ((b[19] as u64) << 24u64) | ((b[20] as u64) << 32u64) | ((b[21] as u64) << 40u64) | ((b[22] as u64) << 48u64) | ((b[23] as u64) << 56u64),
            w3: (b[24] as u64) | ((b[25] as u64) << 8u64) | ((b[26] as u64) << 16u64) | ((b[27] as u64) << 24u64) | ((b[28] as u64) << 32u64) | ((b[29] as u64) << 40u64) | ((b[30] as u64) << 48u64) | ((b[31] as u64) << 56u64),
        }
    }
    /// The address made of the four given words.
    pub fn new(w0: u64, w1: u64, w2: u64, w3: u64) -> (r: Pubkey)
        ensures
            r == (Pubkey { w0, w1, w2, w3 }),
    {
        Pubkey { w0, w1, w2, w3 }
    }

    /// The all-zero address.
    pub open spec fn spec_zero() -> Pubkey {
        Pubkey { w0: 0, w1: 0, w2: 0, w3: 0 }
    }

    /// The all-zero address (`Pubkey::default()`).
    pub fn zero() -> (r: Pubkey)
        ensures
            r == Pubkey::spec_zero(),
    {
        Pubkey { w0: 0, w1: 0, w2: 0, w3: 0 }
    }
}

/// Byte `j` (counting from the least significant) of a 64-bit word.
pub open spec fn word_byte(w: u64, j: u64) -> u8 {
    ((w >> (8 * j)) & 0xff) as u8
}

/// The 64-bit word whose little-endian bytes are `b0..b7`.
pub open spec fn word_of_bytes(b0: u8, b1: u8, b2: u8, b3: u8, b4: u8, b5: u8, b6: u8, b7: u8) -> u64 {
    (b0 as u64) | ((b1 as u64) << 8u64) | ((b2 as u64) << 16u64) | ((b3 as u64) << 24u64)
        | ((b4 as u64) << 32u64) | ((b5 as u64) << 40u64) | ((b6 as u64) << 48u64) | ((b7 as u64) << 56u64)
}

proof fn lemma_word_bytes_roundtrip(w: u64)
    ensures
        word_of_bytes(word_byte(w, 0), word_byte(w, 1), word_byte(w, 2), word_byte(w, 3),
            word_byte(w, 4), word_byte(w, 5), word_byte(w, 6), word_byte(w, 7)) == w,
{
    assert(word_of_bytes(
        ((w >> 0u64) & 0xff) as u8, ((w >> 8u64) & 0xff) as u8, ((w >> 16u64) & 0xff) as u8,
        ((w >> 24u64) & 0xff) as u8, ((w >> 32u64) & 0xff) as u8, ((w >> 40u64) & 0xff) as u8,
        ((w >> 48u64) & 0xff) as u8, ((w >> 56u64) & 0xff) as u8) == w) by (bit_vector);
}

proof fn lemma_bytes_word_roundtrip(b0: u8, b1: u8, b2: u8, b3: u8, b4: u8, b5: u8, b6: u8, b7: u8)
    ensures
        ({
            let w = word_of_bytes(b0, b1, b2, b3, b4, b5, b6, b7);
            word_byte(w, 0) == b0 && word_byte(w, 1) == b1 && word_byte(w, 2) == b2
                && word_byte(w, 3) == b3 && word_byte(w, 4) == b4 && word_byte(w, 5) == b5
                && word_byte(w, 6) == b6 && word_byte(w, 7) == b7
        }),
{
    let w = word_of_bytes(b0, b1, b2, b3, b4, b5, b6, b7);
    assert(w == (b0 as u64) | ((b1 as u64) << 8u64) | ((b2 as u64) << 16u64) | ((b3 as u64) << 24u64)
        | ((b4 as u64) << 32u64) | ((b5 as u64) << 40u64) | ((b6 as u64) << 48u64) | ((b7 as u64) << 56u64));
    assert(((w >> 0u64) & 0xff) as u8 == b0 && ((w >> 8u64) & 0xff) as u8 == b1
        && ((w >> 16u64) & 0xff) as u8 == b2 && ((w >> 24u64) & 0xff) as u8 == b3
        && ((w >> 32u64) & 0xff) as u8 == b4 && ((w >> 40u64) & 0xff) as u8 == b5
        && ((w >> 48u64) & 0xff) as u8 == b6 && ((w >> 56u64) & 0xff) as u8 == b7) by (bit_vector)
        requires
            w == (b0 as u64) | ((b1 as u64) << 8u64) | ((b2 as u64) << 16u64) | ((b3 as u64) << 24u64)
                | ((b4 as u64) << 32u64) | ((b5 as u64) << 40u64) | ((b6 as u64) << 48u64) | ((b7 as u64) << 56u64);
}

/// Reading an address back from its bytes gives the address again.
pub proof fn lemma_from_bytes_to_bytes(k: Pubkey)
    ensures
        Pubkey::spec_from_bytes(k.spec_bytes()) == k,
{
    lemma_word_bytes_roundtrip(k.w0);
    lemma_word_bytes_roundtrip(k.w1);
    lemma_word_bytes_roundtrip(k.w2);
    lemma_word_bytes_roundtrip(k.w3);
}

/// Writing out the address read from 32 bytes gives the same bytes.
pub proof fn lemma_to_bytes_from_bytes(b: Seq<u8>)
    requires
        b.len() == 32,
    ensures
        Pubkey::spec_from_bytes(b).spec_bytes() == b,
{
    lemma_bytes_word_roundtrip(b[0], b[1], b[2], b[3], b[4], b[5], b[6], b[7]);
    lemma_bytes_word_roundtrip(b[8], b[9], b[10], b[11], b[12], b[13], b[14], b[15]);
    lemma_bytes_word_roundtrip(b[16], b[17], b[18], b[19], b[20], b[21], b[22], b[23]);
    lemma_bytes_word_roundtrip(b[24], b[25], b[26], b[27], b[28], b[29], b[30], b[31]);
    assert(Pubkey::spec_from_bytes(b).spec_bytes() =~= b);
}

} // verus!
