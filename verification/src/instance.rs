//! The per-sprite instance record and its wire encoding.
//!
//! Every scalar of the record is a 32-bit IEEE-754 number. The library never
//! computes with these numbers, it only stores and moves them, so each one is
//! held as its bit pattern in a `u32`. The wire format is the record's 17
//! words in field order, each word as four little-endian bytes, with no
//! padding in between.

use vstd::prelude::*;

verus! {

/// Number of 32-bit words in one instance record.
pub const INSTANCE_WORDS: usize = 17;

/// Number of bytes in one encoded instance record.
pub const INSTANCE_SIZE: usize = 68;

/// Byte `k` of the little-endian encoding of `w` (byte 0 is the least
/// significant one).
pub open spec fn word_byte(w: u32, k: int) -> u8 {
    if k == 0 {
        (w & 0xff) as u8
    } else if k == 1 {
        ((w >> 8) & 0xff) as u8
    } else if k == 2 {
        ((w >> 16) & 0xff) as u8
    } else {
        ((w >> 24) & 0xff) as u8
    }
}

/// The word whose little-endian encoding is `b0 b1 b2 b3`.
pub open spec fn word_of_bytes(b0: u8, b1: u8, b2: u8, b3: u8) -> u32 {
    (b0 as u32) | ((b1 as u32) << 8) | ((b2 as u32) << 16) | ((b3 as u32) << 24)
}

/// The little-endian byte encoding of a sequence of words.
pub open spec fn words_bytes(words: Seq<u32>) -> Seq<u8> {
    Seq::new(4 * words.len(), |i: int| word_byte(words[i / 4], i % 4))
}

/// The words that a byte sequence encodes, four bytes to a word. Bytes past
/// the last whole word are ignored.
pub open spec fn bytes_words(bytes: Seq<u8>) -> Seq<u32> {
    Seq::new(
        bytes.len() / 4,
        |i: int| word_of_bytes(bytes[4 * i], bytes[4 * i + 1], bytes[4 * i + 2], bytes[4 * i + 3]),
    )
}

/// Splitting a word into its four bytes and joining them again gives the
/// word back.
pub proof fn lemma_word_round_trip(w: u32)
    ensures
        word_of_bytes(word_byte(w, 0), word_byte(w, 1), word_byte(w, 2), word_byte(w, 3)) == w,
{
    assert(((w & 0xff) as u8 as u32) | (((w >> 8) & 0xff) as u8 as u32) << 8 | (((w >> 16)
        & 0xff) as u8 as u32) << 16 | (((w >> 24) & 0xff) as u8 as u32) << 24 == w)
        by (bit_vector);
}

/// Joining four bytes into a word and splitting it again gives the bytes
/// back.
pub proof fn lemma_bytes_round_trip(b0: u8, b1: u8, b2: u8, b3: u8)
    ensures
        word_byte(word_of_bytes(b0, b1, b2, b3), 0) == b0,
        word_byte(word_of_bytes(b0, b1, b2, b3), 1) == b1,
        word_byte(word_of_bytes(b0, b1, b2, b3), 2) == b2,
        word_byte(word_of_bytes(b0, b1, b2, b3), 3) == b3,
{
    let w = word_of_bytes(b0, b1, b2, b3);
    assert(w == (b0 as u32) | ((b1 as u32) << 8) | ((b2 as u32) << 16) | ((b3 as u32) << 24));
    assert((w & 0xff) as u8 == b0 && ((w >> 8) & 0xff) as u8 == b1 && ((w >> 16) & 0xff) as u8
        == b2 && ((w >> 24) & 0xff) as u8 == b3) by (bit_vector)
        requires
            w == (b0 as u32) | ((b1 as u32) << 8) | ((b2 as u32) << 16) | ((b3 as u32) << 24),
    ;
}

/// Decoding the encoding of any word sequence gives the sequence back.
pub proof fn lemma_words_round_trip(words: Seq<u32>)
    ensures
        bytes_words(words_bytes(words)) == words,
{
    let bytes = words_bytes(words);
    assert forall|i: int| 0 <= i < words.len() implies bytes_words(bytes)[i] == words[i] by {
        lemma_word_round_trip(words[i]);
        assert(bytes[4 * i] == word_byte(words[i], 0));
        assert(bytes[4 * i + 1] == word_byte(words[i], 1));
        assert(bytes[4 * i + 2] == word_byte(words[i], 2));
        assert(bytes[4 * i + 3] == word_byte(words[i], 3));
    }
    assert(bytes_words(bytes) =~= words);
}

/// Encoding the decoding of any byte sequence made of whole words gives the
/// sequence back.
pub proof fn lemma_byte_seq_round_trip(bytes: Seq<u8>)
    requires
        bytes.len() % 4 == 0,
    ensures
        words_bytes(bytes_words(bytes)) == bytes,
{
    let words = bytes_words(bytes);
    assert forall|j: int| 0 <= j < bytes.len() implies words_bytes(words)[j] == bytes[j] by {
        let i = j / 4;
        lemma_bytes_round_trip(bytes[4 * i], bytes[4 * i + 1], bytes[4 * i + 2], bytes[4 * i + 3]);
    }
    assert(words_bytes(words) =~= bytes);
}

/// The four little-endian bytes of a word.
pub fn word_to_bytes(w: u32) -> (b: [u8; 4])
    ensures
        b@ == seq![word_byte(w, 0), word_byte(w, 1), word_byte(w, 2), word_byte(w, 3)],
{
    let b: [u8; 4] = [
        (w & 0xff) as u8,
        ((w >> 8) & 0xff) as u8,
        ((w >> 16) & 0xff) as u8,
        ((w >> 24) & 0xff) as u8,
    ];
    assert(b@ =~= seq![word_byte(w, 0), word_byte(w, 1), word_byte(w, 2), word_byte(w, 3)]);
    b
}

/// The word that four little-endian bytes encode.
pub fn word_from_bytes(b0: u8, b1: u8, b2: u8, b3: u8) -> (w: u32)
    ensures
        w == word_of_bytes(b0, b1, b2, b3),
{
    (b0 as u32) | ((b1 as u32) << 8) | ((b2 as u32) << 16) | ((b3 as u32) << 24)
}

/// Appends the little-endian encoding of `words` to `out`.
pub fn push_words(out: &mut Vec<u8>, words: &[u32])
    ensures
        final(out)@ == old(out)@ + words_bytes(words@),
{
    let ghost before = out@;
    let mut i: usize = 0;
    while i < words.len()
        invariant
            i <= words.len(),
            out@.len() == before.len() + 4 * i,
            forall|j: int| 0 <= j < before.len() ==> out@[j] == before[j],
            forall|j: int|
                0 <= j < 4 * i ==> out@[before.len() + j] == word_byte(
                    #[trigger] words@[j / 4],
                    j % 4,
                ),
        decreases words.len() - i,
    {
        let w: u32 = words[i];
        let b = word_to_bytes(w);
        out.push(b[0]);
        out.push(b[1]);
        out.push(b[2]);
        out.push(b[3]);
        i += 1;
    }
    assert(out@ =~= before + words_bytes(words@));
}

/// One sprite's fully resolved draw record, as the vertex stage reads it.
///
/// Each field holds the bit patterns of 32-bit floating-point numbers: the
/// rows of the 3x3 transform into device space, the origin and the extent
/// of the sprite's region in normalised texture coordinates, the tint, and
/// the depth.
#[derive(Clone, Copy, Debug, PartialEq, Eq)]
pub struct SpriteInstance {
    pub transform: [[u32; 3]; 3],
    pub tex_pos: [u32; 2],
    pub tex_dims: [u32; 2],
    pub tint: [u32; 3],
    pub z_index: u32,
}

impl SpriteInstance {
    /// The record as its 17 words in wire order.
    pub open spec fn words(self) -> Seq<u32> {
        seq![
            self.transform[0][0],
            self.transform[0][1],
            self.transform[0][2],
            self.transform[1][0],
            self.transform[1][1],
            self.transform[1][2],
            self.transform[2][0],
            self.transform[2][1],
            self.transform[2][2],
            self.tex_pos[0],
            self.tex_pos[1],
            self.tex_dims[0],
            self.tex_dims[1],
            self.tint[0],
            self.tint[1],
            self.tint[2],
            self.z_index,
        ]
    }

    /// The record's wire encoding: 68 bytes.
    pub open spec fn bytes(self) -> Seq<u8> {
        words_bytes(self.words())
    }

    /// Two records with the same words are the same record.
    pub proof fn lemma_words_injective(self, other: SpriteInstance)
        requires
            self.words() == other.words(),
        ensures
            self == other,
    {
        let a = self.words();
        let b = other.words();
        assert(a[0] == b[0] && a[1] == b[1] && a[2] == b[2] && a[3] == b[3] && a[4] == b[4]);
        assert(a[5] == b[5] && a[6] == b[6] && a[7] == b[7] && a[8] == b[8] && a[9] == b[9]);
        assert(a[10] == b[10] && a[11] == b[11] && a[12] == b[12] && a[13] == b[13]);
        assert(a[14] == b[14] && a[15] == b[15] && a[16] == b[16]);
        assert(self.transform[0] =~= other.transform[0]);
        assert(self.transform[1] =~= other.transform[1]);
        assert(self.transform[2] =~= other.transform[2]);
        assert(self.transform =~= other.transform);
        assert(self.tex_pos =~= other.tex_pos);
        assert(self.tex_dims =~= other.tex_dims);
        assert(self.tint =~= other.tint);
    }

    /// Builds a record from its fields.
    pub fn new(
        transform: [[u32; 3]; 3],
        tex_pos: [u32; 2],
        tex_dims: [u32; 2],
        tint: [u32; 3],
        z_index: u32,
    ) -> (r: SpriteInstance)
        ensures
            r == (SpriteInstance { transform, tex_pos, tex_dims, tint, z_index }),
    {
        SpriteInstance { transform, tex_pos, tex_dims, tint, z_index }
    }

    /// The record's 17 words in wire order.
    pub fn to_words(&self) -> (w: [u32; 17])
        ensures
            w@ == self.words(),
    {
        let w: [u32; 17] = [
            self.transform[0][0],
            self.transform[0][1],
            self.transform[0][2],
            self.transform[1][0],
            self.transform[1][1],
            self.transform[1][2],
            self.transform[2][0],
            self.transform[2][1],
            self.transform[2][2],
            self.tex_pos[0],
            self.tex_pos[1],
            self.tex_dims[0],
            self.tex_dims[1],
            self.tint[0],
            self.tint[1],
            self.tint[2],
            self.z_index,
        ];
        assert(w@ =~= self.words());
        w
    }

    /// The record whose words in wire order are `w`.
    pub fn from_words(w: &[u32; 17]) -> (r: SpriteInstance)
        ensures
            r.words() == w@,
    {
        let r = SpriteInstance {
            transform: [[w[0], w[1], w[2]], [w[3], w[4], w[5]], [w[6], w[7], w[8]]],
            tex_pos: [w[9], w[10]],
            tex_dims: [w[11], w[12]],
            tint: [w[13], w[14], w[15]],
            z_index: w[16],
        };
        assert(r.words() =~= w@);
        r
    }

    /// Encodes the record in its wire format.
    pub fn to_bytes(&self) -> (b: Vec<u8>)
        ensures
            b@ == self.bytes(),
            b@.len() == INSTANCE_SIZE,
    {
        let w = self.to_words();
        let mut out: Vec<u8> = Vec::with_capacity(INSTANCE_SIZE);
        push_words(&mut out, w.as_slice());
        assert(out@ =~= self.bytes());
        out
    }

    /// Decodes a record from its wire format. The input is accepted exactly
    /// when it is 68 bytes long.
    pub fn from_bytes(bytes: &[u8]) -> (r: Option<SpriteInstance>)
        ensures
            r.is_some() <==> bytes@.len() == INSTANCE_SIZE,
            r.is_some() ==> r.unwrap().words() == bytes_words(bytes@),
            r.is_some() ==> r.unwrap().bytes() == bytes@,
            forall|x: SpriteInstance| x.bytes() == bytes@ ==> r == Some(x),
    {
        if bytes.len() != INSTANCE_SIZE {
            assert forall|x: SpriteInstance| x.bytes() == bytes@ implies false by {
                assert(x.bytes().len() == 68);
            }
            return None;
        }
        let mut w: [u32; 17] = [0u32;17];
        let mut i: usize = 0;
        while i < 17
            invariant
                i <= 17,
                bytes@.len() == 68,
                forall|j: int| 0 <= j < i ==> w@[j] == bytes_words(bytes@)[j],
            decreases 17 - i,
        {
            let word: u32 = word_from_bytes(
                bytes[4 * i],
                bytes[4 * i + 1],
                bytes[4 * i + 2],
                bytes[4 * i + 3],
            );
            w[i] = word;
            i += 1;
        }
        assert(w@ =~= bytes_words(bytes@));
        let r = SpriteInstance::from_words(&w);
        proof {
            lemma_byte_seq_round_trip(bytes@);
            assert forall|x: SpriteInstance| x.bytes() == bytes@ implies r == x by {
                lemma_instance_round_trip(x, r);
            }
        }
        Some(r)
    }
}

/// The encoding of a run of words is the matching run of bytes of the whole
/// encoding: word `a` starts at byte `4 * a`.
pub proof fn lemma_words_bytes_subrange(words: Seq<u32>, a: int, b: int)
    requires
        0 <= a <= b <= words.len(),
    ensures
        words_bytes(words).subrange(4 * a, 4 * b) == words_bytes(words.subrange(a, b)),
{
    let whole = words_bytes(words).subrange(4 * a, 4 * b);
    let part = words_bytes(words.subrange(a, b));
    assert forall|j: int| 0 <= j < 4 * (b - a) implies whole[j] == part[j] by {
        assert((4 * a + j) / 4 == a + j / 4);
        assert((4 * a + j) % 4 == j % 4);
    }
    assert(whole =~= part);
}

/// Where each field lies in a record's encoding: the three rows of the
/// transform at bytes 0, 12 and 24, the texture origin at byte 36, the
/// texture extent at byte 44, the tint at byte 52 and the depth at byte 64.
/// Nothing lies between the fields, and the record ends with the depth.
pub proof fn lemma_field_offsets(x: SpriteInstance)
    ensures
        x.bytes().len() == 68,
        x.bytes().subrange(0, 12) == words_bytes(x.transform[0]@),
        x.bytes().subrange(12, 24) == words_bytes(x.transform[1]@),
        x.bytes().subrange(24, 36) == words_bytes(x.transform[2]@),
        x.bytes().subrange(36, 44) == words_bytes(x.tex_pos@),
        x.bytes().subrange(44, 52) == words_bytes(x.tex_dims@),
        x.bytes().subrange(52, 64) == words_bytes(x.tint@),
        x.bytes().subrange(64, 68) == words_bytes(seq![x.z_index]),
{
    let w = x.words();
    lemma_words_bytes_subrange(w, 0, 3);
    lemma_words_bytes_subrange(w, 3, 6);
    lemma_words_bytes_subrange(w, 6, 9);
    lemma_words_bytes_subrange(w, 9, 11);
    lemma_words_bytes_subrange(w, 11, 13);
    lemma_words_bytes_subrange(w, 13, 16);
    lemma_words_bytes_subrange(w, 16, 17);
    assert(w.subrange(0, 3) =~= x.transform[0]@);
    assert(w.subrange(3, 6) =~= x.transform[1]@);
    assert(w.subrange(6, 9) =~= x.transform[2]@);
    assert(w.subrange(9, 11) =~= x.tex_pos@);
    assert(w.subrange(11, 13) =~= x.tex_dims@);
    assert(w.subrange(13, 16) =~= x.tint@);
    assert(w.subrange(16, 17) =~= seq![x.z_index]);
}

/// Decoding a record's encoding gives the record back, field for field.
pub proof fn lemma_instance_round_trip(x: SpriteInstance, y: SpriteInstance)
    requires
        y.words() == bytes_words(x.bytes()),
    ensures
        y == x,
{
    lemma_words_round_trip(x.words());
    y.lemma_words_injective(x);
}

/// The wire encoding of a batch: the encodings of its records, one after the
/// other in batch order.
pub open spec fn batch_bytes(batch: Seq<SpriteInstance>) -> Seq<u8> {
    Seq::new(68 * batch.len(), |i: int| batch[i / 68].bytes()[i % 68])
}

/// In a batch's encoding, the record at position `i` occupies the 68 bytes
/// from offset `68 * i`, so records keep their order and never overlap.
pub proof fn lemma_batch_record_position(batch: Seq<SpriteInstance>, i: int)
    requires
        0 <= i < batch.len(),
    ensures
        batch_bytes(batch).len() == 68 * batch.len(),
        batch_bytes(batch).subrange(68 * i, 68 * i + 68) == batch[i].bytes(),
{
    let all = batch_bytes(batch);
    let part = all.subrange(68 * i, 68 * i + 68);
    assert forall|k: int| 0 <= k < 68 implies part[k] == batch[i].bytes()[k] by {
        assert((68 * i + k) / 68 == i);
        assert((68 * i + k) % 68 == k);
    }
    assert(part =~= batch[i].bytes());
}

/// Encodes a batch for upload.
pub fn encode_batch(batch: &Vec<SpriteInstance>) -> (b: Vec<u8>)
    ensures
        b@ == batch_bytes(batch@),
        b@.len() == 68 * batch@.len(),
        forall|i: int|
            0 <= i < batch@.len() ==> b@.subrange(68 * i, 68 * i + 68)
                == (#[trigger] batch@[i]).bytes(),
{
    let mut out: Vec<u8> = Vec::new();
    let mut i: usize = 0;
    while i < batch.len()
        invariant
            i <= batch.len(),
            out@.len() == 68 * i,
            forall|j: int| 0 <= j < 68 * i ==> out@[j] == batch_bytes(batch@)[j],
        decreases batch.len() - i,
    {
        let w = batch[i].to_words();
        push_words(&mut out, w.as_slice());
        proof {
            assert(words_bytes(w@).len() == 68);
            assert forall|j: int| 0 <= j < 68 * (i + 1) implies out@[j] == batch_bytes(batch@)[j] by {
                if j >= 68 * i {
                    let k = j - 68 * i;
                    assert(out@[j] == words_bytes(w@)[k]);
                    assert(j / 68 == i);
                    assert(j % 68 == k);
                }
            }
        }
        i += 1;
    }
    assert(out@ =~= batch_bytes(batch@));
    assert forall|i: int| 0 <= i < batch@.len() implies out@.subrange(68 * i, 68 * i + 68)
        == (#[trigger] batch@[i]).bytes() by {
        lemma_batch_record_position(batch@, i);
    }
    out
}

} // verus!
