use vstd::prelude::*;

verus! {

/// Number of classifier weights; one weight per feature index.
pub const FEATURE_COUNT: usize = 16;

/// Size of a well-formed model blob: 16 weights and one bias, each a
/// little-endian 32-bit word.
pub const MODEL_BYTES: usize = 68;

/// The little-endian 32-bit word stored at byte offset `off`.
pub open spec fn le_word(bytes: Seq<u8>, off: int) -> u32 {
    (bytes[off] + bytes[off + 1] * 0x100 + bytes[off + 2] * 0x1_0000
        + bytes[off + 3] * 0x100_0000) as u32
}

/// The 16 weight bit patterns encoded in a well-formed model blob,
/// in feature-index order.
pub open spec fn decoded_weights(bytes: Seq<u8>) -> Seq<u32> {
    Seq::new(16, |i: int| le_word(bytes, 4 * i))
}

/// The bias bit pattern encoded in a well-formed model blob.
pub open spec fn decoded_bias(bytes: Seq<u8>) -> u32 {
    le_word(bytes, 64)
}

/// Status returned by a load: 0 on success, 1 when the length is not a
/// multiple of 4, 2 when the word count is not 17.
pub open spec fn load_status(len: nat) -> u32 {
    if len % 4 != 0 {
        1
    } else if len != 68 {
        2
    } else {
        0
    }
}

/// Byte `k` (little-endian order) of a 32-bit word.
pub open spec fn word_byte(w: u32, k: int) -> u8 {
    if k == 0 {
        (w % 0x100) as u8
    } else if k == 1 {
        ((w / 0x100) % 0x100) as u8
    } else if k == 2 {
        ((w / 0x1_0000) % 0x100) as u8
    } else {
        (w / 0x100_0000) as u8
    }
}

/// Decoding a little-endian word and splitting it back into bytes recovers
/// exactly the bytes it was read from: the model codec round-trips bit for
/// bit, so a loaded model reproduces the encoded IEEE-754 bit patterns.
pub proof fn lemma_le_word_round_trip(bytes: Seq<u8>, off: int)
    requires
        0 <= off,
        off + 4 <= bytes.len(),
    ensures
        forall|k: int| 0 <= k < 4 ==> word_byte(le_word(bytes, off), k) == bytes[off + k],
{
    let x0 = bytes[off] as u32;
    let x1 = bytes[off + 1] as u32;
    let x2 = bytes[off + 2] as u32;
    let x3 = bytes[off + 3] as u32;
    let w = le_word(bytes, off);
    assert(w == x0 + x1 * 0x100 + x2 * 0x1_0000 + x3 * 0x100_0000);
    assert(w % 0x100 == x0 && (w / 0x100) % 0x100 == x1 && (w / 0x1_0000) % 0x100 == x2
        && w / 0x100_0000 == x3) by (bit_vector)
        requires
            w == x0 + x1 * 0x100 + x2 * 0x1_0000 + x3 * 0x100_0000,
            x0 < 0x100 && x1 < 0x100 && x2 < 0x100 && x3 < 0x100,
    ;
    assert(word_byte(w, 0) == bytes[off]);
    assert(word_byte(w, 1) == bytes[off + 1]);
    assert(word_byte(w, 2) == bytes[off + 2]);
    assert(word_byte(w, 3) == bytes[off + 3]);
}

/// A well-formed model blob is exactly recoverable from the model it loads:
/// splitting each decoded word back into little-endian bytes reproduces the
/// blob byte for byte, so a load followed by a read-back preserves every
/// IEEE-754 bit pattern the blob encodes.
pub proof fn lemma_model_blob_round_trip(bytes: Seq<u8>)
    requires
        bytes.len() == 68,
    ensures
        forall|i: int, k: int|
            0 <= i < 16 && 0 <= k < 4 ==> word_byte(decoded_weights(bytes)[i], k) == bytes[4 * i
                + k],
        forall|k: int| 0 <= k < 4 ==> word_byte(decoded_bias(bytes), k) == bytes[64 + k],
{
    assert forall|i: int, k: int|
        0 <= i < 16 && 0 <= k < 4 implies word_byte(decoded_weights(bytes)[i], k) == bytes[4 * i
        + k] by {
        lemma_le_word_round_trip(bytes, 4 * i);
    }
    lemma_le_word_round_trip(bytes, 64);
}

/// Holds the classifier weights and bias as the raw 32-bit patterns the
/// blob encodes. A model is present exactly when 16 weights are stored;
/// a failed load never disturbs a previously stored model.
pub struct ModelStore {
    pub weights: Vec<u32>,
    pub bias: u32,
}

impl ModelStore {
    /// A store with no model loaded.
    pub fn new() -> (s: ModelStore)
        ensures
            s.weights@.len() == 0,
    {
        ModelStore { weights: Vec::new(), bias: 0 }
    }

    /// A model is usable only when exactly one weight per feature is stored.
    pub fn is_loaded(&self) -> (r: bool)
        ensures
            r == (self.weights@.len() == 16),
    {
        self.weights.len() == FEATURE_COUNT
    }

    /// Loads a model blob: 16 little-endian 32-bit weights followed by one
    /// such bias word. Returns 0 on success, 1 when the length is not a
    /// multiple of 4, 2 when the word count is wrong; on failure the store
    /// is left exactly as it was.
    pub fn init_model(&mut self, bytes: &[u8]) -> (status: u32)
        ensures
            status == load_status(bytes@.len() as nat),
            status != 0 ==> *final(self) == *old(self),
            status == 0 ==> final(self).weights@ == decoded_weights(bytes@)
                && final(self).weights@.len() == 16
                && final(self).bias == decoded_bias(bytes@),
    {
        let n: usize = bytes.len();
        if n % 4 != 0 {
            return 1;
        }
        if n / 4 != FEATURE_COUNT + 1 {
            return 2;
        }
        let mut ws: Vec<u32> = Vec::new();
        let mut i: usize = 0;
        while i < FEATURE_COUNT
            invariant
                i <= 16,
                bytes@.len() == 68,
                ws@.len() == i,
                forall|j: int| 0 <= j < i ==> ws@[j] == le_word(bytes@, 4 * j),
            decreases 16 - i,
        {
            let w: u32 = read_le_word(bytes, i * 4);
            ws.push(w);
            i = i + 1;
        }
        let b: u32 = read_le_word(bytes, 64);
        proof {
            assert(ws@ =~= decoded_weights(bytes@));
        }
        self.weights = ws;
        self.bias = b;
        0
    }

    /// The stored bit pattern of the weight for feature `i`.
    pub fn weight_bits(&self, i: usize) -> (w: u32)
        requires
            i < self.weights@.len(),
        ensures
            w == self.weights@[i as int],
    {
        self.weights[i]
    }

    /// The stored bias bit pattern.
    pub fn bias_bits(&self) -> (b: u32)
        ensures
            b == self.bias,
    {
        self.bias
    }
}

/// Reads the little-endian 32-bit word at byte offset `off`.
fn read_le_word(bytes: &[u8], off: usize) -> (w: u32)
    requires
        off + 4 <= bytes@.len(),
    ensures
        w == le_word(bytes@, off as int),
{
    let b0: u32 = bytes[off] as u32;
    let b1: u32 = bytes[off + 1] as u32;
    let b2: u32 = bytes[off + 2] as u32;
    let b3: u32 = bytes[off + 3] as u32;
    b0 + b1 * 0x100 + b2 * 0x1_0000 + b3 * 0x100_0000
}

} // verus!
