//! Random-number generators for the kernel, and the ranges drawn from them.

use vstd::prelude::*;

verus! {

/// `x` with its bits moved `n` places to the left, those that leave at the
/// top coming back in at the bottom.
pub open spec fn rotl64(x: u64, n: u32) -> u64 {
    (x << n) | (x >> ((64 - n) as u32))
}

/// `x` with its bits moved `n` places to the left, those that leave at the
/// top coming back in at the bottom.
pub open spec fn rotl32(x: u32, n: u32) -> u32 {
    (x << n) | (x >> ((32 - n) as u32))
}

/// The low 32 bits of `x`.
pub open spec fn low32(x: u64) -> u32 {
    (x & 0xffff_ffff) as u32
}

/// Rotates a 64-bit word to the left.
pub fn rotate_left64(x: u64, n: u32) -> (rotated: u64)
    requires
        0 < n < 64,
    ensures
        rotated == rotl64(x, n),
{
    (x << n) | (x >> (64 - n))
}

/// Rotates a 32-bit word to the left.
pub fn rotate_left32(x: u32, n: u32) -> (rotated: u32)
    requires
        0 < n < 32,
    ensures
        rotated == rotl32(x, n),
{
    (x << n) | (x >> (32 - n))
}

/// Takes the low 32 bits of a word.
pub fn low_word(x: u64) -> (low: u32)
    ensures
        low == low32(x),
{
    assert(x & 0xffff_ffff <= 0xffff_ffff) by (bit_vector);
    (x & 0xffff_ffff) as u32
}

/// The number between `low` and `high`, both included, that a sample stands
/// for: `low` plus the sample's remainder by the size of the range, and the
/// sample itself where the range is all of `u32`.
pub open spec fn uint_in(sample: u32, low: u32, high: u32) -> u32 {
    if high - low == u32::MAX {
        sample
    } else {
        (low + sample % ((high - low + 1) as u32)) as u32
    }
}

/// As `uint_in`, over signed numbers: the offset from `low` is the sample's
/// remainder by the size of the range.
pub open spec fn int_in(sample: u32, low: i32, high: i32) -> i32 {
    if high - low == u32::MAX {
        if sample < 0x8000_0000 {
            sample as i32
        } else {
            (sample - 0x1_0000_0000) as i32
        }
    } else {
        (low + sample % ((high - low + 1) as u32)) as i32
    }
}

/// Maps a sample into the range from `low` to `high`, both included.
pub fn uint_from(sample: u32, low: u32, high: u32) -> (value: u32)
    requires
        low <= high,
    ensures
        value == uint_in(sample, low, high),
        low <= value <= high,
{
    let span = high.wrapping_sub(low).wrapping_add(1);
    if span == 0 {
        sample
    } else {
        low + (sample % span)
    }
}

/// Maps a sample into the range from `low` to `high`, both included.
pub fn int_from(sample: u32, low: i32, high: i32) -> (value: i32)
    requires
        low <= high,
    ensures
        value == int_in(sample, low, high),
        low <= value <= high,
{
    let diff: u32 = (high as i64 - low as i64) as u32;
    let span = diff.wrapping_add(1);
    if span == 0 {
        if sample < 0x8000_0000 {
            sample as i32
        } else {
            (sample as i64 - 0x1_0000_0000) as i32
        }
    } else {
        let offset = sample % span;
        (low as i64 + offset as i64) as i32
    }
}

/// Whether a sample stands for `true`: its lowest bit says so.
pub fn bool_from(sample: u32) -> (value: bool)
    ensures
        value == (sample % 2 == 1),
{
    assert((sample & 1 == 1) == (sample % 2 == 1)) by (bit_vector);
    (sample & 1) == 1
}

/// A random-number-generation algorithm: a state that hands out one 32-bit
/// sample after another.
pub trait Rng: Sized {
    /// The generator is in a state from which it can generate.
    spec fn ready(&self) -> bool;

    /// The sample that `generate` hands out next.
    spec fn output(&self) -> u32;

    /// The generator after it has handed out that sample.
    spec fn advanced(&self) -> Self;

    /// The generator that a seed gives.
    spec fn seeded(seed: u64) -> Self;

    /// Create a new RNG with the given `u64` seed.
    fn new_seed(seed: u64) -> (rng: Self)
        ensures
            rng == Self::seeded(seed),
            rng.ready(),
    ;

    /// Generate a random `u32`.
    fn generate(&mut self) -> (value: u32)
        requires
            old(self).ready(),
        ensures
            value == old(self).output(),
            *final(self) == old(self).advanced(),
            final(self).ready(),
    ;

    /// Generate a random 32-bit unsigned integer in the specified range.
    fn uint(&mut self, low: u32, high: u32) -> (value: u32)
        requires
            old(self).ready(),
            low <= high,
        ensures
            value == uint_in(old(self).output(), low, high),
            low <= value <= high,
            *final(self) == old(self).advanced(),
            final(self).ready(),
    {
        let sample = self.generate();
        uint_from(sample, low, high)
    }

    /// Generate a random 32-bit signed integer in the specified range.
    fn int32(&mut self, low: i32, high: i32) -> (value: i32)
        requires
            old(self).ready(),
            low <= high,
        ensures
            value == int_in(old(self).output(), low, high),
            low <= value <= high,
            *final(self) == old(self).advanced(),
            final(self).ready(),
    {
        let sample = self.generate();
        int_from(sample, low, high)
    }

    /// Generate a random boolean.
    fn bool(&mut self) -> (value: bool)
        requires
            old(self).ready(),
        ensures
            value == (old(self).output() % 2 == 1),
            *final(self) == old(self).advanced(),
            final(self).ready(),
    {
        let sample = self.generate();
        bool_from(sample)
    }
}

/// The multiplier of the PCG32 state.
pub const PCG_MULTIPLIER: u64 = 6364136223846793005;

/// The stream of the PCG32 generator.
pub const PCG_INCREMENT: u64 = 0xda3e39cb94b95bdb;

/// The PCG32 (XSH-RR variant) algorithm.
pub struct Pcg32Rng {
    state: u64,
    inc: u64,
}

impl Pcg32Rng {
    /// The state of the generator.
    pub closed spec fn state(&self) -> u64 {
        self.state
    }

    /// The stream of the generator.
    pub closed spec fn inc(&self) -> u64 {
        self.inc
    }

    /// The state that follows `state` on the stream `inc`.
    pub open spec fn next_state(state: u64, inc: u64) -> u64 {
        state.wrapping_mul(PCG_MULTIPLIER).wrapping_add(inc | 1)
    }

    /// The sample that a state gives: its xor-shifted high bits, rotated to
    /// the right by its top five bits.
    pub open spec fn sample(state: u64) -> u32 {
        let rot = low32(state >> 59);
        let xor_shifted = low32(((state >> 18) ^ state) >> 27);
        (xor_shifted >> rot) | (xor_shifted << ((!rot).wrapping_add(1) & 31))
    }

    /// Seed the RNG with the given `u64`: the state starts from the seed and
    /// takes one step.
    pub fn seed(&mut self, seed: u64)
        ensures
            final(self).inc() == old(self).inc(),
            final(self).state() == Self::next_state(seed, old(self).inc()),
    {
        self.state = 0;
        self.state = self.state.wrapping_add(seed);
        self.generate();
    }
}

impl Rng for Pcg32Rng {
    closed spec fn ready(&self) -> bool {
        true
    }

    closed spec fn output(&self) -> u32 {
        Self::sample(self.state)
    }

    closed spec fn advanced(&self) -> Self {
        Pcg32Rng { state: Self::next_state(self.state, self.inc), inc: self.inc }
    }

    closed spec fn seeded(seed: u64) -> Self {
        Pcg32Rng { state: Self::next_state(seed, PCG_INCREMENT), inc: PCG_INCREMENT }
    }

    fn new_seed(seed: u64) -> (rng: Self) {
        let mut pcg = Self { state: 0, inc: PCG_INCREMENT };
        pcg.seed(seed);
        pcg
    }

    fn generate(&mut self) -> (value: u32) {
        let old_state = self.state;
        self.state = old_state.wrapping_mul(PCG_MULTIPLIER).wrapping_add(self.inc | 1);
        let rot = low_word(old_state >> 59);
        let xor_shifted = low_word(((old_state >> 18) ^ old_state) >> 27);
        assert(low32(old_state >> 59) < 32) by (bit_vector);
        assert(((!rot).wrapping_add(1) & 31) < 32) by (bit_vector);
        (xor_shifted >> rot) | (xor_shifted << ((!rot).wrapping_add(1) & 31))
    }
}

/// The step of the SplitMix64 sequence that seeds Xoshiro256.
pub const SPLITMIX_STEP: u64 = 0x9e3779b97f4a7c15;

/// The `k`-th state of the SplitMix64 sequence that starts at `seed`.
pub open spec fn splitmix_state(seed: u64, k: nat) -> u64
    decreases k,
{
    if k == 0 {
        seed
    } else {
        splitmix_state(seed, (k - 1) as nat).wrapping_add(SPLITMIX_STEP)
    }
}

/// The word that a SplitMix64 state gives.
pub open spec fn splitmix_word(state: u64) -> u64 {
    let a = (state ^ (state >> 30)).wrapping_mul(0xbf58476d1ce4e5b9);
    let b = (a ^ (a >> 27)).wrapping_mul(0x94d049bb133111eb);
    b ^ (b >> 31)
}

/// A seed of good quality from what the machine offers: the time-stamp
/// counter, the instruction pointer and the second of the clock, xored and
/// mixed as a SplitMix64 word.
pub fn seed_quality(tsc: u64, rip: u64, second: u64) -> (seed: u64)
    ensures
        seed == splitmix_word(tsc ^ rip ^ second),
{
    let mut x = tsc ^ rip ^ second;
    x = (x ^ (x >> 30)).wrapping_mul(0xbf58476d1ce4e5b9);
    x = (x ^ (x >> 27)).wrapping_mul(0x94d049bb133111eb);
    x ^ (x >> 31)
}

/// A seed that is cheap to make: the time-stamp counter and the instruction
/// pointer, xored and multiplied by the SplitMix64 step.
pub fn seed_fast(tsc: u64, rip: u64) -> (seed: u64)
    ensures
        seed == (tsc ^ rip).wrapping_mul(SPLITMIX_STEP),
{
    (tsc ^ rip).wrapping_mul(SPLITMIX_STEP)
}

/// The Xoshiro256 algorithm.
pub struct Xoshiro256 {
    state: [u64; 4],
}

impl Xoshiro256 {
    /// The four words of the state.
    pub closed spec fn words(&self) -> Seq<u64> {
        self.state@
    }

    /// The state that a seed gives: four words of the SplitMix64 sequence,
    /// and where all four are zero the first is the seed with bit 0 set.
    pub open spec fn seed_words(seed: u64) -> Seq<u64> {
        let words = Seq::new(4, |i: int| splitmix_word(splitmix_state(seed, (i + 1) as nat)));
        if words[0] == 0 && words[1] == 0 && words[2] == 0 && words[3] == 0 {
            words.update(0, seed | 1)
        } else {
            words
        }
    }

    /// The state that follows `s`.
    pub open spec fn next_words(s: Seq<u64>) -> Seq<u64> {
        let t = s[1] << 17;
        let s2 = s[2] ^ s[0];
        let s3 = s[3] ^ s[1];
        let s1 = s[1] ^ s2;
        let s0 = s[0] ^ s3;
        seq![s0, s1, s2 ^ t, rotl64(s3, 45)]
    }

    /// The sample that a state gives: the high half of its scrambled second word.
    pub open spec fn sample(s: Seq<u64>) -> u32 {
        low32(rotl64(s[1].wrapping_mul(5), 7).wrapping_mul(9) >> 32)
    }

    /// Seed the RNG with the given `u64`.
    pub fn seed(&mut self, seed: u64)
        ensures
            final(self).words() == Self::seed_words(seed),
    {
        let mut sm_state = seed;
        let mut i: usize = 0;
        while i < 4
            invariant
                0 <= i <= 4,
                sm_state == splitmix_state(seed, i as nat),
                forall|j: int|
                    0 <= j < i ==> #[trigger] self.state@[j] == splitmix_word(
                        splitmix_state(seed, (j + 1) as nat),
                    ),
            decreases 4 - i,
        {
            sm_state = sm_state.wrapping_add(SPLITMIX_STEP);
            let mut z = sm_state;
            z = (z ^ (z >> 30)).wrapping_mul(0xbf58476d1ce4e5b9);
            z = (z ^ (z >> 27)).wrapping_mul(0x94d049bb133111eb);
            self.state[i] = z ^ (z >> 31);
            i += 1;
        }
        if self.state[0] == 0 && self.state[1] == 0 && self.state[2] == 0 && self.state[3] == 0 {
            self.state[0] = seed | 1;
        }
        proof {
            assert(self.state@ =~= Self::seed_words(seed));
        }
    }
}

impl Rng for Xoshiro256 {
    closed spec fn ready(&self) -> bool {
        true
    }

    closed spec fn output(&self) -> u32 {
        Self::sample(self.state@)
    }

    closed spec fn advanced(&self) -> Self {
        Xoshiro256 { state: xoshiro_array(Self::next_words(self.state@)) }
    }

    closed spec fn seeded(seed: u64) -> Self {
        Xoshiro256 { state: xoshiro_array(Self::seed_words(seed)) }
    }

    fn new_seed(seed: u64) -> (rng: Self) {
        let mut rng = Self { state: [0;4] };
        rng.seed(seed);
        proof {
            lemma_xoshiro_array(rng.state);
        }
        rng
    }

    fn generate(&mut self) -> (value: u32) {
        let result = rotate_left64(self.state[1].wrapping_mul(5), 7).wrapping_mul(9);
        let t = self.state[1] << 17;
        self.state[2] = self.state[2] ^ self.state[0];
        self.state[3] = self.state[3] ^ self.state[1];
        self.state[1] = self.state[1] ^ self.state[2];
        self.state[0] = self.state[0] ^ self.state[3];
        self.state[2] = self.state[2] ^ t;
        self.state[3] = rotate_left64(self.state[3], 45);
        proof {
            assert(self.state@ =~= Self::next_words(old(self).state@));
            lemma_xoshiro_array(self.state);
        }
        low_word(result >> 32)
    }
}

/// The array that holds the four words of `words`.
pub open spec fn xoshiro_array(words: Seq<u64>) -> [u64; 4] {
    [words[0], words[1], words[2], words[3]]
}

/// An array of four words is the array of its words.
proof fn lemma_xoshiro_array(state: [u64; 4])
    ensures
        xoshiro_array(state@) == state,
{
    assert(xoshiro_array(state@)@ =~= state@);
}

/// One quarter round of ChaCha on the words `a`, `b`, `c` and `d` of `x`.
pub open spec fn quarter(x: Seq<u32>, a: int, b: int, c: int, d: int) -> Seq<u32> {
    let x1 = x.update(a, x[a].wrapping_add(x[b]));
    let x2 = x1.update(d, rotl32(x1[d] ^ x1[a], 16));
    let x3 = x2.update(c, x2[c].wrapping_add(x2[d]));
    let x4 = x3.update(b, rotl32(x3[b] ^ x3[c], 12));
    let x5 = x4.update(a, x4[a].wrapping_add(x4[b]));
    let x6 = x5.update(d, rotl32(x5[d] ^ x5[a], 8));
    let x7 = x6.update(c, x6[c].wrapping_add(x6[d]));
    x7.update(b, rotl32(x7[b] ^ x7[c], 7))
}

/// A round over the four columns, then one over the four diagonals.
pub open spec fn double_round(x: Seq<u32>) -> Seq<u32> {
    let c0 = quarter(x, 0, 4, 8, 12);
    let c1 = quarter(c0, 1, 5, 9, 13);
    let c2 = quarter(c1, 2, 6, 10, 14);
    let c3 = quarter(c2, 3, 7, 11, 15);
    let d0 = quarter(c3, 0, 5, 10, 15);
    let d1 = quarter(d0, 1, 6, 11, 12);
    let d2 = quarter(d1, 2, 7, 8, 13);
    quarter(d2, 3, 4, 9, 14)
}

/// `n` double rounds, one after another.
pub open spec fn double_rounds(x: Seq<u32>, n: nat) -> Seq<u32>
    decreases n,
{
    if n == 0 {
        x
    } else {
        double_round(double_rounds(x, (n - 1) as nat))
    }
}

/// The block of sixteen words that a state gives: twenty rounds, then the
/// state added word by word.
pub open spec fn block(state: Seq<u32>) -> Seq<u32> {
    Seq::new(16, |i: int| double_rounds(state, 10)[i].wrapping_add(state[i]))
}

/// The state with its block counter, the 64 bits of words 12 and 13, one higher.
pub open spec fn counted(state: Seq<u32>) -> Seq<u32> {
    let bumped = state.update(12, state[12].wrapping_add(1));
    if state[12] == u32::MAX {
        bumped.update(13, state[13].wrapping_add(1))
    } else {
        bumped
    }
}

/// The `k`-th state of the sequence that fills the key from a seed.
pub open spec fn key_mix(seed: u64, k: nat) -> u64
    decreases k,
{
    if k == 0 {
        seed
    } else {
        key_mix(seed, (k - 1) as nat).wrapping_mul(SPLITMIX_STEP).wrapping_add(1)
    }
}

/// The state that a seed and a nonce give, before the first block: the
/// constants "expand 32-byte k", the seed as the first two key words, six
/// key words mixed from the seed, the block counter at zero, the nonce.
pub open spec fn key_state(seed: u64, nonce: u64) -> Seq<u32> {
    Seq::new(
        16,
        |i: int|
            if i == 0 {
                0x61707865u32
            } else if i == 1 {
                0x3320646eu32
            } else if i == 2 {
                0x79622d32u32
            } else if i == 3 {
                0x6b206574u32
            } else if i == 4 {
                low32(seed)
            } else if i == 5 {
                low32(seed >> 32)
            } else if i < 12 {
                low32(key_mix(seed, (i - 5) as nat) ^ (key_mix(seed, (i - 5) as nat) >> 32))
            } else if i < 14 {
                0u32
            } else if i == 14 {
                low32(nonce)
            } else {
                low32(nonce >> 32)
            },
    )
}

/// The array that holds the sixteen words of `w`.
pub open spec fn words16(w: Seq<u32>) -> [u32; 16] {
    [
        w[0],
        w[1],
        w[2],
        w[3],
        w[4],
        w[5],
        w[6],
        w[7],
        w[8],
        w[9],
        w[10],
        w[11],
        w[12],
        w[13],
        w[14],
        w[15],
    ]
}

/// An array of sixteen words is the array of its words.
proof fn lemma_words16(a: [u32; 16])
    ensures
        words16(a@) == a,
{
    assert(words16(a@)@ =~= a@);
}

/// Does one quarter round in place.
pub fn quarter_round(x: &mut [u32; 16], a: usize, b: usize, c: usize, d: usize)
    requires
        a < 16,
        b < 16,
        c < 16,
        d < 16,
    ensures
        final(x)@ == quarter(old(x)@, a as int, b as int, c as int, d as int),
{
    x[a] = x[a].wrapping_add(x[b]);
    x[d] = rotate_left32(x[d] ^ x[a], 16);
    x[c] = x[c].wrapping_add(x[d]);
    x[b] = rotate_left32(x[b] ^ x[c], 12);
    x[a] = x[a].wrapping_add(x[b]);
    x[d] = rotate_left32(x[d] ^ x[a], 8);
    x[c] = x[c].wrapping_add(x[d]);
    x[b] = rotate_left32(x[b] ^ x[c], 7);
}

/// The ChaCha20 algorithm.
pub struct ChaCha20Rng {
    state: [u32; 16],
    buffer: [u32; 16],
    cursor: usize,
}

impl ChaCha20Rng {
    /// The sixteen words of the state.
    pub closed spec fn words(&self) -> Seq<u32> {
        self.state@
    }

    /// The block that samples are handed out from.
    pub closed spec fn buffered(&self) -> Seq<u32> {
        self.buffer@
    }

    /// How many words of the block were handed out.
    pub closed spec fn used(&self) -> nat {
        self.cursor as nat
    }

    /// Fills the buffer with the block of the state and steps the block counter.
    pub fn next_block(&mut self)
        ensures
            final(self).buffered() == block(old(self).words()),
            final(self).words() == counted(old(self).words()),
            final(self).used() == 0,
    {
        let mut x = self.state;
        let mut round: usize = 0;
        while round < 10
            invariant
                0 <= round <= 10,
                x@ == double_rounds(self.state@, round as nat),
            decreases 10 - round,
        {
            quarter_round(&mut x, 0, 4, 8, 12);
            quarter_round(&mut x, 1, 5, 9, 13);
            quarter_round(&mut x, 2, 6, 10, 14);
            quarter_round(&mut x, 3, 7, 11, 15);
            quarter_round(&mut x, 0, 5, 10, 15);
            quarter_round(&mut x, 1, 6, 11, 12);
            quarter_round(&mut x, 2, 7, 8, 13);
            quarter_round(&mut x, 3, 4, 9, 14);
            round += 1;
        }
        let mut i: usize = 0;
        while i < 16
            invariant
                0 <= i <= 16,
                self.state@ == old(self).state@,
                x@ == double_rounds(self.state@, 10),
                forall|j: int|
                    0 <= j < i ==> #[trigger] self.buffer@[j] == x@[j].wrapping_add(self.state@[j]),
            decreases 16 - i,
        {
            self.buffer[i] = x[i].wrapping_add(self.state[i]);
            i += 1;
        }
        proof {
            assert(self.buffer@ =~= block(old(self).state@));
        }
        let overflow = self.state[12] == u32::MAX;
        self.state[12] = self.state[12].wrapping_add(1);
        if overflow {
            self.state[13] = self.state[13].wrapping_add(1);
        }
        self.cursor = 0;
    }

    /// Seed the RNG with the given `u64` and the nonce of the stream.
    pub fn seed(&mut self, seed: u64, nonce: u64)
        ensures
            final(self).buffered() == block(key_state(seed, nonce)),
            final(self).words() == counted(key_state(seed, nonce)),
            final(self).used() == 0,
    {
        self.state[0] = 0x61707865;
        self.state[1] = 0x3320646e;
        self.state[2] = 0x79622d32;
        self.state[3] = 0x6b206574;
        self.state[4] = low_word(seed);
        self.state[5] = low_word(seed >> 32);
        let mut mix = seed;
        let mut i: usize = 6;
        while i < 12
            invariant
                6 <= i <= 12,
                mix == key_mix(seed, (i - 6) as nat),
                forall|j: int| 0 <= j < i ==> #[trigger] self.state@[j] == key_state(seed, nonce)[j],
            decreases 12 - i,
        {
            mix = mix.wrapping_mul(SPLITMIX_STEP).wrapping_add(1);
            self.state[i] = low_word(mix ^ (mix >> 32));
            i += 1;
        }
        self.state[12] = 0;
        self.state[13] = 0;
        self.state[14] = low_word(nonce);
        self.state[15] = low_word(nonce >> 32);
        proof {
            assert(self.state@ =~= key_state(seed, nonce));
        }
        self.next_block();
    }

    /// Create a new RNG with the given seed and nonce.
    pub fn new_seed_nonce(seed: u64, nonce: u64) -> (rng: Self)
        ensures
            rng.buffered() == block(key_state(seed, nonce)),
            rng.words() == counted(key_state(seed, nonce)),
            rng.used() == 0,
    {
        let mut rng = Self { state: [0;16], buffer: [0;16], cursor: 16 };
        rng.seed(seed, nonce);
        rng
    }
}

impl Rng for ChaCha20Rng {
    closed spec fn ready(&self) -> bool {
        self.cursor <= 16
    }

    closed spec fn output(&self) -> u32 {
        if self.cursor >= 16 {
            block(self.state@)[0]
        } else {
            self.buffer@[self.cursor as int]
        }
    }

    closed spec fn advanced(&self) -> Self {
        if self.cursor >= 16 {
            ChaCha20Rng {
                state: words16(counted(self.state@)),
                buffer: words16(block(self.state@)),
                cursor: 1,
            }
        } else {
            ChaCha20Rng { state: self.state, buffer: self.buffer, cursor: (self.cursor + 1) as usize }
        }
    }

    closed spec fn seeded(seed: u64) -> Self {
        ChaCha20Rng {
            state: words16(counted(key_state(seed, 0))),
            buffer: words16(block(key_state(seed, 0))),
            cursor: 0,
        }
    }

    /// The generator of the seed on the stream whose nonce is zero.
    fn new_seed(seed: u64) -> (rng: Self) {
        let rng = Self::new_seed_nonce(seed, 0);
        proof {
            lemma_words16(rng.state);
            lemma_words16(rng.buffer);
        }
        rng
    }

    fn generate(&mut self) -> (value: u32) {
        if self.cursor >= 16 {
            self.next_block();
        }
        let val = self.buffer[self.cursor];
        self.cursor += 1;
        proof {
            lemma_words16(self.state);
            lemma_words16(self.buffer);
        }
        val
    }
}

} // verus!
