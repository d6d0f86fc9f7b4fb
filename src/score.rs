//! The running score: frames converted to whole seconds, and its decimal
//! digits laid out for a ten-tile display row.
use vstd::prelude::*;

verus! {

/// Frames per unit of score.
pub const FRAMES_PER_POINT: u32 = 60;

/// Tiles in the score row.
pub const SCORE_TILES: usize = 10;

/// The decimal digits of `n`, least significant first; zero has one digit.
pub open spec fn digits(n: nat) -> Seq<u8>
    decreases n,
{
    if n < 10 {
        seq![n as u8]
    } else {
        seq![(n % 10) as u8].add(digits(n / 10))
    }
}

/// The score shown after `frames` frames.
pub open spec fn score_of(frames: u32) -> u32 {
    frames / FRAMES_PER_POINT
}

/// Ten to the power `k`.
pub open spec fn pow10(k: nat) -> nat
    decreases k,
{
    if k == 0 {
        1
    } else {
        10 * pow10((k - 1) as nat)
    }
}

proof fn lemma_digits_len(n: nat, k: nat)
    requires
        k >= 1,
        n < pow10(k),
    ensures
        1 <= digits(n).len() <= k,
    decreases n,
{
    if n >= 10 {
        if k == 1 {
            assert(pow10(1) == 10) by {
                reveal_with_fuel(pow10, 2);
            }
        } else {
            lemma_digits_len(n / 10, (k - 1) as nat);
        }
    }
}

/// A `u32` has at most ten decimal digits.
proof fn lemma_u32_digits(n: u32)
    ensures
        1 <= digits(n as nat).len() <= SCORE_TILES,
{
    assert(pow10(10) == 10000000000) by {
        reveal_with_fuel(pow10, 11);
    }
    lemma_digits_len(n as nat, 10);
}

/// The decimal digits of `n`, least significant first; zero yields one zero.
pub fn num_digits_iter(n: u32) -> (r: Vec<u8>)
    ensures
        r@ == digits(n as nat),
{
    let mut out: Vec<u8> = Vec::new();
    let mut m = n;
    while m >= 10
        invariant
            out@.add(digits(m as nat)) == digits(n as nat),
        decreases m,
    {
        out.push((m % 10) as u8);
        proof {
            assert(digits(m as nat) == seq![(m % 10) as u8].add(digits((m / 10) as nat)));
            assert(out@.add(digits((m / 10) as nat)) =~= out@.drop_last().add(digits(m as nat)));
        }
        m = m / 10;
    }
    out.push(m as u8);
    proof {
        assert(out@ =~= out@.drop_last().add(digits(m as nat)));
    }
    out
}

/// The tiles of the score row: tile `i` holds one more than the digit it shows.
#[derive(Clone, Copy, Debug)]
pub struct ScoreDisplay {
    pub map: [u16; 10],
}

impl ScoreDisplay {
    /// A row of blank tiles.
    pub fn new() -> (r: ScoreDisplay)
        ensures
            forall|i: int| 0 <= i < SCORE_TILES ==> #[trigger] r.map@[i] == 0,
    {
        ScoreDisplay { map: [0u16; 10] }
    }

    /// Writes `score` most significant digit first from the left, as tiles
    /// `digit + 1`, leaves the tiles after it as they were, and returns how
    /// many digits it wrote.
    pub fn set_score(&mut self, score: u32) -> (r: u32)
        ensures
            r == digits(score as nat).len(),
            r <= SCORE_TILES,
            forall|i: int|
                0 <= i < r ==> #[trigger] final(self).map@[i] == digits(score as nat)[r - 1 - i]
                    + 1,
            forall|i: int| r <= i < SCORE_TILES ==> #[trigger] final(self).map@[i] == old(self).map@[i],
    {
        proof {
            lemma_u32_digits(score);
        }
        let ds = num_digits_iter(score);
        let length = ds.len();
        let mut index: usize = 0;
        while index < length
            invariant
                length == ds@.len(),
                ds@ == digits(score as nat),
                1 <= length <= SCORE_TILES,
                index <= length,
                forall|i: int|
                    length - index <= i < length ==> #[trigger] self.map@[i] == ds@[length - 1
                        - i] + 1,
                forall|i: int| 0 <= i < length - index ==> #[trigger] self.map@[i] == old(self).map@[i],
                forall|i: int| length <= i < SCORE_TILES ==> #[trigger] self.map@[i] == old(self).map@[i],
            decreases length - index,
        {
            let digit = ds[index];
            self.map[length - index - 1] = (digit as u16) + 1;
            index = index + 1;
        }
        length as u32
    }
}

} // verus!
