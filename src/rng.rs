//! A four-word xorshift-family pseudo-random generator.
use vstd::prelude::*;

verus! {

/// The seed a game session starts from.
pub const SEED: [u32; 4] = [1014776995, 476057059, 3301633994, 706340607];

/// `x` rotated left by `k` bits, for `0 < k < 32`.
pub open spec fn rotl(x: u32, k: u32) -> u32 {
    ((x << k) | (x >> (32 - k) as u32)) as u32
}

/// The value `next` returns from state `s`.
pub open spec fn next_output(s: Seq<u32>) -> i32 {
    (rotl(s[0].wrapping_add(s[3]), 7).wrapping_mul(9)) as i32
}

/// The state that `next` leaves behind from state `s`.
pub open spec fn next_state(s: Seq<u32>) -> Seq<u32> {
    let t = s[1] >> 9u32;
    let s2 = s[2] ^ s[0];
    let s3 = s[3] ^ s[1];
    let s1 = s[1] ^ s2;
    let s0 = s[0] ^ s3;
    seq![s0, s1, s2 ^ t, rotl(s3, 11)]
}

/// The state after `k` draws from state `s`.
pub open spec fn state_after(s: Seq<u32>, k: nat) -> Seq<u32>
    decreases k,
{
    if k == 0 {
        s
    } else {
        next_state(state_after(s, (k - 1) as nat))
    }
}

/// The value of draw number `k` (from zero) from state `s`.
pub open spec fn draw(s: Seq<u32>, k: nat) -> i32 {
    next_output(state_after(s, k))
}

fn rotate_left(x: u32, k: u32) -> (r: u32)
    requires
        0 < k < 32,
    ensures
        r == rotl(x, k),
{
    (x << k) | (x >> (32 - k))
}

/// The generator: four words of state, advanced on every draw.
#[derive(Clone, Copy, Debug)]
pub struct RandomNumberGenerator {
    pub state: [u32; 4],
}

impl RandomNumberGenerator {
    /// A generator that starts from `state`.
    pub fn new(state: [u32; 4]) -> (r: Self)
        ensures
            r.state@ == state@,
    {
        RandomNumberGenerator { state }
    }

    /// A generator that starts from the session seed.
    pub fn seeded() -> (r: Self)
        ensures
            r.state@ == SEED@,
    {
        RandomNumberGenerator { state: SEED }
    }

    /// Advances the state and returns the next 32-bit value.
    pub fn next(&mut self) -> (r: i32)
        ensures
            r == next_output(old(self).state@),
            final(self).state@ == next_state(old(self).state@),
    {
        let s0 = self.state[0];
        let s1 = self.state[1];
        let s2 = self.state[2];
        let s3 = self.state[3];
        let result = rotate_left(s0.wrapping_add(s3), 7).wrapping_mul(9);
        let t = s1 >> 9u32;

        let s2 = s2 ^ s0;
        let s3 = s3 ^ s1;
        let s1 = s1 ^ s2;
        let s0 = s0 ^ s3;

        let s2 = s2 ^ t;
        let s3 = rotate_left(s3, 11);

        self.state = [s0, s1, s2, s3];
        assert(self.state@ =~= next_state(old(self).state@));
        result as i32
    }
}

} // verus!
