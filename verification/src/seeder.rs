//! Deterministic random draws: one shared 32-byte entropy seed plus an integer
//! offset select a decorrelated sub-stream, and a draw is a pure function of
//! seed, offset and bounds.
use vstd::prelude::*;

verus! {

/// The value that a freshly seeded standard pseudo-random generator hands out
/// for a half-open range. It is a function of the seed bytes and the bounds
/// alone, which is what makes every draw replayable.
pub uninterp spec fn draw_of(seed: Seq<u8>, low: u16, high: u16) -> u16;

/// The seed rotated by `offset` bytes: the tail starting at `offset % len`
/// concatenated with the head before it.
pub open spec fn rotate_seed(seed: Seq<u8>, offset: nat) -> Seq<u8>
    recommends
        seed.len() > 0,
{
    let k = (offset % seed.len()) as int;
    seed.subrange(k, seed.len() as int) + seed.subrange(0, k)
}

/// Relies on `rand::rngs::StdRng` (a seeded ChaCha-based generator whose
/// output is a deterministic function of its 32-byte seed) and
/// `rand::Rng::gen_range`, which returns a value in `low..high` and panics
/// only on an empty range.
#[verifier::external_body]
fn seeded_draw(bytes: &Vec<u8>, low: u16, high: u16) -> (r: u16)
    requires
        bytes@.len() == 32,
        low < high,
    ensures
        r == draw_of(bytes@, low, high),
        low <= r < high,
{
    let seed: [u8; 32] = bytes.as_slice().try_into().unwrap();
    let mut rng = <rand::rngs::StdRng as rand::SeedableRng>::from_seed(seed);
    rand::Rng::gen_range(&mut rng, low..high)
}

/// Draw one value in `[low, high)` from the rotated seed. Identical
/// `(low, high, seed, offset)` always produce the identical value.
pub fn draw(low: u16, high: u16, seed: &[u8; 32], offset: usize) -> (r: u16)
    requires
        low < high,
    ensures
        r == draw_of(rotate_seed(seed@, offset as nat), low, high),
        low <= r < high,
{
    let k: usize = offset % 32;
    let mut rotated: Vec<u8> = Vec::new();
    let mut i: usize = 0;
    while i < 32
        invariant
            k < 32,
            i <= 32,
            rotated@.len() == i as int,
            forall|j: int|
                0 <= j < i as int ==> rotated@[j] == seed@[if j + k < 32 {
                    j + k
                } else {
                    j + k - 32
                }],
        decreases 32 - i,
    {
        let idx: usize = if i + k < 32 {
            i + k
        } else {
            i + k - 32
        };
        rotated.push(seed[idx]);
        i += 1;
    }
    proof {
        assert(seed@.len() == 32);
        assert(offset as nat % seed@.len() == (k as nat)) by {
            assert(offset % 32 == k);
        }
        assert(rotated@ =~= rotate_seed(seed@, offset as nat));
    }
    seeded_draw(&rotated, low, high)
}

/// Determinism law: a draw depends on nothing but the seed bytes, the
/// offset's rotation and the bounds, so replaying the same inputs replays
/// the same value — and offsets a whole seed length apart select the very
/// same sub-stream.
pub proof fn lemma_draw_deterministic(
    seed1: Seq<u8>,
    seed2: Seq<u8>,
    offset1: nat,
    offset2: nat,
    low: u16,
    high: u16,
)
    requires
        seed1 == seed2,
        seed1.len() > 0,
        offset1 % seed1.len() == offset2 % seed1.len(),
    ensures
        draw_of(rotate_seed(seed1, offset1), low, high) == draw_of(
            rotate_seed(seed2, offset2),
            low,
            high,
        ),
{
    assert(rotate_seed(seed1, offset1) == rotate_seed(seed2, offset2));
}

} // verus!
