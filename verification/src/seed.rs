//! Random seeds for IOTA Streams users: 81 characters out of the uppercase letters and `9`.
use vstd::prelude::*;
use rand::Rng;

verus! {

/// The characters a seed is made of.
pub const ALPH9: &'static str = "ABCDEFGHIJKLMNOPQRSTUVWXYZ9";

/// The number of characters of a seed.
pub const SEED_LENGTH: usize = 81;

/// `rand::Rng::gen_range` on the thread-local generator: a number in `low..high`, which
/// must not be empty. Which number comes out is left to chance.
#[verifier::external_body]
pub(crate) fn random_in_range(low: u64, high: u64) -> (r: u64)
    requires
        low < high,
    ensures
        low <= r < high,
{
    rand::thread_rng().gen_range(low, high)
}

/// The seed that the characters of `ALPH9` at `indices` spell.
pub open spec fn seed_for(indices: Seq<usize>) -> Seq<char> {
    Seq::new(indices.len(), |i: int| ALPH9@[indices[i] as int])
}

/// The seed spelled by the characters of `ALPH9` at `indices`, each below 27.
pub fn seed_from_indices(indices: &Vec<usize>) -> (r: String)
    requires
        forall|i: int| 0 <= i < indices@.len() ==> indices@[i] < 27,
    ensures
        r@ == seed_for(indices@),
{
    proof {
        reveal_strlit("ABCDEFGHIJKLMNOPQRSTUVWXYZ9");
    }
    let mut seed = String::new();
    let mut k: usize = 0;
    while k < indices.len()
        invariant
            k <= indices@.len(),
            ALPH9@.len() == 27,
            forall|i: int| 0 <= i < indices@.len() ==> indices@[i] < 27,
            seed@ == seed_for(indices@.subrange(0, k as int)),
        decreases indices@.len() - k,
    {
        let c = ALPH9.get_char(indices[k]);
        crate::text::string_push(&mut seed, c);
        k = k + 1;
        assert(seed@ =~= seed_for(indices@.subrange(0, k as int)));
    }
    assert(indices@.subrange(0, indices@.len() as int) =~= indices@);
    seed
}

/// A new random seed: 81 characters, each drawn from `ALPH9`.
pub fn create_seed() -> (r: String)
    ensures
        r@.len() == SEED_LENGTH,
        exists|indices: Seq<usize>| indices.len() == SEED_LENGTH
            && (forall|i: int| 0 <= i < SEED_LENGTH ==> #[trigger] indices[i] < 27)
            && r@ == seed_for(indices),
{
    let mut indices: Vec<usize> = Vec::new();
    let mut n: usize = 0;
    while n < SEED_LENGTH
        invariant
            n <= SEED_LENGTH,
            indices@.len() == n,
            forall|i: int| 0 <= i < indices@.len() ==> indices@[i] < 27,
        decreases SEED_LENGTH - n,
    {
        let idx = random_in_range(0, 27);
        indices.push(idx as usize);
        n = n + 1;
    }
    let seed = seed_from_indices(&indices);
    assert(seed@ == seed_for(indices@));
    seed
}

} // verus!
