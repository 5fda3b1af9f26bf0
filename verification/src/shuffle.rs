//! The seeded shuffle used to (re)populate the track queue.
//!
//! The player actor shuffles the full known track set at startup and on
//! every `Refill`. The shuffle repeatedly draws one remaining track,
//! without replacement, at an index taken from a linear-congruential
//! generator, so it is a pure function of the track list and the seed,
//! and it is proved to return a permutation of its input: the same
//! multiset of tracks, merely reordered.

use vstd::prelude::*;

verus! {

/// The multiplier of the linear-congruential step.
pub const LCG_MULTIPLIER: u64 = 6364136223846793005;

/// The increment of the linear-congruential step.
pub const LCG_INCREMENT: u64 = 1442695040888963407;

/// The successor of a generator state: a linear-congruential step
/// modulo 2^64.
pub open spec fn next_seed(s: u64) -> u64 {
    vstd::wrapping::u64_specs::wrapping_add(
        vstd::wrapping::u64_specs::wrapping_mul(s, LCG_MULTIPLIER),
        LCG_INCREMENT,
    )
}

/// Advances the pseudo-random generator by one step.
pub fn advance_seed(s: u64) -> (r: u64)
    ensures
        r == next_seed(s),
{
    s.wrapping_mul(LCG_MULTIPLIER).wrapping_add(LCG_INCREMENT)
}

/// The order in which a shuffle with the given seed emits the elements
/// of `s`: it repeatedly draws one remaining element, at an index taken
/// from the generator chain, until none is left.
pub open spec fn shuffle_spec(s: Seq<String>, seed: u64) -> Seq<String>
    decreases s.len(),
{
    if s.len() == 0 {
        Seq::empty()
    } else {
        let ns = next_seed(seed);
        let j = ns as int % s.len() as int;
        seq![s[j]] + shuffle_spec(s.remove(j), ns)
    }
}

/// A shuffle emits exactly the elements it was given: the output is a
/// permutation of the input, with the same multiset of tracks.
pub proof fn lemma_shuffle_permutes(s: Seq<String>, seed: u64)
    ensures
        shuffle_spec(s, seed).to_multiset() == s.to_multiset(),
    decreases s.len(),
{
    broadcast use vstd::seq_lib::group_to_multiset_ensures;

    if s.len() == 0 {
        assert(shuffle_spec(s, seed) =~= Seq::<String>::empty());
        assert(Seq::<String>::empty().to_multiset() =~= s.to_multiset());
    } else {
        let ns = next_seed(seed);
        let j = ns as int % s.len() as int;
        let rest = shuffle_spec(s.remove(j), ns);
        lemma_shuffle_permutes(s.remove(j), ns);
        vstd::seq_lib::to_multiset_insert(rest, 0, s[j]);
        assert(rest.insert(0, s[j]) =~= seq![s[j]] + rest);
        assert(s.remove(j).to_multiset() == s.to_multiset().remove(s[j]));
        assert(s.to_multiset().count(s[j]) > 0) by {
            assert(s.contains(s[j]));
        }
        assert(s.to_multiset().remove(s[j]).insert(s[j]) =~= s.to_multiset());
    }
}

/// A shuffle keeps the number of tracks unchanged.
pub proof fn lemma_shuffle_len(s: Seq<String>, seed: u64)
    ensures
        shuffle_spec(s, seed).len() == s.len(),
{
    lemma_shuffle_permutes(s, seed);
    vstd::seq_lib::to_multiset_len(shuffle_spec(s, seed));
    vstd::seq_lib::to_multiset_len(s);
}

/// Shuffles the given tracks with the given seed, returning them in the
/// order that [`shuffle_spec`] describes.
pub fn shuffle(tracks: Vec<String>, seed: u64) -> (r: Vec<String>)
    ensures
        r@ == shuffle_spec(tracks@, seed),
        r@.to_multiset() == tracks@.to_multiset(),
        r@.len() == tracks@.len(),
{
    let ghost orig = tracks@;
    let mut rest = tracks;
    let mut out: Vec<String> = Vec::new();
    let mut s = seed;
    while rest.len() > 0
        invariant
            out@ + shuffle_spec(rest@, s) == shuffle_spec(orig, seed),
        decreases rest.len(),
    {
        let ns = advance_seed(s);
        let j = (ns % (rest.len() as u64)) as usize;
        assert(j as int == ns as int % rest@.len() as int);
        let ghost before = rest@;
        let track = rest.remove(j);
        out.push(track);
        proof {
            assert(shuffle_spec(before, s) =~= seq![before[j as int]] + shuffle_spec(
                before.remove(j as int),
                ns,
            ));
            assert(out@ + shuffle_spec(rest@, ns) =~= shuffle_spec(orig, seed));
        }
        s = ns;
    }
    proof {
        assert(shuffle_spec(rest@, s) =~= Seq::<String>::empty());
        assert(out@ =~= shuffle_spec(orig, seed));
        lemma_shuffle_permutes(orig, seed);
        lemma_shuffle_len(orig, seed);
    }
    out
}

} // verus!
