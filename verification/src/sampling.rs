//! Random draws for training: a uniformly shuffled block of samples and
//! small uniform integers, built around the rand crate. The draws
//! themselves are trusted calls; everything stated about the results
//! holds of every outcome the generator can produce.

use vstd::prelude::*;

use rand::seq::SliceRandom;
use rand::Rng;

use crate::data::{copy_sample, Data, DataSingle};

verus! {

/// Relies on rand's `SliceRandom::shuffle`: a Fisher-Yates pass that only
/// swaps elements in place, so the result holds exactly the same values,
/// reordered.
#[verifier::external_body]
fn shuffle_indices(v: &mut Vec<usize>)
    ensures
        final(v)@.len() == old(v)@.len(),
        final(v)@.to_multiset() == old(v)@.to_multiset(),
{
    let mut rng = rand::thread_rng();
    v.shuffle(&mut rng);
}

/// Relies on rand's `Uniform` distribution sampled through `Rng::sample`:
/// an integer drawn from the half-open range `[low, high)`;
/// `Uniform::new` demands `low < high`.
#[verifier::external_body]
fn sample_uniform_u8(low: u8, high: u8) -> (r: u8)
    requires
        low < high,
    ensures
        low <= r < high,
{
    let mut rng = rand::thread_rng();
    rng.sample(rand::distributions::Uniform::new(low, high))
}

/// Draw `size` samples from the data without repetition of positions: the
/// positions are shuffled uniformly and the first `size` of them are
/// copied out. Every returned sample is one of the data's samples.
pub fn get_sample_block(data: &Data, size: usize) -> (r: Vec<DataSingle>)
    requires
        size <= data@.len(),
    ensures
        r@.len() == size,
        forall|i: int| 0 <= i < size ==> data@.contains(#[trigger] r@[i]@),
        exists|picks: Seq<int>|
            #![auto]
            picks.len() == size && picks.no_duplicates() && (forall|i: int|
                0 <= i < size ==> 0 <= picks[i] < data@.len() && r@[i]@ == data@[picks[i]]),
{
    broadcast use vstd::seq_lib::group_to_multiset_ensures;

    let n = data.data.len();
    let mut idx: Vec<usize> = Vec::new();
    let mut k: usize = 0;
    while k < n
        invariant
            k <= n,
            idx@.len() == k,
            forall|j: int| 0 <= j < k ==> #[trigger] idx@[j] == j,
        decreases n - k,
    {
        idx.push(k);
        k = k + 1;
    }
    let ghost ordered = idx@;
    shuffle_indices(&mut idx);
    proof {
        assert forall|j: int| 0 <= j < idx@.len() implies #[trigger] idx@[j] < n by {
            assert(idx@.contains(idx@[j]));
            assert(idx@.to_multiset().count(idx@[j]) > 0);
            assert(ordered.to_multiset().count(idx@[j]) > 0);
            assert(ordered.contains(idx@[j]));
            let w = choose|w: int| 0 <= w < ordered.len() && ordered[w] == idx@[j];
            assert(ordered[w] == w);
        }
        // The shuffled positions are still pairwise distinct.
        assert(ordered.no_duplicates());
        ordered.lemma_multiset_has_no_duplicates();
        idx@.lemma_multiset_has_no_duplicates_conv();
        assert(idx@.no_duplicates());
    }
    let mut r: Vec<DataSingle> = Vec::new();
    let mut i: usize = 0;
    while i < size
        invariant
            i <= size,
            size <= data@.len(),
            data@.len() == data.data@.len(),
            idx@.len() == data.data@.len(),
            idx@.no_duplicates(),
            forall|j: int| 0 <= j < idx@.len() ==> #[trigger] idx@[j] < data.data@.len(),
            r@.len() == i,
            forall|j: int| 0 <= j < i ==> #[trigger] r@[j]@ == data@[idx@[j] as int],
            forall|j: int| 0 <= j < i ==> data@.contains(#[trigger] r@[j]@),
        decreases size - i,
    {
        let which = idx[i];
        let s = copy_sample(&data.data[which]);
        proof {
            assert(data@[which as int] == data.data@[which as int]@);
            assert(data@.contains(s@));
        }
        r.push(s);
        i = i + 1;
    }
    proof {
        let picks = Seq::new(size as nat, |i: int| idx@[i] as int);
        assert(picks.no_duplicates()) by {
            assert forall|a: int, b: int|
                0 <= a < picks.len() && 0 <= b < picks.len() && a != b implies picks[a]
                != picks[b] by {
                assert(idx@[a] != idx@[b]);
            }
        }
        assert(picks.len() == size && picks.no_duplicates() && (forall|i: int|
            0 <= i < size ==> 0 <= #[trigger] picks[i] < data@.len() && r@[i]@
                == data@[picks[i]]));
    }
    r
}

/// An `m` by `h` block of uniformly drawn digits, each below ten.
pub fn random_int(m: u32, h: u32) -> (r: Vec<Vec<u8>>)
    ensures
        r@.len() == m,
        forall|i: int| 0 <= i < m ==> #[trigger] r@[i]@.len() == h,
        forall|i: int, j: int| 0 <= i < m && 0 <= j < h ==> #[trigger] r@[i]@[j] < 10,
{
    let mut r: Vec<Vec<u8>> = Vec::new();
    let mut i: u32 = 0;
    while i < m
        invariant
            i <= m,
            r@.len() == i,
            forall|k: int| 0 <= k < i ==> #[trigger] r@[k]@.len() == h,
            forall|k: int, j: int| 0 <= k < i && 0 <= j < h ==> #[trigger] r@[k]@[j] < 10,
        decreases m - i,
    {
        let mut row: Vec<u8> = Vec::new();
        let mut j: u32 = 0;
        while j < h
            invariant
                j <= h,
                row@.len() == j,
                forall|t: int| 0 <= t < j ==> #[trigger] row@[t] < 10,
            decreases h - j,
        {
            row.push(sample_uniform_u8(0, 10));
            j = j + 1;
        }
        r.push(row);
        i = i + 1;
    }
    r
}

} // verus!
