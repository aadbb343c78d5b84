//! Edit distances of many pairs at once, computed on a worker pool and
//! returned in the order of the pairs.

use vstd::prelude::*;
use rayon::prelude::{IntoParallelRefIterator, ParallelIterator};
use rayon::ThreadPool;
use crate::pool::{BatchError, PoolCache};
use crate::text::{levenshtein, text_distance};

verus! {

/// `r` holds, position by position, the distance of each pair.
pub open spec fn distances_of(
    pairs: Seq<(String, String)>,
    grapheme_segmentation: bool,
    r: Seq<usize>,
) -> bool {
    &&& r.len() == pairs.len()
    &&& forall|i: int|
        0 <= i < pairs.len() ==> #[trigger] r[i] == text_distance(
            pairs[i].0@,
            pairs[i].1@,
            grapheme_segmentation,
        )
}

/// A batch result agrees with the single-pair distance at every position:
/// entry `i` is the distance of pair `i`, under the same segmentation.
pub proof fn lemma_batch_matches_single(
    pairs: Seq<(String, String)>,
    grapheme_segmentation: bool,
    r: Seq<usize>,
    i: int,
)
    requires
        distances_of(pairs, grapheme_segmentation, r),
        0 <= i < pairs.len(),
    ensures
        0 <= i < r.len(),
        r[i] == text_distance(pairs[i].0@, pairs[i].1@, grapheme_segmentation),
{
}

/// Two successful batches over the same pairs in another order agree pair by
/// pair: when `permuted[i]` is `pairs[perm[i]]`, entry `i` of the second
/// result is entry `perm[i]` of the first, whatever order the work finished in.
pub proof fn lemma_batch_order_follows_input(
    pairs: Seq<(String, String)>,
    perm: Seq<int>,
    permuted: Seq<(String, String)>,
    grapheme_segmentation: bool,
    v: Seq<usize>,
    w: Seq<usize>,
)
    requires
        perm.len() == pairs.len(),
        permuted.len() == pairs.len(),
        forall|i: int| 0 <= i < perm.len() ==> 0 <= #[trigger] perm[i] < pairs.len(),
        forall|i: int| 0 <= i < perm.len() ==> #[trigger] permuted[i] == pairs[perm[i]],
        distances_of(pairs, grapheme_segmentation, v),
        distances_of(permuted, grapheme_segmentation, w),
    ensures
        w.len() == v.len(),
        forall|i: int| 0 <= i < w.len() ==> #[trigger] w[i] == v[perm[i]],
{
    assert forall|i: int| 0 <= i < w.len() implies #[trigger] w[i] == v[perm[i]] by {
        assert(permuted[i] == pairs[perm[i]]);
    }
}

/// Relies on `ThreadPool::install` and rayon's `par_iter().map().collect()`:
/// each pair is measured on `pool`'s workers by `levenshtein`, and collecting
/// an indexed parallel iterator keeps the order of the input.
#[verifier::external_body]
fn distances_on(pool: &ThreadPool, pairs: &Vec<(String, String)>, grapheme_segmentation: bool) -> (r: Vec<usize>)
    ensures
        distances_of(pairs@, grapheme_segmentation, r@),
{
    pool.install(
        || pairs.par_iter().map(|(a, b)| levenshtein(a, b, grapheme_segmentation)).collect(),
    )
}

/// The distance of every pair, in the order of `pairs`, computed in parallel.
/// With `num_threads` the pool of that many workers is taken from `cache`
/// (and built on first use); without it the cache's default pool, sized to
/// the available parallelism, is used. An empty batch is answered at once; a
/// worker count of zero is refused; a pool that cannot be built is reported.
pub fn levenshtein_batch(
    cache: &PoolCache,
    pairs: Vec<(String, String)>,
    num_threads: Option<usize>,
    grapheme_segmentation: bool,
) -> (r: Result<Vec<usize>, BatchError>)
    ensures
        pairs@.len() == 0 ==> r is Ok && r->Ok_0@.len() == 0,
        (r is Err && r->Err_0 is InvalidArgument) <==> (pairs@.len() > 0 && num_threads == Some(
            0usize,
        )),
        r is Err ==> pairs@.len() > 0,
        r is Err && num_threads != Some(0usize) ==> r->Err_0 is PoolConstruction,
        r is Ok ==> distances_of(pairs@, grapheme_segmentation, r->Ok_0@),
{
    if pairs.len() == 0 {
        return Ok(Vec::new());
    }
    if let Some(threads) = num_threads {
        if threads == 0 {
            return Err(BatchError::InvalidArgument);
        }
    }
    let resolved = match num_threads {
        Some(threads) => cache.get_or_create_pool(threads),
        None => cache.get_or_create_default_pool(),
    };
    match resolved {
        Ok(pool) => Ok(distances_on(&pool, &pairs, grapheme_segmentation)),
        Err(e) => Err(e),
    }
}

} // verus!
