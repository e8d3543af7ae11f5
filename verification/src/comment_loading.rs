//! Loading the folder's comments in the background. The folder scan leaves each file's comment
//! to load later; they are read in batches, one batch at a time. Opening another folder starts
//! a new run, and a batch of an older run is dropped when it comes back. A running batch job
//! pauses the loading until it ends.

use vstd::prelude::*;

verus! {

/// Files per batch: each costs about 20 ms cold, so a batch fills in the list about twice a
/// second.
pub const COMMENT_BATCH: usize = 32;

/// What to do with a batch of loaded comments.
#[derive(Debug, Clone, Copy, PartialEq, Eq, Structural)]
pub enum LoadedBatch {
    /// It belongs to an older run, or is empty: drop it.
    Drop,
    /// Put the comments in the list; `load_more`: ask for the next batch now (not while a
    /// batch job runs).
    Apply { load_more: bool },
}

/// The current run of comment loading, by number.
#[derive(Debug, Clone, Copy, Default)]
pub struct CommentLoading {
    generation: u64,
}

impl View for CommentLoading {
    type V = u64;

    closed spec fn view(&self) -> u64 {
        self.generation
    }
}

/// The first `n` of `ids`, or all of them.
pub open spec fn first_ids(ids: Seq<u64>, n: nat) -> Seq<u64> {
    if ids.len() <= n { ids } else { ids.take(n as int) }
}

/// What to do with a batch of `results` comments loaded in run `generation`, while the current
/// run is `current`.
pub open spec fn loaded_batch(current: u64, generation: u64, results: nat, batch_running: bool) -> LoadedBatch {
    if generation != current || results == 0 {
        LoadedBatch::Drop
    } else {
        LoadedBatch::Apply { load_more: !batch_running }
    }
}

impl CommentLoading {
    /// No run yet.
    pub fn new() -> (loading: Self)
        ensures
            loading@ == 0,
    {
        CommentLoading { generation: 0 }
    }

    /// A folder was opened: a new run, which drops any batch still on its way.
    pub fn start(&mut self)
        requires
            old(self)@ < u64::MAX,
        ensures
            final(self)@ == old(self)@ + 1,
    {
        self.generation = self.generation + 1;
    }

    /// The next batch to load from the files whose comment is still `loading` (in list
    /// order): the first [`COMMENT_BATCH`] of them, with the run's number; `None` when none is
    /// left.
    pub fn next_batch(&self, loading: &[u64]) -> (batch: Option<(u64, Vec<u64>)>)
        ensures
            loading@.len() == 0 ==> batch is None,
            loading@.len() > 0 ==> (batch matches Some((g, ids)) && g == self@
                && ids@ == first_ids(loading@, COMMENT_BATCH as nat)),
    {
        if loading.len() == 0 {
            return None;
        }
        let n = if loading.len() < COMMENT_BATCH { loading.len() } else { COMMENT_BATCH };
        let mut ids: Vec<u64> = Vec::new();
        let mut i: usize = 0;
        while i < n
            invariant
                n <= loading@.len(),
                n == (if loading@.len() < COMMENT_BATCH { loading@.len() } else { COMMENT_BATCH as nat }),
                i <= n,
                ids@ == loading@.take(i as int),
            decreases n - i,
        {
            ids.push(loading[i]);
            proof {
                assert(loading@.take(i + 1) =~= loading@.take(i as int).push(loading@[i as int]));
            }
            i = i + 1;
        }
        proof {
            if loading@.len() <= COMMENT_BATCH {
                assert(loading@.take(n as int) =~= loading@);
            }
        }
        Some((self.generation, ids))
    }

    /// A batch of `results` comments loaded in run `generation` came back.
    pub fn batch_loaded(&self, generation: u64, results: usize, batch_running: bool) -> (then: LoadedBatch)
        ensures
            then == loaded_batch(self@, generation, results as nat, batch_running),
    {
        if generation != self.generation || results == 0 {
            LoadedBatch::Drop
        } else {
            LoadedBatch::Apply { load_more: !batch_running }
        }
    }
}

/// A batch asked for before another folder was opened is dropped when it comes back.
pub proof fn law_a_batch_of_an_older_folder_is_dropped(current: u64, generation: u64, results: nat, batch_running: bool)
    requires
        generation < current,
    ensures
        loaded_batch(current, generation, results, batch_running) == LoadedBatch::Drop,
{
}

} // verus!
