//! Deduplication of a re-polled, always-growing event log.
//!
//! The upstream source returns the entire event log on every poll, so the same
//! sequence id may be seen many times. The watermark remembers the highest id
//! already processed and classifies each freshly polled id as new or stale.

use vstd::prelude::*;

verus! {

/// Outcome of offering one event id to the watermark.
#[derive(Debug, Clone, Copy, PartialEq, Eq, Structural)]
pub enum AdmitOutcome {
    /// The id has not been processed yet.
    New,
    /// The id is at or below the watermark and must be skipped.
    Stale,
}

/// The ids of `batch` that are new relative to the watermark `mark`,
/// in batch order.
pub open spec fn fresh_ids(mark: Option<int>, batch: Seq<i64>) -> Seq<i64>
    decreases batch.len(),
{
    if batch.len() == 0 {
        Seq::empty()
    } else {
        let rest = fresh_ids(mark, batch.drop_last());
        if stale_under(mark, batch.last() as int) {
            rest
        } else {
            rest.push(batch.last())
        }
    }
}

/// Whether `id` is stale under the watermark value `mark`.
/// An empty watermark makes every id fresh.
pub open spec fn stale_under(mark: Option<int>, id: int) -> bool {
    match mark {
        Some(m) => id <= m,
        None => false,
    }
}

/// The watermark after absorbing every id of `batch`:
/// the maximum of the old value and all batch ids, or the old value
/// when the batch is empty.
pub open spec fn absorbed_mark(mark: Option<int>, batch: Seq<i64>) -> Option<int>
    decreases batch.len(),
{
    if batch.len() == 0 {
        mark
    } else {
        let rest = absorbed_mark(mark, batch.drop_last());
        match rest {
            Some(m) => Some(if batch.last() as int > m { batch.last() as int } else { m }),
            None => Some(batch.last() as int),
        }
    }
}

/// Tracks the highest event sequence id already processed.
///
/// Created empty at session start and never persisted, so a restart
/// legitimately re-observes every event once.
#[derive(Debug, Clone, Copy)]
pub struct EventWatermark {
    mark: Option<i64>,
}

impl EventWatermark {
    /// The watermark value, or `None` while no event has been processed.
    pub closed spec fn mark_spec(&self) -> Option<int> {
        match self.mark {
            Some(m) => Some(m as int),
            None => None,
        }
    }

    /// An id is stale when it is at or below the current watermark.
    pub open spec fn is_stale(&self, id: int) -> bool {
        stale_under(self.mark_spec(), id)
    }

    /// Creates an empty watermark: every id is classified as new.
    pub fn new() -> (r: Self)
        ensures
            r.mark_spec() is None,
    {
        EventWatermark { mark: None }
    }

    /// Classifies an event id against the watermark without changing it.
    pub fn classify(&self, id: i64) -> (r: AdmitOutcome)
        ensures
            r == AdmitOutcome::Stale <==> self.is_stale(id as int),
            r == AdmitOutcome::New <==> !self.is_stale(id as int),
    {
        match self.mark {
            Some(m) => {
                if id <= m {
                    AdmitOutcome::Stale
                } else {
                    AdmitOutcome::New
                }
            }
            None => AdmitOutcome::New,
        }
    }

    /// Raises the watermark to at least `id`; never lowers it.
    pub fn advance(&mut self, id: i64)
        ensures
            final(self).mark_spec() == Some(
                match old(self).mark_spec() {
                    Some(m) => if id as int > m { id as int } else { m },
                    None => id as int,
                },
            ),
    {
        match self.mark {
            Some(m) => {
                if id > m {
                    self.mark = Some(id);
                }
            }
            None => {
                self.mark = Some(id);
            }
        }
    }

    /// Runs one poll cycle over a full batch of ids: returns the ids that are
    /// new relative to the watermark as it stood before the batch, in batch
    /// order, and advances the watermark to the maximum of all of them.
    ///
    /// The whole batch is classified against the pre-batch watermark, so the
    /// order of ids inside one batch does not influence which are kept.
    pub fn process_batch(&mut self, batch: &Vec<i64>) -> (fresh: Vec<i64>)
        ensures
            fresh@ == fresh_ids(old(self).mark_spec(), batch@),
            final(self).mark_spec() == absorbed_mark(
                old(self).mark_spec(),
                fresh_ids(old(self).mark_spec(), batch@),
            ),
    {
        let mut fresh: Vec<i64> = Vec::new();
        let mut i: usize = 0;
        let ghost mark0 = self.mark_spec();
        while i < batch.len()
            invariant
                i <= batch.len(),
                self.mark_spec() == mark0,
                fresh@ == fresh_ids(mark0, batch@.subrange(0, i as int)),
            decreases batch.len() - i,
        {
            let id = batch[i];
            proof {
                assert(batch@.subrange(0, i + 1).drop_last() =~= batch@.subrange(0, i as int));
            }
            match self.classify(id) {
                AdmitOutcome::New => {
                    fresh.push(id);
                }
                AdmitOutcome::Stale => {}
            }
            i = i + 1;
        }
        proof {
            assert(batch@.subrange(0, batch@.len() as int) =~= batch@);
        }
        let mut j: usize = 0;
        while j < fresh.len()
            invariant
                j <= fresh.len(),
                fresh@ == fresh_ids(mark0, batch@),
                self.mark_spec() == absorbed_mark(mark0, fresh@.subrange(0, j as int)),
            decreases fresh.len() - j,
        {
            proof {
                assert(fresh@.subrange(0, j + 1).drop_last() =~= fresh@.subrange(0, j as int));
            }
            self.advance(fresh[j]);
            j = j + 1;
        }
        proof {
            assert(fresh@.subrange(0, fresh@.len() as int) =~= fresh@);
        }
        fresh
    }
}

/// Absorbing ids never lowers a watermark, and a non-empty absorption covers
/// every absorbed id.
proof fn lemma_absorbed_mark_bounds(mark: Option<int>, batch: Seq<i64>)
    ensures
        mark is Some ==> absorbed_mark(mark, batch) is Some
            && absorbed_mark(mark, batch)->0 >= mark->0,
        forall|k: int|
            0 <= k < batch.len() ==> absorbed_mark(mark, batch) is Some
                && absorbed_mark(mark, batch)->0 >= #[trigger] (batch[k] as int),
    decreases batch.len(),
{
    if batch.len() > 0 {
        lemma_absorbed_mark_bounds(mark, batch.drop_last());
        assert(forall|k: int| 0 <= k < batch.len() - 1 ==> batch[k] == batch.drop_last()[k]);
    }
}

/// Every id of a fresh subsequence is strictly above the old watermark.
proof fn lemma_fresh_ids_above_mark(mark: Option<int>, batch: Seq<i64>)
    ensures
        forall|k: int|
            0 <= k < fresh_ids(mark, batch).len() ==> !stale_under(
                mark,
                #[trigger] (fresh_ids(mark, batch)[k] as int),
            ),
    decreases batch.len(),
{
    if batch.len() > 0 {
        lemma_fresh_ids_above_mark(mark, batch.drop_last());
        let rest = fresh_ids(mark, batch.drop_last());
        if !stale_under(mark, batch.last() as int) {
            assert(fresh_ids(mark, batch) == rest.push(batch.last()));
            assert(forall|k: int|
                0 <= k < rest.len() ==> fresh_ids(mark, batch)[k] == #[trigger] rest[k]);
        }
    }
}

/// Watermark monotonicity: after a batch is processed, every id at or below
/// the pre-batch watermark stays stale, the new watermark is no lower than the
/// old one, and every id that the batch classified as new is now at or below
/// the watermark — the watermark has become the maximum of everything
/// processed so far.
pub proof fn lemma_watermark_monotone(mark: Option<int>, batch: Seq<i64>)
    ensures
        forall|id: int| stale_under(mark, id) ==> stale_under(
            absorbed_mark(mark, fresh_ids(mark, batch)),
            id,
        ),
        forall|k: int|
            0 <= k < fresh_ids(mark, batch).len() ==> stale_under(
                absorbed_mark(mark, fresh_ids(mark, batch)),
                #[trigger] (fresh_ids(mark, batch)[k] as int),
            ),
{
    lemma_absorbed_mark_bounds(mark, fresh_ids(mark, batch));
}

/// The watermark after a whole run of poll batches, each processed against
/// the watermark the previous batches left behind.
pub open spec fn mark_after(mark: Option<int>, batches: Seq<Seq<i64>>) -> Option<int>
    decreases batches.len(),
{
    if batches.len() == 0 {
        mark
    } else {
        mark_after(
            absorbed_mark(mark, fresh_ids(mark, batches[0])),
            batches.drop_first(),
        )
    }
}

/// Whether `id` is classified as new in some batch of the run, against the
/// watermark as it stands when that batch is processed.
pub open spec fn admitted_in_run(mark: Option<int>, batches: Seq<Seq<i64>>, id: i64) -> bool
    decreases batches.len(),
{
    if batches.len() == 0 {
        false
    } else {
        let first_fresh = fresh_ids(mark, batches[0]);
        (exists|k: int| 0 <= k < first_fresh.len() && first_fresh[k] == id) || admitted_in_run(
            absorbed_mark(mark, first_fresh),
            batches.drop_first(),
            id,
        )
    }
}

/// Absorbing a batch either leaves the watermark alone or raises it to one
/// of the batch's own ids: the maximum is attained.
proof fn lemma_absorbed_mark_attained(mark: Option<int>, batch: Seq<i64>)
    ensures
        absorbed_mark(mark, batch) == mark || exists|k: int|
            0 <= k < batch.len() && absorbed_mark(mark, batch) == Some(#[trigger] batch[k] as int),
    decreases batch.len(),
{
    if batch.len() > 0 {
        lemma_absorbed_mark_attained(mark, batch.drop_last());
        let rest = absorbed_mark(mark, batch.drop_last());
        if absorbed_mark(mark, batch) != rest {
            assert(absorbed_mark(mark, batch) == Some(batch.last() as int));
            assert(batch[batch.len() - 1] == batch.last());
        } else if rest != mark {
            let k = choose|k: int|
                0 <= k < batch.drop_last().len() && rest == Some(
                    #[trigger] batch.drop_last()[k] as int,
                );
            assert(batch[k] == batch.drop_last()[k]);
        }
    }
}

/// Watermark equals the maximum of everything ever admitted: over any run
/// of poll batches, the final watermark never sinks below where it started,
/// every id some batch admitted as new lies at or below it, and whenever it
/// moved at all its value is itself one of the admitted ids — the watermark
/// is exactly the maximum id of all events ever admitted as new.
pub proof fn lemma_watermark_equals_admitted_max(mark: Option<int>, batches: Seq<Seq<i64>>)
    ensures
        mark is Some ==> mark_after(mark, batches) is Some && mark_after(mark, batches)->0
            >= mark->0,
        forall|id: i64|
            admitted_in_run(mark, batches, id) ==> stale_under(
                mark_after(mark, batches),
                id as int,
            ),
        mark_after(mark, batches) != mark ==> exists|id: i64|
            admitted_in_run(mark, batches, id) && mark_after(mark, batches) == Some(id as int),
    decreases batches.len(),
{
    if batches.len() > 0 {
        let first_fresh = fresh_ids(mark, batches[0]);
        let mark1 = absorbed_mark(mark, first_fresh);
        let rest = batches.drop_first();
        lemma_absorbed_mark_bounds(mark, first_fresh);
        lemma_absorbed_mark_attained(mark, first_fresh);
        lemma_watermark_equals_admitted_max(mark1, rest);
        let result = mark_after(mark, batches);
        assert(result == mark_after(mark1, rest));

        // every admitted id stays at or below the final watermark
        assert forall|id: i64|
            admitted_in_run(mark, batches, id) implies stale_under(result, id as int) by {
            if exists|k: int| 0 <= k < first_fresh.len() && first_fresh[k] == id {
                let k = choose|k: int| 0 <= k < first_fresh.len() && first_fresh[k] == id;
                assert(mark1 is Some && mark1->0 >= first_fresh[k] as int);
                assert(stale_under(mark1, id as int));
                assert(result is Some && result->0 >= mark1->0);
            } else {
                assert(admitted_in_run(mark1, rest, id));
                assert(stale_under(mark_after(mark1, rest), id as int));
            }
        }

        // when the watermark moved, it sits on an admitted id
        if result != mark {
            if result == mark1 {
                assert(mark1 != mark);
                let k = choose|k: int|
                    0 <= k < first_fresh.len() && mark1 == Some(
                        #[trigger] first_fresh[k] as int,
                    );
                let id = first_fresh[k];
                assert(admitted_in_run(mark, batches, id));
            } else {
                assert(mark_after(mark1, rest) != mark1);
                let id = choose|id: i64|
                    admitted_in_run(mark1, rest, id) && mark_after(mark1, rest) == Some(
                        id as int,
                    );
                assert(admitted_in_run(mark, batches, id));
            }
        }
    }
}

/// Re-polling is idempotent: feeding the exact same batch a second time,
/// right after processing it once, classifies zero ids as new.
pub proof fn lemma_repoll_idempotent(mark: Option<int>, batch: Seq<i64>)
    ensures
        fresh_ids(absorbed_mark(mark, fresh_ids(mark, batch)), batch) =~= Seq::<i64>::empty(),
{
    let mark1 = absorbed_mark(mark, fresh_ids(mark, batch));
    lemma_absorbed_mark_bounds(mark, fresh_ids(mark, batch));
    lemma_batch_all_stale(mark, mark1, batch);
}

/// Helper: if every id of `batch` is stale under `mark1`, no fresh ids remain.
proof fn lemma_batch_all_stale(mark: Option<int>, mark1: Option<int>, batch: Seq<i64>)
    requires
        mark1 == absorbed_mark(mark, fresh_ids(mark, batch)),
    ensures
        fresh_ids(mark1, batch) =~= Seq::<i64>::empty(),
    decreases batch.len(),
{
    if batch.len() > 0 {
        let prefix = batch.drop_last();
        let last = batch.last();
        lemma_absorbed_mark_bounds(mark, fresh_ids(mark, batch));
        if stale_under(mark, last as int) {
            // last was already stale before the batch; it stays stale
            assert(fresh_ids(mark, batch) == fresh_ids(mark, prefix));
            lemma_stale_monotone_prefix(mark, mark1, prefix, batch);
        } else {
            // last was classified new, so the absorbed mark covers it
            let f = fresh_ids(mark, batch);
            assert(f.last() == last);
            assert(stale_under(mark1, last as int));
            lemma_stale_monotone_prefix(mark, mark1, prefix, batch);
        }
    }
}

/// Helper: the absorbed mark of a batch also makes every id of any prefix of
/// that batch stale, because fresh ids of the prefix are fresh ids of the
/// whole batch or stale already.
proof fn lemma_stale_monotone_prefix(
    mark: Option<int>,
    mark1: Option<int>,
    prefix: Seq<i64>,
    batch: Seq<i64>,
)
    requires
        mark1 == absorbed_mark(mark, fresh_ids(mark, batch)),
        batch.len() > 0,
        prefix == batch.drop_last(),
    ensures
        fresh_ids(mark1, prefix) =~= Seq::<i64>::empty(),
    decreases prefix.len(),
{
    lemma_absorbed_mark_bounds(mark, fresh_ids(mark, batch));
    lemma_fresh_subseq_stale(mark, mark1, prefix, batch);
}

/// Helper: every id of `part` that is fresh under `mark` appears among the
/// fresh ids of `whole` whenever `part` is a prefix chain of `whole`; under
/// the absorbed mark of `whole` all ids of `part` are stale.
proof fn lemma_fresh_subseq_stale(
    mark: Option<int>,
    mark1: Option<int>,
    part: Seq<i64>,
    whole: Seq<i64>,
)
    requires
        mark1 == absorbed_mark(mark, fresh_ids(mark, whole)),
        exists|k: int|
            0 <= k <= whole.len() && part =~= #[trigger] whole.subrange(0, k),
    ensures
        fresh_ids(mark1, part) =~= Seq::<i64>::empty(),
    decreases part.len(),
{
    lemma_absorbed_mark_bounds(mark, fresh_ids(mark, whole));
    if part.len() > 0 {
        let k = choose|k: int| 0 <= k <= whole.len() && part =~= whole.subrange(0, k);
        assert(part.drop_last() =~= whole.subrange(0, k - 1));
        lemma_fresh_subseq_stale(mark, mark1, part.drop_last(), whole);
        let last = part.last();
        assert(last == whole[k - 1]);
        if stale_under(mark, last as int) {
            assert(mark is Some);
            assert(stale_under(mark1, last as int));
        } else {
            lemma_fresh_id_in_whole(mark, whole, k - 1);
        }
    }
}

/// Helper: an id of `whole` that is fresh under `mark` is covered by the
/// absorbed mark of `whole`'s fresh ids.
proof fn lemma_fresh_id_in_whole(mark: Option<int>, whole: Seq<i64>, j: int)
    requires
        0 <= j < whole.len(),
        !stale_under(mark, whole[j] as int),
    ensures
        stale_under(absorbed_mark(mark, fresh_ids(mark, whole)), whole[j] as int),
    decreases whole.len(),
{
    lemma_absorbed_mark_bounds(mark, fresh_ids(mark, whole));
    if whole.len() > 0 {
        if j == whole.len() - 1 {
            let f = fresh_ids(mark, whole);
            assert(f.last() == whole[j]);
        } else {
            lemma_fresh_id_in_whole(mark, whole.drop_last(), j);
            lemma_absorbed_fresh_monotone(mark, whole);
            assert(whole.drop_last()[j] == whole[j]);
        }
    }
}

/// Helper: absorbing the fresh ids of a longer batch yields a watermark at
/// least as high as that of its one-shorter prefix.
proof fn lemma_absorbed_fresh_monotone(mark: Option<int>, whole: Seq<i64>)
    requires
        whole.len() > 0,
    ensures
        ({
            let shorter = absorbed_mark(mark, fresh_ids(mark, whole.drop_last()));
            let longer = absorbed_mark(mark, fresh_ids(mark, whole));
            shorter is Some ==> longer is Some && longer->0 >= shorter->0
        }),
{
    let prefix = whole.drop_last();
    let last = whole.last();
    if stale_under(mark, last as int) {
        assert(fresh_ids(mark, whole) == fresh_ids(mark, prefix));
    } else {
        assert(fresh_ids(mark, whole) == fresh_ids(mark, prefix).push(last));
        assert(fresh_ids(mark, whole).drop_last() =~= fresh_ids(mark, prefix));
    }
}

} // verus!
