//! The batch writer: stages decoded records and hands them out, a full batch
//! at a time, as one multi-row write for the store.
use vstd::prelude::*;

verus! {

/// The records of a sequence of batches, one batch after the other.
pub open spec fn flatten<R>(batches: Seq<Seq<R>>) -> Seq<R>
    decreases batches.len(),
{
    if batches.len() == 0 {
        Seq::empty()
    } else {
        flatten(batches.drop_last()) + batches.last()
    }
}

/// `k / n` rounded up.
pub open spec fn ceil_div(k: int, n: int) -> int {
    (k + n - 1) / n
}

/// The positions, in order, of the rows that the store refused.
pub open spec fn failed_positions(outcome: Seq<bool>) -> Seq<usize>
    decreases outcome.len(),
{
    if outcome.len() == 0 {
        Seq::empty()
    } else if outcome.last() {
        failed_positions(outcome.drop_last())
    } else {
        failed_positions(outcome.drop_last()).push((outcome.len() - 1) as usize)
    }
}

/// How many rows of a batch the store kept.
pub open spec fn persisted_count(outcome: Seq<bool>) -> nat
    decreases outcome.len(),
{
    if outcome.len() == 0 {
        0
    } else {
        persisted_count(outcome.drop_last()) + if outcome.last() {
            1nat
        } else {
            0nat
        }
    }
}

proof fn lemma_flatten_len<R>(batches: Seq<Seq<R>>, n: nat)
    requires
        forall|i: int| 0 <= i < batches.len() ==> (#[trigger] batches[i]).len() == n,
    ensures
        flatten(batches).len() == batches.len() * n,
    decreases batches.len(),
{
    if batches.len() > 0 {
        let front = batches.drop_last();
        assert forall|i: int| 0 <= i < front.len() implies (#[trigger] front[i]).len() == n by {
            assert(front[i] == batches[i]);
        }
        lemma_flatten_len(front, n);
        assert(batches.last() == batches[batches.len() - 1]);
        assert(flatten(batches).len() == front.len() * n + n);
        assert((front.len() + 1) * n == front.len() * n + n) by (nonlinear_arith);
    }
}

proof fn lemma_ceil_div(e: int, s: int, n: int)
    requires
        n > 0,
        e >= 0,
        0 <= s < n,
    ensures
        ceil_div(e * n + s, n) == if s > 0 {
            e + 1
        } else {
            e
        },
{
    if s > 0 {
        assert(e * n + s + n - 1 == (e + 1) * n + (s - 1)) by (nonlinear_arith);
        assert(((e + 1) * n + (s - 1)) / n == e + 1) by (nonlinear_arith)
            requires
                n > 0,
                0 <= s - 1 < n,
                e >= 0,
        ;
    } else {
        assert((e * n + (n - 1)) / n == e) by (nonlinear_arith)
            requires
                n > 0,
                e >= 0,
        ;
    }
}

/// Stages records up to a fixed capacity. Each record that fills the stage
/// sends the whole stage out as one batch; `finish` sends out what is left.
pub struct BatchWriter<R> {
    staged: Vec<R>,
    capacity: usize,
    accepted: Ghost<Seq<R>>,
    written: Ghost<Seq<Seq<R>>>,
}

impl<R> BatchWriter<R> {
    /// The most records one batch holds.
    pub closed spec fn capacity(&self) -> nat {
        self.capacity as nat
    }

    /// The records staged and not yet handed out.
    pub closed spec fn staged(&self) -> Seq<R> {
        self.staged@
    }

    /// Every record appended so far, in order.
    pub closed spec fn accepted(&self) -> Seq<R> {
        self.accepted@
    }

    /// Every batch handed out so far, in order.
    pub closed spec fn written(&self) -> Seq<Seq<R>> {
        self.written@
    }

    pub closed spec fn wf(&self) -> bool {
        &&& self.capacity > 0
        &&& self.staged@.len() < self.capacity
        &&& forall|i: int|
            0 <= i < self.written@.len() ==> (#[trigger] self.written@[i]).len() == self.capacity
        &&& flatten(self.written@) + self.staged@ == self.accepted@
    }

    pub fn new(capacity: usize) -> (w: Self)
        requires
            capacity > 0,
        ensures
            w.wf(),
            w.capacity() == capacity,
            w.staged() == Seq::<R>::empty(),
            w.accepted() == Seq::<R>::empty(),
            w.written() == Seq::<Seq<R>>::empty(),
    {
        let w = BatchWriter {
            staged: Vec::new(),
            capacity,
            accepted: Ghost(Seq::empty()),
            written: Ghost(Seq::empty()),
        };
        assert(flatten(w.written@) + w.staged@ =~= w.accepted@);
        w
    }

    /// How many records are staged.
    pub fn staged_len(&self) -> (n: usize)
        ensures
            n == self.staged().len(),
    {
        self.staged.len()
    }

    /// Stages one record. When that fills the stage, the whole stage comes
    /// back as one batch for the store, and the stage starts empty again.
    pub fn append(&mut self, record: R) -> (full: Option<Vec<R>>)
        requires
            old(self).wf(),
        ensures
            final(self).wf(),
            final(self).capacity() == old(self).capacity(),
            final(self).accepted() == old(self).accepted().push(record),
            match full {
                Some(batch) => {
                    &&& old(self).staged().len() + 1 == old(self).capacity()
                    &&& batch@ == old(self).staged().push(record)
                    &&& final(self).staged() == Seq::<R>::empty()
                    &&& final(self).written() == old(self).written().push(batch@)
                },
                None => {
                    &&& old(self).staged().len() + 1 < old(self).capacity()
                    &&& final(self).staged() == old(self).staged().push(record)
                    &&& final(self).written() == old(self).written()
                },
            },
    {
        let ghost before = flatten(self.written@);
        self.staged.push(record);
        self.accepted = Ghost(self.accepted@.push(record));
        assert(before + self.staged@ =~= self.accepted@);
        if self.staged.len() == self.capacity {
            let mut batch: Vec<R> = Vec::new();
            std::mem::swap(&mut batch, &mut self.staged);
            self.written = Ghost(self.written@.push(batch@));
            assert(flatten(self.written@) == before + batch@) by {
                assert(self.written@.drop_last() =~= old(self).written@);
            }
            assert(flatten(self.written@) + self.staged@ =~= self.accepted@);
            Some(batch)
        } else {
            None
        }
    }

    /// Ends the stream: what is still staged comes back as the last, partial
    /// batch (none when the stage is empty). Over the whole stream the store
    /// then gets `ceil(K / N)` batches for `K` appended records and capacity
    /// `N`, and together they hold exactly the appended records, in order.
    pub fn finish(self) -> (last: Option<Vec<R>>)
        requires
            self.wf(),
        ensures
            match last {
                Some(batch) => self.staged().len() > 0 && batch@ == self.staged(),
                None => self.staged().len() == 0,
            },
            ({
                let all = match last {
                    Some(batch) => self.written().push(batch@),
                    None => self.written(),
                };
                &&& flatten(all) == self.accepted()
                &&& all.len() == ceil_div(self.accepted().len() as int, self.capacity() as int)
            }),
    {
        proof {
            lemma_flatten_len(self.written@, self.capacity as nat);
            lemma_ceil_div(self.written@.len() as int, self.staged@.len() as int, self.capacity as int);
            let all = self.written@.push(self.staged@);
            assert(all.drop_last() =~= self.written@);
            if self.staged@.len() == 0 {
                assert(flatten(self.written@) + self.staged@ =~= flatten(self.written@));
            }
        }
        if self.staged.len() > 0 {
            Some(self.staged)
        } else {
            None
        }
    }
}

/// The positions of the rows of a written batch that the store refused,
/// given what it reported for each row. The other rows of the batch were
/// attempted all the same.
pub fn failed_rows(outcome: &Vec<bool>) -> (failed: Vec<usize>)
    ensures
        failed@ == failed_positions(outcome@),
{
    let mut failed: Vec<usize> = Vec::new();
    let mut i: usize = 0;
    while i < outcome.len()
        invariant
            i <= outcome.len(),
            failed@ == failed_positions(outcome@.take(i as int)),
        decreases outcome.len() - i,
    {
        assert(outcome@.take(i as int + 1).drop_last() =~= outcome@.take(i as int));
        if !outcome[i] {
            failed.push(i);
        }
        i = i + 1;
    }
    assert(outcome@.take(outcome.len() as int) =~= outcome@);
    failed
}

/// Given a batch of rows in which exactly the row at position `i` fails to
/// persist, every other row is kept: the only failure reported is `i`, and
/// the store keeps one row fewer than the batch holds.
pub proof fn lemma_row_failure_isolation(outcome: Seq<bool>, i: int)
    requires
        0 <= i < outcome.len(),
        !outcome[i],
        forall|j: int| 0 <= j < outcome.len() && j != i ==> #[trigger] outcome[j],
    ensures
        failed_positions(outcome) == seq![i as usize],
        persisted_count(outcome) == outcome.len() - 1,
    decreases outcome.len(),
{
    if i == outcome.len() - 1 {
        let front = outcome.drop_last();
        lemma_all_persisted(front);
        assert(failed_positions(front) =~= Seq::<usize>::empty());
        assert(seq![i as usize] =~= Seq::<usize>::empty().push(i as usize));
    } else {
        let front = outcome.drop_last();
        assert(outcome.last() == outcome[outcome.len() - 1]);
        assert forall|j: int| 0 <= j < front.len() && j != i implies #[trigger] front[j] by {
            assert(front[j] == outcome[j]);
        }
        lemma_row_failure_isolation(front, i);
    }
}

proof fn lemma_all_persisted(outcome: Seq<bool>)
    requires
        forall|j: int| 0 <= j < outcome.len() ==> #[trigger] outcome[j],
    ensures
        failed_positions(outcome) == Seq::<usize>::empty(),
        persisted_count(outcome) == outcome.len(),
    decreases outcome.len(),
{
    if outcome.len() > 0 {
        let front = outcome.drop_last();
        assert forall|j: int| 0 <= j < front.len() implies #[trigger] front[j] by {
            assert(front[j] == outcome[j]);
        }
        lemma_all_persisted(front);
        assert(outcome.last() == outcome[outcome.len() - 1]);
    }
}

} // verus!
