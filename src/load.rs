//! One dataset's load, row by row: decode, guard, stage. The caller reads the
//! rows and performs the writes that the steps hand out.
use crate::batch::{ceil_div, flatten, BatchWriter};
use crate::decode::{DecodeError, DecodeReason, Record};
use crate::dedup::{dedup_first, SeenSet};
use crate::tables::movie::Movie;
use crate::tables::rating::Rating;
use crate::tables::tag::Tag;
use crate::tables::user::User;
use vstd::prelude::*;

verus! {

/// What became of one source row.
pub enum RowStep<R> {
    /// The record was staged; nothing is due to the store yet.
    Staged,
    /// The record was staged and filled the stage: these rows are due to the
    /// store as one multi-row write.
    Write(Vec<R>),
    /// The row did not decode; it is skipped and the stream goes on.
    Skipped(DecodeError),
    /// The row's id was seen earlier in this run; it is skipped.
    Duplicate(i32),
}

/// `step` is what appending `record` to the writer `before` gave, leaving
/// the writer `after`.
pub open spec fn staged_as<R>(
    before: BatchWriter<R>,
    after: BatchWriter<R>,
    record: R,
    step: RowStep<R>,
) -> bool {
    &&& after.wf()
    &&& after.capacity() == before.capacity()
    &&& after.accepted() == before.accepted().push(record)
    &&& match step {
        RowStep::Write(batch) => {
            &&& before.staged().len() + 1 == before.capacity()
            &&& batch@ == before.staged().push(record)
            &&& after.staged() == Seq::<R>::empty()
            &&& after.written() == before.written().push(batch@)
        },
        RowStep::Staged => {
            &&& before.staged().len() + 1 < before.capacity()
            &&& after.staged() == before.staged().push(record)
            &&& after.written() == before.written()
        },
        _ => false,
    }
}

/// `step` reports that a row failed to decode with `fault`.
pub open spec fn skipped_as<R>(row: usize, fault: (usize, DecodeReason), step: RowStep<R>) -> bool {
    step == RowStep::<R>::Skipped(DecodeError { row, column: fault.0, reason: fault.1 })
}

fn stage<R>(writer: &mut BatchWriter<R>, record: R) -> (step: RowStep<R>)
    requires
        old(writer).wf(),
    ensures
        staged_as(*old(writer), *final(writer), record, step),
{
    match writer.append(record) {
        Some(batch) => RowStep::Write(batch),
        None => RowStep::Staged,
    }
}

/// Decodes one row and stages the record; a row that does not decode is
/// reported and leaves the writer as it was.
pub fn accept_row<R: Record>(writer: &mut BatchWriter<R>, row: usize, fields: &Vec<String>) -> (step:
    RowStep<R>)
    requires
        old(writer).wf(),
    ensures
        match R::decoded(fields@) {
            Ok(record) => staged_as(*old(writer), *final(writer), record, step),
            Err(fault) => skipped_as(row, fault, step) && *final(writer) == *old(writer),
        },
{
    match R::decode(row, fields) {
        Ok(record) => stage(writer, record),
        Err(e) => RowStep::Skipped(e),
    }
}

/// Decodes one rating row, notes its user in the run's seen-user set and
/// stages it.
pub fn accept_rating_row(
    writer: &mut BatchWriter<Rating>,
    users: &mut SeenSet,
    row: usize,
    fields: &Vec<String>,
) -> (step: RowStep<Rating>)
    requires
        old(writer).wf(),
        old(users).wf(),
    ensures
        final(users).wf(),
        match Rating::decoded(fields@) {
            Ok(record) => {
                &&& staged_as(*old(writer), *final(writer), record, step)
                &&& final(users)@ == old(users)@.insert(record.user_id)
            },
            Err(fault) => {
                &&& skipped_as(row, fault, step)
                &&& *final(writer) == *old(writer)
                &&& *final(users) == *old(users)
            },
        },
{
    match Rating::decode(row, fields) {
        Ok(record) => {
            users.insert(record.user_id);
            stage(writer, record)
        },
        Err(e) => RowStep::Skipped(e),
    }
}

/// Decodes one tag row, notes its user in the run's seen-user set and
/// stages it.
pub fn accept_tag_row(
    writer: &mut BatchWriter<Tag>,
    users: &mut SeenSet,
    row: usize,
    fields: &Vec<String>,
) -> (step: RowStep<Tag>)
    requires
        old(writer).wf(),
        old(users).wf(),
    ensures
        final(users).wf(),
        match Tag::decoded(fields@) {
            Ok(record) => {
                &&& staged_as(*old(writer), *final(writer), record, step)
                &&& final(users)@ == old(users)@.insert(record.user_id)
            },
            Err(fault) => {
                &&& skipped_as(row, fault, step)
                &&& *final(writer) == *old(writer)
                &&& *final(users) == *old(users)
            },
        },
{
    match Tag::decode(row, fields) {
        Ok(record) => {
            users.insert(record.user_id);
            stage(writer, record)
        },
        Err(e) => RowStep::Skipped(e),
    }
}

/// The ids of a sequence of movies.
pub open spec fn movie_ids(movies: Seq<Movie>) -> Seq<i32> {
    movies.map_values(|m: Movie| m.id)
}

/// The movie load: a batch writer behind a guard that lets the first row of
/// each id through and skips every later one.
pub struct MovieLoad {
    seen: SeenSet,
    writer: BatchWriter<Movie>,
    ids: Ghost<Seq<i32>>,
}

impl MovieLoad {
    /// The writer that the admitted movies go to.
    pub closed spec fn writer(&self) -> BatchWriter<Movie> {
        self.writer
    }

    /// The ids of every movie row decoded so far, repeats included.
    pub closed spec fn decoded_ids(&self) -> Seq<i32> {
        self.ids@
    }

    pub closed spec fn wf(&self) -> bool {
        &&& self.seen.wf()
        &&& self.writer.wf()
        &&& forall|k: i32| self.seen@.contains(k) <==> self.ids@.contains(k)
        &&& movie_ids(self.writer.accepted()) == dedup_first(self.ids@)
    }

    pub fn new(capacity: usize) -> (load: Self)
        requires
            capacity > 0,
        ensures
            load.wf(),
            load.decoded_ids() == Seq::<i32>::empty(),
            load.writer().capacity() == capacity,
            load.writer().accepted() == Seq::<Movie>::empty(),
            load.writer().staged() == Seq::<Movie>::empty(),
            load.writer().written() == Seq::<Seq<Movie>>::empty(),
    {
        let load = MovieLoad {
            seen: SeenSet::new(),
            writer: BatchWriter::new(capacity),
            ids: Ghost(Seq::empty()),
        };
        assert(movie_ids(load.writer.accepted()) =~= dedup_first(load.ids@));
        load
    }

    /// Decodes one movie row. A movie whose id came earlier in the run is
    /// reported as a duplicate and not staged; any other is staged.
    pub fn accept_row(&mut self, row: usize, fields: &Vec<String>) -> (step: RowStep<Movie>)
        requires
            old(self).wf(),
        ensures
            final(self).wf(),
            match Movie::decoded(fields@) {
                Ok(movie) => {
                    &&& final(self).decoded_ids() == old(self).decoded_ids().push(movie.id)
                    &&& if old(self).decoded_ids().contains(movie.id) {
                        &&& step == RowStep::<Movie>::Duplicate(movie.id)
                        &&& final(self).writer() == old(self).writer()
                    } else {
                        staged_as(old(self).writer(), final(self).writer(), movie, step)
                    }
                },
                Err(fault) => {
                    &&& skipped_as(row, fault, step)
                    &&& *final(self) == *old(self)
                },
            },
    {
        match Movie::decode(row, fields) {
            Ok(movie) => {
                let id = movie.id;
                let ghost old_ids = self.ids@;
                let first = self.seen.insert(id);
                self.ids = Ghost(self.ids@.push(id));
                proof {
                    assert(self.ids@.drop_last() == old_ids);
                    assert forall|k: i32| self.seen@.contains(k) <==> self.ids@.contains(k) by {
                        if self.ids@.contains(k) && k != id {
                            let j = self.ids@.index_of(k);
                            assert(old_ids[j] == k);
                        }
                        if old_ids.contains(k) {
                            let j = old_ids.index_of(k);
                            assert(self.ids@[j] == k);
                        }
                        if k == id {
                            assert(self.ids@[self.ids@.len() - 1] == id);
                        }
                    }
                }
                if first {
                    let step = stage(&mut self.writer, movie);
                    assert(movie_ids(self.writer.accepted()) =~= movie_ids(
                        old(self).writer.accepted(),
                    ).push(id));
                    step
                } else {
                    RowStep::Duplicate(id)
                }
            },
            Err(e) => RowStep::Skipped(e),
        }
    }

    /// Ends the movie stream: the last, partial batch, if any. Over the whole
    /// stream the store gets `ceil(K / N)` batches holding the `K` admitted
    /// movies, whose ids are the decoded ids with every repeat dropped.
    pub fn finish(self) -> (last: Option<Vec<Movie>>)
        requires
            self.wf(),
        ensures
            ({
                let all = match last {
                    Some(batch) => self.writer().written().push(batch@),
                    None => self.writer().written(),
                };
                &&& movie_ids(flatten(all)) == dedup_first(self.decoded_ids())
                &&& all.len() == ceil_div(
                    self.writer().accepted().len() as int,
                    self.writer().capacity() as int,
                )
            }),
    {
        self.writer.finish()
    }
}

/// The synthesized users, in batches of at most `capacity`: every id of the
/// seen-user set exactly once, in the order in which ids were first seen, in
/// `ceil(n / capacity)` batches.
pub fn user_batches(users: &SeenSet, capacity: usize) -> (batches: Vec<Vec<User>>)
    requires
        users.wf(),
        capacity > 0,
    ensures
        batches@.len() == ceil_div(users@.len() as int, capacity as int),
        flatten(batches@.map_values(|b: Vec<User>| b@)) == users.ids().map_values(
            |id: i32| User { user_id: id },
        ),
{
    let ids = users.ids_in_order();
    let mut writer: BatchWriter<User> = BatchWriter::new(capacity);
    let mut batches: Vec<Vec<User>> = Vec::new();
    let mut i: usize = 0;
    while i < ids.len()
        invariant
            i <= ids@.len(),
            ids@ == users.ids(),
            writer.wf(),
            writer.capacity() == capacity,
            writer.accepted() == ids@.take(i as int).map_values(|id: i32| User { user_id: id }),
            batches@.map_values(|b: Vec<User>| b@) == writer.written(),
        decreases ids@.len() - i,
    {
        let user = User { user_id: ids[i] };
        let ghost before = batches@.map_values(|b: Vec<User>| b@);
        match writer.append(user) {
            Some(batch) => {
                batches.push(batch);
                assert(batches@.map_values(|b: Vec<User>| b@) =~= before.push(
                    batches@[batches@.len() - 1]@,
                ));
            },
            None => {},
        }
        assert(ids@.take(i as int + 1).map_values(|id: i32| User { user_id: id })
            =~= ids@.take(i as int).map_values(|id: i32| User { user_id: id }).push(user));
        i = i + 1;
    }
    assert(ids@.take(ids@.len() as int) =~= ids@);
    proof {
        users.lemma_len_ids();
    }
    let ghost written = writer.written();
    let ghost accepted = writer.accepted();
    match writer.finish() {
        Some(batch) => {
            let ghost before = batches@.map_values(|b: Vec<User>| b@);
            batches.push(batch);
            assert(batches@.map_values(|b: Vec<User>| b@) =~= before.push(batch@));
        },
        None => {},
    }
    batches
}

} // verus!
