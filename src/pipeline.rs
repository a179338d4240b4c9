//! The ingestion orchestrator's decisions: the fixed order of the datasets,
//! what each one is loaded with, which failures end a run, and the users
//! that the ratings and tags leave behind.
use vstd::prelude::*;

verus! {

/// The datasets, in the order in which a run loads them.
#[derive(Clone, Copy, Debug, PartialEq, Eq, Structural)]
pub enum Dataset {
    Movies,
    Ratings,
    Tags,
    Users,
    Links,
}

/// Where a run stands. A run moves through these in order, once each.
#[derive(Clone, Copy, Debug, PartialEq, Eq, Structural)]
pub enum LoadStage {
    NotStarted,
    LoadingMovies,
    LoadingRatings,
    LoadingTags,
    LoadingUsers,
    LoadingLinks,
    Done,
}

/// The position of a stage in the run.
pub open spec fn stage_rank(s: LoadStage) -> nat {
    match s {
        LoadStage::NotStarted => 0,
        LoadStage::LoadingMovies => 1,
        LoadStage::LoadingRatings => 2,
        LoadStage::LoadingTags => 3,
        LoadStage::LoadingUsers => 4,
        LoadStage::LoadingLinks => 5,
        LoadStage::Done => 6,
    }
}

/// The dataset that a stage loads, if any.
pub open spec fn stage_dataset(s: LoadStage) -> Option<Dataset> {
    match s {
        LoadStage::LoadingMovies => Some(Dataset::Movies),
        LoadStage::LoadingRatings => Some(Dataset::Ratings),
        LoadStage::LoadingTags => Some(Dataset::Tags),
        LoadStage::LoadingUsers => Some(Dataset::Users),
        LoadStage::LoadingLinks => Some(Dataset::Links),
        _ => None,
    }
}

/// The stage after `s`, once the dataset of `s` is drained and committed;
/// `Done` stays `Done`. There are no retries and no way back.
pub fn next_stage(s: LoadStage) -> (n: LoadStage)
    ensures
        stage_rank(n) == if stage_rank(s) < 6 {
            stage_rank(s) + 1
        } else {
            6
        },
{
    match s {
        LoadStage::NotStarted => LoadStage::LoadingMovies,
        LoadStage::LoadingMovies => LoadStage::LoadingRatings,
        LoadStage::LoadingRatings => LoadStage::LoadingTags,
        LoadStage::LoadingTags => LoadStage::LoadingUsers,
        LoadStage::LoadingUsers => LoadStage::LoadingLinks,
        LoadStage::LoadingLinks => LoadStage::Done,
        LoadStage::Done => LoadStage::Done,
    }
}

/// The dataset that a stage loads, if any.
pub fn dataset_of(s: LoadStage) -> (d: Option<Dataset>)
    ensures
        d == stage_dataset(s),
{
    match s {
        LoadStage::LoadingMovies => Some(Dataset::Movies),
        LoadStage::LoadingRatings => Some(Dataset::Ratings),
        LoadStage::LoadingTags => Some(Dataset::Tags),
        LoadStage::LoadingUsers => Some(Dataset::Users),
        LoadStage::LoadingLinks => Some(Dataset::Links),
        _ => None,
    }
}

pub const MOVIE_BATCH_CAPACITY: usize = 32768;

pub const SMALL_BATCH_CAPACITY: usize = 1000;

pub const MOVIE_PROGRESS_EVERY: usize = 100000;

pub const SMALL_PROGRESS_EVERY: usize = 1000;

/// How many records one write of a dataset carries at most: many for the
/// movies, fewer for the other datasets.
pub fn batch_capacity(d: Dataset) -> (n: usize)
    ensures
        n == if d == Dataset::Movies {
            MOVIE_BATCH_CAPACITY
        } else {
            SMALL_BATCH_CAPACITY
        },
        n > 0,
{
    match d {
        Dataset::Movies => MOVIE_BATCH_CAPACITY,
        _ => SMALL_BATCH_CAPACITY,
    }
}

/// Every how many rows a dataset reports its progress.
pub open spec fn progress_period(d: Dataset) -> usize {
    if d == Dataset::Movies {
        MOVIE_PROGRESS_EVERY
    } else {
        SMALL_PROGRESS_EVERY
    }
}

/// Every how many rows a dataset reports its progress.
pub fn progress_every(d: Dataset) -> (n: usize)
    ensures
        n == progress_period(d),
        n > 0,
{
    match d {
        Dataset::Movies => MOVIE_PROGRESS_EVERY,
        _ => SMALL_PROGRESS_EVERY,
    }
}

/// Whether the row at `index` (counted from 0) completes a progress period.
/// Progress is only reported; it changes nothing else.
pub fn progress_due(d: Dataset, index: usize) -> (r: bool)
    ensures
        r == ((index as int + 1) % progress_period(d) as int == 0),
{
    let every = progress_every(d);
    index % every == every - 1
}

/// The source file of a dataset, relative to the dataset root. Users have
/// none: they are synthesized.
pub fn source_file(d: Dataset) -> (path: Option<&'static str>)
    ensures
        match d {
            Dataset::Movies => path matches Some(p) && p@ == "TMDB_movie_dataset_v11.csv"@,
            Dataset::Ratings => path matches Some(p) && p@ == "movie-lens/ratings.csv"@,
            Dataset::Tags => path matches Some(p) && p@ == "movie-lens/tags.csv"@,
            Dataset::Users => path is None,
            Dataset::Links => path matches Some(p) && p@ == "movie-lens/links.csv"@,
        },
{
    match d {
        Dataset::Movies => Some("TMDB_movie_dataset_v11.csv"),
        Dataset::Ratings => Some("movie-lens/ratings.csv"),
        Dataset::Tags => Some("movie-lens/tags.csv"),
        Dataset::Users => None,
        Dataset::Links => Some("movie-lens/links.csv"),
    }
}

/// The kinds of failure that a run meets.
#[derive(Clone, Copy, Debug, PartialEq, Eq, Structural)]
pub enum FailureKind {
    /// The store cannot be reached, or provisioning that later steps need failed.
    FatalConnection,
    /// A source file cannot be opened.
    FatalSource,
    /// One row did not decode.
    RowDecode,
    /// One staged row did not persist.
    RowWrite,
}

/// Whether a failure ends the run. Only failures to connect or to open a
/// source do; every row failure is skipped and the stream goes on.
pub fn aborts_run(k: FailureKind) -> (r: bool)
    ensures
        r <==> (k == FailureKind::FatalConnection || k == FailureKind::FatalSource),
{
    match k {
        FailureKind::FatalConnection => true,
        FailureKind::FatalSource => true,
        FailureKind::RowDecode => false,
        FailureKind::RowWrite => false,
    }
}

/// The seen-user set after noting the given user ids, one after the other.
pub open spec fn noted(start: Set<i32>, ids: Seq<i32>) -> Set<i32>
    decreases ids.len(),
{
    if ids.len() == 0 {
        start
    } else {
        noted(start, ids.drop_last()).insert(ids.last())
    }
}

proof fn lemma_noted_union(start: Set<i32>, ids: Seq<i32>)
    ensures
        noted(start, ids) == start + ids.to_set(),
    decreases ids.len(),
{
    if ids.len() == 0 {
        assert(ids.to_set() =~= Set::<i32>::empty());
        assert(start + ids.to_set() =~= start);
    } else {
        lemma_noted_union(start, ids.drop_last());
        let front = ids.drop_last();
        assert forall|k: i32| ids.contains(k) <==> (front.contains(k) || k == ids.last()) by {
            if ids.contains(k) {
                let j = ids.index_of(k);
                if j < ids.len() - 1 {
                    assert(front[j] == k);
                }
            }
            if front.contains(k) {
                let j = front.index_of(k);
                assert(ids[j] == k);
            }
            if k == ids.last() {
                assert(ids[ids.len() - 1] == k);
            }
        }
        assert(noted(start, ids) =~= start + ids.to_set());
    }
}

/// The synthesized users are exactly the union of the user ids of the
/// ratings stream and of the tags stream, no more and no fewer, whichever of
/// the two streams is noted first.
pub proof fn lemma_user_synthesis(rating_users: Seq<i32>, tag_users: Seq<i32>)
    ensures
        noted(noted(Set::empty(), rating_users), tag_users) == rating_users.to_set()
            + tag_users.to_set(),
        noted(noted(Set::empty(), tag_users), rating_users) == noted(
            noted(Set::empty(), rating_users),
            tag_users,
        ),
{
    lemma_noted_union(Set::empty(), rating_users);
    lemma_noted_union(noted(Set::empty(), rating_users), tag_users);
    lemma_noted_union(Set::empty(), tag_users);
    lemma_noted_union(noted(Set::empty(), tag_users), rating_users);
    assert(noted(noted(Set::empty(), rating_users), tag_users) =~= rating_users.to_set()
        + tag_users.to_set());
    assert(noted(noted(Set::empty(), tag_users), rating_users) =~= rating_users.to_set()
        + tag_users.to_set());
}

} // verus!
