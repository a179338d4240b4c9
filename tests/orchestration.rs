use movie_db_migration::catalog::{SearchFilter, SearchGenre};
use movie_db_migration::pipeline::{
    aborts_run, batch_capacity, dataset_of, next_stage, progress_due, progress_every, source_file,
    Dataset, FailureKind, LoadStage,
};
use movie_db_migration::provision::{datafile_name, new_datafile_name};
use movie_db_migration::session::{close_connection, get_connection};
use movie_db_migration::tables::user::User;

#[test]
fn stages_run_in_fixed_order() {
    let mut s = LoadStage::NotStarted;
    let mut seen = Vec::new();
    while s != LoadStage::Done {
        s = next_stage(s);
        seen.push(dataset_of(s));
    }
    assert_eq!(
        seen,
        vec![
            Some(Dataset::Movies),
            Some(Dataset::Ratings),
            Some(Dataset::Tags),
            Some(Dataset::Users),
            Some(Dataset::Links),
            None
        ]
    );
    assert_eq!(next_stage(LoadStage::Done), LoadStage::Done);
}

#[test]
fn dataset_settings() {
    assert_eq!(batch_capacity(Dataset::Movies), 32768);
    assert_eq!(batch_capacity(Dataset::Ratings), 1000);
    assert_eq!(batch_capacity(Dataset::Users), 1000);
    assert_eq!(progress_every(Dataset::Movies), 100000);
    assert_eq!(progress_every(Dataset::Links), 1000);
    assert!(progress_due(Dataset::Movies, 99999));
    assert!(!progress_due(Dataset::Movies, 99998));
    assert!(progress_due(Dataset::Tags, 999));
    assert!(progress_due(Dataset::Tags, 1999));
    assert!(!progress_due(Dataset::Tags, 1000));
    assert_eq!(source_file(Dataset::Movies), Some("TMDB_movie_dataset_v11.csv"));
    assert_eq!(source_file(Dataset::Ratings), Some("movie-lens/ratings.csv"));
    assert_eq!(source_file(Dataset::Users), None);
}

#[test]
fn only_connection_and_source_failures_abort() {
    assert!(aborts_run(FailureKind::FatalConnection));
    assert!(aborts_run(FailureKind::FatalSource));
    assert!(!aborts_run(FailureKind::RowDecode));
    assert!(!aborts_run(FailureKind::RowWrite));
}

#[test]
fn user_insert_statement() {
    assert_eq!(User::batch_insert_statement(), "INSERT INTO MovieLens_Users (user_id) VALUES (:1)");
}

#[test]
fn genre_labels() {
    assert_eq!(SearchGenre::All.as_str(), None);
    assert_eq!(SearchGenre::Action.as_str(), Some("Action"));
    assert_eq!(SearchGenre::ScienceFiction.as_str(), Some("Science Fiction"));
    assert_eq!(SearchGenre::TVMovie.as_str(), Some("TV Movie"));
    assert_eq!(SearchGenre::Western.as_str(), Some("Western"));
}

#[test]
fn filter_views() {
    assert_eq!(SearchFilter::Alphabetical.to_view_name(), "MovieShortView_Alphabetical");
    assert_eq!(SearchFilter::Popular.to_view_name(), "MovieShortView_ByPopularity");
    assert_eq!(SearchFilter::Latest.to_view_name(), "MovieShortView_ByReleaseDate");
    assert_eq!(SearchFilter::TopRated.to_view_name(), "MovieShortView_ByRating");
    assert_eq!(SearchFilter::NoFilter.to_view_name(), "MovieShortView");
    assert_eq!(SearchFilter::Unknow.to_view_name(), "MovieShortView");
}

#[test]
fn session_slot() {
    let mut slot: Option<u8> = Some(3);
    assert_eq!(get_connection(&slot), Ok(&3));
    assert_eq!(close_connection(&mut slot), Some(3));
    assert_eq!(slot, None);
    assert_eq!(close_connection(&mut slot), None);
    assert_eq!(
        get_connection(&slot),
        Err("Connexion non initialisée. Appelez `init_connection`.".to_string())
    );
}

#[test]
fn datafile_names() {
    assert_eq!(datafile_name(42), "movie_db_tbs_42");
    assert_eq!(datafile_name(0), "movie_db_tbs_0");
    assert_eq!(datafile_name(9999), "movie_db_tbs_9999");
    assert_eq!(datafile_name(1000), "movie_db_tbs_1000");
}

#[test]
fn fresh_datafile_name_has_suffix_in_range() {
    for _ in 0..50 {
        let name = new_datafile_name();
        let suffix: u32 = name.strip_prefix("movie_db_tbs_").unwrap().parse().unwrap();
        assert!((1..10000).contains(&suffix));
    }
}
