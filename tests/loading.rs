use movie_db_migration::batch::{failed_rows, BatchWriter};
use movie_db_migration::dedup::SeenSet;
use movie_db_migration::load::{
    accept_rating_row, accept_row, accept_tag_row, user_batches, MovieLoad, RowStep,
};
use movie_db_migration::tables::link::Link;
use movie_db_migration::tables::movie::Movie;
use movie_db_migration::tables::rating::Rating;
use movie_db_migration::tables::user::User;

fn fields(items: &[&str]) -> Vec<String> {
    items.iter().map(|s| s.to_string()).collect()
}

fn movie_row(id: &str, title: &str) -> Vec<String> {
    let mut f = vec![String::new(); 24];
    f[0] = id.to_string();
    f[1] = title.to_string();
    f[2] = "7.5".to_string();
    f[3] = "10".to_string();
    f[6] = "0".to_string();
    f[7] = "90".to_string();
    f[8] = "0".to_string();
    f[10] = "0".to_string();
    f[16] = "1.5".to_string();
    f
}

/// Streams `k` records through a writer of capacity `n`; returns the batches.
fn stream(k: u32, n: usize) -> Vec<Vec<u32>> {
    let mut w = BatchWriter::new(n);
    let mut out = Vec::new();
    for r in 0..k {
        if let Some(b) = w.append(r) {
            out.push(b);
        }
    }
    if let Some(b) = w.finish() {
        out.push(b);
    }
    out
}

#[test]
fn batch_count_is_ceiling_of_records_over_capacity() {
    for (k, n, expected) in [(7u32, 3usize, 3usize), (6, 3, 2), (0, 3, 0), (1, 1000, 1), (2000, 1000, 2), (2001, 1000, 3)] {
        let batches = stream(k, n);
        assert_eq!(batches.len(), expected, "k={} n={}", k, n);
        let all: Vec<u32> = batches.concat();
        assert_eq!(all, (0..k).collect::<Vec<u32>>());
        assert!(batches.iter().all(|b| !b.is_empty() && b.len() <= n));
    }
}

#[test]
fn full_batch_goes_out_when_stage_fills() {
    let mut w = BatchWriter::new(2);
    assert!(w.append(10).is_none());
    assert_eq!(w.staged_len(), 1);
    assert_eq!(w.append(11), Some(vec![10, 11]));
    assert_eq!(w.staged_len(), 0);
    assert!(w.append(12).is_none());
    assert_eq!(w.finish(), Some(vec![12]));
}

#[test]
fn one_failed_row_leaves_the_others_persisted() {
    let outcome = vec![true, true, false, true, true];
    assert_eq!(failed_rows(&outcome), vec![2]);
    assert_eq!(failed_rows(&vec![true; 4]), Vec::<usize>::new());
    assert_eq!(failed_rows(&vec![false, true, false]), vec![0, 2]);
}

#[test]
fn decode_failures_are_not_written() {
    let mut w: BatchWriter<Link> = BatchWriter::new(2);
    let good = fields(&["1", "tt1", "862"]);
    let bad = fields(&["x", "tt2", ""]);
    assert!(matches!(accept_row(&mut w, 0, &good), RowStep::Staged));
    assert!(matches!(accept_row(&mut w, 1, &bad), RowStep::Skipped(e) if e.row == 1));
    match accept_row(&mut w, 2, &good) {
        RowStep::Write(batch) => assert_eq!(batch.len(), 2),
        _ => panic!("expected a full batch"),
    }
    assert!(w.finish().is_none());
}

#[test]
fn duplicate_movie_ids_reach_the_store_once() {
    let mut load = MovieLoad::new(2);
    let mut written: Vec<Movie> = Vec::new();
    let rows = [("5", "a"), ("3", "b"), ("5", "c"), ("3", "d"), ("8", "e"), ("5", "f")];
    let mut duplicates = Vec::new();
    for (i, (id, title)) in rows.iter().enumerate() {
        match load.accept_row(i, &movie_row(id, title)) {
            RowStep::Write(batch) => written.extend(batch),
            RowStep::Duplicate(d) => duplicates.push((i, d)),
            RowStep::Staged => {}
            RowStep::Skipped(e) => panic!("row {} did not decode: {:?}", i, e),
        }
    }
    written.extend(load.finish().unwrap_or_default());
    let ids: Vec<i32> = written.iter().map(|m| m.id).collect();
    assert_eq!(ids, vec![5, 3, 8]);
    assert_eq!(written[0].title, "a");
    assert_eq!(duplicates, vec![(2, 5), (3, 3), (5, 5)]);
}

#[test]
fn end_to_end_movies_and_users() {
    // movies [1, 1, 2]: the store receives ids 1 and 2
    let mut load = MovieLoad::new(32768);
    let mut written: Vec<Movie> = Vec::new();
    for (i, id) in ["1", "1", "2"].iter().enumerate() {
        if let RowStep::Write(b) = load.accept_row(i, &movie_row(id, "t")) {
            written.extend(b);
        }
    }
    written.extend(load.finish().unwrap_or_default());
    let ids: Vec<i32> = written.iter().map(|m| m.id).collect();
    assert_eq!(ids, vec![1, 2]);

    // ratings by users 7, 9, 7: the synthesized users are {7, 9}
    let mut users = SeenSet::new();
    let mut ratings: BatchWriter<Rating> = BatchWriter::new(1000);
    let rows = [["7", "1", "4.0", "1"], ["9", "2", "3.5", "2"], ["7", "2", "5.0", "3"]];
    for (i, r) in rows.iter().enumerate() {
        assert!(matches!(
            accept_rating_row(&mut ratings, &mut users, i, &fields(r)),
            RowStep::Staged
        ));
    }
    assert_eq!(ratings.finish().map(|b| b.len()), Some(3));
    let batches = user_batches(&users, 1000);
    assert_eq!(batches, vec![vec![User { user_id: 7 }, User { user_id: 9 }]]);
}

#[test]
fn users_are_the_union_of_rating_and_tag_users() {
    let rating_rows = [["1", "10", "4.0", "1"], ["2", "10", "3.0", "2"], ["bad", "10", "3.0", "2"]];
    let tag_rows = [["2", "10", "fun", "3"], ["3", "11", "long", "4"]];
    let mut forward = SeenSet::new();
    let mut backward = SeenSet::new();
    let mut rw = BatchWriter::new(1000);
    let mut tw = BatchWriter::new(1000);
    for (i, r) in rating_rows.iter().enumerate() {
        accept_rating_row(&mut rw, &mut forward, i, &fields(r));
    }
    for (i, t) in tag_rows.iter().enumerate() {
        accept_tag_row(&mut tw, &mut forward, i, &fields(t));
    }
    let mut rw = BatchWriter::new(1000);
    let mut tw = BatchWriter::new(1000);
    for (i, t) in tag_rows.iter().enumerate() {
        accept_tag_row(&mut tw, &mut backward, i, &fields(t));
    }
    for (i, r) in rating_rows.iter().enumerate() {
        accept_rating_row(&mut rw, &mut backward, i, &fields(r));
    }
    let mut f: Vec<i32> = forward.ids_in_order().clone();
    let mut b: Vec<i32> = backward.ids_in_order().clone();
    f.sort();
    b.sort();
    assert_eq!(f, vec![1, 2, 3]);
    assert_eq!(b, vec![1, 2, 3]);
    assert_eq!(forward.len(), 3);
    assert!(forward.contains(3));
    assert!(!forward.contains(4));
}

#[test]
fn user_batches_split_by_capacity() {
    let mut users = SeenSet::new();
    for id in [4, 8, 15, 16, 23, 42, 8] {
        users.insert(id);
    }
    let batches = user_batches(&users, 4);
    assert_eq!(batches.len(), 2);
    let ids: Vec<i32> = batches.concat().iter().map(|u| u.user_id).collect();
    assert_eq!(ids, vec![4, 8, 15, 16, 23, 42]);
    assert!(user_batches(&SeenSet::new(), 4).is_empty());
}

#[test]
fn seen_set_reports_first_occurrence_only() {
    let mut s = SeenSet::new();
    assert!(s.insert(1));
    assert!(!s.insert(1));
    assert!(s.insert(-1));
    assert_eq!(s.ids_in_order(), &vec![1, -1]);
}
