use movie_db_migration::decode::{parse_bool_from_string, DecodeError, DecodeReason, Record};
use movie_db_migration::numeric::{is_decimal_text, parse_i32, parse_i64};
use movie_db_migration::tables::link::Link;
use movie_db_migration::tables::movie::Movie;
use movie_db_migration::tables::rating::Rating;
use movie_db_migration::tables::tag::Tag;

fn fields(items: &[&str]) -> Vec<String> {
    items.iter().map(|s| s.to_string()).collect()
}

fn movie_fields(id: &str) -> Vec<String> {
    fields(&[
        id,
        "Inception",
        "8.364",
        "34495",
        "Released",
        "2010-07-15",
        "825532764",
        "148",
        "False",
        "/8ZTVqvKDQ8emSGUEMjsS4yHAwrp.jpg",
        "160000000",
        "",
        "tt1375666",
        "en",
        "Inception",
        "Cobb, a skilled thief...",
        "83.952",
        "/oYuLEt3zVCKq57qu2F8dT7NIa6f.jpg",
        "Your mind is the scene of the crime.",
        "Action, Science Fiction, Adventure",
        "Legendary Pictures, Syncopy, Warner Bros. Pictures",
        "United Kingdom, United States of America",
        "English, French, Japanese, Swahili",
        "rescue, mission, dream",
    ])
}

#[test]
fn adult_flag_true_tokens() {
    assert!(parse_bool_from_string("true"));
    assert!(parse_bool_from_string("1"));
}

#[test]
fn adult_flag_false_tokens() {
    assert!(!parse_bool_from_string("false"));
    assert!(!parse_bool_from_string("0"));
}

#[test]
fn adult_flag_other_tokens_default_to_false() {
    for token in ["", "yes", "TRUE ", "TRUE", " true", "2", "no"] {
        assert!(!parse_bool_from_string(token), "token {:?}", token);
    }
}

#[test]
fn integer_literals() {
    assert_eq!(parse_i32("42"), Some(42));
    assert_eq!(parse_i32("-7"), Some(-7));
    assert_eq!(parse_i32("+5"), Some(5));
    assert_eq!(parse_i32("007"), Some(7));
    assert_eq!(parse_i32("2147483647"), Some(i32::MAX));
    assert_eq!(parse_i32("-2147483648"), Some(i32::MIN));
    assert_eq!(parse_i32("2147483648"), None);
    assert_eq!(parse_i32(""), None);
    assert_eq!(parse_i32("-"), None);
    assert_eq!(parse_i32("4a"), None);
    assert_eq!(parse_i32(" 4"), None);
    assert_eq!(parse_i32("99999999999999999999999"), None);
    assert_eq!(parse_i64("9223372036854775807"), Some(i64::MAX));
    assert_eq!(parse_i64("-9223372036854775808"), Some(i64::MIN));
    assert_eq!(parse_i64("9223372036854775808"), None);
    assert_eq!(parse_i64("1263464000"), Some(1263464000));
}

#[test]
fn decimal_literals() {
    for ok in ["7.5", "0", "-0.25", "+3.0", ".5", "4.", "83.952", "1e5", "1e-06", "2.5E+3", "-.5e2"] {
        assert!(is_decimal_text(ok), "{:?}", ok);
    }
    for bad in ["", ".", "-", "1.2.3", "abc", " 1.0", "1,5", "1e", "e5", "1e5.0", "1.5e+", ".e1", "1e5e5", "inf"] {
        assert!(!is_decimal_text(bad), "{:?}", bad);
    }
}

#[test]
fn rating_row_decodes() {
    let r = Rating::decode(0, &fields(&["7", "1", "4.5", "1263464000"])).unwrap();
    assert_eq!(r.user_id, 7);
    assert_eq!(r.movie_id, 1);
    assert_eq!(r.rating, "4.5");
    assert_eq!(r.timestamp, 1263464000);
}

#[test]
fn rating_row_with_wrong_field_count() {
    let e = Rating::decode(5, &fields(&["7", "1", "4.5"])).err().unwrap();
    assert_eq!(
        e,
        DecodeError {
            row: 5,
            column: 0,
            reason: DecodeReason::WrongFieldCount { expected: 4, found: 3 }
        }
    );
}

#[test]
fn rating_row_with_missing_and_malformed_fields() {
    let e = Rating::decode(2, &fields(&["7", "", "4.5", "1"])).err().unwrap();
    assert_eq!(e, DecodeError { row: 2, column: 1, reason: DecodeReason::MissingField });
    let e = Rating::decode(3, &fields(&["7", "1", "four", "1"])).err().unwrap();
    assert_eq!(e, DecodeError { row: 3, column: 2, reason: DecodeReason::MalformedNumber });
    let e = Rating::decode(4, &fields(&["x", "y", "four", "1"])).err().unwrap();
    assert_eq!(e, DecodeError { row: 4, column: 0, reason: DecodeReason::MalformedNumber });
}

#[test]
fn tag_row_decodes_with_free_text() {
    let t = Tag::decode(0, &fields(&["9", "2", "mind-bending", "1445714994"])).unwrap();
    assert_eq!(t.user_id, 9);
    assert_eq!(t.movie_id, 2);
    assert_eq!(t.tag, "mind-bending");
    assert_eq!(t.timestamp, 1445714994);
    let e = Tag::decode(1, &fields(&["9", "2", "x", ""])).err().unwrap();
    assert_eq!(e, DecodeError { row: 1, column: 3, reason: DecodeReason::MissingField });
}

#[test]
fn link_row_with_absent_tmdb_id() {
    let l = Link::decode(0, &fields(&["1", "0114709", ""])).unwrap();
    assert_eq!(l.movie_id, 1);
    assert_eq!(l.imdb_id, "0114709");
    assert_eq!(l.tmdb_id, None);
    let l = Link::decode(0, &fields(&["1", "0114709", "862"])).unwrap();
    assert_eq!(l.tmdb_id, Some(862));
    let e = Link::decode(8, &fields(&["1", "0114709", "n/a"])).err().unwrap();
    assert_eq!(e, DecodeError { row: 8, column: 2, reason: DecodeReason::MalformedNumber });
}

#[test]
fn movie_row_decodes() {
    let m = Movie::decode(0, &movie_fields("27205")).unwrap();
    assert_eq!(m.id, 27205);
    assert_eq!(m.title, "Inception");
    assert_eq!(m.vote_average, "8.364");
    assert_eq!(m.vote_count, 34495);
    assert_eq!(m.revenue, 825532764);
    assert_eq!(m.runtime, 148);
    assert!(!m.adult);
    assert_eq!(m.budget, 160000000);
    assert_eq!(m.homepage, None);
    assert_eq!(m.tagline, Some("Your mind is the scene of the crime.".to_string()));
    assert_eq!(m.popularity, "83.952");
    assert_eq!(m.keywords, "rescue, mission, dream");
}

#[test]
fn movie_row_adult_flag_is_lenient() {
    let mut f = movie_fields("1");
    f[8] = "1".to_string();
    assert!(Movie::decode(0, &f).unwrap().adult);
    f[8] = "true".to_string();
    assert!(Movie::decode(0, &f).unwrap().adult);
    f[8] = "maybe".to_string();
    assert!(!Movie::decode(0, &f).unwrap().adult);
}

#[test]
fn movie_row_faults_name_their_column() {
    let mut f = movie_fields("1");
    f[3] = "many".to_string();
    let e = Movie::decode(9, &f).err().unwrap();
    assert_eq!(e, DecodeError { row: 9, column: 3, reason: DecodeReason::MalformedNumber });
    let mut f = movie_fields("1");
    f[16] = "".to_string();
    let e = Movie::decode(9, &f).err().unwrap();
    assert_eq!(e, DecodeError { row: 9, column: 16, reason: DecodeReason::MissingField });
    let e = Movie::decode(9, &fields(&["1", "x"])).err().unwrap();
    assert_eq!(
        e.reason,
        DecodeReason::WrongFieldCount { expected: 24, found: 2 }
    );
}

#[test]
fn insert_statements_have_one_placeholder_per_column() {
    assert_eq!(
        Link::batch_insert_statement(),
        "INSERT INTO MovieLens_Links (movie_id, imdb_id, tmdb_id) VALUES (:1, :2, :3)"
    );
    assert_eq!(
        Tag::batch_insert_statement(),
        "INSERT INTO MovieLens_Tags (user_id, movie_id, tag, timestamp) VALUES (:1, :2, :3, :4)"
    );
    assert_eq!(
        Rating::batch_insert_statement(),
        "INSERT INTO MovieLens_Ratings (user_id, movie_id, rating, timestamp) VALUES (:1, :2, :3, :4)"
    );
    assert!(Movie::batch_insert_statement().ends_with(":22, :23, :24)"));
    assert!(Movie::batch_insert_statement().contains("TO_DATE(:6, 'YYYY-MM-DD')"));
}
