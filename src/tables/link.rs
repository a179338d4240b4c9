//! A link of the links dataset.
use crate::decode::{
    field_count_fault, i32_field, optional_i32_field, read_i32_field, read_optional_i32_field,
    DecodeError, DecodeReason, Record,
};
use vstd::prelude::*;

verus! {

/// One link row: a movie's identifiers in two outside catalogues. Its
/// identity is `movie_id`; `tmdb_id` may be absent.
#[derive(Clone, Debug)]
pub struct Link {
    pub movie_id: i32,
    pub imdb_id: String,
    pub tmdb_id: Option<i32>,
}

impl Link {
    /// The multi-row insert statement for links.
    pub fn batch_insert_statement() -> (r: String)
        ensures
            r@ == "INSERT INTO MovieLens_Links (movie_id, imdb_id, tmdb_id) VALUES (:1, :2, :3)"@,
    {
        String::from_str("INSERT INTO MovieLens_Links (movie_id, imdb_id, tmdb_id) VALUES (:1, :2, :3)")
    }
}

impl Record for Link {
    open spec fn decoded(f: Seq<String>) -> Result<Link, (usize, DecodeReason)> {
        if f.len() != 3 {
            Err(field_count_fault(3, f.len()))
        } else if i32_field(f[0]@) is Err {
            Err((0usize, i32_field(f[0]@)->Err_0))
        } else if optional_i32_field(f[2]@) is Err {
            Err((2usize, optional_i32_field(f[2]@)->Err_0))
        } else {
            Ok(
                Link {
                    movie_id: i32_field(f[0]@)->Ok_0,
                    imdb_id: f[1],
                    tmdb_id: optional_i32_field(f[2]@)->Ok_0,
                },
            )
        }
    }

    fn decode(row: usize, fields: &Vec<String>) -> (r: Result<Link, DecodeError>) {
        if fields.len() != 3 {
            return Err(
                DecodeError {
                    row,
                    column: 0,
                    reason: DecodeReason::WrongFieldCount { expected: 3, found: fields.len() },
                },
            );
        }
        let movie_id = match read_i32_field(&fields[0]) {
            Ok(v) => v,
            Err(reason) => return Err(DecodeError { row, column: 0, reason }),
        };
        let tmdb_id = match read_optional_i32_field(&fields[2]) {
            Ok(v) => v,
            Err(reason) => return Err(DecodeError { row, column: 2, reason }),
        };
        Ok(Link { movie_id, imdb_id: fields[1].clone(), tmdb_id })
    }
}

} // verus!
