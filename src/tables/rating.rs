//! A rating of the ratings dataset.
use crate::decode::{
    decimal_field, field_count_fault, i32_field, i64_field, read_decimal_field, read_i32_field,
    read_i64_field, DecodeError, DecodeReason, Record,
};
use vstd::prelude::*;

verus! {

/// One rating row. `(user_id, movie_id, timestamp)` is not kept unique:
/// every rating is loaded as it comes.
#[derive(Clone, Debug)]
pub struct Rating {
    pub user_id: i32,
    pub movie_id: i32,
    /// The score, as its decimal text.
    pub rating: String,
    pub timestamp: i64,
}

impl Rating {
    /// The multi-row insert statement for ratings.
    pub fn batch_insert_statement() -> (r: String)
        ensures
            r@ == "INSERT INTO MovieLens_Ratings (user_id, movie_id, rating, timestamp) VALUES (:1, :2, :3, :4)"@,
    {
        String::from_str("INSERT INTO MovieLens_Ratings (user_id, movie_id, rating, timestamp) VALUES (:1, :2, :3, :4)")
    }
}

impl Record for Rating {
    open spec fn decoded(f: Seq<String>) -> Result<Rating, (usize, DecodeReason)> {
        if f.len() != 4 {
            Err(field_count_fault(4, f.len()))
        } else if i32_field(f[0]@) is Err {
            Err((0usize, i32_field(f[0]@)->Err_0))
        } else if i32_field(f[1]@) is Err {
            Err((1usize, i32_field(f[1]@)->Err_0))
        } else if decimal_field(f[2]@) is Err {
            Err((2usize, decimal_field(f[2]@)->Err_0))
        } else if i64_field(f[3]@) is Err {
            Err((3usize, i64_field(f[3]@)->Err_0))
        } else {
            Ok(
                Rating {
                    user_id: i32_field(f[0]@)->Ok_0,
                    movie_id: i32_field(f[1]@)->Ok_0,
                    rating: f[2],
                    timestamp: i64_field(f[3]@)->Ok_0,
                },
            )
        }
    }

    fn decode(row: usize, fields: &Vec<String>) -> (r: Result<Rating, DecodeError>) {
        if fields.len() != 4 {
            return Err(
                DecodeError {
                    row,
                    column: 0,
                    reason: DecodeReason::WrongFieldCount { expected: 4, found: fields.len() },
                },
            );
        }
        let user_id = match read_i32_field(&fields[0]) {
            Ok(v) => v,
            Err(reason) => return Err(DecodeError { row, column: 0, reason }),
        };
        let movie_id = match read_i32_field(&fields[1]) {
            Ok(v) => v,
            Err(reason) => return Err(DecodeError { row, column: 1, reason }),
        };
        let rating = match read_decimal_field(&fields[2]) {
            Ok(v) => v,
            Err(reason) => return Err(DecodeError { row, column: 2, reason }),
        };
        let timestamp = match read_i64_field(&fields[3]) {
            Ok(v) => v,
            Err(reason) => return Err(DecodeError { row, column: 3, reason }),
        };
        Ok(Rating { user_id, movie_id, rating, timestamp })
    }
}

} // verus!
