//! A tag of the tags dataset.
use crate::decode::{
    field_count_fault, i32_field, i64_field, read_i32_field, read_i64_field, DecodeError,
    DecodeReason, Record,
};
use vstd::prelude::*;

verus! {

/// One tag row: a rating's shape, with free text in place of the score.
#[derive(Clone, Debug)]
pub struct Tag {
    pub user_id: i32,
    pub movie_id: i32,
    pub tag: String,
    pub timestamp: i64,
}

impl Tag {
    /// The multi-row insert statement for tags.
    pub fn batch_insert_statement() -> (r: String)
        ensures
            r@ == "INSERT INTO MovieLens_Tags (user_id, movie_id, tag, timestamp) VALUES (:1, :2, :3, :4)"@,
    {
        String::from_str("INSERT INTO MovieLens_Tags (user_id, movie_id, tag, timestamp) VALUES (:1, :2, :3, :4)")
    }
}

impl Record for Tag {
    open spec fn decoded(f: Seq<String>) -> Result<Tag, (usize, DecodeReason)> {
        if f.len() != 4 {
            Err(field_count_fault(4, f.len()))
        } else if i32_field(f[0]@) is Err {
            Err((0usize, i32_field(f[0]@)->Err_0))
        } else if i32_field(f[1]@) is Err {
            Err((1usize, i32_field(f[1]@)->Err_0))
        } else if i64_field(f[3]@) is Err {
            Err((3usize, i64_field(f[3]@)->Err_0))
        } else {
            Ok(
                Tag {
                    user_id: i32_field(f[0]@)->Ok_0,
                    movie_id: i32_field(f[1]@)->Ok_0,
                    tag: f[2],
                    timestamp: i64_field(f[3]@)->Ok_0,
                },
            )
        }
    }

    fn decode(row: usize, fields: &Vec<String>) -> (r: Result<Tag, DecodeError>) {
        if fields.len() != 4 {
            return Err(
                DecodeError {
                    row,
                    column: 0,
                    reason: DecodeReason::WrongFieldCount { expected: 4, found: fields.len() },
                },
            );
        }
        let user_id = match read_i32_field(&fields[0]) {
            Ok(v) => v,
            Err(reason) => return Err(DecodeError { row, column: 0, reason }),
        };
        let movie_id = match read_i32_field(&fields[1]) {
            Ok(v) => v,
            Err(reason) => return Err(DecodeError { row, column: 1, reason }),
        };
        let timestamp = match read_i64_field(&fields[3]) {
            Ok(v) => v,
            Err(reason) => return Err(DecodeError { row, column: 3, reason }),
        };
        Ok(Tag { user_id, movie_id, tag: fields[2].clone(), timestamp })
    }
}

} // verus!
