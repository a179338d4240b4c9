//! A user of the synthesized users dataset.
use vstd::prelude::*;

verus! {

/// One user: an id seen in the ratings or the tags of the run. Users have
/// no source file of their own.
#[derive(Clone, Copy, Debug, PartialEq, Eq, Structural)]
pub struct User {
    pub user_id: i32,
}

impl User {
    /// The multi-row insert statement for users.
    pub fn batch_insert_statement() -> (r: String)
        ensures
            r@ == "INSERT INTO MovieLens_Users (user_id) VALUES (:1)"@,
    {
        String::from_str("INSERT INTO MovieLens_Users (user_id) VALUES (:1)")
    }
}

} // verus!
