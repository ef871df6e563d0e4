//! The answers table's row types: an answer a user gives to a question.
use vstd::prelude::*;

use crate::user::User;

verus! {

/// The store's representation of an answer.
#[derive(Debug)]
pub struct Answer {
    /// The serial primary key.
    pub id: i32,
    /// The question being answered.
    pub question_id: i32,
    /// The user who answered.
    pub author_uuid: u128,
    /// The text of the answer, absent for a pass.
    pub answer_text: Option<String>,
}

/// An answer to be inserted: everything but the server-assigned key.
#[derive(Debug)]
pub struct NewAnswer {
    /// The user who answers.
    pub author_uuid: u128,
    /// The question being answered.
    pub question_id: i32,
    /// The text of the answer, absent for a pass.
    pub answer_text: Option<String>,
}

/// An answer joined with its author.
#[derive(Debug)]
pub struct AnswerData {
    /// The answer itself.
    pub answer: Answer,
    /// The answer's author.
    pub user: User,
}

} // verus!
