//! Opaque identifier types: one newtype per entity around the 128-bit
//! value of its primary key, so that a key of one entity cannot be passed
//! where another entity's key is expected.
use vstd::prelude::*;

verus! {

/// Primary key of a user.
#[derive(Clone, Copy, Debug, PartialEq, Eq, Structural, Hash)]
pub struct UserUuid(pub u128);

/// Primary key of an article.
#[derive(Clone, Copy, Debug, PartialEq, Eq, Structural, Hash)]
pub struct ArticleUuid(pub u128);

/// Primary key of a chat.
#[derive(Clone, Copy, Debug, PartialEq, Eq, Structural, Hash)]
pub struct ChatUuid(pub u128);

/// Primary key of a bucket.
#[derive(Clone, Copy, Debug, PartialEq, Eq, Structural, Hash)]
pub struct BucketUuid(pub u128);

/// Primary key of a question.
#[derive(Clone, Copy, Debug, PartialEq, Eq, Structural, Hash)]
pub struct QuestionUuid(pub u128);

/// Primary key of an answer.
#[derive(Clone, Copy, Debug, PartialEq, Eq, Structural, Hash)]
pub struct AnswerUuid(pub u128);

/// Primary key of a chat message.
#[derive(Clone, Copy, Debug, PartialEq, Eq, Structural, Hash)]
pub struct MessageUuid(pub u128);

/// Relies on uuid::Uuid::new_v4, which draws a random version-4 UUID:
/// nothing is promised of the value, so every caller must handle any
/// 128-bit result, a collision with an existing key included.
#[verifier::external_body]
pub fn fresh_uuid() -> u128 {
    uuid::Uuid::new_v4().as_u128()
}

} // verus!
