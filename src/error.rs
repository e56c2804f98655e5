use vstd::prelude::*;

verus! {

/// The three kinds of record that the service keeps.
#[derive(PartialEq, Eq, Structural, Clone, Copy, Debug)]
pub enum EntityKind {
    News,
    Post,
    User,
}

/// A failure of a request, as the caller sees it.
#[derive(PartialEq, Eq, Structural, Clone, Copy, Debug)]
pub enum ServiceError {
    /// No record of this kind has this key.
    NotFound { kind: EntityKind, id: i32 },
    /// The collection's largest key is `i32::MAX`, so no new key can be given out.
    KeysExhausted { kind: EntityKind },
}

/// The text that goes with a failure about records of `kind`.
pub open spec fn message_of(e: ServiceError) -> Seq<char> {
    match e {
        ServiceError::NotFound { kind: EntityKind::News, .. } => "News not found"@,
        ServiceError::NotFound { kind: EntityKind::Post, .. } => "Post not found"@,
        ServiceError::NotFound { kind: EntityKind::User, .. } => "User not found"@,
        ServiceError::KeysExhausted { kind: EntityKind::News } => "No News id left"@,
        ServiceError::KeysExhausted { kind: EntityKind::Post } => "No Post id left"@,
        ServiceError::KeysExhausted { kind: EntityKind::User } => "No User id left"@,
    }
}

impl ServiceError {
    /// The human-readable text of the failure, naming the kind of record.
    pub fn message(&self) -> (r: String)
        ensures
            r@ == message_of(*self),
    {
        match self {
            ServiceError::NotFound { kind: EntityKind::News, .. } => "News not found".to_owned(),
            ServiceError::NotFound { kind: EntityKind::Post, .. } => "Post not found".to_owned(),
            ServiceError::NotFound { kind: EntityKind::User, .. } => "User not found".to_owned(),
            ServiceError::KeysExhausted { kind: EntityKind::News } => "No News id left".to_owned(),
            ServiceError::KeysExhausted { kind: EntityKind::Post } => "No Post id left".to_owned(),
            ServiceError::KeysExhausted { kind: EntityKind::User } => "No User id left".to_owned(),
        }
    }
}

} // verus!
