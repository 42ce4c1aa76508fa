use vstd::prelude::*;

verus! {

/// An identity record as the store holds it. `id` is the 128-bit value of the
/// record's UUID.
#[derive(Debug, Clone)]
pub struct User {
    pub id: u128,
    pub email: String,
    pub username: String,
    pub password_hash: String,
    pub bio: Option<String>,
    pub image: Option<String>,
}

/// What a caller supplies to register: never stored beyond the request.
#[derive(Clone)]
pub struct RegisterCommand {
    pub email: String,
    pub username: String,
    pub password: String,
}

} // verus!
