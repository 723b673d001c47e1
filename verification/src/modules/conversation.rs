//! A conversation between two accounts.

use vstd::prelude::*;

verus! {

/// A conversation as the store holds it.
#[derive(Debug)]
pub struct Conversation {
    pub id: i32,
    /// The account that opened the conversation.
    pub user1_id: i32,
    /// The account that it was opened with.
    pub user2_id: i32,
    pub last_message: Option<String>,
    pub created_at: String,
    pub updated_at: String,
}

} // verus!
