//! A message of a conversation.

use vstd::prelude::*;

verus! {

/// A message as the store holds it.
#[derive(Debug)]
pub struct Message {
    pub id: i32,
    pub sender_username: String,
    pub receiver_username: String,
    pub conversation_id: i32,
    pub body: String,
    pub delivered: bool,
    pub readed: bool,
    pub created_at: String,
}

} // verus!
