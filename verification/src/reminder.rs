//! A reminder that is due.

use crate::id::ID;
use vstd::prelude::*;

verus! {

/// A message to deliver, the chat it goes to, and the identity under which
/// it was scheduled.
pub struct Reminder {
    pub id: ID,
    pub chat_id: String,
    pub message: String,
}

} // verus!
