//! Delivery of reminders.

use crate::reminder::Reminder;
use vstd::prelude::*;

verus! {

/// A delivery that did not go through, with the channel's account of it.
#[derive(Debug)]
pub struct DeliveryFailure {
    pub reason: String,
}

/// A channel that can deliver a reminder to the chat it came from.
pub trait Notify {
    /// Delivers `reminder`, and hands the channel back for the next one.
    fn notify(&self, reminder: &Reminder) -> Result<&Self, DeliveryFailure>;
}

} // verus!
