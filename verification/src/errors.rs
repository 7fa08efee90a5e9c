//! The last-error mailbox behind the get-last-error entry point.
//!
//! The mailbox is a single optional message, not a queue: storing overwrites
//! whatever was there, and taking returns the stored message and clears the
//! slot, so an immediate second take finds nothing. The host polls it after
//! a frame update reports a nonzero return code.

use vstd::prelude::*;

verus! {

/// Single-slot mailbox for the last error message.
#[derive(Debug, Default)]
pub struct LastError {
    message: Option<String>,
}

impl LastError {
    /// The stored message, if any.
    pub closed spec fn view(&self) -> Option<Seq<char>> {
        match self.message {
            Some(text) => Some(text@),
            None => None,
        }
    }

    /// Creates an empty mailbox.
    pub fn new() -> (slot: Self)
        ensures
            slot@ is None,
    {
        LastError { message: None }
    }

    /// Whether a message is stored, without taking it.
    pub fn has_message(&self) -> (present: bool)
        ensures
            present == (self@ is Some),
    {
        self.message.is_some()
    }
}

/// The slot after a message is stored: the message, whatever was there.
pub open spec fn slot_after_store(message: Seq<char>) -> Option<Seq<char>> {
    Some(message)
}

/// What a take yields: the stored message, and the emptied slot it leaves.
pub open spec fn take_step(slot: Option<Seq<char>>) -> (Option<Seq<char>>, Option<Seq<char>>) {
    (slot, None)
}

/// Store an error message, overwriting any message already stored.
pub fn store_error(slot: &mut LastError, message: String)
    ensures
        final(slot)@ == slot_after_store(message@),
{
    slot.message = Some(message);
}

/// Retrieve and clear the last error message.
pub fn take_last_error(slot: &mut LastError) -> (message: Option<String>)
    ensures
        match message {
            Some(text) => old(slot)@ == Some(text@),
            None => old(slot)@ is None,
        },
        final(slot)@ == take_step(old(slot)@).1,
{
    slot.message.take()
}

/// The mailbox hands a message out once: a take yields what was stored and
/// leaves the slot empty, so the take right after it yields nothing.
pub proof fn lemma_take_once(slot: Option<Seq<char>>)
    ensures
        take_step(slot).0 == slot,
        take_step(slot).1 is None,
        take_step(take_step(slot).1).0 is None,
{
}

} // verus!
