//! The counter record and its operations.

use vstd::prelude::*;
use crate::messages::{
    after_counter_change, already_initialized_message, decreased_line, decreased_message,
    increased_line, increased_message, overflow_warning, reset_line, reset_message,
};
use crate::model::CounterView;

verus! {

/// Why a counter could not be created.
#[derive(Debug, Clone, Copy, PartialEq, Eq, Structural)]
pub enum InitError {
    /// A record already exists for this deployment.
    AlreadyInitialized,
}

impl InitError {
    /// The text that describes the error.
    pub fn message(&self) -> (text: String)
        ensures
            text@ == already_initialized_message(),
    {
        String::from_str("The contract is already initialized")
    }
}

/// The persisted record: a signed 8-bit value, the owning account and a ticket count.
pub struct Counter {
    val: i8,
    account_id: String,
    num_ticket: u8,
}

impl View for Counter {
    type V = CounterView;

    closed spec fn view(&self) -> CounterView {
        CounterView { value: self.val, owner: self.account_id@, tickets: self.num_ticket }
    }
}

impl Default for Counter {
    /// The record with value zero, no owner and no tickets.
    fn default() -> (counter: Counter)
        ensures
            counter@ == CounterView::init(Seq::<char>::empty()),
    {
        Counter { val: 0, account_id: String::new(), num_ticket: 0 }
    }
}

impl Counter {
    /// Creates the record of a deployment for the account `account_id`.
    ///
    /// `state_exists` says whether the deployment already has a record. If it has,
    /// no record is created and the call fails; otherwise the new record has value
    /// zero, no tickets, and `account_id` as its owner.
    pub fn new(state_exists: bool, account_id: String) -> (created: Result<Counter, InitError>)
        ensures
            state_exists ==> created == Err::<Counter, InitError>(InitError::AlreadyInitialized),
            !state_exists ==> created is Ok && created->Ok_0@ == CounterView::init(account_id@),
    {
        if state_exists {
            Err(InitError::AlreadyInitialized)
        } else {
            Ok(Counter { val: 0, account_id, num_ticket: 0 })
        }
    }

    /// Rebuilds a record from the three fields that were stored for it.
    pub fn restore(val: i8, account_id: String, num_ticket: u8) -> (counter: Counter)
        ensures
            counter@ == (CounterView { value: val, owner: account_id@, tickets: num_ticket }),
    {
        Counter { val, account_id, num_ticket }
    }

    /// The counter's value.
    pub fn get_num(&self) -> (value: i8)
        ensures
            value == self@.value,
    {
        self.val
    }

    /// A copy of the owner's account identifier.
    pub fn get_acc(&self) -> (owner: String)
        ensures
            owner@ == self@.owner,
    {
        self.account_id.clone()
    }

    /// The ticket count.
    pub fn get_um_ticket(&self) -> (tickets: u8)
        ensures
            tickets == self@.tickets,
    {
        self.num_ticket
    }

    /// Replaces the ticket count by `num_ticket`.
    pub fn set_num_ticket(&mut self, num_ticket: u8)
        ensures
            final(self)@ == old(self)@.set_num_ticket(num_ticket),
    {
        self.num_ticket = num_ticket;
    }

    /// Steps the value up by one, wrapping from the maximum to the minimum, and
    /// returns the two lines to log: the new value, then the overflow warning.
    pub fn increment(&mut self) -> (lines: Vec<String>)
        ensures
            final(self)@ == old(self)@.increment(),
            lines.deep_view() == seq![
                increased_line(old(self)@.increment().value as int),
                overflow_warning(),
            ],
    {
        self.val = self.val.wrapping_add(1);
        let mut lines: Vec<String> = Vec::new();
        lines.push(increased_message(self.val));
        lines.push(after_counter_change());
        lines
    }

    /// Steps the value down by one, wrapping from the minimum to the maximum, and
    /// returns the two lines to log: the new value, then the overflow warning.
    pub fn decrement(&mut self) -> (lines: Vec<String>)
        ensures
            final(self)@ == old(self)@.decrement(),
            lines.deep_view() == seq![
                decreased_line(old(self)@.decrement().value as int),
                overflow_warning(),
            ],
    {
        self.val = self.val.wrapping_sub(1);
        let mut lines: Vec<String> = Vec::new();
        lines.push(decreased_message(self.val));
        lines.push(after_counter_change());
        lines
    }

    /// Sets the value to zero and returns the line to log.
    pub fn reset(&mut self) -> (lines: Vec<String>)
        ensures
            final(self)@ == old(self)@.reset(),
            lines.deep_view() == seq![reset_line()],
    {
        self.val = 0;
        let mut lines: Vec<String> = Vec::new();
        lines.push(reset_message());
        lines
    }
}

} // verus!
