//! The mathematical model of a counter record and of the operations on it.
//!
//! The value stays within the signed 8-bit range by wrapping around: a step up
//! from the maximum gives the minimum, and a step down from the minimum gives
//! the maximum. Every operation is therefore defined on every record.

use vstd::prelude::*;

verus! {

/// What a counter record holds.
pub struct CounterView {
    /// The counter's value.
    pub value: i8,
    /// The account that the record was created for.
    pub owner: Seq<char>,
    /// The ticket count.
    pub tickets: u8,
}

impl CounterView {
    /// The record that initialization creates for `owner`.
    pub open spec fn init(owner: Seq<char>) -> CounterView {
        CounterView { value: 0, owner, tickets: 0 }
    }

    /// The record after one step up.
    pub open spec fn increment(self) -> CounterView {
        CounterView {
            value: if self.value == i8::MAX {
                i8::MIN
            } else {
                (self.value + 1) as i8
            },
            ..self
        }
    }

    /// The record after one step down.
    pub open spec fn decrement(self) -> CounterView {
        CounterView {
            value: if self.value == i8::MIN {
                i8::MAX
            } else {
                (self.value - 1) as i8
            },
            ..self
        }
    }

    /// The record with its value back at zero.
    pub open spec fn reset(self) -> CounterView {
        CounterView { value: 0, ..self }
    }

    /// The record with its ticket count replaced by `tickets`.
    pub open spec fn set_num_ticket(self, tickets: u8) -> CounterView {
        CounterView { tickets, ..self }
    }
}

/// A fresh record has value zero, no tickets, and the owner it was created for.
pub proof fn lemma_init_fields(owner: Seq<char>)
    ensures
        CounterView::init(owner).value == 0,
        CounterView::init(owner).tickets == 0,
        CounterView::init(owner).owner == owner,
{
}

/// Strictly inside the signed 8-bit range a step up adds exactly one and a step
/// down subtracts exactly one.
pub proof fn lemma_step_inside_range(s: CounterView)
    requires
        i8::MIN < s.value < i8::MAX,
    ensures
        s.increment().value == s.value + 1,
        s.decrement().value == s.value - 1,
{
}

/// At the ends of the range a step wraps around, and it does so only there: up
/// from the maximum gives the minimum, down from the minimum gives the maximum,
/// and everywhere else a step moves the value by one.
pub proof fn lemma_step_at_bounds(s: CounterView)
    ensures
        s.value == i8::MAX ==> s.increment().value == i8::MIN,
        s.value == i8::MIN ==> s.decrement().value == i8::MAX,
        s.value != i8::MAX ==> s.increment().value == s.value + 1,
        s.value != i8::MIN ==> s.decrement().value == s.value - 1,
{
}

/// Resetting gives value zero whatever the value was, and changes nothing else.
pub proof fn lemma_reset_zero(s: CounterView)
    ensures
        s.reset().value == 0,
        s.reset().owner == s.owner,
        s.reset().tickets == s.tickets,
{
}

/// Writing a ticket count and reading it back gives the count written, whatever
/// the record held before, and changes nothing else.
pub proof fn lemma_ticket_write_read(s: CounterView, t: CounterView, n: u8)
    ensures
        s.set_num_ticket(n).tickets == n,
        s.set_num_ticket(n).tickets == t.set_num_ticket(n).tickets,
        s.set_num_ticket(n).value == s.value,
        s.set_num_ticket(n).owner == s.owner,
{
}

/// No operation reassigns the owner, and only writing the ticket count changes
/// the ticket count.
pub proof fn lemma_owner_is_never_reassigned(s: CounterView, n: u8)
    ensures
        s.increment().owner == s.owner,
        s.decrement().owner == s.owner,
        s.reset().owner == s.owner,
        s.set_num_ticket(n).owner == s.owner,
        s.increment().tickets == s.tickets,
        s.decrement().tickets == s.tickets,
{
}

} // verus!
