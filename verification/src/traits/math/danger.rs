//! Arithmetic that stops at the ends of the range.

use vstd::prelude::*;

verus! {

/// `sum`, held to the range of a 64-bit integer.
pub open spec fn clamped(sum: int) -> i64 {
    if sum > i64::MAX {
        i64::MAX
    } else if sum < i64::MIN {
        i64::MIN
    } else {
        sum as i64
    }
}

/// Math that saturates at the ends of the range in place of overflowing, so
/// a balance that would overflow silently stays at the end. You don't want
/// this.
pub trait UnsafeMath {
    /// The number that the value holds.
    spec fn amount(&self) -> i64;

    /// Raises the value by `amount`, stopping at the ends of the range.
    fn inc_value(&mut self, amount: i64)
        ensures
            final(self).amount() == clamped(old(self).amount() + amount),
    ;

    /// Lowers the value by `amount`, stopping at the ends of the range.
    fn dec_value(&mut self, amount: i64)
        ensures
            final(self).amount() == clamped(old(self).amount() - amount),
    ;
}

impl UnsafeMath for i64 {
    open spec fn amount(&self) -> i64 {
        *self
    }

    fn inc_value(&mut self, amount: i64) {
        assert(self.amount() == *self);
        let value: i64 = *self;
        if amount > 0 && value > i64::MAX - amount {
            *self = i64::MAX;
        } else if amount < 0 && value < i64::MIN - amount {
            *self = i64::MIN;
        } else {
            *self = value + amount;
        }
    }

    fn dec_value(&mut self, amount: i64) {
        assert(self.amount() == *self);
        let value: i64 = *self;
        if amount < 0 && value > i64::MAX + amount {
            *self = i64::MAX;
        } else if amount > 0 && value < i64::MIN + amount {
            *self = i64::MIN;
        } else {
            *self = value - amount;
        }
    }
}

} // verus!
