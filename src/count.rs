use vstd::prelude::*;

verus! {

/// `v` clamped to the range of `i64`.
pub open spec fn saturate_i64(v: int) -> i64 {
    if v > i64::MAX {
        i64::MAX
    } else if v < i64::MIN {
        i64::MIN
    } else {
        v as i64
    }
}

/// Integers that can be sent as the value of a counter event. The value
/// sent is the integer clamped to the range of `i64`: it never wraps.
pub trait CountValue: Sized {
    /// The integer this value stands for.
    spec fn count_value(&self) -> int;

    /// This value as an `i64`, clamped to that type's range.
    fn saturating_count(self) -> (r: i64)
        ensures
            r == saturate_i64(self.count_value()),
    ;
}

impl CountValue for i64 {
    open spec fn count_value(&self) -> int {
        *self as int
    }

    fn saturating_count(self) -> (r: i64) {
        self
    }
}

impl CountValue for i128 {
    open spec fn count_value(&self) -> int {
        *self as int
    }

    fn saturating_count(self) -> (r: i64) {
        if self > i64::MAX as i128 {
            i64::MAX
        } else if self < i64::MIN as i128 {
            i64::MIN
        } else {
            self as i64
        }
    }
}

impl CountValue for u64 {
    open spec fn count_value(&self) -> int {
        *self as int
    }

    fn saturating_count(self) -> (r: i64) {
        if self > i64::MAX as u64 {
            i64::MAX
        } else {
            self as i64
        }
    }
}

impl CountValue for u128 {
    open spec fn count_value(&self) -> int {
        *self as int
    }

    fn saturating_count(self) -> (r: i64) {
        if self > i64::MAX as u128 {
            i64::MAX
        } else {
            self as i64
        }
    }
}

impl CountValue for isize {
    open spec fn count_value(&self) -> int {
        *self as int
    }

    fn saturating_count(self) -> (r: i64) {
        let wide = self as i128;
        if wide > i64::MAX as i128 {
            i64::MAX
        } else if wide < i64::MIN as i128 {
            i64::MIN
        } else {
            wide as i64
        }
    }
}

impl CountValue for usize {
    open spec fn count_value(&self) -> int {
        *self as int
    }

    fn saturating_count(self) -> (r: i64) {
        let wide = self as u128;
        if wide > i64::MAX as u128 {
            i64::MAX
        } else {
            wide as i64
        }
    }
}

/// A value inside the range of `i64` is kept exactly; one above it becomes
/// `i64::MAX` and one below it `i64::MIN`.
pub proof fn lemma_saturate_exact_or_clamped(v: int)
    ensures
        i64::MIN <= v <= i64::MAX ==> saturate_i64(v) == v,
        v > i64::MAX ==> saturate_i64(v) == i64::MAX,
        v < i64::MIN ==> saturate_i64(v) == i64::MIN,
{
}

} // verus!
