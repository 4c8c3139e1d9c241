//! Column values that are neither integers nor text.

use vstd::prelude::*;

verus! {

/// A time of day.
#[derive(Clone, Copy, Debug, PartialEq, Eq, Structural)]
pub struct TimeOfDay {
    /// Whole seconds since midnight.
    pub secs: u32,
    /// Nanoseconds within the second.
    pub nanos: u32,
}

/// A number of hours, kept as the bit pattern of the single-precision number the store holds.
#[derive(Clone, Copy, Debug, PartialEq, Eq, Structural)]
pub struct Hours {
    /// The IEEE 754 bits of the number.
    pub bits: u32,
}

/// The value of a column after a patch: the patch's where it has one, else the old one.
pub open spec fn written<T>(patch: Option<T>, old: T) -> T {
    match patch {
        Some(value) => value,
        None => old,
    }
}

/// Whether two optional texts read the same.
pub open spec fn same_text(a: Option<String>, b: Option<String>) -> bool {
    match (a, b) {
        (Some(x), Some(y)) => x@ == y@,
        (None, None) => true,
        _ => false,
    }
}

/// Whether two optional texts read the same.
pub fn text_eq(a: &Option<String>, b: &Option<String>) -> (same: bool)
    ensures
        same == same_text(*a, *b),
{
    match (a, b) {
        (Some(x), Some(y)) => *x == *y,
        (None, None) => true,
        _ => false,
    }
}

/// Whether two lists of keys hold the same keys in the same order.
pub fn keys_eq(a: &Vec<i32>, b: &Vec<i32>) -> (same: bool)
    ensures
        same == (a@ == b@),
{
    if a.len() != b.len() {
        return false;
    }
    let mut i: usize = 0;
    while i < a.len()
        invariant
            i <= a.len(),
            a.len() == b.len(),
            a@.take(i as int) == b@.take(i as int),
        decreases a.len() - i,
    {
        if a[i] != b[i] {
            assert(a@[i as int] != b@[i as int]);
            return false;
        }
        proof {
            assert(a@.take(i + 1) == a@.take(i as int).push(a@[i as int]));
            assert(b@.take(i + 1) == b@.take(i as int).push(b@[i as int]));
        }
        i += 1;
    }
    proof {
        assert(a@.take(a.len() as int) == a@);
        assert(b@.take(b.len() as int) == b@);
    }
    true
}

} // verus!
