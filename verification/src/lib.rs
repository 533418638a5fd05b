//! A transparent instrumentation wrapper around a single value.
//!
//! `DetectDrop<T>` owns exactly one value of type `T` and behaves as that
//! value for reading, mutation, equality and ordering. When a wrapper is
//! destroyed it writes one diagnostic line for the contained value to
//! standard output; extracting the value with [`DetectDrop::into_inner`]
//! disarms the wrapper, so no line is written for that instance.

use vstd::prelude::*;
use vstd::std_specs::cmp::PartialEqSpec;
use vstd::std_specs::cmp::PartialOrdSpec;
use std::io::Write;

verus! {

/// A wrapper that owns one value and announces its destruction.
///
/// Internally the wrapper is a two-state machine: while it still owns its
/// value it is *armed* (`well_formed()`), and its destructor emits one
/// diagnostic line; extraction moves the value out and leaves the spent
/// wrapper disarmed, so its destructor emits nothing.
#[derive(Debug, Eq, Ord, Hash)]
pub struct DetectDrop<T: core::fmt::Debug> {
    value: Option<T>,
}

impl<T: core::fmt::Debug> View for DetectDrop<T> {
    type V = T;

    /// The contained value, for use in contracts.
    closed spec fn view(&self) -> T {
        self.value->Some_0
    }
}

impl<T: core::fmt::Debug> DetectDrop<T> {
    /// The wrapper still owns a live value: its destructor is armed.
    /// Every wrapper a caller can hold satisfies this; only extraction
    /// consumes it.
    pub closed spec fn well_formed(&self) -> bool {
        self.value is Some
    }

    /// Wraps `value`, taking ownership of it. Cannot fail.
    pub fn new(value: T) -> (r: Self)
        ensures
            r.well_formed(),
            r@ == value,
    {
        DetectDrop { value: Some(value) }
    }

    /// Read access to the contained value, without unwrapping it.
    pub fn get(&self) -> (r: &T)
        requires
            self.well_formed(),
        ensures
            *r == self@,
    {
        self.value.as_ref().unwrap()
    }

    /// Write access to the contained value: mutation through the returned
    /// reference is exactly mutation of the contained value, and the
    /// wrapper stays armed.
    pub fn get_mut(&mut self) -> (r: &mut T)
        requires
            old(self).well_formed(),
        ensures
            *r == old(self)@,
            final(self).well_formed(),
            final(self)@ == *final(r),
    {
        self.value.as_mut().unwrap()
    }

    /// Consumes the wrapper and returns the contained value. The
    /// destructor of this spent instance emits nothing: extraction is the
    /// one sanctioned escape from the lifecycle-end diagnostic.
    pub fn into_inner(self) -> (r: T)
        requires
            self.well_formed(),
        ensures
            r == self@,
    {
        let mut this = self;
        let value = this.value.take();
        value.unwrap()
    }
}

impl<T: core::fmt::Debug + PartialEq> PartialEq for DetectDrop<T> {
    /// Equality delegates to the contained values.
    fn eq(&self, other: &Self) -> (r: bool) {
        match (&self.value, &other.value) {
            (Some(a), Some(b)) => a == b,
            (None, None) => true,
            _ => false,
        }
    }
}

impl<T: core::fmt::Debug + PartialEq> vstd::std_specs::cmp::PartialEqSpecImpl for DetectDrop<T> {
    open spec fn obeys_eq_spec() -> bool {
        T::obeys_eq_spec()
    }

    /// Two armed wrappers compare as their contained values do; a spent
    /// wrapper equals only another spent wrapper.
    open spec fn eq_spec(&self, other: &Self) -> bool {
        if self.well_formed() && other.well_formed() {
            self@.eq_spec(&other@)
        } else {
            self.well_formed() == other.well_formed()
        }
    }
}

impl<T: core::fmt::Debug + PartialOrd> PartialOrd for DetectDrop<T> {
    /// Ordering delegates to the contained values.
    fn partial_cmp(&self, other: &Self) -> (r: Option<core::cmp::Ordering>) {
        match (&self.value, &other.value) {
            (Some(a), Some(b)) => a.partial_cmp(b),
            (None, None) => Some(core::cmp::Ordering::Equal),
            (None, Some(_)) => Some(core::cmp::Ordering::Less),
            (Some(_), None) => Some(core::cmp::Ordering::Greater),
        }
    }
}

impl<T: core::fmt::Debug + PartialOrd> vstd::std_specs::cmp::PartialOrdSpecImpl for DetectDrop<T> {
    open spec fn obeys_partial_cmp_spec() -> bool {
        T::obeys_partial_cmp_spec()
    }

    /// Two armed wrappers order as their contained values do; a spent
    /// wrapper sorts before any armed one.
    open spec fn partial_cmp_spec(&self, other: &Self) -> Option<core::cmp::Ordering> {
        if self.well_formed() && other.well_formed() {
            self@.partial_cmp_spec(&other@)
        } else if !self.well_formed() && !other.well_formed() {
            Some(core::cmp::Ordering::Equal)
        } else if !self.well_formed() {
            Some(core::cmp::Ordering::Less)
        } else {
            Some(core::cmp::Ordering::Greater)
        }
    }
}

impl<T: core::fmt::Debug + Clone> Clone for DetectDrop<T> {
    /// Duplicates the contained value with `T::clone`; the copy is armed
    /// exactly when the original is, and its own destruction is announced
    /// independently.
    fn clone(&self) -> (r: Self)
        ensures
            r.well_formed() == self.well_formed(),
            self.well_formed() ==> cloned::<T>(self@, r@),
    {
        match &self.value {
            Some(v) => DetectDrop { value: Some(v.clone()) },
            None => DetectDrop { value: None },
        }
    }
}

impl<T: core::fmt::Debug> From<T> for DetectDrop<T> {
    /// Wrapping a bare value: the same as `new`.
    fn from(value: T) -> (r: Self)
        ensures
            r.well_formed(),
            r@ == value,
    {
        DetectDrop { value: Some(value) }
    }
}

impl<T: core::fmt::Debug> vstd::std_specs::convert::FromSpecImpl<T> for DetectDrop<T> {
    open spec fn obeys_from_spec() -> bool {
        true
    }

    closed spec fn from_spec(v: T) -> Self {
        DetectDrop { value: Some(v) }
    }
}

/// Relies on `std::io::stdout` and `writeln!`: writes one diagnostic line
/// rendering `value` with its `Debug` implementation. A write error is
/// ignored; the claim that this call does not unwind assumes that `T`'s
/// `Debug` implementation does not panic.
#[verifier::external_body]
fn emit_drop_line<T: core::fmt::Debug>(value: &T)
    opens_invariants none
    no_unwind
{
    let mut out = std::io::stdout();
    let _ = writeln!(out, "dropping {:?}", value);
}

impl<T: core::fmt::Debug> DetectDrop<T> {
    /// The lifecycle-end step, run by the destructor: emits the diagnostic
    /// line exactly when the wrapper still owns its value, so a wrapper
    /// spent by `into_inner` emits nothing. Returns whether it emitted.
    fn lifecycle_end(&self) -> (emitted: bool)
        ensures
            emitted == self.well_formed(),
        opens_invariants none
        no_unwind
    {
        match &self.value {
            Some(value) => {
                emit_drop_line(value);
                true
            },
            None => false,
        }
    }
}

impl<T: core::fmt::Debug> Drop for DetectDrop<T> {
    /// Runs the lifecycle-end step. Rust runs `drop` once per
    /// non-extracted instance, on every exit path, including container
    /// teardown and unwinding.
    fn drop(&mut self)
        opens_invariants none
        no_unwind
    {
        let _ = self.lifecycle_end();
    }
}

/// Equality delegation: two armed wrappers compare equal exactly when
/// their contained values compare equal.
pub proof fn lemma_eq_delegates<T: core::fmt::Debug + PartialEq>(
    w1: &DetectDrop<T>,
    w2: &DetectDrop<T>,
)
    requires
        w1.well_formed(),
        w2.well_formed(),
    ensures
        w1.eq_spec(w2) == w1@.eq_spec(&w2@),
{
}

/// Ordering delegation: two armed wrappers order exactly as their
/// contained values order.
pub proof fn lemma_ord_delegates<T: core::fmt::Debug + PartialOrd>(
    w1: &DetectDrop<T>,
    w2: &DetectDrop<T>,
)
    requires
        w1.well_formed(),
        w2.well_formed(),
    ensures
        w1.partial_cmp_spec(w2) == w1@.partial_cmp_spec(&w2@),
{
}

/// Round trip: whatever `new` wraps, `into_inner` gives back unchanged.
pub proof fn lemma_wrap_extract_round_trip<T: core::fmt::Debug>(v: T, w: DetectDrop<T>, r: T)
    requires
        call_ensures(DetectDrop::<T>::new, (v,), w),
        call_ensures(DetectDrop::<T>::into_inner, (w,), r),
    ensures
        r == v,
{
}

} // verus!
