//! What a container hands on to its payload and cannot do itself: hashing,
//! displaying and duplicating behind a `Box`.
//!
//! Each of the three is a call into code that Verus does not see, the
//! payload's own `Hash` or `Display` impl, or `dyn_clone`. What such a call
//! gives depends on that impl, so nothing is claimed of the outcome. Instead
//! each call has a relation of its own, which holds of an argument and an
//! outcome when the call can give that outcome for that argument. A contract
//! that names the relation says which value was handed to the call, and that
//! the outcome came from exactly one such call.

use dyn_clone::DynClone;
use std::fmt::Display;
use std::fmt::Error;
use std::fmt::Formatter;
use std::hash::Hash;
use std::hash::Hasher;
use vstd::prelude::*;

verus! {

/// `std::fmt::Formatter`: where a `Display` impl writes. Opaque here.
#[verifier::external_type_specification]
#[verifier::external_body]
pub struct ExFormatter<'a>(Formatter<'a>);

/// `std::fmt::Error`: what a `Display` impl reports when writing fails.
/// Opaque here.
#[verifier::external_type_specification]
#[verifier::external_body]
pub struct ExError(Error);

/// `Hash::hash` of std: feeds `value` into `state` as the `Hash` impl of `T`
/// sees fit. Nothing is claimed of what reaches the hasher.
#[verifier::external_body]
fn feed<T: Hash + ?Sized, H: Hasher>(value: &T, state: &mut H) {
    value.hash(state)
}

/// `Display::fmt` of std: writes `value` to `formatter` as the `Display` impl
/// of `T` sees fit, and reports what that impl reports. Nothing is claimed of
/// what is written.
#[verifier::external_body]
fn show<T: Display + ?Sized>(value: &T, formatter: &mut Formatter<'_>) -> (outcome: Result<
    (),
    Error,
>) {
    value.fmt(formatter)
}

/// `dyn_clone::clone_box`: a new `Box` that holds what the `Clone` impl
/// behind `T` makes of `value`. Nothing is claimed of the duplicate.
#[verifier::external_body]
fn clone_boxed<T: DynClone + ?Sized>(value: &T) -> (duplicate: Box<T>) {
    dyn_clone::clone_box(value)
}

/// `sink` is a hasher before and after one run of the `Hash` impl of `T` on
/// `value`: its current value is the hasher before the run, its final value
/// the hasher after it.
pub closed spec fn hashed_into<T: Hash + ?Sized, H: Hasher>(value: &T, sink: &mut H) -> bool {
    call_ensures(feed::<T, H>, (value, sink), ())
}

/// `sink` is a formatter before and after one run of the `Display` impl of
/// `T` on `value`, and `outcome` is what that run reports: the current value
/// of `sink` is the formatter before the run, its final value the formatter
/// after it.
pub closed spec fn displayed_by<T: Display + ?Sized>(
    value: &T,
    sink: &mut Formatter<'_>,
    outcome: Result<(), Error>,
) -> bool {
    call_ensures(show::<T>, (value, sink), outcome)
}

/// `duplicate` is what one run of the `Clone` impl behind `T` can make of
/// `value`.
pub closed spec fn boxed_clone_of<T: DynClone + ?Sized>(value: &T, duplicate: Box<T>) -> bool {
    call_ensures(clone_boxed::<T>, (value,), duplicate)
}

/// Feeds `value` into `state`, once.
pub(crate) fn hash_payload<T: Hash + ?Sized, H: Hasher>(value: &T, state: &mut H)
    ensures
        exists|sink: &mut H|
            {
                &&& *sink == *old(state)
                &&& *final(sink) == *final(state)
                &&& #[trigger] hashed_into(value, sink)
            },
{
    feed(value, state);
    assert(forall|sink: &mut H| #[trigger]
        call_ensures(feed::<T, H>, (value, sink), ()) ==> hashed_into(value, sink));
}

/// Writes `value` to `formatter`, once.
pub(crate) fn display_payload<T: Display + ?Sized>(
    value: &T,
    formatter: &mut Formatter<'_>,
) -> (outcome: Result<(), Error>)
    ensures
        exists|sink: &mut Formatter<'_>|
            {
                &&& *sink == *old(formatter)
                &&& *final(sink) == *final(formatter)
                &&& #[trigger] displayed_by(value, sink, outcome)
            },
{
    let outcome = show(value, formatter);
    assert(forall|sink: &mut Formatter<'_>| #[trigger]
        call_ensures(show::<T>, (value, sink), outcome) ==> displayed_by(value, sink, outcome));
    outcome
}

/// Duplicates `value` into a new `Box`, once.
pub(crate) fn duplicate_payload<T: DynClone + ?Sized>(value: &T) -> (duplicate: Box<T>)
    ensures
        boxed_clone_of(value, duplicate),
{
    clone_boxed(value)
}

} // verus!
