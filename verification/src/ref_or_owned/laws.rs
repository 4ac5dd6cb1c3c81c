//! What holds of the containers whatever their payload: the active case
//! cannot be observed through reading, comparing, hashing or displaying, and
//! containers compare as their payloads do, in any mix of cases.
//!
//! The laws are stated over `payload` and the spec functions that the
//! contracts of the operations use, so each says what the operations return.
//!
//! The laws of exclusive access speak of writing through a reference, which
//! only executable code does. They stand at the end, as executable functions
//! that take the writing as a closure and say what it comes to.

use super::forward::hashed_into;
use super::forward::boxed_clone_of;
use super::forward::displayed_by;
use super::RefMutOrBox;
use super::RefMutOrOwned;
use super::RefOrBox;
use super::RefOrOwned;
use dyn_clone::DynClone;
use std::cmp::Ordering;
use std::fmt::Display;
use std::fmt::Error;
use std::fmt::Formatter;
use std::hash::Hash;
use std::hash::Hasher;
use std::ops::DerefMut;
use vstd::prelude::*;
use vstd::std_specs::cmp::OrdSpec;
use vstd::std_specs::cmp::PartialEqSpec;
use vstd::std_specs::cmp::PartialOrdSpec;
use vstd::std_specs::convert::FromSpec;

verus! {

/// A container made from `&value` and one made from `value` lead to the same
/// payload, `value`, and so does whatever `From` makes of either.
pub proof fn lemma_ref_or_owned_reads_alike<T>(value: T)
    ensures
        RefOrOwned::Borrowed(&value).payload() == value,
        RefOrOwned::Owned(value).payload() == value,
        RefOrOwned::<T>::from_spec(&value).payload() == RefOrOwned::<T>::from_spec(
            value,
        ).payload(),
{
}

/// A container made from `&value` and one made from `value` compare alike
/// with any other container, on either side of `==` and of `<`.
pub proof fn lemma_ref_or_owned_compares_alike<T, U>(value: T, other: RefOrOwned<U>) where
    T: PartialEq<U> + PartialOrd<U>,
    U: PartialEq<T> + PartialOrd<T>,

    ensures
        RefOrOwned::Borrowed(&value).eq_spec(&other) == RefOrOwned::Owned(value).eq_spec(&other),
        other.eq_spec(&RefOrOwned::Borrowed(&value)) == other.eq_spec(&RefOrOwned::Owned(value)),
        RefOrOwned::Borrowed(&value).partial_cmp_spec(&other) == RefOrOwned::Owned(
            value,
        ).partial_cmp_spec(&other),
        other.partial_cmp_spec(&RefOrOwned::Borrowed(&value)) == other.partial_cmp_spec(
            &RefOrOwned::Owned(value),
        ),
{
}

/// A container made from `&value` and one made from `value` stand at the
/// same place in the total order, on either side of `cmp`.
pub proof fn lemma_ref_or_owned_orders_alike<T: Ord>(value: T, other: RefOrOwned<T>)
    ensures
        RefOrOwned::Borrowed(&value).total_order(&other) == RefOrOwned::Owned(value).total_order(
            &other,
        ),
        other.total_order(&RefOrOwned::Borrowed(&value)) == other.total_order(
            &RefOrOwned::Owned(value),
        ),
{
}

/// A container made from `&value` and one made from `value` hash alike: a
/// hasher is driven by the one exactly as it is by the other, and as it is
/// by `value` itself.
pub proof fn lemma_ref_or_owned_hashes_alike<T: Hash, H: Hasher>(value: T)
    ensures
        forall|sink: &mut H| #[trigger]
            hashed_into(&RefOrOwned::Borrowed(&value).payload(), sink) == hashed_into(
                &value,
                sink,
            ),
        forall|sink: &mut H| #[trigger]
            hashed_into(&RefOrOwned::Owned(value).payload(), sink) == hashed_into(&value, sink),
{
}

/// A container made from `&value` and one made from `value` display alike:
/// a formatter is driven by the one exactly as it is by the other, and as it
/// is by `value` itself.
pub proof fn lemma_ref_or_owned_displays_alike<T: Display>(value: T)
    ensures
        forall|sink: &mut Formatter<'_>, outcome: Result<(), Error>| #[trigger]
            displayed_by(&RefOrOwned::Borrowed(&value).payload(), sink, outcome) == displayed_by(
                &value,
                sink,
                outcome,
            ),
        forall|sink: &mut Formatter<'_>, outcome: Result<(), Error>| #[trigger]
            displayed_by(&RefOrOwned::Owned(value).payload(), sink, outcome) == displayed_by(
                &value,
                sink,
                outcome,
            ),
{
}

/// Where `smaller` is less than `larger`, a container of `smaller` is less
/// than a container of `larger`, in each of the four mixes of cases.
pub proof fn lemma_ref_or_owned_less_in_any_mix<T: PartialOrd>(smaller: T, larger: T)
    requires
        smaller.partial_cmp_spec(&larger) == Some(Ordering::Less),
    ensures
        RefOrOwned::Borrowed(&smaller).partial_cmp_spec(&RefOrOwned::Borrowed(&larger)) == Some(
            Ordering::Less,
        ),
        RefOrOwned::Borrowed(&smaller).partial_cmp_spec(&RefOrOwned::Owned(larger)) == Some(
            Ordering::Less,
        ),
        RefOrOwned::Owned(smaller).partial_cmp_spec(&RefOrOwned::Borrowed(&larger)) == Some(
            Ordering::Less,
        ),
        RefOrOwned::Owned(smaller).partial_cmp_spec(&RefOrOwned::Owned(larger)) == Some(
            Ordering::Less,
        ),
{
}

/// Where `value` equals itself, a container of `value` equals a container
/// of `value`, in each of the four mixes of cases.
pub proof fn lemma_ref_or_owned_equal_in_any_mix<T: PartialEq>(value: T)
    requires
        value.eq_spec(&value),
    ensures
        RefOrOwned::Borrowed(&value).eq_spec(&RefOrOwned::Borrowed(&value)),
        RefOrOwned::Borrowed(&value).eq_spec(&RefOrOwned::Owned(value)),
        RefOrOwned::Owned(value).eq_spec(&RefOrOwned::Borrowed(&value)),
        RefOrOwned::Owned(value).eq_spec(&RefOrOwned::Owned(value)),
{
}


/// A container that borrows `value` mutably and one that owns `value` lead to
/// the same payload, `value`.
pub proof fn lemma_ref_mut_or_owned_reads_alike<T>(borrowed: RefMutOrOwned<T>, value: T)
    requires
        borrowed is Borrowed,
        borrowed.payload() == value,
    ensures
        RefMutOrOwned::Owned(value).payload() == value,
        borrowed.payload() == RefMutOrOwned::Owned(value).payload(),
        RefMutOrOwned::<T>::from_spec(value).payload() == value,
{
}

/// A container that borrows `value` mutably and one that owns `value` compare
/// alike with any other container, on either side of `==` and of `<`.
pub proof fn lemma_ref_mut_or_owned_compares_alike<T, U>(
    borrowed: RefMutOrOwned<T>,
    value: T,
    other: RefMutOrOwned<U>,
) where T: PartialEq<U> + PartialOrd<U>, U: PartialEq<T> + PartialOrd<T>
    requires
        borrowed is Borrowed,
        borrowed.payload() == value,
    ensures
        borrowed.eq_spec(&other) == RefMutOrOwned::Owned(value).eq_spec(&other),
        other.eq_spec(&borrowed) == other.eq_spec(&RefMutOrOwned::Owned(value)),
        borrowed.partial_cmp_spec(&other) == RefMutOrOwned::Owned(value).partial_cmp_spec(&other),
        other.partial_cmp_spec(&borrowed) == other.partial_cmp_spec(&RefMutOrOwned::Owned(value)),
{
}

/// A container that borrows `value` mutably and one that owns `value` stand
/// at the same place in the total order, on either side of `cmp`.
pub proof fn lemma_ref_mut_or_owned_orders_alike<T: Ord>(
    borrowed: RefMutOrOwned<T>,
    value: T,
    other: RefMutOrOwned<T>,
)
    requires
        borrowed is Borrowed,
        borrowed.payload() == value,
    ensures
        borrowed.total_order(&other) == RefMutOrOwned::Owned(value).total_order(&other),
        other.total_order(&borrowed) == other.total_order(&RefMutOrOwned::Owned(value)),
{
}

/// A container that borrows `value` mutably and one that owns `value` hash
/// alike: a hasher is driven by the one exactly as it is by the other, and as
/// it is by `value` itself.
pub proof fn lemma_ref_mut_or_owned_hashes_alike<T: Hash, H: Hasher>(
    borrowed: RefMutOrOwned<T>,
    value: T,
)
    requires
        borrowed is Borrowed,
        borrowed.payload() == value,
    ensures
        forall|sink: &mut H| #[trigger]
            hashed_into(&borrowed.payload(), sink) == hashed_into(&value, sink),
        forall|sink: &mut H| #[trigger]
            hashed_into(&RefMutOrOwned::Owned(value).payload(), sink) == hashed_into(
                &value,
                sink,
            ),
{
}

/// A container that borrows `value` mutably and one that owns `value`
/// display alike: a formatter is driven by the one exactly as it is by the
/// other, and as it is by `value` itself.
pub proof fn lemma_ref_mut_or_owned_displays_alike<T: Display>(
    borrowed: RefMutOrOwned<T>,
    value: T,
)
    requires
        borrowed is Borrowed,
        borrowed.payload() == value,
    ensures
        forall|sink: &mut Formatter<'_>, outcome: Result<(), Error>| #[trigger]
            displayed_by(&borrowed.payload(), sink, outcome) == displayed_by(
                &value,
                sink,
                outcome,
            ),
        forall|sink: &mut Formatter<'_>, outcome: Result<(), Error>| #[trigger]
            displayed_by(&RefMutOrOwned::Owned(value).payload(), sink, outcome) == displayed_by(
                &value,
                sink,
                outcome,
            ),
{
}

/// Where the payload of `left` is less than that of `right`, `left` is less
/// than `right`, whichever cases the two are in.
pub proof fn lemma_ref_mut_or_owned_less_in_any_mix<T: PartialOrd>(
    left: RefMutOrOwned<T>,
    right: RefMutOrOwned<T>,
)
    requires
        left.payload().partial_cmp_spec(&right.payload()) == Some(Ordering::Less),
    ensures
        left.partial_cmp_spec(&right) == Some(Ordering::Less),
{
}

/// Where a payload equals itself, two containers of it are equal, whichever
/// cases the two are in.
pub proof fn lemma_ref_mut_or_owned_equal_in_any_mix<T: PartialEq>(
    left: RefMutOrOwned<T>,
    right: RefMutOrOwned<T>,
)
    requires
        left.payload() == right.payload(),
        left.payload().eq_spec(&left.payload()),
    ensures
        left.eq_spec(&right),
{
}

/// A container that borrows `value` and one that owns a box of `value` lead
/// to the same payload, `value`, and so does whatever `From` makes of either.
pub proof fn lemma_ref_or_box_reads_alike<T: ?Sized>(value: &T, boxed: Box<T>)
    requires
        value == &*boxed,
    ensures
        RefOrBox::Borrowed(value).payload() == value,
        RefOrBox::Owned(boxed).payload() == value,
        RefOrBox::<T>::from_spec(value).payload() == RefOrBox::<T>::from_spec(boxed).payload(),
{
}

/// A container that borrows `value` and one that owns a box of `value`
/// compare alike with any other container, on either side of `==` and of `<`.
pub proof fn lemma_ref_or_box_compares_alike<T: ?Sized, U: ?Sized>(
    value: &T,
    boxed: Box<T>,
    other: RefOrBox<U>,
) where T: PartialEq<U> + PartialOrd<U>, U: PartialEq<T> + PartialOrd<T>
    requires
        value == &*boxed,
    ensures
        RefOrBox::Borrowed(value).eq_spec(&other) == RefOrBox::Owned(boxed).eq_spec(&other),
        other.eq_spec(&RefOrBox::Borrowed(value)) == other.eq_spec(&RefOrBox::Owned(boxed)),
        RefOrBox::Borrowed(value).partial_cmp_spec(&other) == RefOrBox::Owned(
            boxed,
        ).partial_cmp_spec(&other),
        other.partial_cmp_spec(&RefOrBox::Borrowed(value)) == other.partial_cmp_spec(
            &RefOrBox::Owned(boxed),
        ),
{
}

/// A container that borrows `value` and one that owns a box of `value` hash
/// alike: a hasher is driven by the one exactly as it is by the other, and as
/// it is by `value` itself.
pub proof fn lemma_ref_or_box_hashes_alike<T: ?Sized + Hash, H: Hasher>(value: &T, boxed: Box<T>)
    requires
        value == &*boxed,
    ensures
        forall|sink: &mut H| #[trigger]
            hashed_into(RefOrBox::Borrowed(value).payload(), sink) == hashed_into(value, sink),
        forall|sink: &mut H| #[trigger]
            hashed_into(RefOrBox::Owned(boxed).payload(), sink) == hashed_into(value, sink),
{
}

/// A container that borrows `value` and one that owns a box of `value`
/// display alike: a formatter is driven by the one exactly as it is by the
/// other, and as it is by `value` itself.
pub proof fn lemma_ref_or_box_displays_alike<T: ?Sized + Display>(value: &T, boxed: Box<T>)
    requires
        value == &*boxed,
    ensures
        forall|sink: &mut Formatter<'_>, outcome: Result<(), Error>| #[trigger]
            displayed_by(RefOrBox::Borrowed(value).payload(), sink, outcome) == displayed_by(
                value,
                sink,
                outcome,
            ),
        forall|sink: &mut Formatter<'_>, outcome: Result<(), Error>| #[trigger]
            displayed_by(RefOrBox::Owned(boxed).payload(), sink, outcome) == displayed_by(
                value,
                sink,
                outcome,
            ),
{
}

/// Where the payload of `left` is less than that of `right`, `left` is less
/// than `right`, whichever cases the two are in.
pub proof fn lemma_ref_or_box_less_in_any_mix<T: ?Sized + PartialOrd>(
    left: RefOrBox<T>,
    right: RefOrBox<T>,
)
    requires
        left.payload().partial_cmp_spec(right.payload()) == Some(Ordering::Less),
    ensures
        left.partial_cmp_spec(&right) == Some(Ordering::Less),
{
}

/// Where a payload equals itself, two containers of it are equal, whichever
/// cases the two are in.
pub proof fn lemma_ref_or_box_equal_in_any_mix<T: ?Sized + PartialEq>(
    left: RefOrBox<T>,
    right: RefOrBox<T>,
)
    requires
        left.payload() == right.payload(),
        left.payload().eq_spec(left.payload()),
    ensures
        left.eq_spec(&right),
{
}

/// A container that borrows a value mutably and one that owns a box of the
/// same value lead to the same payload.
pub proof fn lemma_ref_mut_or_box_reads_alike<T: ?Sized>(borrowed: RefMutOrBox<T>, boxed: Box<T>)
    requires
        borrowed is Borrowed,
        borrowed.payload() == &*boxed,
    ensures
        RefMutOrBox::Owned(boxed).payload() == &*boxed,
        borrowed.payload() == RefMutOrBox::Owned(boxed).payload(),
        RefMutOrBox::<T>::from_spec(boxed).payload() == &*boxed,
{
}

/// A container that borrows a value mutably and one that owns a box of the
/// same value compare alike with any other container, on either side of `==`
/// and of `<`.
pub proof fn lemma_ref_mut_or_box_compares_alike<T: ?Sized, U: ?Sized>(
    borrowed: RefMutOrBox<T>,
    boxed: Box<T>,
    other: RefMutOrBox<U>,
) where T: PartialEq<U> + PartialOrd<U>, U: PartialEq<T> + PartialOrd<T>
    requires
        borrowed is Borrowed,
        borrowed.payload() == &*boxed,
    ensures
        borrowed.eq_spec(&other) == RefMutOrBox::Owned(boxed).eq_spec(&other),
        other.eq_spec(&borrowed) == other.eq_spec(&RefMutOrBox::Owned(boxed)),
        borrowed.partial_cmp_spec(&other) == RefMutOrBox::Owned(boxed).partial_cmp_spec(&other),
        other.partial_cmp_spec(&borrowed) == other.partial_cmp_spec(&RefMutOrBox::Owned(boxed)),
{
}

/// A container that borrows a value mutably and one that owns a box of the
/// same value hash alike: a hasher is driven by the one exactly as it is by
/// the other.
pub proof fn lemma_ref_mut_or_box_hashes_alike<T: ?Sized + Hash, H: Hasher>(
    borrowed: RefMutOrBox<T>,
    boxed: Box<T>,
)
    requires
        borrowed is Borrowed,
        borrowed.payload() == &*boxed,
    ensures
        forall|sink: &mut H| #[trigger]
            hashed_into(borrowed.payload(), sink) == hashed_into(
                RefMutOrBox::Owned(boxed).payload(),
                sink,
            ),
{
}

/// A container that borrows a value mutably and one that owns a box of the
/// same value display alike: a formatter is driven by the one exactly as it
/// is by the other.
pub proof fn lemma_ref_mut_or_box_displays_alike<T: ?Sized + Display>(
    borrowed: RefMutOrBox<T>,
    boxed: Box<T>,
)
    requires
        borrowed is Borrowed,
        borrowed.payload() == &*boxed,
    ensures
        forall|sink: &mut Formatter<'_>, outcome: Result<(), Error>| #[trigger]
            displayed_by(borrowed.payload(), sink, outcome) == displayed_by(
                RefMutOrBox::Owned(boxed).payload(),
                sink,
                outcome,
            ),
{
}

/// Where the payload of `left` is less than that of `right`, `left` is less
/// than `right`, whichever cases the two are in.
pub proof fn lemma_ref_mut_or_box_less_in_any_mix<T: ?Sized + PartialOrd>(
    left: RefMutOrBox<T>,
    right: RefMutOrBox<T>,
)
    requires
        left.payload().partial_cmp_spec(right.payload()) == Some(Ordering::Less),
    ensures
        left.partial_cmp_spec(&right) == Some(Ordering::Less),
{
}

/// Where a payload equals itself, two containers of it are equal, whichever
/// cases the two are in.
pub proof fn lemma_ref_mut_or_box_equal_in_any_mix<T: ?Sized + PartialEq>(
    left: RefMutOrBox<T>,
    right: RefMutOrBox<T>,
)
    requires
        left.payload() == right.payload(),
        left.payload().eq_spec(left.payload()),
    ensures
        left.eq_spec(&right),
{
}

/// Whatever `write` does to what it is handed, it does to `place`, when it
/// is handed the payload of a container that borrows `place`: the container
/// holds no copy of its own.
pub fn ref_mut_or_owned_writes_reach_the_place<T, W: FnOnce(&mut T)>(place: &mut T, write: W)
    requires
        forall|target: &mut T| *target == *old(place) ==> #[trigger] call_requires(write, (target,)),
    ensures
        exists|target: &mut T|
            {
                &&& *target == *old(place)
                &&& *final(target) == *final(place)
                &&& #[trigger] call_ensures(write, (target,), ())
            },
{
    let mut container: RefMutOrOwned<T> = RefMutOrOwned::from(place);
    write(container.deref_mut());
}

/// A container that owns `value` hands on, as its owned value, `value` with
/// what `write` did to it through the container, and nothing else: no
/// duplicate is involved.
pub fn ref_mut_or_owned_hands_on_what_it_owns<T: Clone, W: FnOnce(&mut T)>(
    value: T,
    write: W,
) -> (owned: T)
    requires
        forall|target: &mut T| *target == value ==> #[trigger] call_requires(write, (target,)),
    ensures
        exists|target: &mut T|
            {
                &&& *target == value
                &&& *final(target) == owned
                &&& #[trigger] call_ensures(write, (target,), ())
            },
{
    let mut container: RefMutOrOwned<T> = RefMutOrOwned::from(value);
    write(container.deref_mut());
    container.into_owned()
}

/// A container that borrows `place` hands on, as its owned value, one
/// duplicate of what `place` holds after `write` did its work through the
/// container, and `place` keeps that.
pub fn ref_mut_or_owned_duplicates_what_it_borrows<T: Clone, W: FnOnce(&mut T)>(
    place: &mut T,
    write: W,
) -> (owned: T)
    requires
        forall|target: &mut T| *target == *old(place) ==> #[trigger] call_requires(write, (target,)),
    ensures
        exists|target: &mut T|
            {
                &&& *target == *old(place)
                &&& *final(target) == *final(place)
                &&& #[trigger] call_ensures(write, (target,), ())
            },
        cloned::<T>(*final(place), owned),
{
    let mut container: RefMutOrOwned<T> = RefMutOrOwned::from(place);
    write(container.deref_mut());
    container.into_owned()
}

/// Whatever `write` does to what it is handed, it does to `place`, when it
/// is handed the payload of a container that borrows `place`: the container
/// holds no copy of its own.
pub fn ref_mut_or_box_writes_reach_the_place<T: ?Sized, W: FnOnce(&mut T)>(place: &mut T, write: W)
    requires
        forall|target: &mut T|
            &*target == &*old(place) ==> #[trigger] call_requires(write, (target,)),
    ensures
        exists|target: &mut T|
            {
                &&& &*target == &*old(place)
                &&& &*final(target) == &*final(place)
                &&& #[trigger] call_ensures(write, (target,), ())
            },
{
    let mut container: RefMutOrBox<T> = RefMutOrBox::from(place);
    write(container.deref_mut());
}

/// A container that owns `boxed` hands on, as its owned box, `boxed` with
/// what `write` did to it through the container, and nothing else: no
/// duplicate is involved.
pub fn ref_mut_or_box_hands_on_what_it_owns<T: ?Sized + DynClone, W: FnOnce(&mut T)>(
    boxed: Box<T>,
    write: W,
) -> (owned: Box<T>)
    requires
        forall|target: &mut T| &*target == &*boxed ==> #[trigger] call_requires(write, (target,)),
    ensures
        exists|target: &mut T|
            {
                &&& &*target == &*boxed
                &&& &*final(target) == &*owned
                &&& #[trigger] call_ensures(write, (target,), ())
            },
{
    let mut container: RefMutOrBox<T> = RefMutOrBox::from(boxed);
    write(container.deref_mut());
    container.into_owned()
}

/// A container that borrows `place` hands on, as its owned box, one
/// duplicate of what `place` holds after `write` did its work through the
/// container, and `place` keeps that.
pub fn ref_mut_or_box_duplicates_what_it_borrows<T: ?Sized + DynClone, W: FnOnce(&mut T)>(
    place: &mut T,
    write: W,
) -> (owned: Box<T>)
    requires
        forall|target: &mut T|
            &*target == &*old(place) ==> #[trigger] call_requires(write, (target,)),
    ensures
        exists|target: &mut T|
            {
                &&& &*target == &*old(place)
                &&& &*final(target) == &*final(place)
                &&& #[trigger] call_ensures(write, (target,), ())
            },
        boxed_clone_of(&*final(place), owned),
{
    let mut container: RefMutOrBox<T> = RefMutOrBox::from(place);
    write(container.deref_mut());
    container.into_owned()
}

} // verus!
