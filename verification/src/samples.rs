//! Sample payloads and holders that put the containers to work.
//!
//! `Implementor` is a payload that counts how often it was called, through a
//! shared and through an exclusive reference. The four holders each keep one
//! container and take anything that converts into it, so that a caller hands
//! over a reference or a value as it has one.

use crate::ref_or_owned::RefMutOrBox;
use crate::ref_or_owned::RefMutOrOwned;
use crate::ref_or_owned::RefOrBox;
use crate::ref_or_owned::RefOrOwned;
use std::sync::atomic::AtomicU8;
use std::sync::atomic::Ordering;
use vstd::prelude::*;
use vstd::std_specs::convert::IntoSpec;

verus! {

/// Something that can be called through a shared and through an exclusive
/// reference. An implementor borrows nothing, so that a trait object of it
/// can be kept for any length of time.
pub trait MyTrait: 'static {
    fn do_something(&self);

    fn do_mutable(&mut self);
}

/// Counts the calls it gets. The calls through a shared reference are
/// counted in an atomic, whose value Verus does not follow; the calls through
/// an exclusive reference in a plain field. Both counts wrap around after 255.
pub struct Implementor {
    calls: AtomicU8,
    mut_calls: u8,
}

impl Implementor {
    /// The number of calls of `do_mutable` so far.
    pub closed spec fn mut_call_count(&self) -> u8 {
        self.mut_calls
    }

    /// The number of calls of `do_something` so far.
    pub fn calls(&self) -> (count: u8)
        ensures
            self.reads_calls(count),
    {
        self.calls.load(Ordering::Relaxed)
    }

    /// `count` is what one relaxed load of this implementor's counter of
    /// shared calls can give. What that is Verus does not follow.
    pub closed spec fn reads_calls(&self, count: u8) -> bool {
        call_ensures(AtomicU8::load, (&self.calls, Ordering::Relaxed), count)
    }

    /// The number of calls of `do_mutable` so far.
    #[verifier::when_used_as_spec(mut_call_count)]
    pub fn mut_calls(&self) -> (count: u8)
        ensures
            count == self.mut_call_count(),
    {
        self.mut_calls
    }

    /// The count that `calls` more calls make of the count `start`: the
    /// counts wrap around after 255.
    pub open spec fn counted_on(start: int, calls: nat) -> int {
        (start + calls) % 256
    }
}

impl Default for Implementor {
    /// An implementor that has not been called yet.
    fn default() -> (fresh: Self)
        ensures
            fresh.mut_calls() == 0,
    {
        Self { calls: AtomicU8::new(0), mut_calls: 0 }
    }
}

impl MyTrait for Implementor {
    fn do_something(&self) {
        self.calls.fetch_add(1, Ordering::Relaxed);
    }

    fn do_mutable(&mut self)
        ensures
            final(self).mut_calls() == Implementor::counted_on(old(self).mut_calls() as int, 1),
    {
        self.mut_calls = self.mut_calls.wrapping_add(1);
    }
}

/// Counting call by call comes to the same as counting all calls at once:
/// after `first` and then `second` calls of `do_mutable` the count is what
/// `first + second` calls make of it.
pub proof fn lemma_counting_adds_up(start: int, first: nat, second: nat)
    requires
        0 <= start <= u8::MAX,
    ensures
        Implementor::counted_on(Implementor::counted_on(start, first), second)
            == Implementor::counted_on(start, first + second),
{
}

/// As long as it stays within 255, the count is the number of calls: a fresh
/// implementor that got `calls` calls of `do_mutable` says `calls`.
pub proof fn lemma_counting_is_exact(start: int, calls: nat)
    requires
        0 <= start,
        start + calls <= u8::MAX,
    ensures
        Implementor::counted_on(start, calls) == start + calls,
        Implementor::counted_on(0, calls) == calls,
{
}

/// Holds an implementor, borrowed or owned.
pub struct TestRefOrOwned<'t> {
    pub implementor: RefOrOwned<'t, Implementor>,
}

impl<'t> TestRefOrOwned<'t> {
    /// Keeps what `implementor` converts into.
    pub fn new<T>(implementor: T) -> (holder: Self) where T: Into<RefOrOwned<'t, Implementor>>
        ensures
            call_ensures(T::into, (implementor,), holder.implementor),
            T::obeys_into_spec() ==> holder.implementor == implementor.into_spec(),
    {
        Self { implementor: implementor.into() }
    }
}

/// Holds an implementor, mutably borrowed or owned.
pub struct TestRefMutOrOwned<'t> {
    pub implementor: RefMutOrOwned<'t, Implementor>,
}

impl<'t> TestRefMutOrOwned<'t> {
    /// Keeps what `implementor` converts into.
    pub fn new<T>(implementor: T) -> (holder: Self) where T: Into<RefMutOrOwned<'t, Implementor>>
        ensures
            call_ensures(T::into, (implementor,), holder.implementor),
            T::obeys_into_spec() ==> holder.implementor == implementor.into_spec(),
    {
        Self { implementor: implementor.into() }
    }
}

/// Holds a trait object, borrowed or boxed.
pub struct TestRefOrBox<'t> {
    pub my_trait: RefOrBox<'t, dyn MyTrait>,
}

impl<'t> TestRefOrBox<'t> {
    /// Keeps what `my_trait` converts into.
    pub fn new<T>(my_trait: T) -> (holder: Self) where T: Into<RefOrBox<'t, dyn MyTrait>>
        ensures
            call_ensures(T::into, (my_trait,), holder.my_trait),
            T::obeys_into_spec() ==> holder.my_trait == my_trait.into_spec(),
    {
        Self { my_trait: my_trait.into() }
    }
}

/// Holds a trait object, mutably borrowed or boxed.
pub struct TestRefMutOrBox<'t> {
    pub my_trait: RefMutOrBox<'t, dyn MyTrait>,
}

impl<'t> TestRefMutOrBox<'t> {
    /// Keeps what `my_trait` converts into.
    pub fn new<T>(my_trait: T) -> (holder: Self) where T: Into<RefMutOrBox<'t, dyn MyTrait>>
        ensures
            call_ensures(T::into, (my_trait,), holder.my_trait),
            T::obeys_into_spec() ==> holder.my_trait == my_trait.into_spec(),
    {
        Self { my_trait: my_trait.into() }
    }
}

} // verus!
