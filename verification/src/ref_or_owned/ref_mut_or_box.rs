use super::forward::boxed_clone_of;
use super::forward::display_payload;
use super::forward::displayed_by;
use super::forward::duplicate_payload;
use super::forward::hash_payload;
use super::forward::hashed_into;
use dyn_clone::DynClone;
use std::borrow::Borrow;
use std::borrow::BorrowMut;
use std::cmp::Ordering;
use std::fmt::Display;
use std::fmt::Error;
use std::fmt::Formatter;
use std::hash::Hash;
use std::hash::Hasher;
use std::ops::Deref;
use std::ops::DerefMut;
use vstd::prelude::*;
use vstd::std_specs::cmp::PartialEqSpec;
use vstd::std_specs::cmp::PartialEqSpecImpl;
use vstd::std_specs::cmp::PartialOrdSpec;
use vstd::std_specs::cmp::PartialOrdSpecImpl;
use vstd::std_specs::convert::FromSpecImpl;

verus! {

/// A type which can be either a mutable reference, or an owned boxed value.
/// Box is used for the owned variant because this type is primarily intended
/// for use with unsized types, most particularly trait objects. For sized
/// types, it is strongly suggested to use `RefMutOrOwned` instead.
///
/// One prominent use case for `RefMutOrBox` is in function return types,
/// which lets implementations be free to decide whether to return owned or
/// borrowed values.
///
/// ```rust
/// # use polymorph::ref_or_owned::RefMutOrBox;
/// trait MyTrait {}
///
/// fn func<'a>(my_trait: &'a mut dyn MyTrait) -> RefMutOrBox<'a, dyn MyTrait> {
///     RefMutOrBox::Borrowed(my_trait)
/// }
/// ```
///
/// The type implements `Deref` and `DerefMut` for `T`, allowing one to use it
/// where `&mut T` would be required. It also implements `From<&mut T>` and
/// `From<Box<T>>`, which enables ergonomic use in function parameters.
///
/// ```rust
/// # use polymorph::ref_or_owned::RefMutOrBox;
///
/// trait MyTrait {
///   fn my_func(&mut self) -> u8;
/// }
///
/// fn run_func<'t, T>(my_trait: T) -> u8
///   where T: Into<RefMutOrBox<'t, dyn MyTrait>> {
///
///   let mut my_trait = my_trait.into();
///   // my_trait now has type RefMutOrBox<'t, dyn MyTrait>
///   my_trait.my_func()
/// }
/// ```
#[derive(Debug)]
pub enum RefMutOrBox<'t, T: ?Sized + 't> {
    Borrowed(&'t mut T),
    Owned(Box<T>),
}

impl<'t, T: ?Sized> RefMutOrBox<'t, T> {
    /// The value that the container leads to at present, whichever case is
    /// active.
    pub open spec fn payload(&self) -> &T {
        match self {
            Self::Borrowed(borrowed_value) => &**borrowed_value,
            Self::Owned(owned_box) => &**owned_box,
        }
    }
}

impl<'t, T: ?Sized> From<&'t mut T> for RefMutOrBox<'t, T> {
    /// Wraps the reference as it is: nothing is copied. The container leads
    /// to the place that `value` leads to, and what is written through the
    /// container is what that place holds in the end.
    fn from(value: &'t mut T) -> (container: Self)
        ensures
            container matches Self::Borrowed(held) && &*held == &*old(value) && &*final(held)
                == &*final(value),
    {
        Self::Borrowed(value)
    }
}

impl<'t, T: ?Sized> FromSpecImpl<&'t mut T> for RefMutOrBox<'t, T> {
    /// To Verus a mutable reference that was handed on is not the reference
    /// it came from, though both lead to one place. So `from` answers for the
    /// present and the final value behind the reference, in its own
    /// contract, and not for `from_spec`.
    open spec fn obeys_from_spec() -> bool {
        false
    }

    open spec fn from_spec(value: &'t mut T) -> Self {
        Self::Borrowed(value)
    }
}

impl<T: ?Sized> From<Box<T>> for RefMutOrBox<'_, T> {
    /// Takes the box over as it is: nothing is allocated.
    fn from(value: Box<T>) -> (container: Self)
        ensures
            container == Self::Owned(value),
    {
        Self::Owned(value)
    }
}

impl<T: ?Sized> FromSpecImpl<Box<T>> for RefMutOrBox<'_, T> {
    open spec fn obeys_from_spec() -> bool {
        true
    }

    open spec fn from_spec(value: Box<T>) -> Self {
        Self::Owned(value)
    }
}

impl<T: ?Sized> Deref for RefMutOrBox<'_, T> {
    type Target = T;

    fn deref(&self) -> (target: &Self::Target)
        ensures
            target == self.payload(),
    {
        match self {
            Self::Borrowed(borrowed_value) => &**borrowed_value,
            Self::Owned(owned_box) => &**owned_box,
        }
    }
}

impl<T: ?Sized> DerefMut for RefMutOrBox<'_, T> {
    /// Exclusive access to the payload. The case stays as it is. What the
    /// caller leaves behind `target` is the payload from then on; in the
    /// borrowed case it is also what the place behind the container holds.
    fn deref_mut(&mut self) -> (target: &mut Self::Target)
        ensures
            &*target == old(self).payload(),
            match *old(self) {
                Self::Borrowed(before) => {
                    &&& *final(self) matches Self::Borrowed(after)
                    &&& &*after == &*final(target)
                    &&& &*final(after) == &*final(before)
                },
                Self::Owned(_) => {
                    &&& *final(self) matches Self::Owned(after)
                    &&& &*after == &*final(target)
                },
            },
    {
        match self {
            Self::Borrowed(borrowed_value) => &mut **borrowed_value,
            Self::Owned(owned_box) => &mut **owned_box,
        }
    }
}

impl<T: ?Sized> AsMut<T> for RefMutOrBox<'_, T> {
    #[inline]
    fn as_mut(&mut self) -> (target: &mut T)
        ensures
            &*target == old(self).payload(),
            match *old(self) {
                Self::Borrowed(before) => {
                    &&& *final(self) matches Self::Borrowed(after)
                    &&& &*after == &*final(target)
                    &&& &*final(after) == &*final(before)
                },
                Self::Owned(_) => {
                    &&& *final(self) matches Self::Owned(after)
                    &&& &*after == &*final(target)
                },
            },
    {
        self.deref_mut()
    }
}

impl<T: ?Sized> BorrowMut<T> for RefMutOrBox<'_, T> {
    /// Exclusive access to the payload, as `deref_mut` gives it.
    #[inline]
    fn borrow_mut(&mut self) -> (target: &mut T)
        ensures
            ({
                // The binding gives `target` its type, which `borrow_mut` alone
                // leaves open: std has a `BorrowMut` of its own for every type.
                let target: &mut T = target;
                &*target == old(self).payload()
            }),
            match *old(self) {
                Self::Borrowed(before) => {
                    &&& *final(self) matches Self::Borrowed(after)
                    &&& &*after == &*final(target)
                    &&& &*final(after) == &*final(before)
                },
                Self::Owned(_) => {
                    &&& *final(self) matches Self::Owned(after)
                    &&& &*after == &*final(target)
                },
            },
    {
        self.deref_mut()
    }
}

impl<T: ?Sized> RefMutOrBox<'_, T> where T: DynClone {
    /// Obtains an owned value of T. This relies on the dyn-clone crate.
    ///
    /// If the data is borrowed, it will be cloned and returned, and the
    /// place it was borrowed from keeps what it holds.
    /// If the data is owned, the owned box will be moved out.
    ///
    /// ```rust
    /// # use polymorph::ref_or_owned::RefMutOrBox;
    /// use dyn_clone::DynClone;
    ///
    /// trait Calculator: DynClone {
    ///   fn calculate(&mut self) -> u64;
    /// }
    ///
    /// fn clone_then_calculate<'c, C>(clonable: C) -> u64
    ///   where C: Into<RefMutOrBox<'c, dyn Calculator>> {
    ///
    ///   let mut clone = clonable.into().into_owned();
    ///   clone.calculate()
    /// }
    /// ```
    pub fn into_owned(self) -> (owned: Box<T>)
        ensures
            match self {
                Self::Borrowed(borrowed_value) => {
                    &&& boxed_clone_of(&*borrowed_value, owned)
                    &&& &*final(borrowed_value) == &*borrowed_value
                },
                Self::Owned(owned_box) => owned == owned_box,
            },
    {
        match self {
            Self::Borrowed(borrowed_value) => duplicate_payload(borrowed_value),
            Self::Owned(owned_box) => owned_box,
        }
    }
}

impl<T: ?Sized> AsRef<T> for RefMutOrBox<'_, T> {
    #[inline]
    fn as_ref(&self) -> (target: &T)
        ensures
            target == self.payload(),
    {
        self.deref()
    }
}

impl<T: ?Sized> Borrow<T> for RefMutOrBox<'_, T> {
    #[inline]
    fn borrow(&self) -> &T
        returns
            self.payload(),
    {
        self.deref()
    }
}

impl<T: ?Sized + PartialEq<U>, U: ?Sized> PartialEq<RefMutOrBox<'_, U>> for RefMutOrBox<'_, T> {
    /// Whether the payloads are equal, as `T` compares them.
    #[inline]
    fn eq(&self, other: &RefMutOrBox<'_, U>) -> (equal: bool)
        ensures
            call_ensures(T::eq, (self.payload(), other.payload()), equal),
    {
        self.deref().eq(other.deref())
    }

    /// Whether the payloads are unequal, as `T` compares them.
    #[inline]
    fn ne(&self, other: &RefMutOrBox<'_, U>) -> (unequal: bool)
        ensures
            call_ensures(T::ne, (self.payload(), other.payload()), unequal),
    {
        self.deref().ne(other.deref())
    }
}

impl<T: ?Sized + PartialEq<U>, U: ?Sized> PartialEqSpecImpl<RefMutOrBox<'_, U>> for RefMutOrBox<'_, T> {
    /// Containers compare as `==` says wherever their payloads do.
    open spec fn obeys_eq_spec() -> bool {
        T::obeys_eq_spec()
    }

    /// Two containers are equal when their payloads are.
    open spec fn eq_spec(&self, other: &RefMutOrBox<'_, U>) -> bool {
        self.payload().eq_spec(other.payload())
    }
}

impl<T: ?Sized + Eq> Eq for RefMutOrBox<'_, T> {

}

impl<T: ?Sized + PartialOrd<U>, U: ?Sized> PartialOrd<RefMutOrBox<'_, U>> for RefMutOrBox<'_, T> {
    /// How the payloads are ordered, as `T` orders them.
    #[inline]
    fn partial_cmp(&self, other: &RefMutOrBox<'_, U>) -> (ordering: Option<Ordering>)
        ensures
            call_ensures(T::partial_cmp, (self.payload(), other.payload()), ordering),
    {
        self.deref().partial_cmp(other.deref())
    }
}

impl<T: ?Sized + PartialOrd<U>, U: ?Sized> PartialOrdSpecImpl<RefMutOrBox<'_, U>> for RefMutOrBox<'_, T> {
    /// Containers are ordered as `<` says wherever their payloads are.
    open spec fn obeys_partial_cmp_spec() -> bool {
        T::obeys_partial_cmp_spec()
    }

    /// Two containers are ordered as their payloads are.
    open spec fn partial_cmp_spec(&self, other: &RefMutOrBox<'_, U>) -> Option<Ordering> {
        self.payload().partial_cmp_spec(other.payload())
    }
}

impl<T: ?Sized + Hash> Hash for RefMutOrBox<'_, T> {
    /// Feeds the payload into `state`, once, and nothing else.
    #[inline]
    fn hash<H: Hasher>(&self, state: &mut H)
        ensures
            exists|sink: &mut H|
                {
                    &&& *sink == *old(state)
                    &&& *final(sink) == *final(state)
                    &&& #[trigger] hashed_into(self.payload(), sink)
                },
    {
        hash_payload(self.deref(), state)
    }
}

impl<T: ?Sized + Display> Display for RefMutOrBox<'_, T> {
    /// Writes the payload to `f`, once, and nothing else.
    fn fmt(&self, f: &mut Formatter<'_>) -> (outcome: Result<(), Error>)
        ensures
            exists|sink: &mut Formatter<'_>|
                {
                    &&& *sink == *old(f)
                    &&& *final(sink) == *final(f)
                    &&& #[trigger] displayed_by(self.payload(), sink, outcome)
                },
    {
        display_payload(self.deref(), f)
    }
}

} // verus!
