use super::forward::hash_payload;
use super::forward::hashed_into;
use super::forward::display_payload;
use super::forward::displayed_by;
use std::borrow::Borrow;
use std::borrow::BorrowMut;
use std::cmp::Ordering;
use std::fmt::Display;
use std::fmt::Error;
use std::fmt::Formatter;
use std::hash::Hash;
use std::hash::Hasher;
use std::ops::Deref;
use std::ops::DerefMut;
use vstd::prelude::*;
use vstd::std_specs::cmp::OrdSpec;
use vstd::std_specs::cmp::PartialEqSpec;
use vstd::std_specs::cmp::PartialEqSpecImpl;
use vstd::std_specs::cmp::PartialOrdSpec;
use vstd::std_specs::cmp::PartialOrdSpecImpl;
use vstd::std_specs::convert::FromSpecImpl;

verus! {

/// A type which can be either a mutable reference, or an owned value.
/// `RefMutOrOwned` requires sized types. For unsized types, use `RefMutOrBox`
/// instead.
///
/// One prominent use case for `RefMutOrOwned` is in function return types,
/// which lets implementations be free to decide whether to return owned or
/// borrowed values.
///
/// ```rust
/// # use polymorph::ref_or_owned::RefMutOrOwned;
/// struct MyStruct {}
///
/// fn func(my_struct: &mut MyStruct) -> RefMutOrOwned<'_, MyStruct> {
///     RefMutOrOwned::Borrowed(my_struct)
/// }
/// ```
///
/// The type implements `Deref` and `DerefMut` for `T`, allowing one to use it
/// where `&mut T` would be required. It also implements `From<&mut T>` and
/// `From<T>`, which enables ergonomic use in function parameters.
///
/// ```rust
/// # use polymorph::ref_or_owned::RefMutOrOwned;
///
/// struct MyStruct {}
/// impl MyStruct {
///   fn my_func(&mut self) -> u8 {
///     2
///   }
/// }
///
/// fn run_func<'t, T>(my_struct: T) -> u8
///   where T: Into<RefMutOrOwned<'t, MyStruct>> {
///
///   let mut my_struct = my_struct.into();
///   // my_struct now has type RefMutOrOwned<'t, MyStruct>
///   my_struct.my_func()
/// }
/// ```
#[derive(Debug)]
pub enum RefMutOrOwned<'t, T: 't> {
    Borrowed(&'t mut T),
    Owned(T),
}

impl<'t, T> RefMutOrOwned<'t, T> {
    /// The value that the container leads to at present, whichever case is
    /// active.
    pub open spec fn payload(&self) -> T {
        match self {
            Self::Borrowed(borrowed_value) => **borrowed_value,
            Self::Owned(owned_value) => *owned_value,
        }
    }
}

impl<'t, T> From<&'t mut T> for RefMutOrOwned<'t, T> {
    /// Wraps the reference as it is: nothing is copied. The container leads
    /// to the place that `value` leads to, and what is written through the
    /// container is what that place holds in the end.
    fn from(value: &'t mut T) -> (container: Self)
        ensures
            container matches Self::Borrowed(held) && *held == *old(value) && *final(held)
                == *final(value),
    {
        Self::Borrowed(value)
    }
}

impl<'t, T> FromSpecImpl<&'t mut T> for RefMutOrOwned<'t, T> {
    /// To Verus a mutable reference that was handed on is not the reference
    /// it came from, though both lead to one place. So `from` answers for the
    /// present and the final value behind the reference, in its own
    /// contract, and not for `from_spec`.
    open spec fn obeys_from_spec() -> bool {
        false
    }

    open spec fn from_spec(value: &'t mut T) -> Self {
        Self::Borrowed(value)
    }
}

impl<T> From<T> for RefMutOrOwned<'_, T> {
    /// Takes the value over as it is.
    fn from(value: T) -> (container: Self)
        ensures
            container == Self::Owned(value),
    {
        Self::Owned(value)
    }
}

impl<T> FromSpecImpl<T> for RefMutOrOwned<'_, T> {
    open spec fn obeys_from_spec() -> bool {
        true
    }

    open spec fn from_spec(value: T) -> Self {
        Self::Owned(value)
    }
}

impl<T: Default> Default for RefMutOrOwned<'_, T> {
    /// The owned case, holding the default value of `T`.
    fn default() -> (container: Self)
        ensures
            container is Owned,
            call_ensures(T::default, (), container.payload()),
    {
        Self::Owned(T::default())
    }
}

impl<T> Deref for RefMutOrOwned<'_, T> {
    type Target = T;

    fn deref(&self) -> (target: &Self::Target)
        ensures
            *target == self.payload(),
    {
        match self {
            Self::Borrowed(borrowed_value) => *borrowed_value,
            Self::Owned(owned_value) => owned_value,
        }
    }
}

impl<T> DerefMut for RefMutOrOwned<'_, T> {
    /// Exclusive access to the payload. The case stays as it is. What the
    /// caller leaves behind `target` is the payload from then on; in the
    /// borrowed case it is also what the place behind the container holds.
    fn deref_mut(&mut self) -> (target: &mut Self::Target)
        ensures
            *target == old(self).payload(),
            match *old(self) {
                Self::Borrowed(before) => {
                    &&& *final(self) matches Self::Borrowed(after)
                    &&& *after == *final(target)
                    &&& *final(after) == *final(before)
                },
                Self::Owned(_) => *final(self) == Self::Owned(*final(target)),
            },
    {
        match self {
            Self::Borrowed(borrowed_value) => *borrowed_value,
            Self::Owned(owned_value) => owned_value,
        }
    }
}

impl<T> AsMut<T> for RefMutOrOwned<'_, T> {
    #[inline]
    fn as_mut(&mut self) -> (target: &mut T)
        ensures
            *target == old(self).payload(),
            match *old(self) {
                Self::Borrowed(before) => {
                    &&& *final(self) matches Self::Borrowed(after)
                    &&& *after == *final(target)
                    &&& *final(after) == *final(before)
                },
                Self::Owned(_) => *final(self) == Self::Owned(*final(target)),
            },
    {
        self.deref_mut()
    }
}

impl<T> BorrowMut<T> for RefMutOrOwned<'_, T> {
    /// Exclusive access to the payload, as `deref_mut` gives it.
    #[inline]
    fn borrow_mut(&mut self) -> (target: &mut T)
        ensures
            ({
                // The binding gives `target` its type, which `borrow_mut` alone
                // leaves open: std has a `BorrowMut` of its own for every type.
                let target: &mut T = target;
                *target == old(self).payload()
            }),
            match *old(self) {
                Self::Borrowed(before) => {
                    &&& *final(self) matches Self::Borrowed(after)
                    &&& *after == *final(target)
                    &&& *final(after) == *final(before)
                },
                Self::Owned(_) => *final(self) == Self::Owned(*final(target)),
            },
    {
        self.deref_mut()
    }
}

impl<T> RefMutOrOwned<'_, T> where T: Clone {
    /// Obtains an owned value of T.
    ///
    /// If the data is borrowed, it will be cloned and returned, and the
    /// place it was borrowed from keeps what it holds.
    /// If the data is owned, the owned value will be moved out.
    ///
    /// ```rust
    /// # use polymorph::ref_or_owned::RefMutOrOwned;
    /// #[derive(Clone, Default)]
    /// struct ClonableStruct {}
    ///
    /// let mut clonable = ClonableStruct::default();
    /// let clonable = RefMutOrOwned::Borrowed(&mut clonable);
    /// let _cloned: ClonableStruct = clonable.into_owned();
    /// ```
    pub fn into_owned(self) -> (owned: T)
        ensures
            match self {
                Self::Borrowed(borrowed_value) => {
                    &&& cloned::<T>(*borrowed_value, owned)
                    &&& *final(borrowed_value) == *borrowed_value
                },
                Self::Owned(owned_value) => owned == owned_value,
            },
    {
        match self {
            Self::Borrowed(borrowed_value) => borrowed_value.clone(),
            Self::Owned(owned_value) => owned_value,
        }
    }
}

impl<T> AsRef<T> for RefMutOrOwned<'_, T> {
    #[inline]
    fn as_ref(&self) -> (target: &T)
        ensures
            *target == self.payload(),
    {
        self.deref()
    }
}

impl<T> Borrow<T> for RefMutOrOwned<'_, T> {
    #[inline]
    fn borrow(&self) -> &T
        returns
            self.payload(),
    {
        self.deref()
    }
}

impl<T: PartialEq<U>, U> PartialEq<RefMutOrOwned<'_, U>> for RefMutOrOwned<'_, T> {
    /// Whether the payloads are equal, as `T` compares them.
    #[inline]
    fn eq(&self, other: &RefMutOrOwned<'_, U>) -> (equal: bool)
        ensures
            call_ensures(T::eq, (&self.payload(), &other.payload()), equal),
    {
        self.deref().eq(other.deref())
    }

    /// Whether the payloads are unequal, as `T` compares them.
    #[inline]
    fn ne(&self, other: &RefMutOrOwned<'_, U>) -> (unequal: bool)
        ensures
            call_ensures(T::ne, (&self.payload(), &other.payload()), unequal),
    {
        self.deref().ne(other.deref())
    }
}

impl<T: PartialEq<U>, U> PartialEqSpecImpl<RefMutOrOwned<'_, U>> for RefMutOrOwned<'_, T> {
    /// Containers compare as `==` says wherever their payloads do.
    open spec fn obeys_eq_spec() -> bool {
        T::obeys_eq_spec()
    }

    /// Two containers are equal when their payloads are.
    open spec fn eq_spec(&self, other: &RefMutOrOwned<'_, U>) -> bool {
        self.payload().eq_spec(&other.payload())
    }
}

impl<T: Eq> Eq for RefMutOrOwned<'_, T> {

}

impl<T: PartialOrd<U>, U> PartialOrd<RefMutOrOwned<'_, U>> for RefMutOrOwned<'_, T> {
    /// How the payloads are ordered, as `T` orders them.
    #[inline]
    fn partial_cmp(&self, other: &RefMutOrOwned<'_, U>) -> (ordering: Option<Ordering>)
        ensures
            call_ensures(T::partial_cmp, (&self.payload(), &other.payload()), ordering),
    {
        self.deref().partial_cmp(other.deref())
    }
}

impl<T: PartialOrd<U>, U> PartialOrdSpecImpl<RefMutOrOwned<'_, U>> for RefMutOrOwned<'_, T> {
    /// Containers are ordered as `<` says wherever their payloads are.
    open spec fn obeys_partial_cmp_spec() -> bool {
        T::obeys_partial_cmp_spec()
    }

    /// Two containers are ordered as their payloads are.
    open spec fn partial_cmp_spec(&self, other: &RefMutOrOwned<'_, U>) -> Option<Ordering> {
        self.payload().partial_cmp_spec(&other.payload())
    }
}

impl<T: Ord> RefMutOrOwned<'_, T> {
    /// How `cmp` orders two containers: as `T` orders their payloads.
    pub open spec fn total_order(&self, other: &Self) -> Ordering {
        self.payload().cmp_spec(&other.payload())
    }

    /// Orders two containers as `T` orders their payloads.
    ///
    /// The containers have no `Ord` of their own: hand it this function
    /// where an order is asked for, as in `sort_by`.
    #[inline]
    pub fn cmp(&self, other: &Self) -> (ordering: Ordering)
        ensures
            call_ensures(T::cmp, (&self.payload(), &other.payload()), ordering),
            T::obeys_cmp_spec() ==> ordering == self.total_order(other),
    {
        self.deref().cmp(other.deref())
    }
}

impl<T: Hash> Hash for RefMutOrOwned<'_, T> {
    /// Feeds the payload into `state`, once, and nothing else.
    #[inline]
    fn hash<H: Hasher>(&self, state: &mut H)
        ensures
            exists|sink: &mut H|
                {
                    &&& *sink == *old(state)
                    &&& *final(sink) == *final(state)
                    &&& #[trigger] hashed_into(&self.payload(), sink)
                },
    {
        hash_payload(self.deref(), state)
    }
}

impl<T: Display> Display for RefMutOrOwned<'_, T> {
    /// Writes the payload to `f`, once, and nothing else.
    fn fmt(&self, f: &mut Formatter<'_>) -> (outcome: Result<(), Error>)
        ensures
            exists|sink: &mut Formatter<'_>|
                {
                    &&& *sink == *old(f)
                    &&& *final(sink) == *final(f)
                    &&& #[trigger] displayed_by(&self.payload(), sink, outcome)
                },
    {
        display_payload(self.deref(), f)
    }
}

} // verus!
