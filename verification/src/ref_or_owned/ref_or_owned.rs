use super::forward::hash_payload;
use super::forward::hashed_into;
use super::forward::display_payload;
use super::forward::displayed_by;
use std::borrow::Borrow;
use std::cmp::Ordering;
use std::fmt::Display;
use std::fmt::Error;
use std::fmt::Formatter;
use std::hash::Hash;
use std::hash::Hasher;
use std::ops::Deref;
use vstd::prelude::*;
use vstd::std_specs::cmp::OrdSpec;
use vstd::std_specs::cmp::PartialEqSpec;
use vstd::std_specs::cmp::PartialEqSpecImpl;
use vstd::std_specs::cmp::PartialOrdSpec;
use vstd::std_specs::cmp::PartialOrdSpecImpl;
use vstd::std_specs::convert::FromSpecImpl;

verus! {

/// A type which can be either an immutable reference, or an owned value.
/// `RefOrOwned` requires sized types. For unsized types, use `RefOrBox`
/// instead.
///
/// One prominent use case for `RefOrOwned` is in function return types,
/// which lets implementations be free to decide whether to return owned or
/// borrowed values.
///
/// ```rust
/// # use polymorph::ref_or_owned::RefOrOwned;
/// struct MyStruct {}
///
/// fn func(my_struct: &MyStruct) -> RefOrOwned<'_, MyStruct> {
///     RefOrOwned::Borrowed(my_struct)
/// }
/// ```
///
/// The type implements `Deref` for `T`, allowing one to use it where
/// `&T` would be required. It also implements `From<&T>` and `From<T>`,
/// which enables ergonomic use in function parameters.
///
/// ```rust
/// # use polymorph::ref_or_owned::RefOrOwned;
///
/// struct MyStruct {}
/// impl MyStruct {
///   fn my_func(&self) -> u8 {
///     2
///   }
/// }
///
/// fn run_func<'t, T>(my_struct: T) -> u8
///   where T: Into<RefOrOwned<'t, MyStruct>> {
///
///   let my_struct = my_struct.into();
///   // my_struct now has type RefOrOwned<'t, MyStruct>
///   my_struct.my_func()
/// }
/// ```
#[derive(Debug)]
pub enum RefOrOwned<'t, T: 't> {
    Borrowed(&'t T),
    Owned(T),
}

impl<'t, T> RefOrOwned<'t, T> {
    /// The value that the container leads to, whichever case is active.
    pub open spec fn payload(&self) -> T {
        match self {
            Self::Borrowed(borrowed_value) => **borrowed_value,
            Self::Owned(owned_value) => *owned_value,
        }
    }
}

impl<'t, T> From<&'t T> for RefOrOwned<'t, T> {
    /// Wraps the reference as it is: nothing is copied.
    fn from(value: &'t T) -> (container: Self)
        ensures
            container == Self::Borrowed(value),
    {
        Self::Borrowed(value)
    }
}

impl<'t, T> FromSpecImpl<&'t T> for RefOrOwned<'t, T> {
    open spec fn obeys_from_spec() -> bool {
        true
    }

    open spec fn from_spec(value: &'t T) -> Self {
        Self::Borrowed(value)
    }
}

impl<T> From<T> for RefOrOwned<'_, T> {
    /// Takes the value over as it is.
    fn from(value: T) -> (container: Self)
        ensures
            container == Self::Owned(value),
    {
        Self::Owned(value)
    }
}

impl<T> FromSpecImpl<T> for RefOrOwned<'_, T> {
    open spec fn obeys_from_spec() -> bool {
        true
    }

    open spec fn from_spec(value: T) -> Self {
        Self::Owned(value)
    }
}

impl<T: Default> Default for RefOrOwned<'_, T> {
    /// The owned case, holding the default value of `T`.
    fn default() -> (container: Self)
        ensures
            container is Owned,
            call_ensures(T::default, (), container.payload()),
    {
        Self::Owned(T::default())
    }
}

impl<T> Deref for RefOrOwned<'_, T> {
    type Target = T;

    fn deref(&self) -> (target: &Self::Target)
        ensures
            *target == self.payload(),
    {
        match self {
            Self::Borrowed(borrowed_value) => *borrowed_value,
            Self::Owned(owned_value) => owned_value,
        }
    }
}

impl<T> RefOrOwned<'_, T> where T: Clone {
    /// Obtains an owned value of T.
    ///
    /// If the data is borrowed, it will be cloned and returned.
    /// If the data is owned, the owned value will be moved out.
    ///
    /// Note: Sometimes, type inference will fail and it may be
    /// necessary to specify the owned type T.
    ///
    /// ```rust
    /// # use polymorph::ref_or_owned::RefOrOwned;
    /// #[derive(Clone, Default)]
    /// struct ClonableStruct {}
    ///
    /// let clonable = ClonableStruct::default();
    /// // Note: If RefOrOwned::Borrowed is changed to RefOrOwned::from, compilation fails due to type inference
    /// let clonable = RefOrOwned::Borrowed(&clonable);
    /// let _cloned: ClonableStruct = clonable.into_owned();
    /// ```
    pub fn into_owned(self) -> (owned: T)
        ensures
            match self {
                Self::Borrowed(borrowed_value) => cloned::<T>(*borrowed_value, owned),
                Self::Owned(owned_value) => owned == owned_value,
            },
    {
        match self {
            Self::Borrowed(borrowed_value) => borrowed_value.clone(),
            Self::Owned(owned_value) => owned_value,
        }
    }
}

impl<T> AsRef<T> for RefOrOwned<'_, T> {
    #[inline]
    fn as_ref(&self) -> (target: &T)
        ensures
            *target == self.payload(),
    {
        self.deref()
    }
}

impl<T> Borrow<T> for RefOrOwned<'_, T> {
    #[inline]
    fn borrow(&self) -> &T
        returns
            self.payload(),
    {
        self.deref()
    }
}

impl<T: PartialEq<U>, U> PartialEq<RefOrOwned<'_, U>> for RefOrOwned<'_, T> {
    /// Whether the payloads are equal, as `T` compares them.
    #[inline]
    fn eq(&self, other: &RefOrOwned<'_, U>) -> (equal: bool)
        ensures
            call_ensures(T::eq, (&self.payload(), &other.payload()), equal),
    {
        self.deref().eq(other.deref())
    }

    /// Whether the payloads are unequal, as `T` compares them.
    #[inline]
    fn ne(&self, other: &RefOrOwned<'_, U>) -> (unequal: bool)
        ensures
            call_ensures(T::ne, (&self.payload(), &other.payload()), unequal),
    {
        self.deref().ne(other.deref())
    }
}

impl<T: PartialEq<U>, U> PartialEqSpecImpl<RefOrOwned<'_, U>> for RefOrOwned<'_, T> {
    /// Containers compare as `==` says wherever their payloads do.
    open spec fn obeys_eq_spec() -> bool {
        T::obeys_eq_spec()
    }

    /// Two containers are equal when their payloads are.
    open spec fn eq_spec(&self, other: &RefOrOwned<'_, U>) -> bool {
        self.payload().eq_spec(&other.payload())
    }
}

impl<T: Eq> Eq for RefOrOwned<'_, T> {

}

impl<T: PartialOrd<U>, U> PartialOrd<RefOrOwned<'_, U>> for RefOrOwned<'_, T> {
    /// How the payloads are ordered, as `T` orders them.
    #[inline]
    fn partial_cmp(&self, other: &RefOrOwned<'_, U>) -> (ordering: Option<Ordering>)
        ensures
            call_ensures(T::partial_cmp, (&self.payload(), &other.payload()), ordering),
    {
        self.deref().partial_cmp(other.deref())
    }
}

impl<T: PartialOrd<U>, U> PartialOrdSpecImpl<RefOrOwned<'_, U>> for RefOrOwned<'_, T> {
    /// Containers are ordered as `<` says wherever their payloads are.
    open spec fn obeys_partial_cmp_spec() -> bool {
        T::obeys_partial_cmp_spec()
    }

    /// Two containers are ordered as their payloads are.
    open spec fn partial_cmp_spec(&self, other: &RefOrOwned<'_, U>) -> Option<Ordering> {
        self.payload().partial_cmp_spec(&other.payload())
    }
}

impl<T: Ord> RefOrOwned<'_, T> {
    /// How `cmp` orders two containers: as `T` orders their payloads.
    pub open spec fn total_order(&self, other: &Self) -> Ordering {
        self.payload().cmp_spec(&other.payload())
    }

    /// Orders two containers as `T` orders their payloads.
    ///
    /// The containers have no `Ord` of their own: hand it this function
    /// where an order is asked for, as in `sort_by`.
    #[inline]
    pub fn cmp(&self, other: &Self) -> (ordering: Ordering)
        ensures
            call_ensures(T::cmp, (&self.payload(), &other.payload()), ordering),
            T::obeys_cmp_spec() ==> ordering == self.total_order(other),
    {
        self.deref().cmp(other.deref())
    }
}

impl<T: Hash> Hash for RefOrOwned<'_, T> {
    /// Feeds the payload into `state`, once, and nothing else.
    #[inline]
    fn hash<H: Hasher>(&self, state: &mut H)
        ensures
            exists|sink: &mut H|
                {
                    &&& *sink == *old(state)
                    &&& *final(sink) == *final(state)
                    &&& #[trigger] hashed_into(&self.payload(), sink)
                },
    {
        hash_payload(self.deref(), state)
    }
}

impl<T: Display> Display for RefOrOwned<'_, T> {
    /// Writes the payload to `f`, once, and nothing else.
    fn fmt(&self, f: &mut Formatter<'_>) -> (outcome: Result<(), Error>)
        ensures
            exists|sink: &mut Formatter<'_>|
                {
                    &&& *sink == *old(f)
                    &&& *final(sink) == *final(f)
                    &&& #[trigger] displayed_by(&self.payload(), sink, outcome)
                },
    {
        display_payload(self.deref(), f)
    }
}

} // verus!
