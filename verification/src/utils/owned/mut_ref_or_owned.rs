use core::ops::Deref;
use std::borrow::Cow;
use vstd::prelude::*;
use vstd::std_specs::convert::FromSpecImpl;

verus! {

/// Represents a value that is either mutably borrowed or owned
#[derive(Debug)]
pub enum MutRefOrOwned<'a, T: 'a> {
    /// A value mutably borrowed from elsewhere
    Borrowed(&'a mut T),
    /// A value held here
    Owned(T),
}

impl<'a, T: 'a> MutRefOrOwned<'a, T> {
    /// The value, borrowed or owned
    pub open spec fn spec_value(&self) -> T {
        match *self {
            MutRefOrOwned::Borrowed(x) => *x,
            MutRefOrOwned::Owned(x) => x,
        }
    }

    /// Returns true if the value is borrowed
    pub fn is_borrowed(&self) -> (r: bool)
        ensures
            r == self is Borrowed,
    {
        matches!(self, Self::Borrowed(_))
    }

    /// Returns true if the value is owned
    pub fn is_owned(&self) -> (r: bool)
        ensures
            r == self is Owned,
    {
        matches!(self, Self::Owned(_))
    }

    /// Returns the borrowed value, if the value is borrowed
    pub fn into_borrowed(self) -> (r: Option<&'a mut T>)
        ensures
            self is Borrowed ==> r is Some && *r->Some_0 == self.spec_value(),
            self is Owned ==> r is None,
    {
        match self {
            Self::Borrowed(x) => Some(x),
            _ => None,
        }
    }

    /// Returns the owned value, if the value is owned
    pub fn into_owned(self) -> (r: Option<T>)
        ensures
            self is Borrowed ==> r is None,
            self is Owned ==> r == Some(self.spec_value()),
    {
        match self {
            Self::Owned(x) => Some(x),
            _ => None,
        }
    }

    /// Maps a borrowed value with `f1` and an owned value with `f2`, keeping
    /// which of the two it is
    pub fn map_either<F1, F2, R>(self, f1: F1, f2: F2) -> (r: MutRefOrOwned<'a, R>) where
        F1: FnOnce(&'a mut T) -> &'a mut R,
        F2: FnOnce(T) -> R,

        requires
            self matches MutRefOrOwned::Borrowed(x) ==> forall|z: &'a mut T|
                *z == *x ==> call_requires(f1, (z,)),
            self matches MutRefOrOwned::Owned(x) ==> call_requires(f2, (x,)),
        ensures
            self matches MutRefOrOwned::Borrowed(x) ==> r matches MutRefOrOwned::Borrowed(y) && exists|z: &'a mut T|
                *z == *x && call_ensures(f1, (z,), y),
            self matches MutRefOrOwned::Owned(x) ==> r matches MutRefOrOwned::Owned(y) && call_ensures(
                f2,
                (x,),
                y,
            ),
    {
        match self {
            Self::Borrowed(x) => MutRefOrOwned::Borrowed(f1(x)),
            Self::Owned(x) => MutRefOrOwned::Owned(f2(x)),
        }
    }

    /// Returns a reference to the value, borrowed or owned
    pub fn as_ref(&self) -> (r: &T)
        ensures
            *r == self.spec_value(),
    {
        match self {
            Self::Borrowed(x) => x,
            Self::Owned(x) => x,
        }
    }
}

impl<'a, T: Clone + 'a> MutRefOrOwned<'a, T> {
    /// Converts into a copy-on-write value that keeps the value borrowed or
    /// owned as it is
    pub fn into_cow(self) -> (r: Cow<'a, T>)
        ensures
            self is Borrowed ==> (r matches Cow::Borrowed(x) && *x == self.spec_value()),
            self is Owned ==> r == Cow::<'a, T>::Owned(self.spec_value()),
    {
        match self {
            Self::Borrowed(x) => Cow::Borrowed(x),
            Self::Owned(x) => Cow::Owned(x),
        }
    }
}

impl<'a, T: 'a> Deref for MutRefOrOwned<'a, T> {
    type Target = T;

    fn deref(&self) -> (r: &T)
        ensures
            *r == self.spec_value(),
    {
        self.as_ref()
    }
}

impl<'a, T: 'a> From<T> for MutRefOrOwned<'a, T> {
    fn from(x: T) -> (r: Self) {
        Self::Owned(x)
    }
}

impl<'a, T: 'a> FromSpecImpl<T> for MutRefOrOwned<'a, T> {
    open spec fn obeys_from_spec() -> bool {
        true
    }

    open spec fn from_spec(x: T) -> Self {
        MutRefOrOwned::Owned(x)
    }
}

impl<T: Default> Default for MutRefOrOwned<'_, T> {
    fn default() -> (r: Self)
        ensures
            r is Owned,
            call_ensures(T::default, (), r.spec_value()),
    {
        MutRefOrOwned::Owned(T::default())
    }
}

} // verus!
