use core::ops::Deref;
use std::borrow::Cow;
use vstd::prelude::*;
use vstd::std_specs::convert::FromSpecImpl;

verus! {

/// Represents a value that is either borrowed or owned
#[derive(Clone, Copy, Debug)]
pub enum RefOrOwned<'a, T: 'a> {
    /// A value borrowed from elsewhere
    Borrowed(&'a T),
    /// A value held here
    Owned(T),
}

impl<'a, T: 'a> RefOrOwned<'a, T> {
    /// The value, borrowed or owned
    pub open spec fn spec_value(&self) -> T {
        match *self {
            RefOrOwned::Borrowed(x) => *x,
            RefOrOwned::Owned(x) => x,
        }
    }

    /// Returns true if the value is borrowed
    pub fn is_borrowed(&self) -> (r: bool)
        ensures
            r == self is Borrowed,
    {
        matches!(self, Self::Borrowed(_))
    }

    /// Returns true if the value is owned
    pub fn is_owned(&self) -> (r: bool)
        ensures
            r == self is Owned,
    {
        matches!(self, Self::Owned(_))
    }

    /// Returns the borrowed value, if the value is borrowed
    pub fn into_borrowed(self) -> (r: Option<&'a T>)
        ensures
            r == match self {
                RefOrOwned::Borrowed(x) => Some(x),
                RefOrOwned::Owned(_) => None,
            },
    {
        match self {
            Self::Borrowed(x) => Some(x),
            _ => None,
        }
    }

    /// Returns the owned value, if the value is owned
    pub fn into_owned(self) -> (r: Option<T>)
        ensures
            r == match self {
                RefOrOwned::Borrowed(_) => None,
                RefOrOwned::Owned(x) => Some(x),
            },
    {
        match self {
            Self::Owned(x) => Some(x),
            _ => None,
        }
    }

    /// Maps a borrowed value with `f1` and an owned value with `f2`, keeping
    /// which of the two it is
    pub fn map_either<F1, F2, R>(self, f1: F1, f2: F2) -> (r: RefOrOwned<'a, R>) where
        F1: FnOnce(&'a T) -> &'a R,
        F2: FnOnce(T) -> R,

        requires
            match self {
                RefOrOwned::Borrowed(x) => call_requires(f1, (x,)),
                RefOrOwned::Owned(x) => call_requires(f2, (x,)),
            },
        ensures
            match self {
                RefOrOwned::Borrowed(x) => r matches RefOrOwned::Borrowed(y) && call_ensures(f1, (x,), y),
                RefOrOwned::Owned(x) => r matches RefOrOwned::Owned(y) && call_ensures(f2, (x,), y),
            },
    {
        match self {
            Self::Borrowed(x) => RefOrOwned::Borrowed(f1(x)),
            Self::Owned(x) => RefOrOwned::Owned(f2(x)),
        }
    }

    /// Returns a reference to the value, borrowed or owned
    pub fn as_ref(&self) -> (r: &T)
        ensures
            *r == self.spec_value(),
    {
        match self {
            Self::Borrowed(x) => x,
            Self::Owned(x) => x,
        }
    }
}

impl<'a, T: Clone + 'a> RefOrOwned<'a, T> {
    /// Converts into a copy-on-write value that keeps the value borrowed or
    /// owned as it is
    pub fn into_cow(self) -> (r: Cow<'a, T>)
        ensures
            r == match self {
                RefOrOwned::Borrowed(x) => Cow::Borrowed(x),
                RefOrOwned::Owned(x) => Cow::<'a, T>::Owned(x),
            },
    {
        match self {
            Self::Borrowed(x) => Cow::Borrowed(x),
            Self::Owned(x) => Cow::Owned(x),
        }
    }
}

impl<'a, T: 'a> Deref for RefOrOwned<'a, T> {
    type Target = T;

    fn deref(&self) -> (r: &T)
        ensures
            *r == self.spec_value(),
    {
        self.as_ref()
    }
}

impl<'a, T: 'a> From<&'a T> for RefOrOwned<'a, T> {
    fn from(x: &'a T) -> (r: Self) {
        Self::Borrowed(x)
    }
}

impl<'a, T: 'a> FromSpecImpl<&'a T> for RefOrOwned<'a, T> {
    open spec fn obeys_from_spec() -> bool {
        true
    }

    open spec fn from_spec(x: &'a T) -> Self {
        RefOrOwned::Borrowed(x)
    }
}

impl<'a, T: 'a> From<T> for RefOrOwned<'a, T> {
    fn from(x: T) -> (r: Self) {
        Self::Owned(x)
    }
}

impl<'a, T: 'a> FromSpecImpl<T> for RefOrOwned<'a, T> {
    open spec fn obeys_from_spec() -> bool {
        true
    }

    open spec fn from_spec(x: T) -> Self {
        RefOrOwned::Owned(x)
    }
}

impl<T: Default> Default for RefOrOwned<'_, T> {
    fn default() -> (r: Self)
        ensures
            r is Owned,
            call_ensures(T::default, (), r.spec_value()),
    {
        RefOrOwned::Owned(T::default())
    }
}

} // verus!
