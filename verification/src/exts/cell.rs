//! Cells that hold a value of one of several types, so that a single table
//! can hold data of mixed types (such as `DynamicTable<Cell2<String, bool>>`)
use vstd::prelude::*;

verus! {

/// A cell that holds a value of one of 2 types, one variant per type
#[derive(Copy, Clone, Debug, PartialEq, Eq, Hash, PartialOrd, Ord)]
pub enum Cell2<A, B> {
    A(A),
    B(B),
}

impl<A, B> Cell2<A, B> {
    /// Returns true if the cell holds the `A` variant
    pub fn is_a(&self) -> (r: bool)
        ensures
            r == (*self is A),
    {
        match self {
            Self::A(_) => true,
            _ => false,
        }
    }

    /// Returns a reference to the `A` value, if the cell holds one
    pub fn as_a(&self) -> (r: Option<&A>)
        ensures
            match r {
                Some(x) => *self == Self::A(*x),
                None => !(*self is A),
            },
    {
        match self {
            Self::A(x) => Some(x),
            _ => None,
        }
    }

    /// Returns a mutable reference to the `A` value, if the cell holds one
    pub fn as_mut_a(&mut self) -> (r: Option<&mut A>)
        ensures
            match r {
                Some(x) => {
                    &&& *old(self) == Self::A(*x)
                    &&& *final(self) == Self::A(*final(x))
                },
                None => {
                    &&& !(*old(self) is A)
                    &&& *final(self) == *old(self)
                },
            },
    {
        match self {
            Self::A(x) => Some(x),
            _ => None,
        }
    }

    /// Returns the `A` value, if the cell holds one
    pub fn into_a(self) -> (r: Option<A>)
        ensures
            match r {
                Some(x) => self == Self::A(x),
                None => !(self is A),
            },
    {
        match self {
            Self::A(x) => Some(x),
            _ => None,
        }
    }

    /// Returns true if the cell holds the `B` variant
    pub fn is_b(&self) -> (r: bool)
        ensures
            r == (*self is B),
    {
        match self {
            Self::B(_) => true,
            _ => false,
        }
    }

    /// Returns a reference to the `B` value, if the cell holds one
    pub fn as_b(&self) -> (r: Option<&B>)
        ensures
            match r {
                Some(x) => *self == Self::B(*x),
                None => !(*self is B),
            },
    {
        match self {
            Self::B(x) => Some(x),
            _ => None,
        }
    }

    /// Returns a mutable reference to the `B` value, if the cell holds one
    pub fn as_mut_b(&mut self) -> (r: Option<&mut B>)
        ensures
            match r {
                Some(x) => {
                    &&& *old(self) == Self::B(*x)
                    &&& *final(self) == Self::B(*final(x))
                },
                None => {
                    &&& !(*old(self) is B)
                    &&& *final(self) == *old(self)
                },
            },
    {
        match self {
            Self::B(x) => Some(x),
            _ => None,
        }
    }

    /// Returns the `B` value, if the cell holds one
    pub fn into_b(self) -> (r: Option<B>)
        ensures
            match r {
                Some(x) => self == Self::B(x),
                None => !(self is B),
            },
    {
        match self {
            Self::B(x) => Some(x),
            _ => None,
        }
    }
}

/// A cell that holds a value of one of 3 types, one variant per type
#[derive(Copy, Clone, Debug, PartialEq, Eq, Hash, PartialOrd, Ord)]
pub enum Cell3<A, B, C> {
    A(A),
    B(B),
    C(C),
}

impl<A, B, C> Cell3<A, B, C> {
    /// Returns true if the cell holds the `A` variant
    pub fn is_a(&self) -> (r: bool)
        ensures
            r == (*self is A),
    {
        match self {
            Self::A(_) => true,
            _ => false,
        }
    }

    /// Returns a reference to the `A` value, if the cell holds one
    pub fn as_a(&self) -> (r: Option<&A>)
        ensures
            match r {
                Some(x) => *self == Self::A(*x),
                None => !(*self is A),
            },
    {
        match self {
            Self::A(x) => Some(x),
            _ => None,
        }
    }

    /// Returns a mutable reference to the `A` value, if the cell holds one
    pub fn as_mut_a(&mut self) -> (r: Option<&mut A>)
        ensures
            match r {
                Some(x) => {
                    &&& *old(self) == Self::A(*x)
                    &&& *final(self) == Self::A(*final(x))
                },
                None => {
                    &&& !(*old(self) is A)
                    &&& *final(self) == *old(self)
                },
            },
    {
        match self {
            Self::A(x) => Some(x),
            _ => None,
        }
    }

    /// Returns the `A` value, if the cell holds one
    pub fn into_a(self) -> (r: Option<A>)
        ensures
            match r {
                Some(x) => self == Self::A(x),
                None => !(self is A),
            },
    {
        match self {
            Self::A(x) => Some(x),
            _ => None,
        }
    }

    /// Returns true if the cell holds the `B` variant
    pub fn is_b(&self) -> (r: bool)
        ensures
            r == (*self is B),
    {
        match self {
            Self::B(_) => true,
            _ => false,
        }
    }

    /// Returns a reference to the `B` value, if the cell holds one
    pub fn as_b(&self) -> (r: Option<&B>)
        ensures
            match r {
                Some(x) => *self == Self::B(*x),
                None => !(*self is B),
            },
    {
        match self {
            Self::B(x) => Some(x),
            _ => None,
        }
    }

    /// Returns a mutable reference to the `B` value, if the cell holds one
    pub fn as_mut_b(&mut self) -> (r: Option<&mut B>)
        ensures
            match r {
                Some(x) => {
                    &&& *old(self) == Self::B(*x)
                    &&& *final(self) == Self::B(*final(x))
                },
                None => {
                    &&& !(*old(self) is B)
                    &&& *final(self) == *old(self)
                },
            },
    {
        match self {
            Self::B(x) => Some(x),
            _ => None,
        }
    }

    /// Returns the `B` value, if the cell holds one
    pub fn into_b(self) -> (r: Option<B>)
        ensures
            match r {
                Some(x) => self == Self::B(x),
                None => !(self is B),
            },
    {
        match self {
            Self::B(x) => Some(x),
            _ => None,
        }
    }

    /// Returns true if the cell holds the `C` variant
    pub fn is_c(&self) -> (r: bool)
        ensures
            r == (*self is C),
    {
        match self {
            Self::C(_) => true,
            _ => false,
        }
    }

    /// Returns a reference to the `C` value, if the cell holds one
    pub fn as_c(&self) -> (r: Option<&C>)
        ensures
            match r {
                Some(x) => *self == Self::C(*x),
                None => !(*self is C),
            },
    {
        match self {
            Self::C(x) => Some(x),
            _ => None,
        }
    }

    /// Returns a mutable reference to the `C` value, if the cell holds one
    pub fn as_mut_c(&mut self) -> (r: Option<&mut C>)
        ensures
            match r {
                Some(x) => {
                    &&& *old(self) == Self::C(*x)
                    &&& *final(self) == Self::C(*final(x))
                },
                None => {
                    &&& !(*old(self) is C)
                    &&& *final(self) == *old(self)
                },
            },
    {
        match self {
            Self::C(x) => Some(x),
            _ => None,
        }
    }

    /// Returns the `C` value, if the cell holds one
    pub fn into_c(self) -> (r: Option<C>)
        ensures
            match r {
                Some(x) => self == Self::C(x),
                None => !(self is C),
            },
    {
        match self {
            Self::C(x) => Some(x),
            _ => None,
        }
    }
}

/// A cell that holds a value of one of 4 types, one variant per type
#[derive(Copy, Clone, Debug, PartialEq, Eq, Hash, PartialOrd, Ord)]
pub enum Cell4<A, B, C, D> {
    A(A),
    B(B),
    C(C),
    D(D),
}

impl<A, B, C, D> Cell4<A, B, C, D> {
    /// Returns true if the cell holds the `A` variant
    pub fn is_a(&self) -> (r: bool)
        ensures
            r == (*self is A),
    {
        match self {
            Self::A(_) => true,
            _ => false,
        }
    }

    /// Returns a reference to the `A` value, if the cell holds one
    pub fn as_a(&self) -> (r: Option<&A>)
        ensures
            match r {
                Some(x) => *self == Self::A(*x),
                None => !(*self is A),
            },
    {
        match self {
            Self::A(x) => Some(x),
            _ => None,
        }
    }

    /// Returns a mutable reference to the `A` value, if the cell holds one
    pub fn as_mut_a(&mut self) -> (r: Option<&mut A>)
        ensures
            match r {
                Some(x) => {
                    &&& *old(self) == Self::A(*x)
                    &&& *final(self) == Self::A(*final(x))
                },
                None => {
                    &&& !(*old(self) is A)
                    &&& *final(self) == *old(self)
                },
            },
    {
        match self {
            Self::A(x) => Some(x),
            _ => None,
        }
    }

    /// Returns the `A` value, if the cell holds one
    pub fn into_a(self) -> (r: Option<A>)
        ensures
            match r {
                Some(x) => self == Self::A(x),
                None => !(self is A),
            },
    {
        match self {
            Self::A(x) => Some(x),
            _ => None,
        }
    }

    /// Returns true if the cell holds the `B` variant
    pub fn is_b(&self) -> (r: bool)
        ensures
            r == (*self is B),
    {
        match self {
            Self::B(_) => true,
            _ => false,
        }
    }

    /// Returns a reference to the `B` value, if the cell holds one
    pub fn as_b(&self) -> (r: Option<&B>)
        ensures
            match r {
                Some(x) => *self == Self::B(*x),
                None => !(*self is B),
            },
    {
        match self {
            Self::B(x) => Some(x),
            _ => None,
        }
    }

    /// Returns a mutable reference to the `B` value, if the cell holds one
    pub fn as_mut_b(&mut self) -> (r: Option<&mut B>)
        ensures
            match r {
                Some(x) => {
                    &&& *old(self) == Self::B(*x)
                    &&& *final(self) == Self::B(*final(x))
                },
                None => {
                    &&& !(*old(self) is B)
                    &&& *final(self) == *old(self)
                },
            },
    {
        match self {
            Self::B(x) => Some(x),
            _ => None,
        }
    }

    /// Returns the `B` value, if the cell holds one
    pub fn into_b(self) -> (r: Option<B>)
        ensures
            match r {
                Some(x) => self == Self::B(x),
                None => !(self is B),
            },
    {
        match self {
            Self::B(x) => Some(x),
            _ => None,
        }
    }

    /// Returns true if the cell holds the `C` variant
    pub fn is_c(&self) -> (r: bool)
        ensures
            r == (*self is C),
    {
        match self {
            Self::C(_) => true,
            _ => false,
        }
    }

    /// Returns a reference to the `C` value, if the cell holds one
    pub fn as_c(&self) -> (r: Option<&C>)
        ensures
            match r {
                Some(x) => *self == Self::C(*x),
                None => !(*self is C),
            },
    {
        match self {
            Self::C(x) => Some(x),
            _ => None,
        }
    }

    /// Returns a mutable reference to the `C` value, if the cell holds one
    pub fn as_mut_c(&mut self) -> (r: Option<&mut C>)
        ensures
            match r {
                Some(x) => {
                    &&& *old(self) == Self::C(*x)
                    &&& *final(self) == Self::C(*final(x))
                },
                None => {
                    &&& !(*old(self) is C)
                    &&& *final(self) == *old(self)
                },
            },
    {
        match self {
            Self::C(x) => Some(x),
            _ => None,
        }
    }

    /// Returns the `C` value, if the cell holds one
    pub fn into_c(self) -> (r: Option<C>)
        ensures
            match r {
                Some(x) => self == Self::C(x),
                None => !(self is C),
            },
    {
        match self {
            Self::C(x) => Some(x),
            _ => None,
        }
    }

    /// Returns true if the cell holds the `D` variant
    pub fn is_d(&self) -> (r: bool)
        ensures
            r == (*self is D),
    {
        match self {
            Self::D(_) => true,
            _ => false,
        }
    }

    /// Returns a reference to the `D` value, if the cell holds one
    pub fn as_d(&self) -> (r: Option<&D>)
        ensures
            match r {
                Some(x) => *self == Self::D(*x),
                None => !(*self is D),
            },
    {
        match self {
            Self::D(x) => Some(x),
            _ => None,
        }
    }

    /// Returns a mutable reference to the `D` value, if the cell holds one
    pub fn as_mut_d(&mut self) -> (r: Option<&mut D>)
        ensures
            match r {
                Some(x) => {
                    &&& *old(self) == Self::D(*x)
                    &&& *final(self) == Self::D(*final(x))
                },
                None => {
                    &&& !(*old(self) is D)
                    &&& *final(self) == *old(self)
                },
            },
    {
        match self {
            Self::D(x) => Some(x),
            _ => None,
        }
    }

    /// Returns the `D` value, if the cell holds one
    pub fn into_d(self) -> (r: Option<D>)
        ensures
            match r {
                Some(x) => self == Self::D(x),
                None => !(self is D),
            },
    {
        match self {
            Self::D(x) => Some(x),
            _ => None,
        }
    }
}

/// A cell that holds a value of one of 5 types, one variant per type
#[derive(Copy, Clone, Debug, PartialEq, Eq, Hash, PartialOrd, Ord)]
pub enum Cell5<A, B, C, D, E> {
    A(A),
    B(B),
    C(C),
    D(D),
    E(E),
}

impl<A, B, C, D, E> Cell5<A, B, C, D, E> {
    /// Returns true if the cell holds the `A` variant
    pub fn is_a(&self) -> (r: bool)
        ensures
            r == (*self is A),
    {
        match self {
            Self::A(_) => true,
            _ => false,
        }
    }

    /// Returns a reference to the `A` value, if the cell holds one
    pub fn as_a(&self) -> (r: Option<&A>)
        ensures
            match r {
                Some(x) => *self == Self::A(*x),
                None => !(*self is A),
            },
    {
        match self {
            Self::A(x) => Some(x),
            _ => None,
        }
    }

    /// Returns a mutable reference to the `A` value, if the cell holds one
    pub fn as_mut_a(&mut self) -> (r: Option<&mut A>)
        ensures
            match r {
                Some(x) => {
                    &&& *old(self) == Self::A(*x)
                    &&& *final(self) == Self::A(*final(x))
                },
                None => {
                    &&& !(*old(self) is A)
                    &&& *final(self) == *old(self)
                },
            },
    {
        match self {
            Self::A(x) => Some(x),
            _ => None,
        }
    }

    /// Returns the `A` value, if the cell holds one
    pub fn into_a(self) -> (r: Option<A>)
        ensures
            match r {
                Some(x) => self == Self::A(x),
                None => !(self is A),
            },
    {
        match self {
            Self::A(x) => Some(x),
            _ => None,
        }
    }

    /// Returns true if the cell holds the `B` variant
    pub fn is_b(&self) -> (r: bool)
        ensures
            r == (*self is B),
    {
        match self {
            Self::B(_) => true,
            _ => false,
        }
    }

    /// Returns a reference to the `B` value, if the cell holds one
    pub fn as_b(&self) -> (r: Option<&B>)
        ensures
            match r {
                Some(x) => *self == Self::B(*x),
                None => !(*self is B),
            },
    {
        match self {
            Self::B(x) => Some(x),
            _ => None,
        }
    }

    /// Returns a mutable reference to the `B` value, if the cell holds one
    pub fn as_mut_b(&mut self) -> (r: Option<&mut B>)
        ensures
            match r {
                Some(x) => {
                    &&& *old(self) == Self::B(*x)
                    &&& *final(self) == Self::B(*final(x))
                },
                None => {
                    &&& !(*old(self) is B)
                    &&& *final(self) == *old(self)
                },
            },
    {
        match self {
            Self::B(x) => Some(x),
            _ => None,
        }
    }

    /// Returns the `B` value, if the cell holds one
    pub fn into_b(self) -> (r: Option<B>)
        ensures
            match r {
                Some(x) => self == Self::B(x),
                None => !(self is B),
            },
    {
        match self {
            Self::B(x) => Some(x),
            _ => None,
        }
    }

    /// Returns true if the cell holds the `C` variant
    pub fn is_c(&self) -> (r: bool)
        ensures
            r == (*self is C),
    {
        match self {
            Self::C(_) => true,
            _ => false,
        }
    }

    /// Returns a reference to the `C` value, if the cell holds one
    pub fn as_c(&self) -> (r: Option<&C>)
        ensures
            match r {
                Some(x) => *self == Self::C(*x),
                None => !(*self is C),
            },
    {
        match self {
            Self::C(x) => Some(x),
            _ => None,
        }
    }

    /// Returns a mutable reference to the `C` value, if the cell holds one
    pub fn as_mut_c(&mut self) -> (r: Option<&mut C>)
        ensures
            match r {
                Some(x) => {
                    &&& *old(self) == Self::C(*x)
                    &&& *final(self) == Self::C(*final(x))
                },
                None => {
                    &&& !(*old(self) is C)
                    &&& *final(self) == *old(self)
                },
            },
    {
        match self {
            Self::C(x) => Some(x),
            _ => None,
        }
    }

    /// Returns the `C` value, if the cell holds one
    pub fn into_c(self) -> (r: Option<C>)
        ensures
            match r {
                Some(x) => self == Self::C(x),
                None => !(self is C),
            },
    {
        match self {
            Self::C(x) => Some(x),
            _ => None,
        }
    }

    /// Returns true if the cell holds the `D` variant
    pub fn is_d(&self) -> (r: bool)
        ensures
            r == (*self is D),
    {
        match self {
            Self::D(_) => true,
            _ => false,
        }
    }

    /// Returns a reference to the `D` value, if the cell holds one
    pub fn as_d(&self) -> (r: Option<&D>)
        ensures
            match r {
                Some(x) => *self == Self::D(*x),
                None => !(*self is D),
            },
    {
        match self {
            Self::D(x) => Some(x),
            _ => None,
        }
    }

    /// Returns a mutable reference to the `D` value, if the cell holds one
    pub fn as_mut_d(&mut self) -> (r: Option<&mut D>)
        ensures
            match r {
                Some(x) => {
                    &&& *old(self) == Self::D(*x)
                    &&& *final(self) == Self::D(*final(x))
                },
                None => {
                    &&& !(*old(self) is D)
                    &&& *final(self) == *old(self)
                },
            },
    {
        match self {
            Self::D(x) => Some(x),
            _ => None,
        }
    }

    /// Returns the `D` value, if the cell holds one
    pub fn into_d(self) -> (r: Option<D>)
        ensures
            match r {
                Some(x) => self == Self::D(x),
                None => !(self is D),
            },
    {
        match self {
            Self::D(x) => Some(x),
            _ => None,
        }
    }

    /// Returns true if the cell holds the `E` variant
    pub fn is_e(&self) -> (r: bool)
        ensures
            r == (*self is E),
    {
        match self {
            Self::E(_) => true,
            _ => false,
        }
    }

    /// Returns a reference to the `E` value, if the cell holds one
    pub fn as_e(&self) -> (r: Option<&E>)
        ensures
            match r {
                Some(x) => *self == Self::E(*x),
                None => !(*self is E),
            },
    {
        match self {
            Self::E(x) => Some(x),
            _ => None,
        }
    }

    /// Returns a mutable reference to the `E` value, if the cell holds one
    pub fn as_mut_e(&mut self) -> (r: Option<&mut E>)
        ensures
            match r {
                Some(x) => {
                    &&& *old(self) == Self::E(*x)
                    &&& *final(self) == Self::E(*final(x))
                },
                None => {
                    &&& !(*old(self) is E)
                    &&& *final(self) == *old(self)
                },
            },
    {
        match self {
            Self::E(x) => Some(x),
            _ => None,
        }
    }

    /// Returns the `E` value, if the cell holds one
    pub fn into_e(self) -> (r: Option<E>)
        ensures
            match r {
                Some(x) => self == Self::E(x),
                None => !(self is E),
            },
    {
        match self {
            Self::E(x) => Some(x),
            _ => None,
        }
    }
}

/// A cell that holds a value of one of 6 types, one variant per type
#[derive(Copy, Clone, Debug, PartialEq, Eq, Hash, PartialOrd, Ord)]
pub enum Cell6<A, B, C, D, E, F> {
    A(A),
    B(B),
    C(C),
    D(D),
    E(E),
    F(F),
}

impl<A, B, C, D, E, F> Cell6<A, B, C, D, E, F> {
    /// Returns true if the cell holds the `A` variant
    pub fn is_a(&self) -> (r: bool)
        ensures
            r == (*self is A),
    {
        match self {
            Self::A(_) => true,
            _ => false,
        }
    }

    /// Returns a reference to the `A` value, if the cell holds one
    pub fn as_a(&self) -> (r: Option<&A>)
        ensures
            match r {
                Some(x) => *self == Self::A(*x),
                None => !(*self is A),
            },
    {
        match self {
            Self::A(x) => Some(x),
            _ => None,
        }
    }

    /// Returns a mutable reference to the `A` value, if the cell holds one
    pub fn as_mut_a(&mut self) -> (r: Option<&mut A>)
        ensures
            match r {
                Some(x) => {
                    &&& *old(self) == Self::A(*x)
                    &&& *final(self) == Self::A(*final(x))
                },
                None => {
                    &&& !(*old(self) is A)
                    &&& *final(self) == *old(self)
                },
            },
    {
        match self {
            Self::A(x) => Some(x),
            _ => None,
        }
    }

    /// Returns the `A` value, if the cell holds one
    pub fn into_a(self) -> (r: Option<A>)
        ensures
            match r {
                Some(x) => self == Self::A(x),
                None => !(self is A),
            },
    {
        match self {
            Self::A(x) => Some(x),
            _ => None,
        }
    }

    /// Returns true if the cell holds the `B` variant
    pub fn is_b(&self) -> (r: bool)
        ensures
            r == (*self is B),
    {
        match self {
            Self::B(_) => true,
            _ => false,
        }
    }

    /// Returns a reference to the `B` value, if the cell holds one
    pub fn as_b(&self) -> (r: Option<&B>)
        ensures
            match r {
                Some(x) => *self == Self::B(*x),
                None => !(*self is B),
            },
    {
        match self {
            Self::B(x) => Some(x),
            _ => None,
        }
    }

    /// Returns a mutable reference to the `B` value, if the cell holds one
    pub fn as_mut_b(&mut self) -> (r: Option<&mut B>)
        ensures
            match r {
                Some(x) => {
                    &&& *old(self) == Self::B(*x)
                    &&& *final(self) == Self::B(*final(x))
                },
                None => {
                    &&& !(*old(self) is B)
                    &&& *final(self) == *old(self)
                },
            },
    {
        match self {
            Self::B(x) => Some(x),
            _ => None,
        }
    }

    /// Returns the `B` value, if the cell holds one
    pub fn into_b(self) -> (r: Option<B>)
        ensures
            match r {
                Some(x) => self == Self::B(x),
                None => !(self is B),
            },
    {
        match self {
            Self::B(x) => Some(x),
            _ => None,
        }
    }

    /// Returns true if the cell holds the `C` variant
    pub fn is_c(&self) -> (r: bool)
        ensures
            r == (*self is C),
    {
        match self {
            Self::C(_) => true,
            _ => false,
        }
    }

    /// Returns a reference to the `C` value, if the cell holds one
    pub fn as_c(&self) -> (r: Option<&C>)
        ensures
            match r {
                Some(x) => *self == Self::C(*x),
                None => !(*self is C),
            },
    {
        match self {
            Self::C(x) => Some(x),
            _ => None,
        }
    }

    /// Returns a mutable reference to the `C` value, if the cell holds one
    pub fn as_mut_c(&mut self) -> (r: Option<&mut C>)
        ensures
            match r {
                Some(x) => {
                    &&& *old(self) == Self::C(*x)
                    &&& *final(self) == Self::C(*final(x))
                },
                None => {
                    &&& !(*old(self) is C)
                    &&& *final(self) == *old(self)
                },
            },
    {
        match self {
            Self::C(x) => Some(x),
            _ => None,
        }
    }

    /// Returns the `C` value, if the cell holds one
    pub fn into_c(self) -> (r: Option<C>)
        ensures
            match r {
                Some(x) => self == Self::C(x),
                None => !(self is C),
            },
    {
        match self {
            Self::C(x) => Some(x),
            _ => None,
        }
    }

    /// Returns true if the cell holds the `D` variant
    pub fn is_d(&self) -> (r: bool)
        ensures
            r == (*self is D),
    {
        match self {
            Self::D(_) => true,
            _ => false,
        }
    }

    /// Returns a reference to the `D` value, if the cell holds one
    pub fn as_d(&self) -> (r: Option<&D>)
        ensures
            match r {
                Some(x) => *self == Self::D(*x),
                None => !(*self is D),
            },
    {
        match self {
            Self::D(x) => Some(x),
            _ => None,
        }
    }

    /// Returns a mutable reference to the `D` value, if the cell holds one
    pub fn as_mut_d(&mut self) -> (r: Option<&mut D>)
        ensures
            match r {
                Some(x) => {
                    &&& *old(self) == Self::D(*x)
                    &&& *final(self) == Self::D(*final(x))
                },
                None => {
                    &&& !(*old(self) is D)
                    &&& *final(self) == *old(self)
                },
            },
    {
        match self {
            Self::D(x) => Some(x),
            _ => None,
        }
    }

    /// Returns the `D` value, if the cell holds one
    pub fn into_d(self) -> (r: Option<D>)
        ensures
            match r {
                Some(x) => self == Self::D(x),
                None => !(self is D),
            },
    {
        match self {
            Self::D(x) => Some(x),
            _ => None,
        }
    }

    /// Returns true if the cell holds the `E` variant
    pub fn is_e(&self) -> (r: bool)
        ensures
            r == (*self is E),
    {
        match self {
            Self::E(_) => true,
            _ => false,
        }
    }

    /// Returns a reference to the `E` value, if the cell holds one
    pub fn as_e(&self) -> (r: Option<&E>)
        ensures
            match r {
                Some(x) => *self == Self::E(*x),
                None => !(*self is E),
            },
    {
        match self {
            Self::E(x) => Some(x),
            _ => None,
        }
    }

    /// Returns a mutable reference to the `E` value, if the cell holds one
    pub fn as_mut_e(&mut self) -> (r: Option<&mut E>)
        ensures
            match r {
                Some(x) => {
                    &&& *old(self) == Self::E(*x)
                    &&& *final(self) == Self::E(*final(x))
                },
                None => {
                    &&& !(*old(self) is E)
                    &&& *final(self) == *old(self)
                },
            },
    {
        match self {
            Self::E(x) => Some(x),
            _ => None,
        }
    }

    /// Returns the `E` value, if the cell holds one
    pub fn into_e(self) -> (r: Option<E>)
        ensures
            match r {
                Some(x) => self == Self::E(x),
                None => !(self is E),
            },
    {
        match self {
            Self::E(x) => Some(x),
            _ => None,
        }
    }

    /// Returns true if the cell holds the `F` variant
    pub fn is_f(&self) -> (r: bool)
        ensures
            r == (*self is F),
    {
        match self {
            Self::F(_) => true,
            _ => false,
        }
    }

    /// Returns a reference to the `F` value, if the cell holds one
    pub fn as_f(&self) -> (r: Option<&F>)
        ensures
            match r {
                Some(x) => *self == Self::F(*x),
                None => !(*self is F),
            },
    {
        match self {
            Self::F(x) => Some(x),
            _ => None,
        }
    }

    /// Returns a mutable reference to the `F` value, if the cell holds one
    pub fn as_mut_f(&mut self) -> (r: Option<&mut F>)
        ensures
            match r {
                Some(x) => {
                    &&& *old(self) == Self::F(*x)
                    &&& *final(self) == Self::F(*final(x))
                },
                None => {
                    &&& !(*old(self) is F)
                    &&& *final(self) == *old(self)
                },
            },
    {
        match self {
            Self::F(x) => Some(x),
            _ => None,
        }
    }

    /// Returns the `F` value, if the cell holds one
    pub fn into_f(self) -> (r: Option<F>)
        ensures
            match r {
                Some(x) => self == Self::F(x),
                None => !(self is F),
            },
    {
        match self {
            Self::F(x) => Some(x),
            _ => None,
        }
    }
}

/// A cell that holds a value of one of 7 types, one variant per type
#[derive(Copy, Clone, Debug, PartialEq, Eq, Hash, PartialOrd, Ord)]
pub enum Cell7<A, B, C, D, E, F, G> {
    A(A),
    B(B),
    C(C),
    D(D),
    E(E),
    F(F),
    G(G),
}

impl<A, B, C, D, E, F, G> Cell7<A, B, C, D, E, F, G> {
    /// Returns true if the cell holds the `A` variant
    pub fn is_a(&self) -> (r: bool)
        ensures
            r == (*self is A),
    {
        match self {
            Self::A(_) => true,
            _ => false,
        }
    }

    /// Returns a reference to the `A` value, if the cell holds one
    pub fn as_a(&self) -> (r: Option<&A>)
        ensures
            match r {
                Some(x) => *self == Self::A(*x),
                None => !(*self is A),
            },
    {
        match self {
            Self::A(x) => Some(x),
            _ => None,
        }
    }

    /// Returns a mutable reference to the `A` value, if the cell holds one
    pub fn as_mut_a(&mut self) -> (r: Option<&mut A>)
        ensures
            match r {
                Some(x) => {
                    &&& *old(self) == Self::A(*x)
                    &&& *final(self) == Self::A(*final(x))
                },
                None => {
                    &&& !(*old(self) is A)
                    &&& *final(self) == *old(self)
                },
            },
    {
        match self {
            Self::A(x) => Some(x),
            _ => None,
        }
    }

    /// Returns the `A` value, if the cell holds one
    pub fn into_a(self) -> (r: Option<A>)
        ensures
            match r {
                Some(x) => self == Self::A(x),
                None => !(self is A),
            },
    {
        match self {
            Self::A(x) => Some(x),
            _ => None,
        }
    }

    /// Returns true if the cell holds the `B` variant
    pub fn is_b(&self) -> (r: bool)
        ensures
            r == (*self is B),
    {
        match self {
            Self::B(_) => true,
            _ => false,
        }
    }

    /// Returns a reference to the `B` value, if the cell holds one
    pub fn as_b(&self) -> (r: Option<&B>)
        ensures
            match r {
                Some(x) => *self == Self::B(*x),
                None => !(*self is B),
            },
    {
        match self {
            Self::B(x) => Some(x),
            _ => None,
        }
    }

    /// Returns a mutable reference to the `B` value, if the cell holds one
    pub fn as_mut_b(&mut self) -> (r: Option<&mut B>)
        ensures
            match r {
                Some(x) => {
                    &&& *old(self) == Self::B(*x)
                    &&& *final(self) == Self::B(*final(x))
                },
                None => {
                    &&& !(*old(self) is B)
                    &&& *final(self) == *old(self)
                },
            },
    {
        match self {
            Self::B(x) => Some(x),
            _ => None,
        }
    }

    /// Returns the `B` value, if the cell holds one
    pub fn into_b(self) -> (r: Option<B>)
        ensures
            match r {
                Some(x) => self == Self::B(x),
                None => !(self is B),
            },
    {
        match self {
            Self::B(x) => Some(x),
            _ => None,
        }
    }

    /// Returns true if the cell holds the `C` variant
    pub fn is_c(&self) -> (r: bool)
        ensures
            r == (*self is C),
    {
        match self {
            Self::C(_) => true,
            _ => false,
        }
    }

    /// Returns a reference to the `C` value, if the cell holds one
    pub fn as_c(&self) -> (r: Option<&C>)
        ensures
            match r {
                Some(x) => *self == Self::C(*x),
                None => !(*self is C),
            },
    {
        match self {
            Self::C(x) => Some(x),
            _ => None,
        }
    }

    /// Returns a mutable reference to the `C` value, if the cell holds one
    pub fn as_mut_c(&mut self) -> (r: Option<&mut C>)
        ensures
            match r {
                Some(x) => {
                    &&& *old(self) == Self::C(*x)
                    &&& *final(self) == Self::C(*final(x))
                },
                None => {
                    &&& !(*old(self) is C)
                    &&& *final(self) == *old(self)
                },
            },
    {
        match self {
            Self::C(x) => Some(x),
            _ => None,
        }
    }

    /// Returns the `C` value, if the cell holds one
    pub fn into_c(self) -> (r: Option<C>)
        ensures
            match r {
                Some(x) => self == Self::C(x),
                None => !(self is C),
            },
    {
        match self {
            Self::C(x) => Some(x),
            _ => None,
        }
    }

    /// Returns true if the cell holds the `D` variant
    pub fn is_d(&self) -> (r: bool)
        ensures
            r == (*self is D),
    {
        match self {
            Self::D(_) => true,
            _ => false,
        }
    }

    /// Returns a reference to the `D` value, if the cell holds one
    pub fn as_d(&self) -> (r: Option<&D>)
        ensures
            match r {
                Some(x) => *self == Self::D(*x),
                None => !(*self is D),
            },
    {
        match self {
            Self::D(x) => Some(x),
            _ => None,
        }
    }

    /// Returns a mutable reference to the `D` value, if the cell holds one
    pub fn as_mut_d(&mut self) -> (r: Option<&mut D>)
        ensures
            match r {
                Some(x) => {
                    &&& *old(self) == Self::D(*x)
                    &&& *final(self) == Self::D(*final(x))
                },
                None => {
                    &&& !(*old(self) is D)
                    &&& *final(self) == *old(self)
                },
            },
    {
        match self {
            Self::D(x) => Some(x),
            _ => None,
        }
    }

    /// Returns the `D` value, if the cell holds one
    pub fn into_d(self) -> (r: Option<D>)
        ensures
            match r {
                Some(x) => self == Self::D(x),
                None => !(self is D),
            },
    {
        match self {
            Self::D(x) => Some(x),
            _ => None,
        }
    }

    /// Returns true if the cell holds the `E` variant
    pub fn is_e(&self) -> (r: bool)
        ensures
            r == (*self is E),
    {
        match self {
            Self::E(_) => true,
            _ => false,
        }
    }

    /// Returns a reference to the `E` value, if the cell holds one
    pub fn as_e(&self) -> (r: Option<&E>)
        ensures
            match r {
                Some(x) => *self == Self::E(*x),
                None => !(*self is E),
            },
    {
        match self {
            Self::E(x) => Some(x),
            _ => None,
        }
    }

    /// Returns a mutable reference to the `E` value, if the cell holds one
    pub fn as_mut_e(&mut self) -> (r: Option<&mut E>)
        ensures
            match r {
                Some(x) => {
                    &&& *old(self) == Self::E(*x)
                    &&& *final(self) == Self::E(*final(x))
                },
                None => {
                    &&& !(*old(self) is E)
                    &&& *final(self) == *old(self)
                },
            },
    {
        match self {
            Self::E(x) => Some(x),
            _ => None,
        }
    }

    /// Returns the `E` value, if the cell holds one
    pub fn into_e(self) -> (r: Option<E>)
        ensures
            match r {
                Some(x) => self == Self::E(x),
                None => !(self is E),
            },
    {
        match self {
            Self::E(x) => Some(x),
            _ => None,
        }
    }

    /// Returns true if the cell holds the `F` variant
    pub fn is_f(&self) -> (r: bool)
        ensures
            r == (*self is F),
    {
        match self {
            Self::F(_) => true,
            _ => false,
        }
    }

    /// Returns a reference to the `F` value, if the cell holds one
    pub fn as_f(&self) -> (r: Option<&F>)
        ensures
            match r {
                Some(x) => *self == Self::F(*x),
                None => !(*self is F),
            },
    {
        match self {
            Self::F(x) => Some(x),
            _ => None,
        }
    }

    /// Returns a mutable reference to the `F` value, if the cell holds one
    pub fn as_mut_f(&mut self) -> (r: Option<&mut F>)
        ensures
            match r {
                Some(x) => {
                    &&& *old(self) == Self::F(*x)
                    &&& *final(self) == Self::F(*final(x))
                },
                None => {
                    &&& !(*old(self) is F)
                    &&& *final(self) == *old(self)
                },
            },
    {
        match self {
            Self::F(x) => Some(x),
            _ => None,
        }
    }

    /// Returns the `F` value, if the cell holds one
    pub fn into_f(self) -> (r: Option<F>)
        ensures
            match r {
                Some(x) => self == Self::F(x),
                None => !(self is F),
            },
    {
        match self {
            Self::F(x) => Some(x),
            _ => None,
        }
    }

    /// Returns true if the cell holds the `G` variant
    pub fn is_g(&self) -> (r: bool)
        ensures
            r == (*self is G),
    {
        match self {
            Self::G(_) => true,
            _ => false,
        }
    }

    /// Returns a reference to the `G` value, if the cell holds one
    pub fn as_g(&self) -> (r: Option<&G>)
        ensures
            match r {
                Some(x) => *self == Self::G(*x),
                None => !(*self is G),
            },
    {
        match self {
            Self::G(x) => Some(x),
            _ => None,
        }
    }

    /// Returns a mutable reference to the `G` value, if the cell holds one
    pub fn as_mut_g(&mut self) -> (r: Option<&mut G>)
        ensures
            match r {
                Some(x) => {
                    &&& *old(self) == Self::G(*x)
                    &&& *final(self) == Self::G(*final(x))
                },
                None => {
                    &&& !(*old(self) is G)
                    &&& *final(self) == *old(self)
                },
            },
    {
        match self {
            Self::G(x) => Some(x),
            _ => None,
        }
    }

    /// Returns the `G` value, if the cell holds one
    pub fn into_g(self) -> (r: Option<G>)
        ensures
            match r {
                Some(x) => self == Self::G(x),
                None => !(self is G),
            },
    {
        match self {
            Self::G(x) => Some(x),
            _ => None,
        }
    }
}

/// A cell that holds a value of one of 8 types, one variant per type
#[derive(Copy, Clone, Debug, PartialEq, Eq, Hash, PartialOrd, Ord)]
pub enum Cell8<A, B, C, D, E, F, G, H> {
    A(A),
    B(B),
    C(C),
    D(D),
    E(E),
    F(F),
    G(G),
    H(H),
}

impl<A, B, C, D, E, F, G, H> Cell8<A, B, C, D, E, F, G, H> {
    /// Returns true if the cell holds the `A` variant
    pub fn is_a(&self) -> (r: bool)
        ensures
            r == (*self is A),
    {
        match self {
            Self::A(_) => true,
            _ => false,
        }
    }

    /// Returns a reference to the `A` value, if the cell holds one
    pub fn as_a(&self) -> (r: Option<&A>)
        ensures
            match r {
                Some(x) => *self == Self::A(*x),
                None => !(*self is A),
            },
    {
        match self {
            Self::A(x) => Some(x),
            _ => None,
        }
    }

    /// Returns a mutable reference to the `A` value, if the cell holds one
    pub fn as_mut_a(&mut self) -> (r: Option<&mut A>)
        ensures
            match r {
                Some(x) => {
                    &&& *old(self) == Self::A(*x)
                    &&& *final(self) == Self::A(*final(x))
                },
                None => {
                    &&& !(*old(self) is A)
                    &&& *final(self) == *old(self)
                },
            },
    {
        match self {
            Self::A(x) => Some(x),
            _ => None,
        }
    }

    /// Returns the `A` value, if the cell holds one
    pub fn into_a(self) -> (r: Option<A>)
        ensures
            match r {
                Some(x) => self == Self::A(x),
                None => !(self is A),
            },
    {
        match self {
            Self::A(x) => Some(x),
            _ => None,
        }
    }

    /// Returns true if the cell holds the `B` variant
    pub fn is_b(&self) -> (r: bool)
        ensures
            r == (*self is B),
    {
        match self {
            Self::B(_) => true,
            _ => false,
        }
    }

    /// Returns a reference to the `B` value, if the cell holds one
    pub fn as_b(&self) -> (r: Option<&B>)
        ensures
            match r {
                Some(x) => *self == Self::B(*x),
                None => !(*self is B),
            },
    {
        match self {
            Self::B(x) => Some(x),
            _ => None,
        }
    }

    /// Returns a mutable reference to the `B` value, if the cell holds one
    pub fn as_mut_b(&mut self) -> (r: Option<&mut B>)
        ensures
            match r {
                Some(x) => {
                    &&& *old(self) == Self::B(*x)
                    &&& *final(self) == Self::B(*final(x))
                },
                None => {
                    &&& !(*old(self) is B)
                    &&& *final(self) == *old(self)
                },
            },
    {
        match self {
            Self::B(x) => Some(x),
            _ => None,
        }
    }

    /// Returns the `B` value, if the cell holds one
    pub fn into_b(self) -> (r: Option<B>)
        ensures
            match r {
                Some(x) => self == Self::B(x),
                None => !(self is B),
            },
    {
        match self {
            Self::B(x) => Some(x),
            _ => None,
        }
    }

    /// Returns true if the cell holds the `C` variant
    pub fn is_c(&self) -> (r: bool)
        ensures
            r == (*self is C),
    {
        match self {
            Self::C(_) => true,
            _ => false,
        }
    }

    /// Returns a reference to the `C` value, if the cell holds one
    pub fn as_c(&self) -> (r: Option<&C>)
        ensures
            match r {
                Some(x) => *self == Self::C(*x),
                None => !(*self is C),
            },
    {
        match self {
            Self::C(x) => Some(x),
            _ => None,
        }
    }

    /// Returns a mutable reference to the `C` value, if the cell holds one
    pub fn as_mut_c(&mut self) -> (r: Option<&mut C>)
        ensures
            match r {
                Some(x) => {
                    &&& *old(self) == Self::C(*x)
                    &&& *final(self) == Self::C(*final(x))
                },
                None => {
                    &&& !(*old(self) is C)
                    &&& *final(self) == *old(self)
                },
            },
    {
        match self {
            Self::C(x) => Some(x),
            _ => None,
        }
    }

    /// Returns the `C` value, if the cell holds one
    pub fn into_c(self) -> (r: Option<C>)
        ensures
            match r {
                Some(x) => self == Self::C(x),
                None => !(self is C),
            },
    {
        match self {
            Self::C(x) => Some(x),
            _ => None,
        }
    }

    /// Returns true if the cell holds the `D` variant
    pub fn is_d(&self) -> (r: bool)
        ensures
            r == (*self is D),
    {
        match self {
            Self::D(_) => true,
            _ => false,
        }
    }

    /// Returns a reference to the `D` value, if the cell holds one
    pub fn as_d(&self) -> (r: Option<&D>)
        ensures
            match r {
                Some(x) => *self == Self::D(*x),
                None => !(*self is D),
            },
    {
        match self {
            Self::D(x) => Some(x),
            _ => None,
        }
    }

    /// Returns a mutable reference to the `D` value, if the cell holds one
    pub fn as_mut_d(&mut self) -> (r: Option<&mut D>)
        ensures
            match r {
                Some(x) => {
                    &&& *old(self) == Self::D(*x)
                    &&& *final(self) == Self::D(*final(x))
                },
                None => {
                    &&& !(*old(self) is D)
                    &&& *final(self) == *old(self)
                },
            },
    {
        match self {
            Self::D(x) => Some(x),
            _ => None,
        }
    }

    /// Returns the `D` value, if the cell holds one
    pub fn into_d(self) -> (r: Option<D>)
        ensures
            match r {
                Some(x) => self == Self::D(x),
                None => !(self is D),
            },
    {
        match self {
            Self::D(x) => Some(x),
            _ => None,
        }
    }

    /// Returns true if the cell holds the `E` variant
    pub fn is_e(&self) -> (r: bool)
        ensures
            r == (*self is E),
    {
        match self {
            Self::E(_) => true,
            _ => false,
        }
    }

    /// Returns a reference to the `E` value, if the cell holds one
    pub fn as_e(&self) -> (r: Option<&E>)
        ensures
            match r {
                Some(x) => *self == Self::E(*x),
                None => !(*self is E),
            },
    {
        match self {
            Self::E(x) => Some(x),
            _ => None,
        }
    }

    /// Returns a mutable reference to the `E` value, if the cell holds one
    pub fn as_mut_e(&mut self) -> (r: Option<&mut E>)
        ensures
            match r {
                Some(x) => {
                    &&& *old(self) == Self::E(*x)
                    &&& *final(self) == Self::E(*final(x))
                },
                None => {
                    &&& !(*old(self) is E)
                    &&& *final(self) == *old(self)
                },
            },
    {
        match self {
            Self::E(x) => Some(x),
            _ => None,
        }
    }

    /// Returns the `E` value, if the cell holds one
    pub fn into_e(self) -> (r: Option<E>)
        ensures
            match r {
                Some(x) => self == Self::E(x),
                None => !(self is E),
            },
    {
        match self {
            Self::E(x) => Some(x),
            _ => None,
        }
    }

    /// Returns true if the cell holds the `F` variant
    pub fn is_f(&self) -> (r: bool)
        ensures
            r == (*self is F),
    {
        match self {
            Self::F(_) => true,
            _ => false,
        }
    }

    /// Returns a reference to the `F` value, if the cell holds one
    pub fn as_f(&self) -> (r: Option<&F>)
        ensures
            match r {
                Some(x) => *self == Self::F(*x),
                None => !(*self is F),
            },
    {
        match self {
            Self::F(x) => Some(x),
            _ => None,
        }
    }

    /// Returns a mutable reference to the `F` value, if the cell holds one
    pub fn as_mut_f(&mut self) -> (r: Option<&mut F>)
        ensures
            match r {
                Some(x) => {
                    &&& *old(self) == Self::F(*x)
                    &&& *final(self) == Self::F(*final(x))
                },
                None => {
                    &&& !(*old(self) is F)
                    &&& *final(self) == *old(self)
                },
            },
    {
        match self {
            Self::F(x) => Some(x),
            _ => None,
        }
    }

    /// Returns the `F` value, if the cell holds one
    pub fn into_f(self) -> (r: Option<F>)
        ensures
            match r {
                Some(x) => self == Self::F(x),
                None => !(self is F),
            },
    {
        match self {
            Self::F(x) => Some(x),
            _ => None,
        }
    }

    /// Returns true if the cell holds the `G` variant
    pub fn is_g(&self) -> (r: bool)
        ensures
            r == (*self is G),
    {
        match self {
            Self::G(_) => true,
            _ => false,
        }
    }

    /// Returns a reference to the `G` value, if the cell holds one
    pub fn as_g(&self) -> (r: Option<&G>)
        ensures
            match r {
                Some(x) => *self == Self::G(*x),
                None => !(*self is G),
            },
    {
        match self {
            Self::G(x) => Some(x),
            _ => None,
        }
    }

    /// Returns a mutable reference to the `G` value, if the cell holds one
    pub fn as_mut_g(&mut self) -> (r: Option<&mut G>)
        ensures
            match r {
                Some(x) => {
                    &&& *old(self) == Self::G(*x)
                    &&& *final(self) == Self::G(*final(x))
                },
                None => {
                    &&& !(*old(self) is G)
                    &&& *final(self) == *old(self)
                },
            },
    {
        match self {
            Self::G(x) => Some(x),
            _ => None,
        }
    }

    /// Returns the `G` value, if the cell holds one
    pub fn into_g(self) -> (r: Option<G>)
        ensures
            match r {
                Some(x) => self == Self::G(x),
                None => !(self is G),
            },
    {
        match self {
            Self::G(x) => Some(x),
            _ => None,
        }
    }

    /// Returns true if the cell holds the `H` variant
    pub fn is_h(&self) -> (r: bool)
        ensures
            r == (*self is H),
    {
        match self {
            Self::H(_) => true,
            _ => false,
        }
    }

    /// Returns a reference to the `H` value, if the cell holds one
    pub fn as_h(&self) -> (r: Option<&H>)
        ensures
            match r {
                Some(x) => *self == Self::H(*x),
                None => !(*self is H),
            },
    {
        match self {
            Self::H(x) => Some(x),
            _ => None,
        }
    }

    /// Returns a mutable reference to the `H` value, if the cell holds one
    pub fn as_mut_h(&mut self) -> (r: Option<&mut H>)
        ensures
            match r {
                Some(x) => {
                    &&& *old(self) == Self::H(*x)
                    &&& *final(self) == Self::H(*final(x))
                },
                None => {
                    &&& !(*old(self) is H)
                    &&& *final(self) == *old(self)
                },
            },
    {
        match self {
            Self::H(x) => Some(x),
            _ => None,
        }
    }

    /// Returns the `H` value, if the cell holds one
    pub fn into_h(self) -> (r: Option<H>)
        ensures
            match r {
                Some(x) => self == Self::H(x),
                None => !(self is H),
            },
    {
        match self {
            Self::H(x) => Some(x),
            _ => None,
        }
    }
}

/// A cell that holds a value of one of 9 types, one variant per type
#[derive(Copy, Clone, Debug, PartialEq, Eq, Hash, PartialOrd, Ord)]
pub enum Cell9<A, B, C, D, E, F, G, H, I> {
    A(A),
    B(B),
    C(C),
    D(D),
    E(E),
    F(F),
    G(G),
    H(H),
    I(I),
}

impl<A, B, C, D, E, F, G, H, I> Cell9<A, B, C, D, E, F, G, H, I> {
    /// Returns true if the cell holds the `A` variant
    pub fn is_a(&self) -> (r: bool)
        ensures
            r == (*self is A),
    {
        match self {
            Self::A(_) => true,
            _ => false,
        }
    }

    /// Returns a reference to the `A` value, if the cell holds one
    pub fn as_a(&self) -> (r: Option<&A>)
        ensures
            match r {
                Some(x) => *self == Self::A(*x),
                None => !(*self is A),
            },
    {
        match self {
            Self::A(x) => Some(x),
            _ => None,
        }
    }

    /// Returns a mutable reference to the `A` value, if the cell holds one
    pub fn as_mut_a(&mut self) -> (r: Option<&mut A>)
        ensures
            match r {
                Some(x) => {
                    &&& *old(self) == Self::A(*x)
                    &&& *final(self) == Self::A(*final(x))
                },
                None => {
                    &&& !(*old(self) is A)
                    &&& *final(self) == *old(self)
                },
            },
    {
        match self {
            Self::A(x) => Some(x),
            _ => None,
        }
    }

    /// Returns the `A` value, if the cell holds one
    pub fn into_a(self) -> (r: Option<A>)
        ensures
            match r {
                Some(x) => self == Self::A(x),
                None => !(self is A),
            },
    {
        match self {
            Self::A(x) => Some(x),
            _ => None,
        }
    }

    /// Returns true if the cell holds the `B` variant
    pub fn is_b(&self) -> (r: bool)
        ensures
            r == (*self is B),
    {
        match self {
            Self::B(_) => true,
            _ => false,
        }
    }

    /// Returns a reference to the `B` value, if the cell holds one
    pub fn as_b(&self) -> (r: Option<&B>)
        ensures
            match r {
                Some(x) => *self == Self::B(*x),
                None => !(*self is B),
            },
    {
        match self {
            Self::B(x) => Some(x),
            _ => None,
        }
    }

    /// Returns a mutable reference to the `B` value, if the cell holds one
    pub fn as_mut_b(&mut self) -> (r: Option<&mut B>)
        ensures
            match r {
                Some(x) => {
                    &&& *old(self) == Self::B(*x)
                    &&& *final(self) == Self::B(*final(x))
                },
                None => {
                    &&& !(*old(self) is B)
                    &&& *final(self) == *old(self)
                },
            },
    {
        match self {
            Self::B(x) => Some(x),
            _ => None,
        }
    }

    /// Returns the `B` value, if the cell holds one
    pub fn into_b(self) -> (r: Option<B>)
        ensures
            match r {
                Some(x) => self == Self::B(x),
                None => !(self is B),
            },
    {
        match self {
            Self::B(x) => Some(x),
            _ => None,
        }
    }

    /// Returns true if the cell holds the `C` variant
    pub fn is_c(&self) -> (r: bool)
        ensures
            r == (*self is C),
    {
        match self {
            Self::C(_) => true,
            _ => false,
        }
    }

    /// Returns a reference to the `C` value, if the cell holds one
    pub fn as_c(&self) -> (r: Option<&C>)
        ensures
            match r {
                Some(x) => *self == Self::C(*x),
                None => !(*self is C),
            },
    {
        match self {
            Self::C(x) => Some(x),
            _ => None,
        }
    }

    /// Returns a mutable reference to the `C` value, if the cell holds one
    pub fn as_mut_c(&mut self) -> (r: Option<&mut C>)
        ensures
            match r {
                Some(x) => {
                    &&& *old(self) == Self::C(*x)
                    &&& *final(self) == Self::C(*final(x))
                },
                None => {
                    &&& !(*old(self) is C)
                    &&& *final(self) == *old(self)
                },
            },
    {
        match self {
            Self::C(x) => Some(x),
            _ => None,
        }
    }

    /// Returns the `C` value, if the cell holds one
    pub fn into_c(self) -> (r: Option<C>)
        ensures
            match r {
                Some(x) => self == Self::C(x),
                None => !(self is C),
            },
    {
        match self {
            Self::C(x) => Some(x),
            _ => None,
        }
    }

    /// Returns true if the cell holds the `D` variant
    pub fn is_d(&self) -> (r: bool)
        ensures
            r == (*self is D),
    {
        match self {
            Self::D(_) => true,
            _ => false,
        }
    }

    /// Returns a reference to the `D` value, if the cell holds one
    pub fn as_d(&self) -> (r: Option<&D>)
        ensures
            match r {
                Some(x) => *self == Self::D(*x),
                None => !(*self is D),
            },
    {
        match self {
            Self::D(x) => Some(x),
            _ => None,
        }
    }

    /// Returns a mutable reference to the `D` value, if the cell holds one
    pub fn as_mut_d(&mut self) -> (r: Option<&mut D>)
        ensures
            match r {
                Some(x) => {
                    &&& *old(self) == Self::D(*x)
                    &&& *final(self) == Self::D(*final(x))
                },
                None => {
                    &&& !(*old(self) is D)
                    &&& *final(self) == *old(self)
                },
            },
    {
        match self {
            Self::D(x) => Some(x),
            _ => None,
        }
    }

    /// Returns the `D` value, if the cell holds one
    pub fn into_d(self) -> (r: Option<D>)
        ensures
            match r {
                Some(x) => self == Self::D(x),
                None => !(self is D),
            },
    {
        match self {
            Self::D(x) => Some(x),
            _ => None,
        }
    }

    /// Returns true if the cell holds the `E` variant
    pub fn is_e(&self) -> (r: bool)
        ensures
            r == (*self is E),
    {
        match self {
            Self::E(_) => true,
            _ => false,
        }
    }

    /// Returns a reference to the `E` value, if the cell holds one
    pub fn as_e(&self) -> (r: Option<&E>)
        ensures
            match r {
                Some(x) => *self == Self::E(*x),
                None => !(*self is E),
            },
    {
        match self {
            Self::E(x) => Some(x),
            _ => None,
        }
    }

    /// Returns a mutable reference to the `E` value, if the cell holds one
    pub fn as_mut_e(&mut self) -> (r: Option<&mut E>)
        ensures
            match r {
                Some(x) => {
                    &&& *old(self) == Self::E(*x)
                    &&& *final(self) == Self::E(*final(x))
                },
                None => {
                    &&& !(*old(self) is E)
                    &&& *final(self) == *old(self)
                },
            },
    {
        match self {
            Self::E(x) => Some(x),
            _ => None,
        }
    }

    /// Returns the `E` value, if the cell holds one
    pub fn into_e(self) -> (r: Option<E>)
        ensures
            match r {
                Some(x) => self == Self::E(x),
                None => !(self is E),
            },
    {
        match self {
            Self::E(x) => Some(x),
            _ => None,
        }
    }

    /// Returns true if the cell holds the `F` variant
    pub fn is_f(&self) -> (r: bool)
        ensures
            r == (*self is F),
    {
        match self {
            Self::F(_) => true,
            _ => false,
        }
    }

    /// Returns a reference to the `F` value, if the cell holds one
    pub fn as_f(&self) -> (r: Option<&F>)
        ensures
            match r {
                Some(x) => *self == Self::F(*x),
                None => !(*self is F),
            },
    {
        match self {
            Self::F(x) => Some(x),
            _ => None,
        }
    }

    /// Returns a mutable reference to the `F` value, if the cell holds one
    pub fn as_mut_f(&mut self) -> (r: Option<&mut F>)
        ensures
            match r {
                Some(x) => {
                    &&& *old(self) == Self::F(*x)
                    &&& *final(self) == Self::F(*final(x))
                },
                None => {
                    &&& !(*old(self) is F)
                    &&& *final(self) == *old(self)
                },
            },
    {
        match self {
            Self::F(x) => Some(x),
            _ => None,
        }
    }

    /// Returns the `F` value, if the cell holds one
    pub fn into_f(self) -> (r: Option<F>)
        ensures
            match r {
                Some(x) => self == Self::F(x),
                None => !(self is F),
            },
    {
        match self {
            Self::F(x) => Some(x),
            _ => None,
        }
    }

    /// Returns true if the cell holds the `G` variant
    pub fn is_g(&self) -> (r: bool)
        ensures
            r == (*self is G),
    {
        match self {
            Self::G(_) => true,
            _ => false,
        }
    }

    /// Returns a reference to the `G` value, if the cell holds one
    pub fn as_g(&self) -> (r: Option<&G>)
        ensures
            match r {
                Some(x) => *self == Self::G(*x),
                None => !(*self is G),
            },
    {
        match self {
            Self::G(x) => Some(x),
            _ => None,
        }
    }

    /// Returns a mutable reference to the `G` value, if the cell holds one
    pub fn as_mut_g(&mut self) -> (r: Option<&mut G>)
        ensures
            match r {
                Some(x) => {
                    &&& *old(self) == Self::G(*x)
                    &&& *final(self) == Self::G(*final(x))
                },
                None => {
                    &&& !(*old(self) is G)
                    &&& *final(self) == *old(self)
                },
            },
    {
        match self {
            Self::G(x) => Some(x),
            _ => None,
        }
    }

    /// Returns the `G` value, if the cell holds one
    pub fn into_g(self) -> (r: Option<G>)
        ensures
            match r {
                Some(x) => self == Self::G(x),
                None => !(self is G),
            },
    {
        match self {
            Self::G(x) => Some(x),
            _ => None,
        }
    }

    /// Returns true if the cell holds the `H` variant
    pub fn is_h(&self) -> (r: bool)
        ensures
            r == (*self is H),
    {
        match self {
            Self::H(_) => true,
            _ => false,
        }
    }

    /// Returns a reference to the `H` value, if the cell holds one
    pub fn as_h(&self) -> (r: Option<&H>)
        ensures
            match r {
                Some(x) => *self == Self::H(*x),
                None => !(*self is H),
            },
    {
        match self {
            Self::H(x) => Some(x),
            _ => None,
        }
    }

    /// Returns a mutable reference to the `H` value, if the cell holds one
    pub fn as_mut_h(&mut self) -> (r: Option<&mut H>)
        ensures
            match r {
                Some(x) => {
                    &&& *old(self) == Self::H(*x)
                    &&& *final(self) == Self::H(*final(x))
                },
                None => {
                    &&& !(*old(self) is H)
                    &&& *final(self) == *old(self)
                },
            },
    {
        match self {
            Self::H(x) => Some(x),
            _ => None,
        }
    }

    /// Returns the `H` value, if the cell holds one
    pub fn into_h(self) -> (r: Option<H>)
        ensures
            match r {
                Some(x) => self == Self::H(x),
                None => !(self is H),
            },
    {
        match self {
            Self::H(x) => Some(x),
            _ => None,
        }
    }

    /// Returns true if the cell holds the `I` variant
    pub fn is_i(&self) -> (r: bool)
        ensures
            r == (*self is I),
    {
        match self {
            Self::I(_) => true,
            _ => false,
        }
    }

    /// Returns a reference to the `I` value, if the cell holds one
    pub fn as_i(&self) -> (r: Option<&I>)
        ensures
            match r {
                Some(x) => *self == Self::I(*x),
                None => !(*self is I),
            },
    {
        match self {
            Self::I(x) => Some(x),
            _ => None,
        }
    }

    /// Returns a mutable reference to the `I` value, if the cell holds one
    pub fn as_mut_i(&mut self) -> (r: Option<&mut I>)
        ensures
            match r {
                Some(x) => {
                    &&& *old(self) == Self::I(*x)
                    &&& *final(self) == Self::I(*final(x))
                },
                None => {
                    &&& !(*old(self) is I)
                    &&& *final(self) == *old(self)
                },
            },
    {
        match self {
            Self::I(x) => Some(x),
            _ => None,
        }
    }

    /// Returns the `I` value, if the cell holds one
    pub fn into_i(self) -> (r: Option<I>)
        ensures
            match r {
                Some(x) => self == Self::I(x),
                None => !(self is I),
            },
    {
        match self {
            Self::I(x) => Some(x),
            _ => None,
        }
    }
}

/// A cell that holds a value of one of 10 types, one variant per type
#[derive(Copy, Clone, Debug, PartialEq, Eq, Hash, PartialOrd, Ord)]
pub enum Cell10<A, B, C, D, E, F, G, H, I, J> {
    A(A),
    B(B),
    C(C),
    D(D),
    E(E),
    F(F),
    G(G),
    H(H),
    I(I),
    J(J),
}

impl<A, B, C, D, E, F, G, H, I, J> Cell10<A, B, C, D, E, F, G, H, I, J> {
    /// Returns true if the cell holds the `A` variant
    pub fn is_a(&self) -> (r: bool)
        ensures
            r == (*self is A),
    {
        match self {
            Self::A(_) => true,
            _ => false,
        }
    }

    /// Returns a reference to the `A` value, if the cell holds one
    pub fn as_a(&self) -> (r: Option<&A>)
        ensures
            match r {
                Some(x) => *self == Self::A(*x),
                None => !(*self is A),
            },
    {
        match self {
            Self::A(x) => Some(x),
            _ => None,
        }
    }

    /// Returns a mutable reference to the `A` value, if the cell holds one
    pub fn as_mut_a(&mut self) -> (r: Option<&mut A>)
        ensures
            match r {
                Some(x) => {
                    &&& *old(self) == Self::A(*x)
                    &&& *final(self) == Self::A(*final(x))
                },
                None => {
                    &&& !(*old(self) is A)
                    &&& *final(self) == *old(self)
                },
            },
    {
        match self {
            Self::A(x) => Some(x),
            _ => None,
        }
    }

    /// Returns the `A` value, if the cell holds one
    pub fn into_a(self) -> (r: Option<A>)
        ensures
            match r {
                Some(x) => self == Self::A(x),
                None => !(self is A),
            },
    {
        match self {
            Self::A(x) => Some(x),
            _ => None,
        }
    }

    /// Returns true if the cell holds the `B` variant
    pub fn is_b(&self) -> (r: bool)
        ensures
            r == (*self is B),
    {
        match self {
            Self::B(_) => true,
            _ => false,
        }
    }

    /// Returns a reference to the `B` value, if the cell holds one
    pub fn as_b(&self) -> (r: Option<&B>)
        ensures
            match r {
                Some(x) => *self == Self::B(*x),
                None => !(*self is B),
            },
    {
        match self {
            Self::B(x) => Some(x),
            _ => None,
        }
    }

    /// Returns a mutable reference to the `B` value, if the cell holds one
    pub fn as_mut_b(&mut self) -> (r: Option<&mut B>)
        ensures
            match r {
                Some(x) => {
                    &&& *old(self) == Self::B(*x)
                    &&& *final(self) == Self::B(*final(x))
                },
                None => {
                    &&& !(*old(self) is B)
                    &&& *final(self) == *old(self)
                },
            },
    {
        match self {
            Self::B(x) => Some(x),
            _ => None,
        }
    }

    /// Returns the `B` value, if the cell holds one
    pub fn into_b(self) -> (r: Option<B>)
        ensures
            match r {
                Some(x) => self == Self::B(x),
                None => !(self is B),
            },
    {
        match self {
            Self::B(x) => Some(x),
            _ => None,
        }
    }

    /// Returns true if the cell holds the `C` variant
    pub fn is_c(&self) -> (r: bool)
        ensures
            r == (*self is C),
    {
        match self {
            Self::C(_) => true,
            _ => false,
        }
    }

    /// Returns a reference to the `C` value, if the cell holds one
    pub fn as_c(&self) -> (r: Option<&C>)
        ensures
            match r {
                Some(x) => *self == Self::C(*x),
                None => !(*self is C),
            },
    {
        match self {
            Self::C(x) => Some(x),
            _ => None,
        }
    }

    /// Returns a mutable reference to the `C` value, if the cell holds one
    pub fn as_mut_c(&mut self) -> (r: Option<&mut C>)
        ensures
            match r {
                Some(x) => {
                    &&& *old(self) == Self::C(*x)
                    &&& *final(self) == Self::C(*final(x))
                },
                None => {
                    &&& !(*old(self) is C)
                    &&& *final(self) == *old(self)
                },
            },
    {
        match self {
            Self::C(x) => Some(x),
            _ => None,
        }
    }

    /// Returns the `C` value, if the cell holds one
    pub fn into_c(self) -> (r: Option<C>)
        ensures
            match r {
                Some(x) => self == Self::C(x),
                None => !(self is C),
            },
    {
        match self {
            Self::C(x) => Some(x),
            _ => None,
        }
    }

    /// Returns true if the cell holds the `D` variant
    pub fn is_d(&self) -> (r: bool)
        ensures
            r == (*self is D),
    {
        match self {
            Self::D(_) => true,
            _ => false,
        }
    }

    /// Returns a reference to the `D` value, if the cell holds one
    pub fn as_d(&self) -> (r: Option<&D>)
        ensures
            match r {
                Some(x) => *self == Self::D(*x),
                None => !(*self is D),
            },
    {
        match self {
            Self::D(x) => Some(x),
            _ => None,
        }
    }

    /// Returns a mutable reference to the `D` value, if the cell holds one
    pub fn as_mut_d(&mut self) -> (r: Option<&mut D>)
        ensures
            match r {
                Some(x) => {
                    &&& *old(self) == Self::D(*x)
                    &&& *final(self) == Self::D(*final(x))
                },
                None => {
                    &&& !(*old(self) is D)
                    &&& *final(self) == *old(self)
                },
            },
    {
        match self {
            Self::D(x) => Some(x),
            _ => None,
        }
    }

    /// Returns the `D` value, if the cell holds one
    pub fn into_d(self) -> (r: Option<D>)
        ensures
            match r {
                Some(x) => self == Self::D(x),
                None => !(self is D),
            },
    {
        match self {
            Self::D(x) => Some(x),
            _ => None,
        }
    }

    /// Returns true if the cell holds the `E` variant
    pub fn is_e(&self) -> (r: bool)
        ensures
            r == (*self is E),
    {
        match self {
            Self::E(_) => true,
            _ => false,
        }
    }

    /// Returns a reference to the `E` value, if the cell holds one
    pub fn as_e(&self) -> (r: Option<&E>)
        ensures
            match r {
                Some(x) => *self == Self::E(*x),
                None => !(*self is E),
            },
    {
        match self {
            Self::E(x) => Some(x),
            _ => None,
        }
    }

    /// Returns a mutable reference to the `E` value, if the cell holds one
    pub fn as_mut_e(&mut self) -> (r: Option<&mut E>)
        ensures
            match r {
                Some(x) => {
                    &&& *old(self) == Self::E(*x)
                    &&& *final(self) == Self::E(*final(x))
                },
                None => {
                    &&& !(*old(self) is E)
                    &&& *final(self) == *old(self)
                },
            },
    {
        match self {
            Self::E(x) => Some(x),
            _ => None,
        }
    }

    /// Returns the `E` value, if the cell holds one
    pub fn into_e(self) -> (r: Option<E>)
        ensures
            match r {
                Some(x) => self == Self::E(x),
                None => !(self is E),
            },
    {
        match self {
            Self::E(x) => Some(x),
            _ => None,
        }
    }

    /// Returns true if the cell holds the `F` variant
    pub fn is_f(&self) -> (r: bool)
        ensures
            r == (*self is F),
    {
        match self {
            Self::F(_) => true,
            _ => false,
        }
    }

    /// Returns a reference to the `F` value, if the cell holds one
    pub fn as_f(&self) -> (r: Option<&F>)
        ensures
            match r {
                Some(x) => *self == Self::F(*x),
                None => !(*self is F),
            },
    {
        match self {
            Self::F(x) => Some(x),
            _ => None,
        }
    }

    /// Returns a mutable reference to the `F` value, if the cell holds one
    pub fn as_mut_f(&mut self) -> (r: Option<&mut F>)
        ensures
            match r {
                Some(x) => {
                    &&& *old(self) == Self::F(*x)
                    &&& *final(self) == Self::F(*final(x))
                },
                None => {
                    &&& !(*old(self) is F)
                    &&& *final(self) == *old(self)
                },
            },
    {
        match self {
            Self::F(x) => Some(x),
            _ => None,
        }
    }

    /// Returns the `F` value, if the cell holds one
    pub fn into_f(self) -> (r: Option<F>)
        ensures
            match r {
                Some(x) => self == Self::F(x),
                None => !(self is F),
            },
    {
        match self {
            Self::F(x) => Some(x),
            _ => None,
        }
    }

    /// Returns true if the cell holds the `G` variant
    pub fn is_g(&self) -> (r: bool)
        ensures
            r == (*self is G),
    {
        match self {
            Self::G(_) => true,
            _ => false,
        }
    }

    /// Returns a reference to the `G` value, if the cell holds one
    pub fn as_g(&self) -> (r: Option<&G>)
        ensures
            match r {
                Some(x) => *self == Self::G(*x),
                None => !(*self is G),
            },
    {
        match self {
            Self::G(x) => Some(x),
            _ => None,
        }
    }

    /// Returns a mutable reference to the `G` value, if the cell holds one
    pub fn as_mut_g(&mut self) -> (r: Option<&mut G>)
        ensures
            match r {
                Some(x) => {
                    &&& *old(self) == Self::G(*x)
                    &&& *final(self) == Self::G(*final(x))
                },
                None => {
                    &&& !(*old(self) is G)
                    &&& *final(self) == *old(self)
                },
            },
    {
        match self {
            Self::G(x) => Some(x),
            _ => None,
        }
    }

    /// Returns the `G` value, if the cell holds one
    pub fn into_g(self) -> (r: Option<G>)
        ensures
            match r {
                Some(x) => self == Self::G(x),
                None => !(self is G),
            },
    {
        match self {
            Self::G(x) => Some(x),
            _ => None,
        }
    }

    /// Returns true if the cell holds the `H` variant
    pub fn is_h(&self) -> (r: bool)
        ensures
            r == (*self is H),
    {
        match self {
            Self::H(_) => true,
            _ => false,
        }
    }

    /// Returns a reference to the `H` value, if the cell holds one
    pub fn as_h(&self) -> (r: Option<&H>)
        ensures
            match r {
                Some(x) => *self == Self::H(*x),
                None => !(*self is H),
            },
    {
        match self {
            Self::H(x) => Some(x),
            _ => None,
        }
    }

    /// Returns a mutable reference to the `H` value, if the cell holds one
    pub fn as_mut_h(&mut self) -> (r: Option<&mut H>)
        ensures
            match r {
                Some(x) => {
                    &&& *old(self) == Self::H(*x)
                    &&& *final(self) == Self::H(*final(x))
                },
                None => {
                    &&& !(*old(self) is H)
                    &&& *final(self) == *old(self)
                },
            },
    {
        match self {
            Self::H(x) => Some(x),
            _ => None,
        }
    }

    /// Returns the `H` value, if the cell holds one
    pub fn into_h(self) -> (r: Option<H>)
        ensures
            match r {
                Some(x) => self == Self::H(x),
                None => !(self is H),
            },
    {
        match self {
            Self::H(x) => Some(x),
            _ => None,
        }
    }

    /// Returns true if the cell holds the `I` variant
    pub fn is_i(&self) -> (r: bool)
        ensures
            r == (*self is I),
    {
        match self {
            Self::I(_) => true,
            _ => false,
        }
    }

    /// Returns a reference to the `I` value, if the cell holds one
    pub fn as_i(&self) -> (r: Option<&I>)
        ensures
            match r {
                Some(x) => *self == Self::I(*x),
                None => !(*self is I),
            },
    {
        match self {
            Self::I(x) => Some(x),
            _ => None,
        }
    }

    /// Returns a mutable reference to the `I` value, if the cell holds one
    pub fn as_mut_i(&mut self) -> (r: Option<&mut I>)
        ensures
            match r {
                Some(x) => {
                    &&& *old(self) == Self::I(*x)
                    &&& *final(self) == Self::I(*final(x))
                },
                None => {
                    &&& !(*old(self) is I)
                    &&& *final(self) == *old(self)
                },
            },
    {
        match self {
            Self::I(x) => Some(x),
            _ => None,
        }
    }

    /// Returns the `I` value, if the cell holds one
    pub fn into_i(self) -> (r: Option<I>)
        ensures
            match r {
                Some(x) => self == Self::I(x),
                None => !(self is I),
            },
    {
        match self {
            Self::I(x) => Some(x),
            _ => None,
        }
    }

    /// Returns true if the cell holds the `J` variant
    pub fn is_j(&self) -> (r: bool)
        ensures
            r == (*self is J),
    {
        match self {
            Self::J(_) => true,
            _ => false,
        }
    }

    /// Returns a reference to the `J` value, if the cell holds one
    pub fn as_j(&self) -> (r: Option<&J>)
        ensures
            match r {
                Some(x) => *self == Self::J(*x),
                None => !(*self is J),
            },
    {
        match self {
            Self::J(x) => Some(x),
            _ => None,
        }
    }

    /// Returns a mutable reference to the `J` value, if the cell holds one
    pub fn as_mut_j(&mut self) -> (r: Option<&mut J>)
        ensures
            match r {
                Some(x) => {
                    &&& *old(self) == Self::J(*x)
                    &&& *final(self) == Self::J(*final(x))
                },
                None => {
                    &&& !(*old(self) is J)
                    &&& *final(self) == *old(self)
                },
            },
    {
        match self {
            Self::J(x) => Some(x),
            _ => None,
        }
    }

    /// Returns the `J` value, if the cell holds one
    pub fn into_j(self) -> (r: Option<J>)
        ensures
            match r {
                Some(x) => self == Self::J(x),
                None => !(self is J),
            },
    {
        match self {
            Self::J(x) => Some(x),
            _ => None,
        }
    }
}

/// A cell that holds a value of one of 11 types, one variant per type
#[derive(Copy, Clone, Debug, PartialEq, Eq, Hash, PartialOrd, Ord)]
pub enum Cell11<A, B, C, D, E, F, G, H, I, J, K> {
    A(A),
    B(B),
    C(C),
    D(D),
    E(E),
    F(F),
    G(G),
    H(H),
    I(I),
    J(J),
    K(K),
}

impl<A, B, C, D, E, F, G, H, I, J, K> Cell11<A, B, C, D, E, F, G, H, I, J, K> {
    /// Returns true if the cell holds the `A` variant
    pub fn is_a(&self) -> (r: bool)
        ensures
            r == (*self is A),
    {
        match self {
            Self::A(_) => true,
            _ => false,
        }
    }

    /// Returns a reference to the `A` value, if the cell holds one
    pub fn as_a(&self) -> (r: Option<&A>)
        ensures
            match r {
                Some(x) => *self == Self::A(*x),
                None => !(*self is A),
            },
    {
        match self {
            Self::A(x) => Some(x),
            _ => None,
        }
    }

    /// Returns a mutable reference to the `A` value, if the cell holds one
    pub fn as_mut_a(&mut self) -> (r: Option<&mut A>)
        ensures
            match r {
                Some(x) => {
                    &&& *old(self) == Self::A(*x)
                    &&& *final(self) == Self::A(*final(x))
                },
                None => {
                    &&& !(*old(self) is A)
                    &&& *final(self) == *old(self)
                },
            },
    {
        match self {
            Self::A(x) => Some(x),
            _ => None,
        }
    }

    /// Returns the `A` value, if the cell holds one
    pub fn into_a(self) -> (r: Option<A>)
        ensures
            match r {
                Some(x) => self == Self::A(x),
                None => !(self is A),
            },
    {
        match self {
            Self::A(x) => Some(x),
            _ => None,
        }
    }

    /// Returns true if the cell holds the `B` variant
    pub fn is_b(&self) -> (r: bool)
        ensures
            r == (*self is B),
    {
        match self {
            Self::B(_) => true,
            _ => false,
        }
    }

    /// Returns a reference to the `B` value, if the cell holds one
    pub fn as_b(&self) -> (r: Option<&B>)
        ensures
            match r {
                Some(x) => *self == Self::B(*x),
                None => !(*self is B),
            },
    {
        match self {
            Self::B(x) => Some(x),
            _ => None,
        }
    }

    /// Returns a mutable reference to the `B` value, if the cell holds one
    pub fn as_mut_b(&mut self) -> (r: Option<&mut B>)
        ensures
            match r {
                Some(x) => {
                    &&& *old(self) == Self::B(*x)
                    &&& *final(self) == Self::B(*final(x))
                },
                None => {
                    &&& !(*old(self) is B)
                    &&& *final(self) == *old(self)
                },
            },
    {
        match self {
            Self::B(x) => Some(x),
            _ => None,
        }
    }

    /// Returns the `B` value, if the cell holds one
    pub fn into_b(self) -> (r: Option<B>)
        ensures
            match r {
                Some(x) => self == Self::B(x),
                None => !(self is B),
            },
    {
        match self {
            Self::B(x) => Some(x),
            _ => None,
        }
    }

    /// Returns true if the cell holds the `C` variant
    pub fn is_c(&self) -> (r: bool)
        ensures
            r == (*self is C),
    {
        match self {
            Self::C(_) => true,
            _ => false,
        }
    }

    /// Returns a reference to the `C` value, if the cell holds one
    pub fn as_c(&self) -> (r: Option<&C>)
        ensures
            match r {
                Some(x) => *self == Self::C(*x),
                None => !(*self is C),
            },
    {
        match self {
            Self::C(x) => Some(x),
            _ => None,
        }
    }

    /// Returns a mutable reference to the `C` value, if the cell holds one
    pub fn as_mut_c(&mut self) -> (r: Option<&mut C>)
        ensures
            match r {
                Some(x) => {
                    &&& *old(self) == Self::C(*x)
                    &&& *final(self) == Self::C(*final(x))
                },
                None => {
                    &&& !(*old(self) is C)
                    &&& *final(self) == *old(self)
                },
            },
    {
        match self {
            Self::C(x) => Some(x),
            _ => None,
        }
    }

    /// Returns the `C` value, if the cell holds one
    pub fn into_c(self) -> (r: Option<C>)
        ensures
            match r {
                Some(x) => self == Self::C(x),
                None => !(self is C),
            },
    {
        match self {
            Self::C(x) => Some(x),
            _ => None,
        }
    }

    /// Returns true if the cell holds the `D` variant
    pub fn is_d(&self) -> (r: bool)
        ensures
            r == (*self is D),
    {
        match self {
            Self::D(_) => true,
            _ => false,
        }
    }

    /// Returns a reference to the `D` value, if the cell holds one
    pub fn as_d(&self) -> (r: Option<&D>)
        ensures
            match r {
                Some(x) => *self == Self::D(*x),
                None => !(*self is D),
            },
    {
        match self {
            Self::D(x) => Some(x),
            _ => None,
        }
    }

    /// Returns a mutable reference to the `D` value, if the cell holds one
    pub fn as_mut_d(&mut self) -> (r: Option<&mut D>)
        ensures
            match r {
                Some(x) => {
                    &&& *old(self) == Self::D(*x)
                    &&& *final(self) == Self::D(*final(x))
                },
                None => {
                    &&& !(*old(self) is D)
                    &&& *final(self) == *old(self)
                },
            },
    {
        match self {
            Self::D(x) => Some(x),
            _ => None,
        }
    }

    /// Returns the `D` value, if the cell holds one
    pub fn into_d(self) -> (r: Option<D>)
        ensures
            match r {
                Some(x) => self == Self::D(x),
                None => !(self is D),
            },
    {
        match self {
            Self::D(x) => Some(x),
            _ => None,
        }
    }

    /// Returns true if the cell holds the `E` variant
    pub fn is_e(&self) -> (r: bool)
        ensures
            r == (*self is E),
    {
        match self {
            Self::E(_) => true,
            _ => false,
        }
    }

    /// Returns a reference to the `E` value, if the cell holds one
    pub fn as_e(&self) -> (r: Option<&E>)
        ensures
            match r {
                Some(x) => *self == Self::E(*x),
                None => !(*self is E),
            },
    {
        match self {
            Self::E(x) => Some(x),
            _ => None,
        }
    }

    /// Returns a mutable reference to the `E` value, if the cell holds one
    pub fn as_mut_e(&mut self) -> (r: Option<&mut E>)
        ensures
            match r {
                Some(x) => {
                    &&& *old(self) == Self::E(*x)
                    &&& *final(self) == Self::E(*final(x))
                },
                None => {
                    &&& !(*old(self) is E)
                    &&& *final(self) == *old(self)
                },
            },
    {
        match self {
            Self::E(x) => Some(x),
            _ => None,
        }
    }

    /// Returns the `E` value, if the cell holds one
    pub fn into_e(self) -> (r: Option<E>)
        ensures
            match r {
                Some(x) => self == Self::E(x),
                None => !(self is E),
            },
    {
        match self {
            Self::E(x) => Some(x),
            _ => None,
        }
    }

    /// Returns true if the cell holds the `F` variant
    pub fn is_f(&self) -> (r: bool)
        ensures
            r == (*self is F),
    {
        match self {
            Self::F(_) => true,
            _ => false,
        }
    }

    /// Returns a reference to the `F` value, if the cell holds one
    pub fn as_f(&self) -> (r: Option<&F>)
        ensures
            match r {
                Some(x) => *self == Self::F(*x),
                None => !(*self is F),
            },
    {
        match self {
            Self::F(x) => Some(x),
            _ => None,
        }
    }

    /// Returns a mutable reference to the `F` value, if the cell holds one
    pub fn as_mut_f(&mut self) -> (r: Option<&mut F>)
        ensures
            match r {
                Some(x) => {
                    &&& *old(self) == Self::F(*x)
                    &&& *final(self) == Self::F(*final(x))
                },
                None => {
                    &&& !(*old(self) is F)
                    &&& *final(self) == *old(self)
                },
            },
    {
        match self {
            Self::F(x) => Some(x),
            _ => None,
        }
    }

    /// Returns the `F` value, if the cell holds one
    pub fn into_f(self) -> (r: Option<F>)
        ensures
            match r {
                Some(x) => self == Self::F(x),
                None => !(self is F),
            },
    {
        match self {
            Self::F(x) => Some(x),
            _ => None,
        }
    }

    /// Returns true if the cell holds the `G` variant
    pub fn is_g(&self) -> (r: bool)
        ensures
            r == (*self is G),
    {
        match self {
            Self::G(_) => true,
            _ => false,
        }
    }

    /// Returns a reference to the `G` value, if the cell holds one
    pub fn as_g(&self) -> (r: Option<&G>)
        ensures
            match r {
                Some(x) => *self == Self::G(*x),
                None => !(*self is G),
            },
    {
        match self {
            Self::G(x) => Some(x),
            _ => None,
        }
    }

    /// Returns a mutable reference to the `G` value, if the cell holds one
    pub fn as_mut_g(&mut self) -> (r: Option<&mut G>)
        ensures
            match r {
                Some(x) => {
                    &&& *old(self) == Self::G(*x)
                    &&& *final(self) == Self::G(*final(x))
                },
                None => {
                    &&& !(*old(self) is G)
                    &&& *final(self) == *old(self)
                },
            },
    {
        match self {
            Self::G(x) => Some(x),
            _ => None,
        }
    }

    /// Returns the `G` value, if the cell holds one
    pub fn into_g(self) -> (r: Option<G>)
        ensures
            match r {
                Some(x) => self == Self::G(x),
                None => !(self is G),
            },
    {
        match self {
            Self::G(x) => Some(x),
            _ => None,
        }
    }

    /// Returns true if the cell holds the `H` variant
    pub fn is_h(&self) -> (r: bool)
        ensures
            r == (*self is H),
    {
        match self {
            Self::H(_) => true,
            _ => false,
        }
    }

    /// Returns a reference to the `H` value, if the cell holds one
    pub fn as_h(&self) -> (r: Option<&H>)
        ensures
            match r {
                Some(x) => *self == Self::H(*x),
                None => !(*self is H),
            },
    {
        match self {
            Self::H(x) => Some(x),
            _ => None,
        }
    }

    /// Returns a mutable reference to the `H` value, if the cell holds one
    pub fn as_mut_h(&mut self) -> (r: Option<&mut H>)
        ensures
            match r {
                Some(x) => {
                    &&& *old(self) == Self::H(*x)
                    &&& *final(self) == Self::H(*final(x))
                },
                None => {
                    &&& !(*old(self) is H)
                    &&& *final(self) == *old(self)
                },
            },
    {
        match self {
            Self::H(x) => Some(x),
            _ => None,
        }
    }

    /// Returns the `H` value, if the cell holds one
    pub fn into_h(self) -> (r: Option<H>)
        ensures
            match r {
                Some(x) => self == Self::H(x),
                None => !(self is H),
            },
    {
        match self {
            Self::H(x) => Some(x),
            _ => None,
        }
    }

    /// Returns true if the cell holds the `I` variant
    pub fn is_i(&self) -> (r: bool)
        ensures
            r == (*self is I),
    {
        match self {
            Self::I(_) => true,
            _ => false,
        }
    }

    /// Returns a reference to the `I` value, if the cell holds one
    pub fn as_i(&self) -> (r: Option<&I>)
        ensures
            match r {
                Some(x) => *self == Self::I(*x),
                None => !(*self is I),
            },
    {
        match self {
            Self::I(x) => Some(x),
            _ => None,
        }
    }

    /// Returns a mutable reference to the `I` value, if the cell holds one
    pub fn as_mut_i(&mut self) -> (r: Option<&mut I>)
        ensures
            match r {
                Some(x) => {
                    &&& *old(self) == Self::I(*x)
                    &&& *final(self) == Self::I(*final(x))
                },
                None => {
                    &&& !(*old(self) is I)
                    &&& *final(self) == *old(self)
                },
            },
    {
        match self {
            Self::I(x) => Some(x),
            _ => None,
        }
    }

    /// Returns the `I` value, if the cell holds one
    pub fn into_i(self) -> (r: Option<I>)
        ensures
            match r {
                Some(x) => self == Self::I(x),
                None => !(self is I),
            },
    {
        match self {
            Self::I(x) => Some(x),
            _ => None,
        }
    }

    /// Returns true if the cell holds the `J` variant
    pub fn is_j(&self) -> (r: bool)
        ensures
            r == (*self is J),
    {
        match self {
            Self::J(_) => true,
            _ => false,
        }
    }

    /// Returns a reference to the `J` value, if the cell holds one
    pub fn as_j(&self) -> (r: Option<&J>)
        ensures
            match r {
                Some(x) => *self == Self::J(*x),
                None => !(*self is J),
            },
    {
        match self {
            Self::J(x) => Some(x),
            _ => None,
        }
    }

    /// Returns a mutable reference to the `J` value, if the cell holds one
    pub fn as_mut_j(&mut self) -> (r: Option<&mut J>)
        ensures
            match r {
                Some(x) => {
                    &&& *old(self) == Self::J(*x)
                    &&& *final(self) == Self::J(*final(x))
                },
                None => {
                    &&& !(*old(self) is J)
                    &&& *final(self) == *old(self)
                },
            },
    {
        match self {
            Self::J(x) => Some(x),
            _ => None,
        }
    }

    /// Returns the `J` value, if the cell holds one
    pub fn into_j(self) -> (r: Option<J>)
        ensures
            match r {
                Some(x) => self == Self::J(x),
                None => !(self is J),
            },
    {
        match self {
            Self::J(x) => Some(x),
            _ => None,
        }
    }

    /// Returns true if the cell holds the `K` variant
    pub fn is_k(&self) -> (r: bool)
        ensures
            r == (*self is K),
    {
        match self {
            Self::K(_) => true,
            _ => false,
        }
    }

    /// Returns a reference to the `K` value, if the cell holds one
    pub fn as_k(&self) -> (r: Option<&K>)
        ensures
            match r {
                Some(x) => *self == Self::K(*x),
                None => !(*self is K),
            },
    {
        match self {
            Self::K(x) => Some(x),
            _ => None,
        }
    }

    /// Returns a mutable reference to the `K` value, if the cell holds one
    pub fn as_mut_k(&mut self) -> (r: Option<&mut K>)
        ensures
            match r {
                Some(x) => {
                    &&& *old(self) == Self::K(*x)
                    &&& *final(self) == Self::K(*final(x))
                },
                None => {
                    &&& !(*old(self) is K)
                    &&& *final(self) == *old(self)
                },
            },
    {
        match self {
            Self::K(x) => Some(x),
            _ => None,
        }
    }

    /// Returns the `K` value, if the cell holds one
    pub fn into_k(self) -> (r: Option<K>)
        ensures
            match r {
                Some(x) => self == Self::K(x),
                None => !(self is K),
            },
    {
        match self {
            Self::K(x) => Some(x),
            _ => None,
        }
    }
}

/// A cell that holds a value of one of 12 types, one variant per type
#[derive(Copy, Clone, Debug, PartialEq, Eq, Hash, PartialOrd, Ord)]
pub enum Cell12<A, B, C, D, E, F, G, H, I, J, K, L> {
    A(A),
    B(B),
    C(C),
    D(D),
    E(E),
    F(F),
    G(G),
    H(H),
    I(I),
    J(J),
    K(K),
    L(L),
}

impl<A, B, C, D, E, F, G, H, I, J, K, L> Cell12<A, B, C, D, E, F, G, H, I, J, K, L> {
    /// Returns true if the cell holds the `A` variant
    pub fn is_a(&self) -> (r: bool)
        ensures
            r == (*self is A),
    {
        match self {
            Self::A(_) => true,
            _ => false,
        }
    }

    /// Returns a reference to the `A` value, if the cell holds one
    pub fn as_a(&self) -> (r: Option<&A>)
        ensures
            match r {
                Some(x) => *self == Self::A(*x),
                None => !(*self is A),
            },
    {
        match self {
            Self::A(x) => Some(x),
            _ => None,
        }
    }

    /// Returns a mutable reference to the `A` value, if the cell holds one
    pub fn as_mut_a(&mut self) -> (r: Option<&mut A>)
        ensures
            match r {
                Some(x) => {
                    &&& *old(self) == Self::A(*x)
                    &&& *final(self) == Self::A(*final(x))
                },
                None => {
                    &&& !(*old(self) is A)
                    &&& *final(self) == *old(self)
                },
            },
    {
        match self {
            Self::A(x) => Some(x),
            _ => None,
        }
    }

    /// Returns the `A` value, if the cell holds one
    pub fn into_a(self) -> (r: Option<A>)
        ensures
            match r {
                Some(x) => self == Self::A(x),
                None => !(self is A),
            },
    {
        match self {
            Self::A(x) => Some(x),
            _ => None,
        }
    }

    /// Returns true if the cell holds the `B` variant
    pub fn is_b(&self) -> (r: bool)
        ensures
            r == (*self is B),
    {
        match self {
            Self::B(_) => true,
            _ => false,
        }
    }

    /// Returns a reference to the `B` value, if the cell holds one
    pub fn as_b(&self) -> (r: Option<&B>)
        ensures
            match r {
                Some(x) => *self == Self::B(*x),
                None => !(*self is B),
            },
    {
        match self {
            Self::B(x) => Some(x),
            _ => None,
        }
    }

    /// Returns a mutable reference to the `B` value, if the cell holds one
    pub fn as_mut_b(&mut self) -> (r: Option<&mut B>)
        ensures
            match r {
                Some(x) => {
                    &&& *old(self) == Self::B(*x)
                    &&& *final(self) == Self::B(*final(x))
                },
                None => {
                    &&& !(*old(self) is B)
                    &&& *final(self) == *old(self)
                },
            },
    {
        match self {
            Self::B(x) => Some(x),
            _ => None,
        }
    }

    /// Returns the `B` value, if the cell holds one
    pub fn into_b(self) -> (r: Option<B>)
        ensures
            match r {
                Some(x) => self == Self::B(x),
                None => !(self is B),
            },
    {
        match self {
            Self::B(x) => Some(x),
            _ => None,
        }
    }

    /// Returns true if the cell holds the `C` variant
    pub fn is_c(&self) -> (r: bool)
        ensures
            r == (*self is C),
    {
        match self {
            Self::C(_) => true,
            _ => false,
        }
    }

    /// Returns a reference to the `C` value, if the cell holds one
    pub fn as_c(&self) -> (r: Option<&C>)
        ensures
            match r {
                Some(x) => *self == Self::C(*x),
                None => !(*self is C),
            },
    {
        match self {
            Self::C(x) => Some(x),
            _ => None,
        }
    }

    /// Returns a mutable reference to the `C` value, if the cell holds one
    pub fn as_mut_c(&mut self) -> (r: Option<&mut C>)
        ensures
            match r {
                Some(x) => {
                    &&& *old(self) == Self::C(*x)
                    &&& *final(self) == Self::C(*final(x))
                },
                None => {
                    &&& !(*old(self) is C)
                    &&& *final(self) == *old(self)
                },
            },
    {
        match self {
            Self::C(x) => Some(x),
            _ => None,
        }
    }

    /// Returns the `C` value, if the cell holds one
    pub fn into_c(self) -> (r: Option<C>)
        ensures
            match r {
                Some(x) => self == Self::C(x),
                None => !(self is C),
            },
    {
        match self {
            Self::C(x) => Some(x),
            _ => None,
        }
    }

    /// Returns true if the cell holds the `D` variant
    pub fn is_d(&self) -> (r: bool)
        ensures
            r == (*self is D),
    {
        match self {
            Self::D(_) => true,
            _ => false,
        }
    }

    /// Returns a reference to the `D` value, if the cell holds one
    pub fn as_d(&self) -> (r: Option<&D>)
        ensures
            match r {
                Some(x) => *self == Self::D(*x),
                None => !(*self is D),
            },
    {
        match self {
            Self::D(x) => Some(x),
            _ => None,
        }
    }

    /// Returns a mutable reference to the `D` value, if the cell holds one
    pub fn as_mut_d(&mut self) -> (r: Option<&mut D>)
        ensures
            match r {
                Some(x) => {
                    &&& *old(self) == Self::D(*x)
                    &&& *final(self) == Self::D(*final(x))
                },
                None => {
                    &&& !(*old(self) is D)
                    &&& *final(self) == *old(self)
                },
            },
    {
        match self {
            Self::D(x) => Some(x),
            _ => None,
        }
    }

    /// Returns the `D` value, if the cell holds one
    pub fn into_d(self) -> (r: Option<D>)
        ensures
            match r {
                Some(x) => self == Self::D(x),
                None => !(self is D),
            },
    {
        match self {
            Self::D(x) => Some(x),
            _ => None,
        }
    }

    /// Returns true if the cell holds the `E` variant
    pub fn is_e(&self) -> (r: bool)
        ensures
            r == (*self is E),
    {
        match self {
            Self::E(_) => true,
            _ => false,
        }
    }

    /// Returns a reference to the `E` value, if the cell holds one
    pub fn as_e(&self) -> (r: Option<&E>)
        ensures
            match r {
                Some(x) => *self == Self::E(*x),
                None => !(*self is E),
            },
    {
        match self {
            Self::E(x) => Some(x),
            _ => None,
        }
    }

    /// Returns a mutable reference to the `E` value, if the cell holds one
    pub fn as_mut_e(&mut self) -> (r: Option<&mut E>)
        ensures
            match r {
                Some(x) => {
                    &&& *old(self) == Self::E(*x)
                    &&& *final(self) == Self::E(*final(x))
                },
                None => {
                    &&& !(*old(self) is E)
                    &&& *final(self) == *old(self)
                },
            },
    {
        match self {
            Self::E(x) => Some(x),
            _ => None,
        }
    }

    /// Returns the `E` value, if the cell holds one
    pub fn into_e(self) -> (r: Option<E>)
        ensures
            match r {
                Some(x) => self == Self::E(x),
                None => !(self is E),
            },
    {
        match self {
            Self::E(x) => Some(x),
            _ => None,
        }
    }

    /// Returns true if the cell holds the `F` variant
    pub fn is_f(&self) -> (r: bool)
        ensures
            r == (*self is F),
    {
        match self {
            Self::F(_) => true,
            _ => false,
        }
    }

    /// Returns a reference to the `F` value, if the cell holds one
    pub fn as_f(&self) -> (r: Option<&F>)
        ensures
            match r {
                Some(x) => *self == Self::F(*x),
                None => !(*self is F),
            },
    {
        match self {
            Self::F(x) => Some(x),
            _ => None,
        }
    }

    /// Returns a mutable reference to the `F` value, if the cell holds one
    pub fn as_mut_f(&mut self) -> (r: Option<&mut F>)
        ensures
            match r {
                Some(x) => {
                    &&& *old(self) == Self::F(*x)
                    &&& *final(self) == Self::F(*final(x))
                },
                None => {
                    &&& !(*old(self) is F)
                    &&& *final(self) == *old(self)
                },
            },
    {
        match self {
            Self::F(x) => Some(x),
            _ => None,
        }
    }

    /// Returns the `F` value, if the cell holds one
    pub fn into_f(self) -> (r: Option<F>)
        ensures
            match r {
                Some(x) => self == Self::F(x),
                None => !(self is F),
            },
    {
        match self {
            Self::F(x) => Some(x),
            _ => None,
        }
    }

    /// Returns true if the cell holds the `G` variant
    pub fn is_g(&self) -> (r: bool)
        ensures
            r == (*self is G),
    {
        match self {
            Self::G(_) => true,
            _ => false,
        }
    }

    /// Returns a reference to the `G` value, if the cell holds one
    pub fn as_g(&self) -> (r: Option<&G>)
        ensures
            match r {
                Some(x) => *self == Self::G(*x),
                None => !(*self is G),
            },
    {
        match self {
            Self::G(x) => Some(x),
            _ => None,
        }
    }

    /// Returns a mutable reference to the `G` value, if the cell holds one
    pub fn as_mut_g(&mut self) -> (r: Option<&mut G>)
        ensures
            match r {
                Some(x) => {
                    &&& *old(self) == Self::G(*x)
                    &&& *final(self) == Self::G(*final(x))
                },
                None => {
                    &&& !(*old(self) is G)
                    &&& *final(self) == *old(self)
                },
            },
    {
        match self {
            Self::G(x) => Some(x),
            _ => None,
        }
    }

    /// Returns the `G` value, if the cell holds one
    pub fn into_g(self) -> (r: Option<G>)
        ensures
            match r {
                Some(x) => self == Self::G(x),
                None => !(self is G),
            },
    {
        match self {
            Self::G(x) => Some(x),
            _ => None,
        }
    }

    /// Returns true if the cell holds the `H` variant
    pub fn is_h(&self) -> (r: bool)
        ensures
            r == (*self is H),
    {
        match self {
            Self::H(_) => true,
            _ => false,
        }
    }

    /// Returns a reference to the `H` value, if the cell holds one
    pub fn as_h(&self) -> (r: Option<&H>)
        ensures
            match r {
                Some(x) => *self == Self::H(*x),
                None => !(*self is H),
            },
    {
        match self {
            Self::H(x) => Some(x),
            _ => None,
        }
    }

    /// Returns a mutable reference to the `H` value, if the cell holds one
    pub fn as_mut_h(&mut self) -> (r: Option<&mut H>)
        ensures
            match r {
                Some(x) => {
                    &&& *old(self) == Self::H(*x)
                    &&& *final(self) == Self::H(*final(x))
                },
                None => {
                    &&& !(*old(self) is H)
                    &&& *final(self) == *old(self)
                },
            },
    {
        match self {
            Self::H(x) => Some(x),
            _ => None,
        }
    }

    /// Returns the `H` value, if the cell holds one
    pub fn into_h(self) -> (r: Option<H>)
        ensures
            match r {
                Some(x) => self == Self::H(x),
                None => !(self is H),
            },
    {
        match self {
            Self::H(x) => Some(x),
            _ => None,
        }
    }

    /// Returns true if the cell holds the `I` variant
    pub fn is_i(&self) -> (r: bool)
        ensures
            r == (*self is I),
    {
        match self {
            Self::I(_) => true,
            _ => false,
        }
    }

    /// Returns a reference to the `I` value, if the cell holds one
    pub fn as_i(&self) -> (r: Option<&I>)
        ensures
            match r {
                Some(x) => *self == Self::I(*x),
                None => !(*self is I),
            },
    {
        match self {
            Self::I(x) => Some(x),
            _ => None,
        }
    }

    /// Returns a mutable reference to the `I` value, if the cell holds one
    pub fn as_mut_i(&mut self) -> (r: Option<&mut I>)
        ensures
            match r {
                Some(x) => {
                    &&& *old(self) == Self::I(*x)
                    &&& *final(self) == Self::I(*final(x))
                },
                None => {
                    &&& !(*old(self) is I)
                    &&& *final(self) == *old(self)
                },
            },
    {
        match self {
            Self::I(x) => Some(x),
            _ => None,
        }
    }

    /// Returns the `I` value, if the cell holds one
    pub fn into_i(self) -> (r: Option<I>)
        ensures
            match r {
                Some(x) => self == Self::I(x),
                None => !(self is I),
            },
    {
        match self {
            Self::I(x) => Some(x),
            _ => None,
        }
    }

    /// Returns true if the cell holds the `J` variant
    pub fn is_j(&self) -> (r: bool)
        ensures
            r == (*self is J),
    {
        match self {
            Self::J(_) => true,
            _ => false,
        }
    }

    /// Returns a reference to the `J` value, if the cell holds one
    pub fn as_j(&self) -> (r: Option<&J>)
        ensures
            match r {
                Some(x) => *self == Self::J(*x),
                None => !(*self is J),
            },
    {
        match self {
            Self::J(x) => Some(x),
            _ => None,
        }
    }

    /// Returns a mutable reference to the `J` value, if the cell holds one
    pub fn as_mut_j(&mut self) -> (r: Option<&mut J>)
        ensures
            match r {
                Some(x) => {
                    &&& *old(self) == Self::J(*x)
                    &&& *final(self) == Self::J(*final(x))
                },
                None => {
                    &&& !(*old(self) is J)
                    &&& *final(self) == *old(self)
                },
            },
    {
        match self {
            Self::J(x) => Some(x),
            _ => None,
        }
    }

    /// Returns the `J` value, if the cell holds one
    pub fn into_j(self) -> (r: Option<J>)
        ensures
            match r {
                Some(x) => self == Self::J(x),
                None => !(self is J),
            },
    {
        match self {
            Self::J(x) => Some(x),
            _ => None,
        }
    }

    /// Returns true if the cell holds the `K` variant
    pub fn is_k(&self) -> (r: bool)
        ensures
            r == (*self is K),
    {
        match self {
            Self::K(_) => true,
            _ => false,
        }
    }

    /// Returns a reference to the `K` value, if the cell holds one
    pub fn as_k(&self) -> (r: Option<&K>)
        ensures
            match r {
                Some(x) => *self == Self::K(*x),
                None => !(*self is K),
            },
    {
        match self {
            Self::K(x) => Some(x),
            _ => None,
        }
    }

    /// Returns a mutable reference to the `K` value, if the cell holds one
    pub fn as_mut_k(&mut self) -> (r: Option<&mut K>)
        ensures
            match r {
                Some(x) => {
                    &&& *old(self) == Self::K(*x)
                    &&& *final(self) == Self::K(*final(x))
                },
                None => {
                    &&& !(*old(self) is K)
                    &&& *final(self) == *old(self)
                },
            },
    {
        match self {
            Self::K(x) => Some(x),
            _ => None,
        }
    }

    /// Returns the `K` value, if the cell holds one
    pub fn into_k(self) -> (r: Option<K>)
        ensures
            match r {
                Some(x) => self == Self::K(x),
                None => !(self is K),
            },
    {
        match self {
            Self::K(x) => Some(x),
            _ => None,
        }
    }

    /// Returns true if the cell holds the `L` variant
    pub fn is_l(&self) -> (r: bool)
        ensures
            r == (*self is L),
    {
        match self {
            Self::L(_) => true,
            _ => false,
        }
    }

    /// Returns a reference to the `L` value, if the cell holds one
    pub fn as_l(&self) -> (r: Option<&L>)
        ensures
            match r {
                Some(x) => *self == Self::L(*x),
                None => !(*self is L),
            },
    {
        match self {
            Self::L(x) => Some(x),
            _ => None,
        }
    }

    /// Returns a mutable reference to the `L` value, if the cell holds one
    pub fn as_mut_l(&mut self) -> (r: Option<&mut L>)
        ensures
            match r {
                Some(x) => {
                    &&& *old(self) == Self::L(*x)
                    &&& *final(self) == Self::L(*final(x))
                },
                None => {
                    &&& !(*old(self) is L)
                    &&& *final(self) == *old(self)
                },
            },
    {
        match self {
            Self::L(x) => Some(x),
            _ => None,
        }
    }

    /// Returns the `L` value, if the cell holds one
    pub fn into_l(self) -> (r: Option<L>)
        ensures
            match r {
                Some(x) => self == Self::L(x),
                None => !(self is L),
            },
    {
        match self {
            Self::L(x) => Some(x),
            _ => None,
        }
    }
}

/// A cell that holds a value of one of 13 types, one variant per type
#[derive(Copy, Clone, Debug, PartialEq, Eq, Hash, PartialOrd, Ord)]
pub enum Cell13<A, B, C, D, E, F, G, H, I, J, K, L, M> {
    A(A),
    B(B),
    C(C),
    D(D),
    E(E),
    F(F),
    G(G),
    H(H),
    I(I),
    J(J),
    K(K),
    L(L),
    M(M),
}

impl<A, B, C, D, E, F, G, H, I, J, K, L, M> Cell13<A, B, C, D, E, F, G, H, I, J, K, L, M> {
    /// Returns true if the cell holds the `A` variant
    pub fn is_a(&self) -> (r: bool)
        ensures
            r == (*self is A),
    {
        match self {
            Self::A(_) => true,
            _ => false,
        }
    }

    /// Returns a reference to the `A` value, if the cell holds one
    pub fn as_a(&self) -> (r: Option<&A>)
        ensures
            match r {
                Some(x) => *self == Self::A(*x),
                None => !(*self is A),
            },
    {
        match self {
            Self::A(x) => Some(x),
            _ => None,
        }
    }

    /// Returns a mutable reference to the `A` value, if the cell holds one
    pub fn as_mut_a(&mut self) -> (r: Option<&mut A>)
        ensures
            match r {
                Some(x) => {
                    &&& *old(self) == Self::A(*x)
                    &&& *final(self) == Self::A(*final(x))
                },
                None => {
                    &&& !(*old(self) is A)
                    &&& *final(self) == *old(self)
                },
            },
    {
        match self {
            Self::A(x) => Some(x),
            _ => None,
        }
    }

    /// Returns the `A` value, if the cell holds one
    pub fn into_a(self) -> (r: Option<A>)
        ensures
            match r {
                Some(x) => self == Self::A(x),
                None => !(self is A),
            },
    {
        match self {
            Self::A(x) => Some(x),
            _ => None,
        }
    }

    /// Returns true if the cell holds the `B` variant
    pub fn is_b(&self) -> (r: bool)
        ensures
            r == (*self is B),
    {
        match self {
            Self::B(_) => true,
            _ => false,
        }
    }

    /// Returns a reference to the `B` value, if the cell holds one
    pub fn as_b(&self) -> (r: Option<&B>)
        ensures
            match r {
                Some(x) => *self == Self::B(*x),
                None => !(*self is B),
            },
    {
        match self {
            Self::B(x) => Some(x),
            _ => None,
        }
    }

    /// Returns a mutable reference to the `B` value, if the cell holds one
    pub fn as_mut_b(&mut self) -> (r: Option<&mut B>)
        ensures
            match r {
                Some(x) => {
                    &&& *old(self) == Self::B(*x)
                    &&& *final(self) == Self::B(*final(x))
                },
                None => {
                    &&& !(*old(self) is B)
                    &&& *final(self) == *old(self)
                },
            },
    {
        match self {
            Self::B(x) => Some(x),
            _ => None,
        }
    }

    /// Returns the `B` value, if the cell holds one
    pub fn into_b(self) -> (r: Option<B>)
        ensures
            match r {
                Some(x) => self == Self::B(x),
                None => !(self is B),
            },
    {
        match self {
            Self::B(x) => Some(x),
            _ => None,
        }
    }

    /// Returns true if the cell holds the `C` variant
    pub fn is_c(&self) -> (r: bool)
        ensures
            r == (*self is C),
    {
        match self {
            Self::C(_) => true,
            _ => false,
        }
    }

    /// Returns a reference to the `C` value, if the cell holds one
    pub fn as_c(&self) -> (r: Option<&C>)
        ensures
            match r {
                Some(x) => *self == Self::C(*x),
                None => !(*self is C),
            },
    {
        match self {
            Self::C(x) => Some(x),
            _ => None,
        }
    }

    /// Returns a mutable reference to the `C` value, if the cell holds one
    pub fn as_mut_c(&mut self) -> (r: Option<&mut C>)
        ensures
            match r {
                Some(x) => {
                    &&& *old(self) == Self::C(*x)
                    &&& *final(self) == Self::C(*final(x))
                },
                None => {
                    &&& !(*old(self) is C)
                    &&& *final(self) == *old(self)
                },
            },
    {
        match self {
            Self::C(x) => Some(x),
            _ => None,
        }
    }

    /// Returns the `C` value, if the cell holds one
    pub fn into_c(self) -> (r: Option<C>)
        ensures
            match r {
                Some(x) => self == Self::C(x),
                None => !(self is C),
            },
    {
        match self {
            Self::C(x) => Some(x),
            _ => None,
        }
    }

    /// Returns true if the cell holds the `D` variant
    pub fn is_d(&self) -> (r: bool)
        ensures
            r == (*self is D),
    {
        match self {
            Self::D(_) => true,
            _ => false,
        }
    }

    /// Returns a reference to the `D` value, if the cell holds one
    pub fn as_d(&self) -> (r: Option<&D>)
        ensures
            match r {
                Some(x) => *self == Self::D(*x),
                None => !(*self is D),
            },
    {
        match self {
            Self::D(x) => Some(x),
            _ => None,
        }
    }

    /// Returns a mutable reference to the `D` value, if the cell holds one
    pub fn as_mut_d(&mut self) -> (r: Option<&mut D>)
        ensures
            match r {
                Some(x) => {
                    &&& *old(self) == Self::D(*x)
                    &&& *final(self) == Self::D(*final(x))
                },
                None => {
                    &&& !(*old(self) is D)
                    &&& *final(self) == *old(self)
                },
            },
    {
        match self {
            Self::D(x) => Some(x),
            _ => None,
        }
    }

    /// Returns the `D` value, if the cell holds one
    pub fn into_d(self) -> (r: Option<D>)
        ensures
            match r {
                Some(x) => self == Self::D(x),
                None => !(self is D),
            },
    {
        match self {
            Self::D(x) => Some(x),
            _ => None,
        }
    }

    /// Returns true if the cell holds the `E` variant
    pub fn is_e(&self) -> (r: bool)
        ensures
            r == (*self is E),
    {
        match self {
            Self::E(_) => true,
            _ => false,
        }
    }

    /// Returns a reference to the `E` value, if the cell holds one
    pub fn as_e(&self) -> (r: Option<&E>)
        ensures
            match r {
                Some(x) => *self == Self::E(*x),
                None => !(*self is E),
            },
    {
        match self {
            Self::E(x) => Some(x),
            _ => None,
        }
    }

    /// Returns a mutable reference to the `E` value, if the cell holds one
    pub fn as_mut_e(&mut self) -> (r: Option<&mut E>)
        ensures
            match r {
                Some(x) => {
                    &&& *old(self) == Self::E(*x)
                    &&& *final(self) == Self::E(*final(x))
                },
                None => {
                    &&& !(*old(self) is E)
                    &&& *final(self) == *old(self)
                },
            },
    {
        match self {
            Self::E(x) => Some(x),
            _ => None,
        }
    }

    /// Returns the `E` value, if the cell holds one
    pub fn into_e(self) -> (r: Option<E>)
        ensures
            match r {
                Some(x) => self == Self::E(x),
                None => !(self is E),
            },
    {
        match self {
            Self::E(x) => Some(x),
            _ => None,
        }
    }

    /// Returns true if the cell holds the `F` variant
    pub fn is_f(&self) -> (r: bool)
        ensures
            r == (*self is F),
    {
        match self {
            Self::F(_) => true,
            _ => false,
        }
    }

    /// Returns a reference to the `F` value, if the cell holds one
    pub fn as_f(&self) -> (r: Option<&F>)
        ensures
            match r {
                Some(x) => *self == Self::F(*x),
                None => !(*self is F),
            },
    {
        match self {
            Self::F(x) => Some(x),
            _ => None,
        }
    }

    /// Returns a mutable reference to the `F` value, if the cell holds one
    pub fn as_mut_f(&mut self) -> (r: Option<&mut F>)
        ensures
            match r {
                Some(x) => {
                    &&& *old(self) == Self::F(*x)
                    &&& *final(self) == Self::F(*final(x))
                },
                None => {
                    &&& !(*old(self) is F)
                    &&& *final(self) == *old(self)
                },
            },
    {
        match self {
            Self::F(x) => Some(x),
            _ => None,
        }
    }

    /// Returns the `F` value, if the cell holds one
    pub fn into_f(self) -> (r: Option<F>)
        ensures
            match r {
                Some(x) => self == Self::F(x),
                None => !(self is F),
            },
    {
        match self {
            Self::F(x) => Some(x),
            _ => None,
        }
    }

    /// Returns true if the cell holds the `G` variant
    pub fn is_g(&self) -> (r: bool)
        ensures
            r == (*self is G),
    {
        match self {
            Self::G(_) => true,
            _ => false,
        }
    }

    /// Returns a reference to the `G` value, if the cell holds one
    pub fn as_g(&self) -> (r: Option<&G>)
        ensures
            match r {
                Some(x) => *self == Self::G(*x),
                None => !(*self is G),
            },
    {
        match self {
            Self::G(x) => Some(x),
            _ => None,
        }
    }

    /// Returns a mutable reference to the `G` value, if the cell holds one
    pub fn as_mut_g(&mut self) -> (r: Option<&mut G>)
        ensures
            match r {
                Some(x) => {
                    &&& *old(self) == Self::G(*x)
                    &&& *final(self) == Self::G(*final(x))
                },
                None => {
                    &&& !(*old(self) is G)
                    &&& *final(self) == *old(self)
                },
            },
    {
        match self {
            Self::G(x) => Some(x),
            _ => None,
        }
    }

    /// Returns the `G` value, if the cell holds one
    pub fn into_g(self) -> (r: Option<G>)
        ensures
            match r {
                Some(x) => self == Self::G(x),
                None => !(self is G),
            },
    {
        match self {
            Self::G(x) => Some(x),
            _ => None,
        }
    }

    /// Returns true if the cell holds the `H` variant
    pub fn is_h(&self) -> (r: bool)
        ensures
            r == (*self is H),
    {
        match self {
            Self::H(_) => true,
            _ => false,
        }
    }

    /// Returns a reference to the `H` value, if the cell holds one
    pub fn as_h(&self) -> (r: Option<&H>)
        ensures
            match r {
                Some(x) => *self == Self::H(*x),
                None => !(*self is H),
            },
    {
        match self {
            Self::H(x) => Some(x),
            _ => None,
        }
    }

    /// Returns a mutable reference to the `H` value, if the cell holds one
    pub fn as_mut_h(&mut self) -> (r: Option<&mut H>)
        ensures
            match r {
                Some(x) => {
                    &&& *old(self) == Self::H(*x)
                    &&& *final(self) == Self::H(*final(x))
                },
                None => {
                    &&& !(*old(self) is H)
                    &&& *final(self) == *old(self)
                },
            },
    {
        match self {
            Self::H(x) => Some(x),
            _ => None,
        }
    }

    /// Returns the `H` value, if the cell holds one
    pub fn into_h(self) -> (r: Option<H>)
        ensures
            match r {
                Some(x) => self == Self::H(x),
                None => !(self is H),
            },
    {
        match self {
            Self::H(x) => Some(x),
            _ => None,
        }
    }

    /// Returns true if the cell holds the `I` variant
    pub fn is_i(&self) -> (r: bool)
        ensures
            r == (*self is I),
    {
        match self {
            Self::I(_) => true,
            _ => false,
        }
    }

    /// Returns a reference to the `I` value, if the cell holds one
    pub fn as_i(&self) -> (r: Option<&I>)
        ensures
            match r {
                Some(x) => *self == Self::I(*x),
                None => !(*self is I),
            },
    {
        match self {
            Self::I(x) => Some(x),
            _ => None,
        }
    }

    /// Returns a mutable reference to the `I` value, if the cell holds one
    pub fn as_mut_i(&mut self) -> (r: Option<&mut I>)
        ensures
            match r {
                Some(x) => {
                    &&& *old(self) == Self::I(*x)
                    &&& *final(self) == Self::I(*final(x))
                },
                None => {
                    &&& !(*old(self) is I)
                    &&& *final(self) == *old(self)
                },
            },
    {
        match self {
            Self::I(x) => Some(x),
            _ => None,
        }
    }

    /// Returns the `I` value, if the cell holds one
    pub fn into_i(self) -> (r: Option<I>)
        ensures
            match r {
                Some(x) => self == Self::I(x),
                None => !(self is I),
            },
    {
        match self {
            Self::I(x) => Some(x),
            _ => None,
        }
    }

    /// Returns true if the cell holds the `J` variant
    pub fn is_j(&self) -> (r: bool)
        ensures
            r == (*self is J),
    {
        match self {
            Self::J(_) => true,
            _ => false,
        }
    }

    /// Returns a reference to the `J` value, if the cell holds one
    pub fn as_j(&self) -> (r: Option<&J>)
        ensures
            match r {
                Some(x) => *self == Self::J(*x),
                None => !(*self is J),
            },
    {
        match self {
            Self::J(x) => Some(x),
            _ => None,
        }
    }

    /// Returns a mutable reference to the `J` value, if the cell holds one
    pub fn as_mut_j(&mut self) -> (r: Option<&mut J>)
        ensures
            match r {
                Some(x) => {
                    &&& *old(self) == Self::J(*x)
                    &&& *final(self) == Self::J(*final(x))
                },
                None => {
                    &&& !(*old(self) is J)
                    &&& *final(self) == *old(self)
                },
            },
    {
        match self {
            Self::J(x) => Some(x),
            _ => None,
        }
    }

    /// Returns the `J` value, if the cell holds one
    pub fn into_j(self) -> (r: Option<J>)
        ensures
            match r {
                Some(x) => self == Self::J(x),
                None => !(self is J),
            },
    {
        match self {
            Self::J(x) => Some(x),
            _ => None,
        }
    }

    /// Returns true if the cell holds the `K` variant
    pub fn is_k(&self) -> (r: bool)
        ensures
            r == (*self is K),
    {
        match self {
            Self::K(_) => true,
            _ => false,
        }
    }

    /// Returns a reference to the `K` value, if the cell holds one
    pub fn as_k(&self) -> (r: Option<&K>)
        ensures
            match r {
                Some(x) => *self == Self::K(*x),
                None => !(*self is K),
            },
    {
        match self {
            Self::K(x) => Some(x),
            _ => None,
        }
    }

    /// Returns a mutable reference to the `K` value, if the cell holds one
    pub fn as_mut_k(&mut self) -> (r: Option<&mut K>)
        ensures
            match r {
                Some(x) => {
                    &&& *old(self) == Self::K(*x)
                    &&& *final(self) == Self::K(*final(x))
                },
                None => {
                    &&& !(*old(self) is K)
                    &&& *final(self) == *old(self)
                },
            },
    {
        match self {
            Self::K(x) => Some(x),
            _ => None,
        }
    }

    /// Returns the `K` value, if the cell holds one
    pub fn into_k(self) -> (r: Option<K>)
        ensures
            match r {
                Some(x) => self == Self::K(x),
                None => !(self is K),
            },
    {
        match self {
            Self::K(x) => Some(x),
            _ => None,
        }
    }

    /// Returns true if the cell holds the `L` variant
    pub fn is_l(&self) -> (r: bool)
        ensures
            r == (*self is L),
    {
        match self {
            Self::L(_) => true,
            _ => false,
        }
    }

    /// Returns a reference to the `L` value, if the cell holds one
    pub fn as_l(&self) -> (r: Option<&L>)
        ensures
            match r {
                Some(x) => *self == Self::L(*x),
                None => !(*self is L),
            },
    {
        match self {
            Self::L(x) => Some(x),
            _ => None,
        }
    }

    /// Returns a mutable reference to the `L` value, if the cell holds one
    pub fn as_mut_l(&mut self) -> (r: Option<&mut L>)
        ensures
            match r {
                Some(x) => {
                    &&& *old(self) == Self::L(*x)
                    &&& *final(self) == Self::L(*final(x))
                },
                None => {
                    &&& !(*old(self) is L)
                    &&& *final(self) == *old(self)
                },
            },
    {
        match self {
            Self::L(x) => Some(x),
            _ => None,
        }
    }

    /// Returns the `L` value, if the cell holds one
    pub fn into_l(self) -> (r: Option<L>)
        ensures
            match r {
                Some(x) => self == Self::L(x),
                None => !(self is L),
            },
    {
        match self {
            Self::L(x) => Some(x),
            _ => None,
        }
    }

    /// Returns true if the cell holds the `M` variant
    pub fn is_m(&self) -> (r: bool)
        ensures
            r == (*self is M),
    {
        match self {
            Self::M(_) => true,
            _ => false,
        }
    }

    /// Returns a reference to the `M` value, if the cell holds one
    pub fn as_m(&self) -> (r: Option<&M>)
        ensures
            match r {
                Some(x) => *self == Self::M(*x),
                None => !(*self is M),
            },
    {
        match self {
            Self::M(x) => Some(x),
            _ => None,
        }
    }

    /// Returns a mutable reference to the `M` value, if the cell holds one
    pub fn as_mut_m(&mut self) -> (r: Option<&mut M>)
        ensures
            match r {
                Some(x) => {
                    &&& *old(self) == Self::M(*x)
                    &&& *final(self) == Self::M(*final(x))
                },
                None => {
                    &&& !(*old(self) is M)
                    &&& *final(self) == *old(self)
                },
            },
    {
        match self {
            Self::M(x) => Some(x),
            _ => None,
        }
    }

    /// Returns the `M` value, if the cell holds one
    pub fn into_m(self) -> (r: Option<M>)
        ensures
            match r {
                Some(x) => self == Self::M(x),
                None => !(self is M),
            },
    {
        match self {
            Self::M(x) => Some(x),
            _ => None,
        }
    }
}

/// A cell that holds a value of one of 14 types, one variant per type
#[derive(Copy, Clone, Debug, PartialEq, Eq, Hash, PartialOrd, Ord)]
pub enum Cell14<A, B, C, D, E, F, G, H, I, J, K, L, M, N> {
    A(A),
    B(B),
    C(C),
    D(D),
    E(E),
    F(F),
    G(G),
    H(H),
    I(I),
    J(J),
    K(K),
    L(L),
    M(M),
    N(N),
}

impl<A, B, C, D, E, F, G, H, I, J, K, L, M, N> Cell14<A, B, C, D, E, F, G, H, I, J, K, L, M, N> {
    /// Returns true if the cell holds the `A` variant
    pub fn is_a(&self) -> (r: bool)
        ensures
            r == (*self is A),
    {
        match self {
            Self::A(_) => true,
            _ => false,
        }
    }

    /// Returns a reference to the `A` value, if the cell holds one
    pub fn as_a(&self) -> (r: Option<&A>)
        ensures
            match r {
                Some(x) => *self == Self::A(*x),
                None => !(*self is A),
            },
    {
        match self {
            Self::A(x) => Some(x),
            _ => None,
        }
    }

    /// Returns a mutable reference to the `A` value, if the cell holds one
    pub fn as_mut_a(&mut self) -> (r: Option<&mut A>)
        ensures
            match r {
                Some(x) => {
                    &&& *old(self) == Self::A(*x)
                    &&& *final(self) == Self::A(*final(x))
                },
                None => {
                    &&& !(*old(self) is A)
                    &&& *final(self) == *old(self)
                },
            },
    {
        match self {
            Self::A(x) => Some(x),
            _ => None,
        }
    }

    /// Returns the `A` value, if the cell holds one
    pub fn into_a(self) -> (r: Option<A>)
        ensures
            match r {
                Some(x) => self == Self::A(x),
                None => !(self is A),
            },
    {
        match self {
            Self::A(x) => Some(x),
            _ => None,
        }
    }

    /// Returns true if the cell holds the `B` variant
    pub fn is_b(&self) -> (r: bool)
        ensures
            r == (*self is B),
    {
        match self {
            Self::B(_) => true,
            _ => false,
        }
    }

    /// Returns a reference to the `B` value, if the cell holds one
    pub fn as_b(&self) -> (r: Option<&B>)
        ensures
            match r {
                Some(x) => *self == Self::B(*x),
                None => !(*self is B),
            },
    {
        match self {
            Self::B(x) => Some(x),
            _ => None,
        }
    }

    /// Returns a mutable reference to the `B` value, if the cell holds one
    pub fn as_mut_b(&mut self) -> (r: Option<&mut B>)
        ensures
            match r {
                Some(x) => {
                    &&& *old(self) == Self::B(*x)
                    &&& *final(self) == Self::B(*final(x))
                },
                None => {
                    &&& !(*old(self) is B)
                    &&& *final(self) == *old(self)
                },
            },
    {
        match self {
            Self::B(x) => Some(x),
            _ => None,
        }
    }

    /// Returns the `B` value, if the cell holds one
    pub fn into_b(self) -> (r: Option<B>)
        ensures
            match r {
                Some(x) => self == Self::B(x),
                None => !(self is B),
            },
    {
        match self {
            Self::B(x) => Some(x),
            _ => None,
        }
    }

    /// Returns true if the cell holds the `C` variant
    pub fn is_c(&self) -> (r: bool)
        ensures
            r == (*self is C),
    {
        match self {
            Self::C(_) => true,
            _ => false,
        }
    }

    /// Returns a reference to the `C` value, if the cell holds one
    pub fn as_c(&self) -> (r: Option<&C>)
        ensures
            match r {
                Some(x) => *self == Self::C(*x),
                None => !(*self is C),
            },
    {
        match self {
            Self::C(x) => Some(x),
            _ => None,
        }
    }

    /// Returns a mutable reference to the `C` value, if the cell holds one
    pub fn as_mut_c(&mut self) -> (r: Option<&mut C>)
        ensures
            match r {
                Some(x) => {
                    &&& *old(self) == Self::C(*x)
                    &&& *final(self) == Self::C(*final(x))
                },
                None => {
                    &&& !(*old(self) is C)
                    &&& *final(self) == *old(self)
                },
            },
    {
        match self {
            Self::C(x) => Some(x),
            _ => None,
        }
    }

    /// Returns the `C` value, if the cell holds one
    pub fn into_c(self) -> (r: Option<C>)
        ensures
            match r {
                Some(x) => self == Self::C(x),
                None => !(self is C),
            },
    {
        match self {
            Self::C(x) => Some(x),
            _ => None,
        }
    }

    /// Returns true if the cell holds the `D` variant
    pub fn is_d(&self) -> (r: bool)
        ensures
            r == (*self is D),
    {
        match self {
            Self::D(_) => true,
            _ => false,
        }
    }

    /// Returns a reference to the `D` value, if the cell holds one
    pub fn as_d(&self) -> (r: Option<&D>)
        ensures
            match r {
                Some(x) => *self == Self::D(*x),
                None => !(*self is D),
            },
    {
        match self {
            Self::D(x) => Some(x),
            _ => None,
        }
    }

    /// Returns a mutable reference to the `D` value, if the cell holds one
    pub fn as_mut_d(&mut self) -> (r: Option<&mut D>)
        ensures
            match r {
                Some(x) => {
                    &&& *old(self) == Self::D(*x)
                    &&& *final(self) == Self::D(*final(x))
                },
                None => {
                    &&& !(*old(self) is D)
                    &&& *final(self) == *old(self)
                },
            },
    {
        match self {
            Self::D(x) => Some(x),
            _ => None,
        }
    }

    /// Returns the `D` value, if the cell holds one
    pub fn into_d(self) -> (r: Option<D>)
        ensures
            match r {
                Some(x) => self == Self::D(x),
                None => !(self is D),
            },
    {
        match self {
            Self::D(x) => Some(x),
            _ => None,
        }
    }

    /// Returns true if the cell holds the `E` variant
    pub fn is_e(&self) -> (r: bool)
        ensures
            r == (*self is E),
    {
        match self {
            Self::E(_) => true,
            _ => false,
        }
    }

    /// Returns a reference to the `E` value, if the cell holds one
    pub fn as_e(&self) -> (r: Option<&E>)
        ensures
            match r {
                Some(x) => *self == Self::E(*x),
                None => !(*self is E),
            },
    {
        match self {
            Self::E(x) => Some(x),
            _ => None,
        }
    }

    /// Returns a mutable reference to the `E` value, if the cell holds one
    pub fn as_mut_e(&mut self) -> (r: Option<&mut E>)
        ensures
            match r {
                Some(x) => {
                    &&& *old(self) == Self::E(*x)
                    &&& *final(self) == Self::E(*final(x))
                },
                None => {
                    &&& !(*old(self) is E)
                    &&& *final(self) == *old(self)
                },
            },
    {
        match self {
            Self::E(x) => Some(x),
            _ => None,
        }
    }

    /// Returns the `E` value, if the cell holds one
    pub fn into_e(self) -> (r: Option<E>)
        ensures
            match r {
                Some(x) => self == Self::E(x),
                None => !(self is E),
            },
    {
        match self {
            Self::E(x) => Some(x),
            _ => None,
        }
    }

    /// Returns true if the cell holds the `F` variant
    pub fn is_f(&self) -> (r: bool)
        ensures
            r == (*self is F),
    {
        match self {
            Self::F(_) => true,
            _ => false,
        }
    }

    /// Returns a reference to the `F` value, if the cell holds one
    pub fn as_f(&self) -> (r: Option<&F>)
        ensures
            match r {
                Some(x) => *self == Self::F(*x),
                None => !(*self is F),
            },
    {
        match self {
            Self::F(x) => Some(x),
            _ => None,
        }
    }

    /// Returns a mutable reference to the `F` value, if the cell holds one
    pub fn as_mut_f(&mut self) -> (r: Option<&mut F>)
        ensures
            match r {
                Some(x) => {
                    &&& *old(self) == Self::F(*x)
                    &&& *final(self) == Self::F(*final(x))
                },
                None => {
                    &&& !(*old(self) is F)
                    &&& *final(self) == *old(self)
                },
            },
    {
        match self {
            Self::F(x) => Some(x),
            _ => None,
        }
    }

    /// Returns the `F` value, if the cell holds one
    pub fn into_f(self) -> (r: Option<F>)
        ensures
            match r {
                Some(x) => self == Self::F(x),
                None => !(self is F),
            },
    {
        match self {
            Self::F(x) => Some(x),
            _ => None,
        }
    }

    /// Returns true if the cell holds the `G` variant
    pub fn is_g(&self) -> (r: bool)
        ensures
            r == (*self is G),
    {
        match self {
            Self::G(_) => true,
            _ => false,
        }
    }

    /// Returns a reference to the `G` value, if the cell holds one
    pub fn as_g(&self) -> (r: Option<&G>)
        ensures
            match r {
                Some(x) => *self == Self::G(*x),
                None => !(*self is G),
            },
    {
        match self {
            Self::G(x) => Some(x),
            _ => None,
        }
    }

    /// Returns a mutable reference to the `G` value, if the cell holds one
    pub fn as_mut_g(&mut self) -> (r: Option<&mut G>)
        ensures
            match r {
                Some(x) => {
                    &&& *old(self) == Self::G(*x)
                    &&& *final(self) == Self::G(*final(x))
                },
                None => {
                    &&& !(*old(self) is G)
                    &&& *final(self) == *old(self)
                },
            },
    {
        match self {
            Self::G(x) => Some(x),
            _ => None,
        }
    }

    /// Returns the `G` value, if the cell holds one
    pub fn into_g(self) -> (r: Option<G>)
        ensures
            match r {
                Some(x) => self == Self::G(x),
                None => !(self is G),
            },
    {
        match self {
            Self::G(x) => Some(x),
            _ => None,
        }
    }

    /// Returns true if the cell holds the `H` variant
    pub fn is_h(&self) -> (r: bool)
        ensures
            r == (*self is H),
    {
        match self {
            Self::H(_) => true,
            _ => false,
        }
    }

    /// Returns a reference to the `H` value, if the cell holds one
    pub fn as_h(&self) -> (r: Option<&H>)
        ensures
            match r {
                Some(x) => *self == Self::H(*x),
                None => !(*self is H),
            },
    {
        match self {
            Self::H(x) => Some(x),
            _ => None,
        }
    }

    /// Returns a mutable reference to the `H` value, if the cell holds one
    pub fn as_mut_h(&mut self) -> (r: Option<&mut H>)
        ensures
            match r {
                Some(x) => {
                    &&& *old(self) == Self::H(*x)
                    &&& *final(self) == Self::H(*final(x))
                },
                None => {
                    &&& !(*old(self) is H)
                    &&& *final(self) == *old(self)
                },
            },
    {
        match self {
            Self::H(x) => Some(x),
            _ => None,
        }
    }

    /// Returns the `H` value, if the cell holds one
    pub fn into_h(self) -> (r: Option<H>)
        ensures
            match r {
                Some(x) => self == Self::H(x),
                None => !(self is H),
            },
    {
        match self {
            Self::H(x) => Some(x),
            _ => None,
        }
    }

    /// Returns true if the cell holds the `I` variant
    pub fn is_i(&self) -> (r: bool)
        ensures
            r == (*self is I),
    {
        match self {
            Self::I(_) => true,
            _ => false,
        }
    }

    /// Returns a reference to the `I` value, if the cell holds one
    pub fn as_i(&self) -> (r: Option<&I>)
        ensures
            match r {
                Some(x) => *self == Self::I(*x),
                None => !(*self is I),
            },
    {
        match self {
            Self::I(x) => Some(x),
            _ => None,
        }
    }

    /// Returns a mutable reference to the `I` value, if the cell holds one
    pub fn as_mut_i(&mut self) -> (r: Option<&mut I>)
        ensures
            match r {
                Some(x) => {
                    &&& *old(self) == Self::I(*x)
                    &&& *final(self) == Self::I(*final(x))
                },
                None => {
                    &&& !(*old(self) is I)
                    &&& *final(self) == *old(self)
                },
            },
    {
        match self {
            Self::I(x) => Some(x),
            _ => None,
        }
    }

    /// Returns the `I` value, if the cell holds one
    pub fn into_i(self) -> (r: Option<I>)
        ensures
            match r {
                Some(x) => self == Self::I(x),
                None => !(self is I),
            },
    {
        match self {
            Self::I(x) => Some(x),
            _ => None,
        }
    }

    /// Returns true if the cell holds the `J` variant
    pub fn is_j(&self) -> (r: bool)
        ensures
            r == (*self is J),
    {
        match self {
            Self::J(_) => true,
            _ => false,
        }
    }

    /// Returns a reference to the `J` value, if the cell holds one
    pub fn as_j(&self) -> (r: Option<&J>)
        ensures
            match r {
                Some(x) => *self == Self::J(*x),
                None => !(*self is J),
            },
    {
        match self {
            Self::J(x) => Some(x),
            _ => None,
        }
    }

    /// Returns a mutable reference to the `J` value, if the cell holds one
    pub fn as_mut_j(&mut self) -> (r: Option<&mut J>)
        ensures
            match r {
                Some(x) => {
                    &&& *old(self) == Self::J(*x)
                    &&& *final(self) == Self::J(*final(x))
                },
                None => {
                    &&& !(*old(self) is J)
                    &&& *final(self) == *old(self)
                },
            },
    {
        match self {
            Self::J(x) => Some(x),
            _ => None,
        }
    }

    /// Returns the `J` value, if the cell holds one
    pub fn into_j(self) -> (r: Option<J>)
        ensures
            match r {
                Some(x) => self == Self::J(x),
                None => !(self is J),
            },
    {
        match self {
            Self::J(x) => Some(x),
            _ => None,
        }
    }

    /// Returns true if the cell holds the `K` variant
    pub fn is_k(&self) -> (r: bool)
        ensures
            r == (*self is K),
    {
        match self {
            Self::K(_) => true,
            _ => false,
        }
    }

    /// Returns a reference to the `K` value, if the cell holds one
    pub fn as_k(&self) -> (r: Option<&K>)
        ensures
            match r {
                Some(x) => *self == Self::K(*x),
                None => !(*self is K),
            },
    {
        match self {
            Self::K(x) => Some(x),
            _ => None,
        }
    }

    /// Returns a mutable reference to the `K` value, if the cell holds one
    pub fn as_mut_k(&mut self) -> (r: Option<&mut K>)
        ensures
            match r {
                Some(x) => {
                    &&& *old(self) == Self::K(*x)
                    &&& *final(self) == Self::K(*final(x))
                },
                None => {
                    &&& !(*old(self) is K)
                    &&& *final(self) == *old(self)
                },
            },
    {
        match self {
            Self::K(x) => Some(x),
            _ => None,
        }
    }

    /// Returns the `K` value, if the cell holds one
    pub fn into_k(self) -> (r: Option<K>)
        ensures
            match r {
                Some(x) => self == Self::K(x),
                None => !(self is K),
            },
    {
        match self {
            Self::K(x) => Some(x),
            _ => None,
        }
    }

    /// Returns true if the cell holds the `L` variant
    pub fn is_l(&self) -> (r: bool)
        ensures
            r == (*self is L),
    {
        match self {
            Self::L(_) => true,
            _ => false,
        }
    }

    /// Returns a reference to the `L` value, if the cell holds one
    pub fn as_l(&self) -> (r: Option<&L>)
        ensures
            match r {
                Some(x) => *self == Self::L(*x),
                None => !(*self is L),
            },
    {
        match self {
            Self::L(x) => Some(x),
            _ => None,
        }
    }

    /// Returns a mutable reference to the `L` value, if the cell holds one
    pub fn as_mut_l(&mut self) -> (r: Option<&mut L>)
        ensures
            match r {
                Some(x) => {
                    &&& *old(self) == Self::L(*x)
                    &&& *final(self) == Self::L(*final(x))
                },
                None => {
                    &&& !(*old(self) is L)
                    &&& *final(self) == *old(self)
                },
            },
    {
        match self {
            Self::L(x) => Some(x),
            _ => None,
        }
    }

    /// Returns the `L` value, if the cell holds one
    pub fn into_l(self) -> (r: Option<L>)
        ensures
            match r {
                Some(x) => self == Self::L(x),
                None => !(self is L),
            },
    {
        match self {
            Self::L(x) => Some(x),
            _ => None,
        }
    }

    /// Returns true if the cell holds the `M` variant
    pub fn is_m(&self) -> (r: bool)
        ensures
            r == (*self is M),
    {
        match self {
            Self::M(_) => true,
            _ => false,
        }
    }

    /// Returns a reference to the `M` value, if the cell holds one
    pub fn as_m(&self) -> (r: Option<&M>)
        ensures
            match r {
                Some(x) => *self == Self::M(*x),
                None => !(*self is M),
            },
    {
        match self {
            Self::M(x) => Some(x),
            _ => None,
        }
    }

    /// Returns a mutable reference to the `M` value, if the cell holds one
    pub fn as_mut_m(&mut self) -> (r: Option<&mut M>)
        ensures
            match r {
                Some(x) => {
                    &&& *old(self) == Self::M(*x)
                    &&& *final(self) == Self::M(*final(x))
                },
                None => {
                    &&& !(*old(self) is M)
                    &&& *final(self) == *old(self)
                },
            },
    {
        match self {
            Self::M(x) => Some(x),
            _ => None,
        }
    }

    /// Returns the `M` value, if the cell holds one
    pub fn into_m(self) -> (r: Option<M>)
        ensures
            match r {
                Some(x) => self == Self::M(x),
                None => !(self is M),
            },
    {
        match self {
            Self::M(x) => Some(x),
            _ => None,
        }
    }

    /// Returns true if the cell holds the `N` variant
    pub fn is_n(&self) -> (r: bool)
        ensures
            r == (*self is N),
    {
        match self {
            Self::N(_) => true,
            _ => false,
        }
    }

    /// Returns a reference to the `N` value, if the cell holds one
    pub fn as_n(&self) -> (r: Option<&N>)
        ensures
            match r {
                Some(x) => *self == Self::N(*x),
                None => !(*self is N),
            },
    {
        match self {
            Self::N(x) => Some(x),
            _ => None,
        }
    }

    /// Returns a mutable reference to the `N` value, if the cell holds one
    pub fn as_mut_n(&mut self) -> (r: Option<&mut N>)
        ensures
            match r {
                Some(x) => {
                    &&& *old(self) == Self::N(*x)
                    &&& *final(self) == Self::N(*final(x))
                },
                None => {
                    &&& !(*old(self) is N)
                    &&& *final(self) == *old(self)
                },
            },
    {
        match self {
            Self::N(x) => Some(x),
            _ => None,
        }
    }

    /// Returns the `N` value, if the cell holds one
    pub fn into_n(self) -> (r: Option<N>)
        ensures
            match r {
                Some(x) => self == Self::N(x),
                None => !(self is N),
            },
    {
        match self {
            Self::N(x) => Some(x),
            _ => None,
        }
    }
}

/// A cell that holds a value of one of 15 types, one variant per type
#[derive(Copy, Clone, Debug, PartialEq, Eq, Hash, PartialOrd, Ord)]
pub enum Cell15<A, B, C, D, E, F, G, H, I, J, K, L, M, N, O> {
    A(A),
    B(B),
    C(C),
    D(D),
    E(E),
    F(F),
    G(G),
    H(H),
    I(I),
    J(J),
    K(K),
    L(L),
    M(M),
    N(N),
    O(O),
}

impl<A, B, C, D, E, F, G, H, I, J, K, L, M, N, O> Cell15<A, B, C, D, E, F, G, H, I, J, K, L, M, N, O> {
    /// Returns true if the cell holds the `A` variant
    pub fn is_a(&self) -> (r: bool)
        ensures
            r == (*self is A),
    {
        match self {
            Self::A(_) => true,
            _ => false,
        }
    }

    /// Returns a reference to the `A` value, if the cell holds one
    pub fn as_a(&self) -> (r: Option<&A>)
        ensures
            match r {
                Some(x) => *self == Self::A(*x),
                None => !(*self is A),
            },
    {
        match self {
            Self::A(x) => Some(x),
            _ => None,
        }
    }

    /// Returns a mutable reference to the `A` value, if the cell holds one
    pub fn as_mut_a(&mut self) -> (r: Option<&mut A>)
        ensures
            match r {
                Some(x) => {
                    &&& *old(self) == Self::A(*x)
                    &&& *final(self) == Self::A(*final(x))
                },
                None => {
                    &&& !(*old(self) is A)
                    &&& *final(self) == *old(self)
                },
            },
    {
        match self {
            Self::A(x) => Some(x),
            _ => None,
        }
    }

    /// Returns the `A` value, if the cell holds one
    pub fn into_a(self) -> (r: Option<A>)
        ensures
            match r {
                Some(x) => self == Self::A(x),
                None => !(self is A),
            },
    {
        match self {
            Self::A(x) => Some(x),
            _ => None,
        }
    }

    /// Returns true if the cell holds the `B` variant
    pub fn is_b(&self) -> (r: bool)
        ensures
            r == (*self is B),
    {
        match self {
            Self::B(_) => true,
            _ => false,
        }
    }

    /// Returns a reference to the `B` value, if the cell holds one
    pub fn as_b(&self) -> (r: Option<&B>)
        ensures
            match r {
                Some(x) => *self == Self::B(*x),
                None => !(*self is B),
            },
    {
        match self {
            Self::B(x) => Some(x),
            _ => None,
        }
    }

    /// Returns a mutable reference to the `B` value, if the cell holds one
    pub fn as_mut_b(&mut self) -> (r: Option<&mut B>)
        ensures
            match r {
                Some(x) => {
                    &&& *old(self) == Self::B(*x)
                    &&& *final(self) == Self::B(*final(x))
                },
                None => {
                    &&& !(*old(self) is B)
                    &&& *final(self) == *old(self)
                },
            },
    {
        match self {
            Self::B(x) => Some(x),
            _ => None,
        }
    }

    /// Returns the `B` value, if the cell holds one
    pub fn into_b(self) -> (r: Option<B>)
        ensures
            match r {
                Some(x) => self == Self::B(x),
                None => !(self is B),
            },
    {
        match self {
            Self::B(x) => Some(x),
            _ => None,
        }
    }

    /// Returns true if the cell holds the `C` variant
    pub fn is_c(&self) -> (r: bool)
        ensures
            r == (*self is C),
    {
        match self {
            Self::C(_) => true,
            _ => false,
        }
    }

    /// Returns a reference to the `C` value, if the cell holds one
    pub fn as_c(&self) -> (r: Option<&C>)
        ensures
            match r {
                Some(x) => *self == Self::C(*x),
                None => !(*self is C),
            },
    {
        match self {
            Self::C(x) => Some(x),
            _ => None,
        }
    }

    /// Returns a mutable reference to the `C` value, if the cell holds one
    pub fn as_mut_c(&mut self) -> (r: Option<&mut C>)
        ensures
            match r {
                Some(x) => {
                    &&& *old(self) == Self::C(*x)
                    &&& *final(self) == Self::C(*final(x))
                },
                None => {
                    &&& !(*old(self) is C)
                    &&& *final(self) == *old(self)
                },
            },
    {
        match self {
            Self::C(x) => Some(x),
            _ => None,
        }
    }

    /// Returns the `C` value, if the cell holds one
    pub fn into_c(self) -> (r: Option<C>)
        ensures
            match r {
                Some(x) => self == Self::C(x),
                None => !(self is C),
            },
    {
        match self {
            Self::C(x) => Some(x),
            _ => None,
        }
    }

    /// Returns true if the cell holds the `D` variant
    pub fn is_d(&self) -> (r: bool)
        ensures
            r == (*self is D),
    {
        match self {
            Self::D(_) => true,
            _ => false,
        }
    }

    /// Returns a reference to the `D` value, if the cell holds one
    pub fn as_d(&self) -> (r: Option<&D>)
        ensures
            match r {
                Some(x) => *self == Self::D(*x),
                None => !(*self is D),
            },
    {
        match self {
            Self::D(x) => Some(x),
            _ => None,
        }
    }

    /// Returns a mutable reference to the `D` value, if the cell holds one
    pub fn as_mut_d(&mut self) -> (r: Option<&mut D>)
        ensures
            match r {
                Some(x) => {
                    &&& *old(self) == Self::D(*x)
                    &&& *final(self) == Self::D(*final(x))
                },
                None => {
                    &&& !(*old(self) is D)
                    &&& *final(self) == *old(self)
                },
            },
    {
        match self {
            Self::D(x) => Some(x),
            _ => None,
        }
    }

    /// Returns the `D` value, if the cell holds one
    pub fn into_d(self) -> (r: Option<D>)
        ensures
            match r {
                Some(x) => self == Self::D(x),
                None => !(self is D),
            },
    {
        match self {
            Self::D(x) => Some(x),
            _ => None,
        }
    }

    /// Returns true if the cell holds the `E` variant
    pub fn is_e(&self) -> (r: bool)
        ensures
            r == (*self is E),
    {
        match self {
            Self::E(_) => true,
            _ => false,
        }
    }

    /// Returns a reference to the `E` value, if the cell holds one
    pub fn as_e(&self) -> (r: Option<&E>)
        ensures
            match r {
                Some(x) => *self == Self::E(*x),
                None => !(*self is E),
            },
    {
        match self {
            Self::E(x) => Some(x),
            _ => None,
        }
    }

    /// Returns a mutable reference to the `E` value, if the cell holds one
    pub fn as_mut_e(&mut self) -> (r: Option<&mut E>)
        ensures
            match r {
                Some(x) => {
                    &&& *old(self) == Self::E(*x)
                    &&& *final(self) == Self::E(*final(x))
                },
                None => {
                    &&& !(*old(self) is E)
                    &&& *final(self) == *old(self)
                },
            },
    {
        match self {
            Self::E(x) => Some(x),
            _ => None,
        }
    }

    /// Returns the `E` value, if the cell holds one
    pub fn into_e(self) -> (r: Option<E>)
        ensures
            match r {
                Some(x) => self == Self::E(x),
                None => !(self is E),
            },
    {
        match self {
            Self::E(x) => Some(x),
            _ => None,
        }
    }

    /// Returns true if the cell holds the `F` variant
    pub fn is_f(&self) -> (r: bool)
        ensures
            r == (*self is F),
    {
        match self {
            Self::F(_) => true,
            _ => false,
        }
    }

    /// Returns a reference to the `F` value, if the cell holds one
    pub fn as_f(&self) -> (r: Option<&F>)
        ensures
            match r {
                Some(x) => *self == Self::F(*x),
                None => !(*self is F),
            },
    {
        match self {
            Self::F(x) => Some(x),
            _ => None,
        }
    }

    /// Returns a mutable reference to the `F` value, if the cell holds one
    pub fn as_mut_f(&mut self) -> (r: Option<&mut F>)
        ensures
            match r {
                Some(x) => {
                    &&& *old(self) == Self::F(*x)
                    &&& *final(self) == Self::F(*final(x))
                },
                None => {
                    &&& !(*old(self) is F)
                    &&& *final(self) == *old(self)
                },
            },
    {
        match self {
            Self::F(x) => Some(x),
            _ => None,
        }
    }

    /// Returns the `F` value, if the cell holds one
    pub fn into_f(self) -> (r: Option<F>)
        ensures
            match r {
                Some(x) => self == Self::F(x),
                None => !(self is F),
            },
    {
        match self {
            Self::F(x) => Some(x),
            _ => None,
        }
    }

    /// Returns true if the cell holds the `G` variant
    pub fn is_g(&self) -> (r: bool)
        ensures
            r == (*self is G),
    {
        match self {
            Self::G(_) => true,
            _ => false,
        }
    }

    /// Returns a reference to the `G` value, if the cell holds one
    pub fn as_g(&self) -> (r: Option<&G>)
        ensures
            match r {
                Some(x) => *self == Self::G(*x),
                None => !(*self is G),
            },
    {
        match self {
            Self::G(x) => Some(x),
            _ => None,
        }
    }

    /// Returns a mutable reference to the `G` value, if the cell holds one
    pub fn as_mut_g(&mut self) -> (r: Option<&mut G>)
        ensures
            match r {
                Some(x) => {
                    &&& *old(self) == Self::G(*x)
                    &&& *final(self) == Self::G(*final(x))
                },
                None => {
                    &&& !(*old(self) is G)
                    &&& *final(self) == *old(self)
                },
            },
    {
        match self {
            Self::G(x) => Some(x),
            _ => None,
        }
    }

    /// Returns the `G` value, if the cell holds one
    pub fn into_g(self) -> (r: Option<G>)
        ensures
            match r {
                Some(x) => self == Self::G(x),
                None => !(self is G),
            },
    {
        match self {
            Self::G(x) => Some(x),
            _ => None,
        }
    }

    /// Returns true if the cell holds the `H` variant
    pub fn is_h(&self) -> (r: bool)
        ensures
            r == (*self is H),
    {
        match self {
            Self::H(_) => true,
            _ => false,
        }
    }

    /// Returns a reference to the `H` value, if the cell holds one
    pub fn as_h(&self) -> (r: Option<&H>)
        ensures
            match r {
                Some(x) => *self == Self::H(*x),
                None => !(*self is H),
            },
    {
        match self {
            Self::H(x) => Some(x),
            _ => None,
        }
    }

    /// Returns a mutable reference to the `H` value, if the cell holds one
    pub fn as_mut_h(&mut self) -> (r: Option<&mut H>)
        ensures
            match r {
                Some(x) => {
                    &&& *old(self) == Self::H(*x)
                    &&& *final(self) == Self::H(*final(x))
                },
                None => {
                    &&& !(*old(self) is H)
                    &&& *final(self) == *old(self)
                },
            },
    {
        match self {
            Self::H(x) => Some(x),
            _ => None,
        }
    }

    /// Returns the `H` value, if the cell holds one
    pub fn into_h(self) -> (r: Option<H>)
        ensures
            match r {
                Some(x) => self == Self::H(x),
                None => !(self is H),
            },
    {
        match self {
            Self::H(x) => Some(x),
            _ => None,
        }
    }

    /// Returns true if the cell holds the `I` variant
    pub fn is_i(&self) -> (r: bool)
        ensures
            r == (*self is I),
    {
        match self {
            Self::I(_) => true,
            _ => false,
        }
    }

    /// Returns a reference to the `I` value, if the cell holds one
    pub fn as_i(&self) -> (r: Option<&I>)
        ensures
            match r {
                Some(x) => *self == Self::I(*x),
                None => !(*self is I),
            },
    {
        match self {
            Self::I(x) => Some(x),
            _ => None,
        }
    }

    /// Returns a mutable reference to the `I` value, if the cell holds one
    pub fn as_mut_i(&mut self) -> (r: Option<&mut I>)
        ensures
            match r {
                Some(x) => {
                    &&& *old(self) == Self::I(*x)
                    &&& *final(self) == Self::I(*final(x))
                },
                None => {
                    &&& !(*old(self) is I)
                    &&& *final(self) == *old(self)
                },
            },
    {
        match self {
            Self::I(x) => Some(x),
            _ => None,
        }
    }

    /// Returns the `I` value, if the cell holds one
    pub fn into_i(self) -> (r: Option<I>)
        ensures
            match r {
                Some(x) => self == Self::I(x),
                None => !(self is I),
            },
    {
        match self {
            Self::I(x) => Some(x),
            _ => None,
        }
    }

    /// Returns true if the cell holds the `J` variant
    pub fn is_j(&self) -> (r: bool)
        ensures
            r == (*self is J),
    {
        match self {
            Self::J(_) => true,
            _ => false,
        }
    }

    /// Returns a reference to the `J` value, if the cell holds one
    pub fn as_j(&self) -> (r: Option<&J>)
        ensures
            match r {
                Some(x) => *self == Self::J(*x),
                None => !(*self is J),
            },
    {
        match self {
            Self::J(x) => Some(x),
            _ => None,
        }
    }

    /// Returns a mutable reference to the `J` value, if the cell holds one
    pub fn as_mut_j(&mut self) -> (r: Option<&mut J>)
        ensures
            match r {
                Some(x) => {
                    &&& *old(self) == Self::J(*x)
                    &&& *final(self) == Self::J(*final(x))
                },
                None => {
                    &&& !(*old(self) is J)
                    &&& *final(self) == *old(self)
                },
            },
    {
        match self {
            Self::J(x) => Some(x),
            _ => None,
        }
    }

    /// Returns the `J` value, if the cell holds one
    pub fn into_j(self) -> (r: Option<J>)
        ensures
            match r {
                Some(x) => self == Self::J(x),
                None => !(self is J),
            },
    {
        match self {
            Self::J(x) => Some(x),
            _ => None,
        }
    }

    /// Returns true if the cell holds the `K` variant
    pub fn is_k(&self) -> (r: bool)
        ensures
            r == (*self is K),
    {
        match self {
            Self::K(_) => true,
            _ => false,
        }
    }

    /// Returns a reference to the `K` value, if the cell holds one
    pub fn as_k(&self) -> (r: Option<&K>)
        ensures
            match r {
                Some(x) => *self == Self::K(*x),
                None => !(*self is K),
            },
    {
        match self {
            Self::K(x) => Some(x),
            _ => None,
        }
    }

    /// Returns a mutable reference to the `K` value, if the cell holds one
    pub fn as_mut_k(&mut self) -> (r: Option<&mut K>)
        ensures
            match r {
                Some(x) => {
                    &&& *old(self) == Self::K(*x)
                    &&& *final(self) == Self::K(*final(x))
                },
                None => {
                    &&& !(*old(self) is K)
                    &&& *final(self) == *old(self)
                },
            },
    {
        match self {
            Self::K(x) => Some(x),
            _ => None,
        }
    }

    /// Returns the `K` value, if the cell holds one
    pub fn into_k(self) -> (r: Option<K>)
        ensures
            match r {
                Some(x) => self == Self::K(x),
                None => !(self is K),
            },
    {
        match self {
            Self::K(x) => Some(x),
            _ => None,
        }
    }

    /// Returns true if the cell holds the `L` variant
    pub fn is_l(&self) -> (r: bool)
        ensures
            r == (*self is L),
    {
        match self {
            Self::L(_) => true,
            _ => false,
        }
    }

    /// Returns a reference to the `L` value, if the cell holds one
    pub fn as_l(&self) -> (r: Option<&L>)
        ensures
            match r {
                Some(x) => *self == Self::L(*x),
                None => !(*self is L),
            },
    {
        match self {
            Self::L(x) => Some(x),
            _ => None,
        }
    }

    /// Returns a mutable reference to the `L` value, if the cell holds one
    pub fn as_mut_l(&mut self) -> (r: Option<&mut L>)
        ensures
            match r {
                Some(x) => {
                    &&& *old(self) == Self::L(*x)
                    &&& *final(self) == Self::L(*final(x))
                },
                None => {
                    &&& !(*old(self) is L)
                    &&& *final(self) == *old(self)
                },
            },
    {
        match self {
            Self::L(x) => Some(x),
            _ => None,
        }
    }

    /// Returns the `L` value, if the cell holds one
    pub fn into_l(self) -> (r: Option<L>)
        ensures
            match r {
                Some(x) => self == Self::L(x),
                None => !(self is L),
            },
    {
        match self {
            Self::L(x) => Some(x),
            _ => None,
        }
    }

    /// Returns true if the cell holds the `M` variant
    pub fn is_m(&self) -> (r: bool)
        ensures
            r == (*self is M),
    {
        match self {
            Self::M(_) => true,
            _ => false,
        }
    }

    /// Returns a reference to the `M` value, if the cell holds one
    pub fn as_m(&self) -> (r: Option<&M>)
        ensures
            match r {
                Some(x) => *self == Self::M(*x),
                None => !(*self is M),
            },
    {
        match self {
            Self::M(x) => Some(x),
            _ => None,
        }
    }

    /// Returns a mutable reference to the `M` value, if the cell holds one
    pub fn as_mut_m(&mut self) -> (r: Option<&mut M>)
        ensures
            match r {
                Some(x) => {
                    &&& *old(self) == Self::M(*x)
                    &&& *final(self) == Self::M(*final(x))
                },
                None => {
                    &&& !(*old(self) is M)
                    &&& *final(self) == *old(self)
                },
            },
    {
        match self {
            Self::M(x) => Some(x),
            _ => None,
        }
    }

    /// Returns the `M` value, if the cell holds one
    pub fn into_m(self) -> (r: Option<M>)
        ensures
            match r {
                Some(x) => self == Self::M(x),
                None => !(self is M),
            },
    {
        match self {
            Self::M(x) => Some(x),
            _ => None,
        }
    }

    /// Returns true if the cell holds the `N` variant
    pub fn is_n(&self) -> (r: bool)
        ensures
            r == (*self is N),
    {
        match self {
            Self::N(_) => true,
            _ => false,
        }
    }

    /// Returns a reference to the `N` value, if the cell holds one
    pub fn as_n(&self) -> (r: Option<&N>)
        ensures
            match r {
                Some(x) => *self == Self::N(*x),
                None => !(*self is N),
            },
    {
        match self {
            Self::N(x) => Some(x),
            _ => None,
        }
    }

    /// Returns a mutable reference to the `N` value, if the cell holds one
    pub fn as_mut_n(&mut self) -> (r: Option<&mut N>)
        ensures
            match r {
                Some(x) => {
                    &&& *old(self) == Self::N(*x)
                    &&& *final(self) == Self::N(*final(x))
                },
                None => {
                    &&& !(*old(self) is N)
                    &&& *final(self) == *old(self)
                },
            },
    {
        match self {
            Self::N(x) => Some(x),
            _ => None,
        }
    }

    /// Returns the `N` value, if the cell holds one
    pub fn into_n(self) -> (r: Option<N>)
        ensures
            match r {
                Some(x) => self == Self::N(x),
                None => !(self is N),
            },
    {
        match self {
            Self::N(x) => Some(x),
            _ => None,
        }
    }

    /// Returns true if the cell holds the `O` variant
    pub fn is_o(&self) -> (r: bool)
        ensures
            r == (*self is O),
    {
        match self {
            Self::O(_) => true,
            _ => false,
        }
    }

    /// Returns a reference to the `O` value, if the cell holds one
    pub fn as_o(&self) -> (r: Option<&O>)
        ensures
            match r {
                Some(x) => *self == Self::O(*x),
                None => !(*self is O),
            },
    {
        match self {
            Self::O(x) => Some(x),
            _ => None,
        }
    }

    /// Returns a mutable reference to the `O` value, if the cell holds one
    pub fn as_mut_o(&mut self) -> (r: Option<&mut O>)
        ensures
            match r {
                Some(x) => {
                    &&& *old(self) == Self::O(*x)
                    &&& *final(self) == Self::O(*final(x))
                },
                None => {
                    &&& !(*old(self) is O)
                    &&& *final(self) == *old(self)
                },
            },
    {
        match self {
            Self::O(x) => Some(x),
            _ => None,
        }
    }

    /// Returns the `O` value, if the cell holds one
    pub fn into_o(self) -> (r: Option<O>)
        ensures
            match r {
                Some(x) => self == Self::O(x),
                None => !(self is O),
            },
    {
        match self {
            Self::O(x) => Some(x),
            _ => None,
        }
    }
}

/// A cell that holds a value of one of 16 types, one variant per type
#[derive(Copy, Clone, Debug, PartialEq, Eq, Hash, PartialOrd, Ord)]
pub enum Cell16<A, B, C, D, E, F, G, H, I, J, K, L, M, N, O, P> {
    A(A),
    B(B),
    C(C),
    D(D),
    E(E),
    F(F),
    G(G),
    H(H),
    I(I),
    J(J),
    K(K),
    L(L),
    M(M),
    N(N),
    O(O),
    P(P),
}

impl<A, B, C, D, E, F, G, H, I, J, K, L, M, N, O, P> Cell16<A, B, C, D, E, F, G, H, I, J, K, L, M, N, O, P> {
    /// Returns true if the cell holds the `A` variant
    pub fn is_a(&self) -> (r: bool)
        ensures
            r == (*self is A),
    {
        match self {
            Self::A(_) => true,
            _ => false,
        }
    }

    /// Returns a reference to the `A` value, if the cell holds one
    pub fn as_a(&self) -> (r: Option<&A>)
        ensures
            match r {
                Some(x) => *self == Self::A(*x),
                None => !(*self is A),
            },
    {
        match self {
            Self::A(x) => Some(x),
            _ => None,
        }
    }

    /// Returns a mutable reference to the `A` value, if the cell holds one
    pub fn as_mut_a(&mut self) -> (r: Option<&mut A>)
        ensures
            match r {
                Some(x) => {
                    &&& *old(self) == Self::A(*x)
                    &&& *final(self) == Self::A(*final(x))
                },
                None => {
                    &&& !(*old(self) is A)
                    &&& *final(self) == *old(self)
                },
            },
    {
        match self {
            Self::A(x) => Some(x),
            _ => None,
        }
    }

    /// Returns the `A` value, if the cell holds one
    pub fn into_a(self) -> (r: Option<A>)
        ensures
            match r {
                Some(x) => self == Self::A(x),
                None => !(self is A),
            },
    {
        match self {
            Self::A(x) => Some(x),
            _ => None,
        }
    }

    /// Returns true if the cell holds the `B` variant
    pub fn is_b(&self) -> (r: bool)
        ensures
            r == (*self is B),
    {
        match self {
            Self::B(_) => true,
            _ => false,
        }
    }

    /// Returns a reference to the `B` value, if the cell holds one
    pub fn as_b(&self) -> (r: Option<&B>)
        ensures
            match r {
                Some(x) => *self == Self::B(*x),
                None => !(*self is B),
            },
    {
        match self {
            Self::B(x) => Some(x),
            _ => None,
        }
    }

    /// Returns a mutable reference to the `B` value, if the cell holds one
    pub fn as_mut_b(&mut self) -> (r: Option<&mut B>)
        ensures
            match r {
                Some(x) => {
                    &&& *old(self) == Self::B(*x)
                    &&& *final(self) == Self::B(*final(x))
                },
                None => {
                    &&& !(*old(self) is B)
                    &&& *final(self) == *old(self)
                },
            },
    {
        match self {
            Self::B(x) => Some(x),
            _ => None,
        }
    }

    /// Returns the `B` value, if the cell holds one
    pub fn into_b(self) -> (r: Option<B>)
        ensures
            match r {
                Some(x) => self == Self::B(x),
                None => !(self is B),
            },
    {
        match self {
            Self::B(x) => Some(x),
            _ => None,
        }
    }

    /// Returns true if the cell holds the `C` variant
    pub fn is_c(&self) -> (r: bool)
        ensures
            r == (*self is C),
    {
        match self {
            Self::C(_) => true,
            _ => false,
        }
    }

    /// Returns a reference to the `C` value, if the cell holds one
    pub fn as_c(&self) -> (r: Option<&C>)
        ensures
            match r {
                Some(x) => *self == Self::C(*x),
                None => !(*self is C),
            },
    {
        match self {
            Self::C(x) => Some(x),
            _ => None,
        }
    }

    /// Returns a mutable reference to the `C` value, if the cell holds one
    pub fn as_mut_c(&mut self) -> (r: Option<&mut C>)
        ensures
            match r {
                Some(x) => {
                    &&& *old(self) == Self::C(*x)
                    &&& *final(self) == Self::C(*final(x))
                },
                None => {
                    &&& !(*old(self) is C)
                    &&& *final(self) == *old(self)
                },
            },
    {
        match self {
            Self::C(x) => Some(x),
            _ => None,
        }
    }

    /// Returns the `C` value, if the cell holds one
    pub fn into_c(self) -> (r: Option<C>)
        ensures
            match r {
                Some(x) => self == Self::C(x),
                None => !(self is C),
            },
    {
        match self {
            Self::C(x) => Some(x),
            _ => None,
        }
    }

    /// Returns true if the cell holds the `D` variant
    pub fn is_d(&self) -> (r: bool)
        ensures
            r == (*self is D),
    {
        match self {
            Self::D(_) => true,
            _ => false,
        }
    }

    /// Returns a reference to the `D` value, if the cell holds one
    pub fn as_d(&self) -> (r: Option<&D>)
        ensures
            match r {
                Some(x) => *self == Self::D(*x),
                None => !(*self is D),
            },
    {
        match self {
            Self::D(x) => Some(x),
            _ => None,
        }
    }

    /// Returns a mutable reference to the `D` value, if the cell holds one
    pub fn as_mut_d(&mut self) -> (r: Option<&mut D>)
        ensures
            match r {
                Some(x) => {
                    &&& *old(self) == Self::D(*x)
                    &&& *final(self) == Self::D(*final(x))
                },
                None => {
                    &&& !(*old(self) is D)
                    &&& *final(self) == *old(self)
                },
            },
    {
        match self {
            Self::D(x) => Some(x),
            _ => None,
        }
    }

    /// Returns the `D` value, if the cell holds one
    pub fn into_d(self) -> (r: Option<D>)
        ensures
            match r {
                Some(x) => self == Self::D(x),
                None => !(self is D),
            },
    {
        match self {
            Self::D(x) => Some(x),
            _ => None,
        }
    }

    /// Returns true if the cell holds the `E` variant
    pub fn is_e(&self) -> (r: bool)
        ensures
            r == (*self is E),
    {
        match self {
            Self::E(_) => true,
            _ => false,
        }
    }

    /// Returns a reference to the `E` value, if the cell holds one
    pub fn as_e(&self) -> (r: Option<&E>)
        ensures
            match r {
                Some(x) => *self == Self::E(*x),
                None => !(*self is E),
            },
    {
        match self {
            Self::E(x) => Some(x),
            _ => None,
        }
    }

    /// Returns a mutable reference to the `E` value, if the cell holds one
    pub fn as_mut_e(&mut self) -> (r: Option<&mut E>)
        ensures
            match r {
                Some(x) => {
                    &&& *old(self) == Self::E(*x)
                    &&& *final(self) == Self::E(*final(x))
                },
                None => {
                    &&& !(*old(self) is E)
                    &&& *final(self) == *old(self)
                },
            },
    {
        match self {
            Self::E(x) => Some(x),
            _ => None,
        }
    }

    /// Returns the `E` value, if the cell holds one
    pub fn into_e(self) -> (r: Option<E>)
        ensures
            match r {
                Some(x) => self == Self::E(x),
                None => !(self is E),
            },
    {
        match self {
            Self::E(x) => Some(x),
            _ => None,
        }
    }

    /// Returns true if the cell holds the `F` variant
    pub fn is_f(&self) -> (r: bool)
        ensures
            r == (*self is F),
    {
        match self {
            Self::F(_) => true,
            _ => false,
        }
    }

    /// Returns a reference to the `F` value, if the cell holds one
    pub fn as_f(&self) -> (r: Option<&F>)
        ensures
            match r {
                Some(x) => *self == Self::F(*x),
                None => !(*self is F),
            },
    {
        match self {
            Self::F(x) => Some(x),
            _ => None,
        }
    }

    /// Returns a mutable reference to the `F` value, if the cell holds one
    pub fn as_mut_f(&mut self) -> (r: Option<&mut F>)
        ensures
            match r {
                Some(x) => {
                    &&& *old(self) == Self::F(*x)
                    &&& *final(self) == Self::F(*final(x))
                },
                None => {
                    &&& !(*old(self) is F)
                    &&& *final(self) == *old(self)
                },
            },
    {
        match self {
            Self::F(x) => Some(x),
            _ => None,
        }
    }

    /// Returns the `F` value, if the cell holds one
    pub fn into_f(self) -> (r: Option<F>)
        ensures
            match r {
                Some(x) => self == Self::F(x),
                None => !(self is F),
            },
    {
        match self {
            Self::F(x) => Some(x),
            _ => None,
        }
    }

    /// Returns true if the cell holds the `G` variant
    pub fn is_g(&self) -> (r: bool)
        ensures
            r == (*self is G),
    {
        match self {
            Self::G(_) => true,
            _ => false,
        }
    }

    /// Returns a reference to the `G` value, if the cell holds one
    pub fn as_g(&self) -> (r: Option<&G>)
        ensures
            match r {
                Some(x) => *self == Self::G(*x),
                None => !(*self is G),
            },
    {
        match self {
            Self::G(x) => Some(x),
            _ => None,
        }
    }

    /// Returns a mutable reference to the `G` value, if the cell holds one
    pub fn as_mut_g(&mut self) -> (r: Option<&mut G>)
        ensures
            match r {
                Some(x) => {
                    &&& *old(self) == Self::G(*x)
                    &&& *final(self) == Self::G(*final(x))
                },
                None => {
                    &&& !(*old(self) is G)
                    &&& *final(self) == *old(self)
                },
            },
    {
        match self {
            Self::G(x) => Some(x),
            _ => None,
        }
    }

    /// Returns the `G` value, if the cell holds one
    pub fn into_g(self) -> (r: Option<G>)
        ensures
            match r {
                Some(x) => self == Self::G(x),
                None => !(self is G),
            },
    {
        match self {
            Self::G(x) => Some(x),
            _ => None,
        }
    }

    /// Returns true if the cell holds the `H` variant
    pub fn is_h(&self) -> (r: bool)
        ensures
            r == (*self is H),
    {
        match self {
            Self::H(_) => true,
            _ => false,
        }
    }

    /// Returns a reference to the `H` value, if the cell holds one
    pub fn as_h(&self) -> (r: Option<&H>)
        ensures
            match r {
                Some(x) => *self == Self::H(*x),
                None => !(*self is H),
            },
    {
        match self {
            Self::H(x) => Some(x),
            _ => None,
        }
    }

    /// Returns a mutable reference to the `H` value, if the cell holds one
    pub fn as_mut_h(&mut self) -> (r: Option<&mut H>)
        ensures
            match r {
                Some(x) => {
                    &&& *old(self) == Self::H(*x)
                    &&& *final(self) == Self::H(*final(x))
                },
                None => {
                    &&& !(*old(self) is H)
                    &&& *final(self) == *old(self)
                },
            },
    {
        match self {
            Self::H(x) => Some(x),
            _ => None,
        }
    }

    /// Returns the `H` value, if the cell holds one
    pub fn into_h(self) -> (r: Option<H>)
        ensures
            match r {
                Some(x) => self == Self::H(x),
                None => !(self is H),
            },
    {
        match self {
            Self::H(x) => Some(x),
            _ => None,
        }
    }

    /// Returns true if the cell holds the `I` variant
    pub fn is_i(&self) -> (r: bool)
        ensures
            r == (*self is I),
    {
        match self {
            Self::I(_) => true,
            _ => false,
        }
    }

    /// Returns a reference to the `I` value, if the cell holds one
    pub fn as_i(&self) -> (r: Option<&I>)
        ensures
            match r {
                Some(x) => *self == Self::I(*x),
                None => !(*self is I),
            },
    {
        match self {
            Self::I(x) => Some(x),
            _ => None,
        }
    }

    /// Returns a mutable reference to the `I` value, if the cell holds one
    pub fn as_mut_i(&mut self) -> (r: Option<&mut I>)
        ensures
            match r {
                Some(x) => {
                    &&& *old(self) == Self::I(*x)
                    &&& *final(self) == Self::I(*final(x))
                },
                None => {
                    &&& !(*old(self) is I)
                    &&& *final(self) == *old(self)
                },
            },
    {
        match self {
            Self::I(x) => Some(x),
            _ => None,
        }
    }

    /// Returns the `I` value, if the cell holds one
    pub fn into_i(self) -> (r: Option<I>)
        ensures
            match r {
                Some(x) => self == Self::I(x),
                None => !(self is I),
            },
    {
        match self {
            Self::I(x) => Some(x),
            _ => None,
        }
    }

    /// Returns true if the cell holds the `J` variant
    pub fn is_j(&self) -> (r: bool)
        ensures
            r == (*self is J),
    {
        match self {
            Self::J(_) => true,
            _ => false,
        }
    }

    /// Returns a reference to the `J` value, if the cell holds one
    pub fn as_j(&self) -> (r: Option<&J>)
        ensures
            match r {
                Some(x) => *self == Self::J(*x),
                None => !(*self is J),
            },
    {
        match self {
            Self::J(x) => Some(x),
            _ => None,
        }
    }

    /// Returns a mutable reference to the `J` value, if the cell holds one
    pub fn as_mut_j(&mut self) -> (r: Option<&mut J>)
        ensures
            match r {
                Some(x) => {
                    &&& *old(self) == Self::J(*x)
                    &&& *final(self) == Self::J(*final(x))
                },
                None => {
                    &&& !(*old(self) is J)
                    &&& *final(self) == *old(self)
                },
            },
    {
        match self {
            Self::J(x) => Some(x),
            _ => None,
        }
    }

    /// Returns the `J` value, if the cell holds one
    pub fn into_j(self) -> (r: Option<J>)
        ensures
            match r {
                Some(x) => self == Self::J(x),
                None => !(self is J),
            },
    {
        match self {
            Self::J(x) => Some(x),
            _ => None,
        }
    }

    /// Returns true if the cell holds the `K` variant
    pub fn is_k(&self) -> (r: bool)
        ensures
            r == (*self is K),
    {
        match self {
            Self::K(_) => true,
            _ => false,
        }
    }

    /// Returns a reference to the `K` value, if the cell holds one
    pub fn as_k(&self) -> (r: Option<&K>)
        ensures
            match r {
                Some(x) => *self == Self::K(*x),
                None => !(*self is K),
            },
    {
        match self {
            Self::K(x) => Some(x),
            _ => None,
        }
    }

    /// Returns a mutable reference to the `K` value, if the cell holds one
    pub fn as_mut_k(&mut self) -> (r: Option<&mut K>)
        ensures
            match r {
                Some(x) => {
                    &&& *old(self) == Self::K(*x)
                    &&& *final(self) == Self::K(*final(x))
                },
                None => {
                    &&& !(*old(self) is K)
                    &&& *final(self) == *old(self)
                },
            },
    {
        match self {
            Self::K(x) => Some(x),
            _ => None,
        }
    }

    /// Returns the `K` value, if the cell holds one
    pub fn into_k(self) -> (r: Option<K>)
        ensures
            match r {
                Some(x) => self == Self::K(x),
                None => !(self is K),
            },
    {
        match self {
            Self::K(x) => Some(x),
            _ => None,
        }
    }

    /// Returns true if the cell holds the `L` variant
    pub fn is_l(&self) -> (r: bool)
        ensures
            r == (*self is L),
    {
        match self {
            Self::L(_) => true,
            _ => false,
        }
    }

    /// Returns a reference to the `L` value, if the cell holds one
    pub fn as_l(&self) -> (r: Option<&L>)
        ensures
            match r {
                Some(x) => *self == Self::L(*x),
                None => !(*self is L),
            },
    {
        match self {
            Self::L(x) => Some(x),
            _ => None,
        }
    }

    /// Returns a mutable reference to the `L` value, if the cell holds one
    pub fn as_mut_l(&mut self) -> (r: Option<&mut L>)
        ensures
            match r {
                Some(x) => {
                    &&& *old(self) == Self::L(*x)
                    &&& *final(self) == Self::L(*final(x))
                },
                None => {
                    &&& !(*old(self) is L)
                    &&& *final(self) == *old(self)
                },
            },
    {
        match self {
            Self::L(x) => Some(x),
            _ => None,
        }
    }

    /// Returns the `L` value, if the cell holds one
    pub fn into_l(self) -> (r: Option<L>)
        ensures
            match r {
                Some(x) => self == Self::L(x),
                None => !(self is L),
            },
    {
        match self {
            Self::L(x) => Some(x),
            _ => None,
        }
    }

    /// Returns true if the cell holds the `M` variant
    pub fn is_m(&self) -> (r: bool)
        ensures
            r == (*self is M),
    {
        match self {
            Self::M(_) => true,
            _ => false,
        }
    }

    /// Returns a reference to the `M` value, if the cell holds one
    pub fn as_m(&self) -> (r: Option<&M>)
        ensures
            match r {
                Some(x) => *self == Self::M(*x),
                None => !(*self is M),
            },
    {
        match self {
            Self::M(x) => Some(x),
            _ => None,
        }
    }

    /// Returns a mutable reference to the `M` value, if the cell holds one
    pub fn as_mut_m(&mut self) -> (r: Option<&mut M>)
        ensures
            match r {
                Some(x) => {
                    &&& *old(self) == Self::M(*x)
                    &&& *final(self) == Self::M(*final(x))
                },
                None => {
                    &&& !(*old(self) is M)
                    &&& *final(self) == *old(self)
                },
            },
    {
        match self {
            Self::M(x) => Some(x),
            _ => None,
        }
    }

    /// Returns the `M` value, if the cell holds one
    pub fn into_m(self) -> (r: Option<M>)
        ensures
            match r {
                Some(x) => self == Self::M(x),
                None => !(self is M),
            },
    {
        match self {
            Self::M(x) => Some(x),
            _ => None,
        }
    }

    /// Returns true if the cell holds the `N` variant
    pub fn is_n(&self) -> (r: bool)
        ensures
            r == (*self is N),
    {
        match self {
            Self::N(_) => true,
            _ => false,
        }
    }

    /// Returns a reference to the `N` value, if the cell holds one
    pub fn as_n(&self) -> (r: Option<&N>)
        ensures
            match r {
                Some(x) => *self == Self::N(*x),
                None => !(*self is N),
            },
    {
        match self {
            Self::N(x) => Some(x),
            _ => None,
        }
    }

    /// Returns a mutable reference to the `N` value, if the cell holds one
    pub fn as_mut_n(&mut self) -> (r: Option<&mut N>)
        ensures
            match r {
                Some(x) => {
                    &&& *old(self) == Self::N(*x)
                    &&& *final(self) == Self::N(*final(x))
                },
                None => {
                    &&& !(*old(self) is N)
                    &&& *final(self) == *old(self)
                },
            },
    {
        match self {
            Self::N(x) => Some(x),
            _ => None,
        }
    }

    /// Returns the `N` value, if the cell holds one
    pub fn into_n(self) -> (r: Option<N>)
        ensures
            match r {
                Some(x) => self == Self::N(x),
                None => !(self is N),
            },
    {
        match self {
            Self::N(x) => Some(x),
            _ => None,
        }
    }

    /// Returns true if the cell holds the `O` variant
    pub fn is_o(&self) -> (r: bool)
        ensures
            r == (*self is O),
    {
        match self {
            Self::O(_) => true,
            _ => false,
        }
    }

    /// Returns a reference to the `O` value, if the cell holds one
    pub fn as_o(&self) -> (r: Option<&O>)
        ensures
            match r {
                Some(x) => *self == Self::O(*x),
                None => !(*self is O),
            },
    {
        match self {
            Self::O(x) => Some(x),
            _ => None,
        }
    }

    /// Returns a mutable reference to the `O` value, if the cell holds one
    pub fn as_mut_o(&mut self) -> (r: Option<&mut O>)
        ensures
            match r {
                Some(x) => {
                    &&& *old(self) == Self::O(*x)
                    &&& *final(self) == Self::O(*final(x))
                },
                None => {
                    &&& !(*old(self) is O)
                    &&& *final(self) == *old(self)
                },
            },
    {
        match self {
            Self::O(x) => Some(x),
            _ => None,
        }
    }

    /// Returns the `O` value, if the cell holds one
    pub fn into_o(self) -> (r: Option<O>)
        ensures
            match r {
                Some(x) => self == Self::O(x),
                None => !(self is O),
            },
    {
        match self {
            Self::O(x) => Some(x),
            _ => None,
        }
    }

    /// Returns true if the cell holds the `P` variant
    pub fn is_p(&self) -> (r: bool)
        ensures
            r == (*self is P),
    {
        match self {
            Self::P(_) => true,
            _ => false,
        }
    }

    /// Returns a reference to the `P` value, if the cell holds one
    pub fn as_p(&self) -> (r: Option<&P>)
        ensures
            match r {
                Some(x) => *self == Self::P(*x),
                None => !(*self is P),
            },
    {
        match self {
            Self::P(x) => Some(x),
            _ => None,
        }
    }

    /// Returns a mutable reference to the `P` value, if the cell holds one
    pub fn as_mut_p(&mut self) -> (r: Option<&mut P>)
        ensures
            match r {
                Some(x) => {
                    &&& *old(self) == Self::P(*x)
                    &&& *final(self) == Self::P(*final(x))
                },
                None => {
                    &&& !(*old(self) is P)
                    &&& *final(self) == *old(self)
                },
            },
    {
        match self {
            Self::P(x) => Some(x),
            _ => None,
        }
    }

    /// Returns the `P` value, if the cell holds one
    pub fn into_p(self) -> (r: Option<P>)
        ensures
            match r {
                Some(x) => self == Self::P(x),
                None => !(self is P),
            },
    {
        match self {
            Self::P(x) => Some(x),
            _ => None,
        }
    }
}

/// A cell that holds a value of one of 17 types, one variant per type
#[derive(Copy, Clone, Debug, PartialEq, Eq, Hash, PartialOrd, Ord)]
pub enum Cell17<A, B, C, D, E, F, G, H, I, J, K, L, M, N, O, P, Q> {
    A(A),
    B(B),
    C(C),
    D(D),
    E(E),
    F(F),
    G(G),
    H(H),
    I(I),
    J(J),
    K(K),
    L(L),
    M(M),
    N(N),
    O(O),
    P(P),
    Q(Q),
}

impl<A, B, C, D, E, F, G, H, I, J, K, L, M, N, O, P, Q> Cell17<A, B, C, D, E, F, G, H, I, J, K, L, M, N, O, P, Q> {
    /// Returns true if the cell holds the `A` variant
    pub fn is_a(&self) -> (r: bool)
        ensures
            r == (*self is A),
    {
        match self {
            Self::A(_) => true,
            _ => false,
        }
    }

    /// Returns a reference to the `A` value, if the cell holds one
    pub fn as_a(&self) -> (r: Option<&A>)
        ensures
            match r {
                Some(x) => *self == Self::A(*x),
                None => !(*self is A),
            },
    {
        match self {
            Self::A(x) => Some(x),
            _ => None,
        }
    }

    /// Returns a mutable reference to the `A` value, if the cell holds one
    pub fn as_mut_a(&mut self) -> (r: Option<&mut A>)
        ensures
            match r {
                Some(x) => {
                    &&& *old(self) == Self::A(*x)
                    &&& *final(self) == Self::A(*final(x))
                },
                None => {
                    &&& !(*old(self) is A)
                    &&& *final(self) == *old(self)
                },
            },
    {
        match self {
            Self::A(x) => Some(x),
            _ => None,
        }
    }

    /// Returns the `A` value, if the cell holds one
    pub fn into_a(self) -> (r: Option<A>)
        ensures
            match r {
                Some(x) => self == Self::A(x),
                None => !(self is A),
            },
    {
        match self {
            Self::A(x) => Some(x),
            _ => None,
        }
    }

    /// Returns true if the cell holds the `B` variant
    pub fn is_b(&self) -> (r: bool)
        ensures
            r == (*self is B),
    {
        match self {
            Self::B(_) => true,
            _ => false,
        }
    }

    /// Returns a reference to the `B` value, if the cell holds one
    pub fn as_b(&self) -> (r: Option<&B>)
        ensures
            match r {
                Some(x) => *self == Self::B(*x),
                None => !(*self is B),
            },
    {
        match self {
            Self::B(x) => Some(x),
            _ => None,
        }
    }

    /// Returns a mutable reference to the `B` value, if the cell holds one
    pub fn as_mut_b(&mut self) -> (r: Option<&mut B>)
        ensures
            match r {
                Some(x) => {
                    &&& *old(self) == Self::B(*x)
                    &&& *final(self) == Self::B(*final(x))
                },
                None => {
                    &&& !(*old(self) is B)
                    &&& *final(self) == *old(self)
                },
            },
    {
        match self {
            Self::B(x) => Some(x),
            _ => None,
        }
    }

    /// Returns the `B` value, if the cell holds one
    pub fn into_b(self) -> (r: Option<B>)
        ensures
            match r {
                Some(x) => self == Self::B(x),
                None => !(self is B),
            },
    {
        match self {
            Self::B(x) => Some(x),
            _ => None,
        }
    }

    /// Returns true if the cell holds the `C` variant
    pub fn is_c(&self) -> (r: bool)
        ensures
            r == (*self is C),
    {
        match self {
            Self::C(_) => true,
            _ => false,
        }
    }

    /// Returns a reference to the `C` value, if the cell holds one
    pub fn as_c(&self) -> (r: Option<&C>)
        ensures
            match r {
                Some(x) => *self == Self::C(*x),
                None => !(*self is C),
            },
    {
        match self {
            Self::C(x) => Some(x),
            _ => None,
        }
    }

    /// Returns a mutable reference to the `C` value, if the cell holds one
    pub fn as_mut_c(&mut self) -> (r: Option<&mut C>)
        ensures
            match r {
                Some(x) => {
                    &&& *old(self) == Self::C(*x)
                    &&& *final(self) == Self::C(*final(x))
                },
                None => {
                    &&& !(*old(self) is C)
                    &&& *final(self) == *old(self)
                },
            },
    {
        match self {
            Self::C(x) => Some(x),
            _ => None,
        }
    }

    /// Returns the `C` value, if the cell holds one
    pub fn into_c(self) -> (r: Option<C>)
        ensures
            match r {
                Some(x) => self == Self::C(x),
                None => !(self is C),
            },
    {
        match self {
            Self::C(x) => Some(x),
            _ => None,
        }
    }

    /// Returns true if the cell holds the `D` variant
    pub fn is_d(&self) -> (r: bool)
        ensures
            r == (*self is D),
    {
        match self {
            Self::D(_) => true,
            _ => false,
        }
    }

    /// Returns a reference to the `D` value, if the cell holds one
    pub fn as_d(&self) -> (r: Option<&D>)
        ensures
            match r {
                Some(x) => *self == Self::D(*x),
                None => !(*self is D),
            },
    {
        match self {
            Self::D(x) => Some(x),
            _ => None,
        }
    }

    /// Returns a mutable reference to the `D` value, if the cell holds one
    pub fn as_mut_d(&mut self) -> (r: Option<&mut D>)
        ensures
            match r {
                Some(x) => {
                    &&& *old(self) == Self::D(*x)
                    &&& *final(self) == Self::D(*final(x))
                },
                None => {
                    &&& !(*old(self) is D)
                    &&& *final(self) == *old(self)
                },
            },
    {
        match self {
            Self::D(x) => Some(x),
            _ => None,
        }
    }

    /// Returns the `D` value, if the cell holds one
    pub fn into_d(self) -> (r: Option<D>)
        ensures
            match r {
                Some(x) => self == Self::D(x),
                None => !(self is D),
            },
    {
        match self {
            Self::D(x) => Some(x),
            _ => None,
        }
    }

    /// Returns true if the cell holds the `E` variant
    pub fn is_e(&self) -> (r: bool)
        ensures
            r == (*self is E),
    {
        match self {
            Self::E(_) => true,
            _ => false,
        }
    }

    /// Returns a reference to the `E` value, if the cell holds one
    pub fn as_e(&self) -> (r: Option<&E>)
        ensures
            match r {
                Some(x) => *self == Self::E(*x),
                None => !(*self is E),
            },
    {
        match self {
            Self::E(x) => Some(x),
            _ => None,
        }
    }

    /// Returns a mutable reference to the `E` value, if the cell holds one
    pub fn as_mut_e(&mut self) -> (r: Option<&mut E>)
        ensures
            match r {
                Some(x) => {
                    &&& *old(self) == Self::E(*x)
                    &&& *final(self) == Self::E(*final(x))
                },
                None => {
                    &&& !(*old(self) is E)
                    &&& *final(self) == *old(self)
                },
            },
    {
        match self {
            Self::E(x) => Some(x),
            _ => None,
        }
    }

    /// Returns the `E` value, if the cell holds one
    pub fn into_e(self) -> (r: Option<E>)
        ensures
            match r {
                Some(x) => self == Self::E(x),
                None => !(self is E),
            },
    {
        match self {
            Self::E(x) => Some(x),
            _ => None,
        }
    }

    /// Returns true if the cell holds the `F` variant
    pub fn is_f(&self) -> (r: bool)
        ensures
            r == (*self is F),
    {
        match self {
            Self::F(_) => true,
            _ => false,
        }
    }

    /// Returns a reference to the `F` value, if the cell holds one
    pub fn as_f(&self) -> (r: Option<&F>)
        ensures
            match r {
                Some(x) => *self == Self::F(*x),
                None => !(*self is F),
            },
    {
        match self {
            Self::F(x) => Some(x),
            _ => None,
        }
    }

    /// Returns a mutable reference to the `F` value, if the cell holds one
    pub fn as_mut_f(&mut self) -> (r: Option<&mut F>)
        ensures
            match r {
                Some(x) => {
                    &&& *old(self) == Self::F(*x)
                    &&& *final(self) == Self::F(*final(x))
                },
                None => {
                    &&& !(*old(self) is F)
                    &&& *final(self) == *old(self)
                },
            },
    {
        match self {
            Self::F(x) => Some(x),
            _ => None,
        }
    }

    /// Returns the `F` value, if the cell holds one
    pub fn into_f(self) -> (r: Option<F>)
        ensures
            match r {
                Some(x) => self == Self::F(x),
                None => !(self is F),
            },
    {
        match self {
            Self::F(x) => Some(x),
            _ => None,
        }
    }

    /// Returns true if the cell holds the `G` variant
    pub fn is_g(&self) -> (r: bool)
        ensures
            r == (*self is G),
    {
        match self {
            Self::G(_) => true,
            _ => false,
        }
    }

    /// Returns a reference to the `G` value, if the cell holds one
    pub fn as_g(&self) -> (r: Option<&G>)
        ensures
            match r {
                Some(x) => *self == Self::G(*x),
                None => !(*self is G),
            },
    {
        match self {
            Self::G(x) => Some(x),
            _ => None,
        }
    }

    /// Returns a mutable reference to the `G` value, if the cell holds one
    pub fn as_mut_g(&mut self) -> (r: Option<&mut G>)
        ensures
            match r {
                Some(x) => {
                    &&& *old(self) == Self::G(*x)
                    &&& *final(self) == Self::G(*final(x))
                },
                None => {
                    &&& !(*old(self) is G)
                    &&& *final(self) == *old(self)
                },
            },
    {
        match self {
            Self::G(x) => Some(x),
            _ => None,
        }
    }

    /// Returns the `G` value, if the cell holds one
    pub fn into_g(self) -> (r: Option<G>)
        ensures
            match r {
                Some(x) => self == Self::G(x),
                None => !(self is G),
            },
    {
        match self {
            Self::G(x) => Some(x),
            _ => None,
        }
    }

    /// Returns true if the cell holds the `H` variant
    pub fn is_h(&self) -> (r: bool)
        ensures
            r == (*self is H),
    {
        match self {
            Self::H(_) => true,
            _ => false,
        }
    }

    /// Returns a reference to the `H` value, if the cell holds one
    pub fn as_h(&self) -> (r: Option<&H>)
        ensures
            match r {
                Some(x) => *self == Self::H(*x),
                None => !(*self is H),
            },
    {
        match self {
            Self::H(x) => Some(x),
            _ => None,
        }
    }

    /// Returns a mutable reference to the `H` value, if the cell holds one
    pub fn as_mut_h(&mut self) -> (r: Option<&mut H>)
        ensures
            match r {
                Some(x) => {
                    &&& *old(self) == Self::H(*x)
                    &&& *final(self) == Self::H(*final(x))
                },
                None => {
                    &&& !(*old(self) is H)
                    &&& *final(self) == *old(self)
                },
            },
    {
        match self {
            Self::H(x) => Some(x),
            _ => None,
        }
    }

    /// Returns the `H` value, if the cell holds one
    pub fn into_h(self) -> (r: Option<H>)
        ensures
            match r {
                Some(x) => self == Self::H(x),
                None => !(self is H),
            },
    {
        match self {
            Self::H(x) => Some(x),
            _ => None,
        }
    }

    /// Returns true if the cell holds the `I` variant
    pub fn is_i(&self) -> (r: bool)
        ensures
            r == (*self is I),
    {
        match self {
            Self::I(_) => true,
            _ => false,
        }
    }

    /// Returns a reference to the `I` value, if the cell holds one
    pub fn as_i(&self) -> (r: Option<&I>)
        ensures
            match r {
                Some(x) => *self == Self::I(*x),
                None => !(*self is I),
            },
    {
        match self {
            Self::I(x) => Some(x),
            _ => None,
        }
    }

    /// Returns a mutable reference to the `I` value, if the cell holds one
    pub fn as_mut_i(&mut self) -> (r: Option<&mut I>)
        ensures
            match r {
                Some(x) => {
                    &&& *old(self) == Self::I(*x)
                    &&& *final(self) == Self::I(*final(x))
                },
                None => {
                    &&& !(*old(self) is I)
                    &&& *final(self) == *old(self)
                },
            },
    {
        match self {
            Self::I(x) => Some(x),
            _ => None,
        }
    }

    /// Returns the `I` value, if the cell holds one
    pub fn into_i(self) -> (r: Option<I>)
        ensures
            match r {
                Some(x) => self == Self::I(x),
                None => !(self is I),
            },
    {
        match self {
            Self::I(x) => Some(x),
            _ => None,
        }
    }

    /// Returns true if the cell holds the `J` variant
    pub fn is_j(&self) -> (r: bool)
        ensures
            r == (*self is J),
    {
        match self {
            Self::J(_) => true,
            _ => false,
        }
    }

    /// Returns a reference to the `J` value, if the cell holds one
    pub fn as_j(&self) -> (r: Option<&J>)
        ensures
            match r {
                Some(x) => *self == Self::J(*x),
                None => !(*self is J),
            },
    {
        match self {
            Self::J(x) => Some(x),
            _ => None,
        }
    }

    /// Returns a mutable reference to the `J` value, if the cell holds one
    pub fn as_mut_j(&mut self) -> (r: Option<&mut J>)
        ensures
            match r {
                Some(x) => {
                    &&& *old(self) == Self::J(*x)
                    &&& *final(self) == Self::J(*final(x))
                },
                None => {
                    &&& !(*old(self) is J)
                    &&& *final(self) == *old(self)
                },
            },
    {
        match self {
            Self::J(x) => Some(x),
            _ => None,
        }
    }

    /// Returns the `J` value, if the cell holds one
    pub fn into_j(self) -> (r: Option<J>)
        ensures
            match r {
                Some(x) => self == Self::J(x),
                None => !(self is J),
            },
    {
        match self {
            Self::J(x) => Some(x),
            _ => None,
        }
    }

    /// Returns true if the cell holds the `K` variant
    pub fn is_k(&self) -> (r: bool)
        ensures
            r == (*self is K),
    {
        match self {
            Self::K(_) => true,
            _ => false,
        }
    }

    /// Returns a reference to the `K` value, if the cell holds one
    pub fn as_k(&self) -> (r: Option<&K>)
        ensures
            match r {
                Some(x) => *self == Self::K(*x),
                None => !(*self is K),
            },
    {
        match self {
            Self::K(x) => Some(x),
            _ => None,
        }
    }

    /// Returns a mutable reference to the `K` value, if the cell holds one
    pub fn as_mut_k(&mut self) -> (r: Option<&mut K>)
        ensures
            match r {
                Some(x) => {
                    &&& *old(self) == Self::K(*x)
                    &&& *final(self) == Self::K(*final(x))
                },
                None => {
                    &&& !(*old(self) is K)
                    &&& *final(self) == *old(self)
                },
            },
    {
        match self {
            Self::K(x) => Some(x),
            _ => None,
        }
    }

    /// Returns the `K` value, if the cell holds one
    pub fn into_k(self) -> (r: Option<K>)
        ensures
            match r {
                Some(x) => self == Self::K(x),
                None => !(self is K),
            },
    {
        match self {
            Self::K(x) => Some(x),
            _ => None,
        }
    }

    /// Returns true if the cell holds the `L` variant
    pub fn is_l(&self) -> (r: bool)
        ensures
            r == (*self is L),
    {
        match self {
            Self::L(_) => true,
            _ => false,
        }
    }

    /// Returns a reference to the `L` value, if the cell holds one
    pub fn as_l(&self) -> (r: Option<&L>)
        ensures
            match r {
                Some(x) => *self == Self::L(*x),
                None => !(*self is L),
            },
    {
        match self {
            Self::L(x) => Some(x),
            _ => None,
        }
    }

    /// Returns a mutable reference to the `L` value, if the cell holds one
    pub fn as_mut_l(&mut self) -> (r: Option<&mut L>)
        ensures
            match r {
                Some(x) => {
                    &&& *old(self) == Self::L(*x)
                    &&& *final(self) == Self::L(*final(x))
                },
                None => {
                    &&& !(*old(self) is L)
                    &&& *final(self) == *old(self)
                },
            },
    {
        match self {
            Self::L(x) => Some(x),
            _ => None,
        }
    }

    /// Returns the `L` value, if the cell holds one
    pub fn into_l(self) -> (r: Option<L>)
        ensures
            match r {
                Some(x) => self == Self::L(x),
                None => !(self is L),
            },
    {
        match self {
            Self::L(x) => Some(x),
            _ => None,
        }
    }

    /// Returns true if the cell holds the `M` variant
    pub fn is_m(&self) -> (r: bool)
        ensures
            r == (*self is M),
    {
        match self {
            Self::M(_) => true,
            _ => false,
        }
    }

    /// Returns a reference to the `M` value, if the cell holds one
    pub fn as_m(&self) -> (r: Option<&M>)
        ensures
            match r {
                Some(x) => *self == Self::M(*x),
                None => !(*self is M),
            },
    {
        match self {
            Self::M(x) => Some(x),
            _ => None,
        }
    }

    /// Returns a mutable reference to the `M` value, if the cell holds one
    pub fn as_mut_m(&mut self) -> (r: Option<&mut M>)
        ensures
            match r {
                Some(x) => {
                    &&& *old(self) == Self::M(*x)
                    &&& *final(self) == Self::M(*final(x))
                },
                None => {
                    &&& !(*old(self) is M)
                    &&& *final(self) == *old(self)
                },
            },
    {
        match self {
            Self::M(x) => Some(x),
            _ => None,
        }
    }

    /// Returns the `M` value, if the cell holds one
    pub fn into_m(self) -> (r: Option<M>)
        ensures
            match r {
                Some(x) => self == Self::M(x),
                None => !(self is M),
            },
    {
        match self {
            Self::M(x) => Some(x),
            _ => None,
        }
    }

    /// Returns true if the cell holds the `N` variant
    pub fn is_n(&self) -> (r: bool)
        ensures
            r == (*self is N),
    {
        match self {
            Self::N(_) => true,
            _ => false,
        }
    }

    /// Returns a reference to the `N` value, if the cell holds one
    pub fn as_n(&self) -> (r: Option<&N>)
        ensures
            match r {
                Some(x) => *self == Self::N(*x),
                None => !(*self is N),
            },
    {
        match self {
            Self::N(x) => Some(x),
            _ => None,
        }
    }

    /// Returns a mutable reference to the `N` value, if the cell holds one
    pub fn as_mut_n(&mut self) -> (r: Option<&mut N>)
        ensures
            match r {
                Some(x) => {
                    &&& *old(self) == Self::N(*x)
                    &&& *final(self) == Self::N(*final(x))
                },
                None => {
                    &&& !(*old(self) is N)
                    &&& *final(self) == *old(self)
                },
            },
    {
        match self {
            Self::N(x) => Some(x),
            _ => None,
        }
    }

    /// Returns the `N` value, if the cell holds one
    pub fn into_n(self) -> (r: Option<N>)
        ensures
            match r {
                Some(x) => self == Self::N(x),
                None => !(self is N),
            },
    {
        match self {
            Self::N(x) => Some(x),
            _ => None,
        }
    }

    /// Returns true if the cell holds the `O` variant
    pub fn is_o(&self) -> (r: bool)
        ensures
            r == (*self is O),
    {
        match self {
            Self::O(_) => true,
            _ => false,
        }
    }

    /// Returns a reference to the `O` value, if the cell holds one
    pub fn as_o(&self) -> (r: Option<&O>)
        ensures
            match r {
                Some(x) => *self == Self::O(*x),
                None => !(*self is O),
            },
    {
        match self {
            Self::O(x) => Some(x),
            _ => None,
        }
    }

    /// Returns a mutable reference to the `O` value, if the cell holds one
    pub fn as_mut_o(&mut self) -> (r: Option<&mut O>)
        ensures
            match r {
                Some(x) => {
                    &&& *old(self) == Self::O(*x)
                    &&& *final(self) == Self::O(*final(x))
                },
                None => {
                    &&& !(*old(self) is O)
                    &&& *final(self) == *old(self)
                },
            },
    {
        match self {
            Self::O(x) => Some(x),
            _ => None,
        }
    }

    /// Returns the `O` value, if the cell holds one
    pub fn into_o(self) -> (r: Option<O>)
        ensures
            match r {
                Some(x) => self == Self::O(x),
                None => !(self is O),
            },
    {
        match self {
            Self::O(x) => Some(x),
            _ => None,
        }
    }

    /// Returns true if the cell holds the `P` variant
    pub fn is_p(&self) -> (r: bool)
        ensures
            r == (*self is P),
    {
        match self {
            Self::P(_) => true,
            _ => false,
        }
    }

    /// Returns a reference to the `P` value, if the cell holds one
    pub fn as_p(&self) -> (r: Option<&P>)
        ensures
            match r {
                Some(x) => *self == Self::P(*x),
                None => !(*self is P),
            },
    {
        match self {
            Self::P(x) => Some(x),
            _ => None,
        }
    }

    /// Returns a mutable reference to the `P` value, if the cell holds one
    pub fn as_mut_p(&mut self) -> (r: Option<&mut P>)
        ensures
            match r {
                Some(x) => {
                    &&& *old(self) == Self::P(*x)
                    &&& *final(self) == Self::P(*final(x))
                },
                None => {
                    &&& !(*old(self) is P)
                    &&& *final(self) == *old(self)
                },
            },
    {
        match self {
            Self::P(x) => Some(x),
            _ => None,
        }
    }

    /// Returns the `P` value, if the cell holds one
    pub fn into_p(self) -> (r: Option<P>)
        ensures
            match r {
                Some(x) => self == Self::P(x),
                None => !(self is P),
            },
    {
        match self {
            Self::P(x) => Some(x),
            _ => None,
        }
    }

    /// Returns true if the cell holds the `Q` variant
    pub fn is_q(&self) -> (r: bool)
        ensures
            r == (*self is Q),
    {
        match self {
            Self::Q(_) => true,
            _ => false,
        }
    }

    /// Returns a reference to the `Q` value, if the cell holds one
    pub fn as_q(&self) -> (r: Option<&Q>)
        ensures
            match r {
                Some(x) => *self == Self::Q(*x),
                None => !(*self is Q),
            },
    {
        match self {
            Self::Q(x) => Some(x),
            _ => None,
        }
    }

    /// Returns a mutable reference to the `Q` value, if the cell holds one
    pub fn as_mut_q(&mut self) -> (r: Option<&mut Q>)
        ensures
            match r {
                Some(x) => {
                    &&& *old(self) == Self::Q(*x)
                    &&& *final(self) == Self::Q(*final(x))
                },
                None => {
                    &&& !(*old(self) is Q)
                    &&& *final(self) == *old(self)
                },
            },
    {
        match self {
            Self::Q(x) => Some(x),
            _ => None,
        }
    }

    /// Returns the `Q` value, if the cell holds one
    pub fn into_q(self) -> (r: Option<Q>)
        ensures
            match r {
                Some(x) => self == Self::Q(x),
                None => !(self is Q),
            },
    {
        match self {
            Self::Q(x) => Some(x),
            _ => None,
        }
    }
}

/// A cell that holds a value of one of 18 types, one variant per type
#[derive(Copy, Clone, Debug, PartialEq, Eq, Hash, PartialOrd, Ord)]
pub enum Cell18<A, B, C, D, E, F, G, H, I, J, K, L, M, N, O, P, Q, R> {
    A(A),
    B(B),
    C(C),
    D(D),
    E(E),
    F(F),
    G(G),
    H(H),
    I(I),
    J(J),
    K(K),
    L(L),
    M(M),
    N(N),
    O(O),
    P(P),
    Q(Q),
    R(R),
}

impl<A, B, C, D, E, F, G, H, I, J, K, L, M, N, O, P, Q, R> Cell18<A, B, C, D, E, F, G, H, I, J, K, L, M, N, O, P, Q, R> {
    /// Returns true if the cell holds the `A` variant
    pub fn is_a(&self) -> (r: bool)
        ensures
            r == (*self is A),
    {
        match self {
            Self::A(_) => true,
            _ => false,
        }
    }

    /// Returns a reference to the `A` value, if the cell holds one
    pub fn as_a(&self) -> (r: Option<&A>)
        ensures
            match r {
                Some(x) => *self == Self::A(*x),
                None => !(*self is A),
            },
    {
        match self {
            Self::A(x) => Some(x),
            _ => None,
        }
    }

    /// Returns a mutable reference to the `A` value, if the cell holds one
    pub fn as_mut_a(&mut self) -> (r: Option<&mut A>)
        ensures
            match r {
                Some(x) => {
                    &&& *old(self) == Self::A(*x)
                    &&& *final(self) == Self::A(*final(x))
                },
                None => {
                    &&& !(*old(self) is A)
                    &&& *final(self) == *old(self)
                },
            },
    {
        match self {
            Self::A(x) => Some(x),
            _ => None,
        }
    }

    /// Returns the `A` value, if the cell holds one
    pub fn into_a(self) -> (r: Option<A>)
        ensures
            match r {
                Some(x) => self == Self::A(x),
                None => !(self is A),
            },
    {
        match self {
            Self::A(x) => Some(x),
            _ => None,
        }
    }

    /// Returns true if the cell holds the `B` variant
    pub fn is_b(&self) -> (r: bool)
        ensures
            r == (*self is B),
    {
        match self {
            Self::B(_) => true,
            _ => false,
        }
    }

    /// Returns a reference to the `B` value, if the cell holds one
    pub fn as_b(&self) -> (r: Option<&B>)
        ensures
            match r {
                Some(x) => *self == Self::B(*x),
                None => !(*self is B),
            },
    {
        match self {
            Self::B(x) => Some(x),
            _ => None,
        }
    }

    /// Returns a mutable reference to the `B` value, if the cell holds one
    pub fn as_mut_b(&mut self) -> (r: Option<&mut B>)
        ensures
            match r {
                Some(x) => {
                    &&& *old(self) == Self::B(*x)
                    &&& *final(self) == Self::B(*final(x))
                },
                None => {
                    &&& !(*old(self) is B)
                    &&& *final(self) == *old(self)
                },
            },
    {
        match self {
            Self::B(x) => Some(x),
            _ => None,
        }
    }

    /// Returns the `B` value, if the cell holds one
    pub fn into_b(self) -> (r: Option<B>)
        ensures
            match r {
                Some(x) => self == Self::B(x),
                None => !(self is B),
            },
    {
        match self {
            Self::B(x) => Some(x),
            _ => None,
        }
    }

    /// Returns true if the cell holds the `C` variant
    pub fn is_c(&self) -> (r: bool)
        ensures
            r == (*self is C),
    {
        match self {
            Self::C(_) => true,
            _ => false,
        }
    }

    /// Returns a reference to the `C` value, if the cell holds one
    pub fn as_c(&self) -> (r: Option<&C>)
        ensures
            match r {
                Some(x) => *self == Self::C(*x),
                None => !(*self is C),
            },
    {
        match self {
            Self::C(x) => Some(x),
            _ => None,
        }
    }

    /// Returns a mutable reference to the `C` value, if the cell holds one
    pub fn as_mut_c(&mut self) -> (r: Option<&mut C>)
        ensures
            match r {
                Some(x) => {
                    &&& *old(self) == Self::C(*x)
                    &&& *final(self) == Self::C(*final(x))
                },
                None => {
                    &&& !(*old(self) is C)
                    &&& *final(self) == *old(self)
                },
            },
    {
        match self {
            Self::C(x) => Some(x),
            _ => None,
        }
    }

    /// Returns the `C` value, if the cell holds one
    pub fn into_c(self) -> (r: Option<C>)
        ensures
            match r {
                Some(x) => self == Self::C(x),
                None => !(self is C),
            },
    {
        match self {
            Self::C(x) => Some(x),
            _ => None,
        }
    }

    /// Returns true if the cell holds the `D` variant
    pub fn is_d(&self) -> (r: bool)
        ensures
            r == (*self is D),
    {
        match self {
            Self::D(_) => true,
            _ => false,
        }
    }

    /// Returns a reference to the `D` value, if the cell holds one
    pub fn as_d(&self) -> (r: Option<&D>)
        ensures
            match r {
                Some(x) => *self == Self::D(*x),
                None => !(*self is D),
            },
    {
        match self {
            Self::D(x) => Some(x),
            _ => None,
        }
    }

    /// Returns a mutable reference to the `D` value, if the cell holds one
    pub fn as_mut_d(&mut self) -> (r: Option<&mut D>)
        ensures
            match r {
                Some(x) => {
                    &&& *old(self) == Self::D(*x)
                    &&& *final(self) == Self::D(*final(x))
                },
                None => {
                    &&& !(*old(self) is D)
                    &&& *final(self) == *old(self)
                },
            },
    {
        match self {
            Self::D(x) => Some(x),
            _ => None,
        }
    }

    /// Returns the `D` value, if the cell holds one
    pub fn into_d(self) -> (r: Option<D>)
        ensures
            match r {
                Some(x) => self == Self::D(x),
                None => !(self is D),
            },
    {
        match self {
            Self::D(x) => Some(x),
            _ => None,
        }
    }

    /// Returns true if the cell holds the `E` variant
    pub fn is_e(&self) -> (r: bool)
        ensures
            r == (*self is E),
    {
        match self {
            Self::E(_) => true,
            _ => false,
        }
    }

    /// Returns a reference to the `E` value, if the cell holds one
    pub fn as_e(&self) -> (r: Option<&E>)
        ensures
            match r {
                Some(x) => *self == Self::E(*x),
                None => !(*self is E),
            },
    {
        match self {
            Self::E(x) => Some(x),
            _ => None,
        }
    }

    /// Returns a mutable reference to the `E` value, if the cell holds one
    pub fn as_mut_e(&mut self) -> (r: Option<&mut E>)
        ensures
            match r {
                Some(x) => {
                    &&& *old(self) == Self::E(*x)
                    &&& *final(self) == Self::E(*final(x))
                },
                None => {
                    &&& !(*old(self) is E)
                    &&& *final(self) == *old(self)
                },
            },
    {
        match self {
            Self::E(x) => Some(x),
            _ => None,
        }
    }

    /// Returns the `E` value, if the cell holds one
    pub fn into_e(self) -> (r: Option<E>)
        ensures
            match r {
                Some(x) => self == Self::E(x),
                None => !(self is E),
            },
    {
        match self {
            Self::E(x) => Some(x),
            _ => None,
        }
    }

    /// Returns true if the cell holds the `F` variant
    pub fn is_f(&self) -> (r: bool)
        ensures
            r == (*self is F),
    {
        match self {
            Self::F(_) => true,
            _ => false,
        }
    }

    /// Returns a reference to the `F` value, if the cell holds one
    pub fn as_f(&self) -> (r: Option<&F>)
        ensures
            match r {
                Some(x) => *self == Self::F(*x),
                None => !(*self is F),
            },
    {
        match self {
            Self::F(x) => Some(x),
            _ => None,
        }
    }

    /// Returns a mutable reference to the `F` value, if the cell holds one
    pub fn as_mut_f(&mut self) -> (r: Option<&mut F>)
        ensures
            match r {
                Some(x) => {
                    &&& *old(self) == Self::F(*x)
                    &&& *final(self) == Self::F(*final(x))
                },
                None => {
                    &&& !(*old(self) is F)
                    &&& *final(self) == *old(self)
                },
            },
    {
        match self {
            Self::F(x) => Some(x),
            _ => None,
        }
    }

    /// Returns the `F` value, if the cell holds one
    pub fn into_f(self) -> (r: Option<F>)
        ensures
            match r {
                Some(x) => self == Self::F(x),
                None => !(self is F),
            },
    {
        match self {
            Self::F(x) => Some(x),
            _ => None,
        }
    }

    /// Returns true if the cell holds the `G` variant
    pub fn is_g(&self) -> (r: bool)
        ensures
            r == (*self is G),
    {
        match self {
            Self::G(_) => true,
            _ => false,
        }
    }

    /// Returns a reference to the `G` value, if the cell holds one
    pub fn as_g(&self) -> (r: Option<&G>)
        ensures
            match r {
                Some(x) => *self == Self::G(*x),
                None => !(*self is G),
            },
    {
        match self {
            Self::G(x) => Some(x),
            _ => None,
        }
    }

    /// Returns a mutable reference to the `G` value, if the cell holds one
    pub fn as_mut_g(&mut self) -> (r: Option<&mut G>)
        ensures
            match r {
                Some(x) => {
                    &&& *old(self) == Self::G(*x)
                    &&& *final(self) == Self::G(*final(x))
                },
                None => {
                    &&& !(*old(self) is G)
                    &&& *final(self) == *old(self)
                },
            },
    {
        match self {
            Self::G(x) => Some(x),
            _ => None,
        }
    }

    /// Returns the `G` value, if the cell holds one
    pub fn into_g(self) -> (r: Option<G>)
        ensures
            match r {
                Some(x) => self == Self::G(x),
                None => !(self is G),
            },
    {
        match self {
            Self::G(x) => Some(x),
            _ => None,
        }
    }

    /// Returns true if the cell holds the `H` variant
    pub fn is_h(&self) -> (r: bool)
        ensures
            r == (*self is H),
    {
        match self {
            Self::H(_) => true,
            _ => false,
        }
    }

    /// Returns a reference to the `H` value, if the cell holds one
    pub fn as_h(&self) -> (r: Option<&H>)
        ensures
            match r {
                Some(x) => *self == Self::H(*x),
                None => !(*self is H),
            },
    {
        match self {
            Self::H(x) => Some(x),
            _ => None,
        }
    }

    /// Returns a mutable reference to the `H` value, if the cell holds one
    pub fn as_mut_h(&mut self) -> (r: Option<&mut H>)
        ensures
            match r {
                Some(x) => {
                    &&& *old(self) == Self::H(*x)
                    &&& *final(self) == Self::H(*final(x))
                },
                None => {
                    &&& !(*old(self) is H)
                    &&& *final(self) == *old(self)
                },
            },
    {
        match self {
            Self::H(x) => Some(x),
            _ => None,
        }
    }

    /// Returns the `H` value, if the cell holds one
    pub fn into_h(self) -> (r: Option<H>)
        ensures
            match r {
                Some(x) => self == Self::H(x),
                None => !(self is H),
            },
    {
        match self {
            Self::H(x) => Some(x),
            _ => None,
        }
    }

    /// Returns true if the cell holds the `I` variant
    pub fn is_i(&self) -> (r: bool)
        ensures
            r == (*self is I),
    {
        match self {
            Self::I(_) => true,
            _ => false,
        }
    }

    /// Returns a reference to the `I` value, if the cell holds one
    pub fn as_i(&self) -> (r: Option<&I>)
        ensures
            match r {
                Some(x) => *self == Self::I(*x),
                None => !(*self is I),
            },
    {
        match self {
            Self::I(x) => Some(x),
            _ => None,
        }
    }

    /// Returns a mutable reference to the `I` value, if the cell holds one
    pub fn as_mut_i(&mut self) -> (r: Option<&mut I>)
        ensures
            match r {
                Some(x) => {
                    &&& *old(self) == Self::I(*x)
                    &&& *final(self) == Self::I(*final(x))
                },
                None => {
                    &&& !(*old(self) is I)
                    &&& *final(self) == *old(self)
                },
            },
    {
        match self {
            Self::I(x) => Some(x),
            _ => None,
        }
    }

    /// Returns the `I` value, if the cell holds one
    pub fn into_i(self) -> (r: Option<I>)
        ensures
            match r {
                Some(x) => self == Self::I(x),
                None => !(self is I),
            },
    {
        match self {
            Self::I(x) => Some(x),
            _ => None,
        }
    }

    /// Returns true if the cell holds the `J` variant
    pub fn is_j(&self) -> (r: bool)
        ensures
            r == (*self is J),
    {
        match self {
            Self::J(_) => true,
            _ => false,
        }
    }

    /// Returns a reference to the `J` value, if the cell holds one
    pub fn as_j(&self) -> (r: Option<&J>)
        ensures
            match r {
                Some(x) => *self == Self::J(*x),
                None => !(*self is J),
            },
    {
        match self {
            Self::J(x) => Some(x),
            _ => None,
        }
    }

    /// Returns a mutable reference to the `J` value, if the cell holds one
    pub fn as_mut_j(&mut self) -> (r: Option<&mut J>)
        ensures
            match r {
                Some(x) => {
                    &&& *old(self) == Self::J(*x)
                    &&& *final(self) == Self::J(*final(x))
                },
                None => {
                    &&& !(*old(self) is J)
                    &&& *final(self) == *old(self)
                },
            },
    {
        match self {
            Self::J(x) => Some(x),
            _ => None,
        }
    }

    /// Returns the `J` value, if the cell holds one
    pub fn into_j(self) -> (r: Option<J>)
        ensures
            match r {
                Some(x) => self == Self::J(x),
                None => !(self is J),
            },
    {
        match self {
            Self::J(x) => Some(x),
            _ => None,
        }
    }

    /// Returns true if the cell holds the `K` variant
    pub fn is_k(&self) -> (r: bool)
        ensures
            r == (*self is K),
    {
        match self {
            Self::K(_) => true,
            _ => false,
        }
    }

    /// Returns a reference to the `K` value, if the cell holds one
    pub fn as_k(&self) -> (r: Option<&K>)
        ensures
            match r {
                Some(x) => *self == Self::K(*x),
                None => !(*self is K),
            },
    {
        match self {
            Self::K(x) => Some(x),
            _ => None,
        }
    }

    /// Returns a mutable reference to the `K` value, if the cell holds one
    pub fn as_mut_k(&mut self) -> (r: Option<&mut K>)
        ensures
            match r {
                Some(x) => {
                    &&& *old(self) == Self::K(*x)
                    &&& *final(self) == Self::K(*final(x))
                },
                None => {
                    &&& !(*old(self) is K)
                    &&& *final(self) == *old(self)
                },
            },
    {
        match self {
            Self::K(x) => Some(x),
            _ => None,
        }
    }

    /// Returns the `K` value, if the cell holds one
    pub fn into_k(self) -> (r: Option<K>)
        ensures
            match r {
                Some(x) => self == Self::K(x),
                None => !(self is K),
            },
    {
        match self {
            Self::K(x) => Some(x),
            _ => None,
        }
    }

    /// Returns true if the cell holds the `L` variant
    pub fn is_l(&self) -> (r: bool)
        ensures
            r == (*self is L),
    {
        match self {
            Self::L(_) => true,
            _ => false,
        }
    }

    /// Returns a reference to the `L` value, if the cell holds one
    pub fn as_l(&self) -> (r: Option<&L>)
        ensures
            match r {
                Some(x) => *self == Self::L(*x),
                None => !(*self is L),
            },
    {
        match self {
            Self::L(x) => Some(x),
            _ => None,
        }
    }

    /// Returns a mutable reference to the `L` value, if the cell holds one
    pub fn as_mut_l(&mut self) -> (r: Option<&mut L>)
        ensures
            match r {
                Some(x) => {
                    &&& *old(self) == Self::L(*x)
                    &&& *final(self) == Self::L(*final(x))
                },
                None => {
                    &&& !(*old(self) is L)
                    &&& *final(self) == *old(self)
                },
            },
    {
        match self {
            Self::L(x) => Some(x),
            _ => None,
        }
    }

    /// Returns the `L` value, if the cell holds one
    pub fn into_l(self) -> (r: Option<L>)
        ensures
            match r {
                Some(x) => self == Self::L(x),
                None => !(self is L),
            },
    {
        match self {
            Self::L(x) => Some(x),
            _ => None,
        }
    }

    /// Returns true if the cell holds the `M` variant
    pub fn is_m(&self) -> (r: bool)
        ensures
            r == (*self is M),
    {
        match self {
            Self::M(_) => true,
            _ => false,
        }
    }

    /// Returns a reference to the `M` value, if the cell holds one
    pub fn as_m(&self) -> (r: Option<&M>)
        ensures
            match r {
                Some(x) => *self == Self::M(*x),
                None => !(*self is M),
            },
    {
        match self {
            Self::M(x) => Some(x),
            _ => None,
        }
    }

    /// Returns a mutable reference to the `M` value, if the cell holds one
    pub fn as_mut_m(&mut self) -> (r: Option<&mut M>)
        ensures
            match r {
                Some(x) => {
                    &&& *old(self) == Self::M(*x)
                    &&& *final(self) == Self::M(*final(x))
                },
                None => {
                    &&& !(*old(self) is M)
                    &&& *final(self) == *old(self)
                },
            },
    {
        match self {
            Self::M(x) => Some(x),
            _ => None,
        }
    }

    /// Returns the `M` value, if the cell holds one
    pub fn into_m(self) -> (r: Option<M>)
        ensures
            match r {
                Some(x) => self == Self::M(x),
                None => !(self is M),
            },
    {
        match self {
            Self::M(x) => Some(x),
            _ => None,
        }
    }

    /// Returns true if the cell holds the `N` variant
    pub fn is_n(&self) -> (r: bool)
        ensures
            r == (*self is N),
    {
        match self {
            Self::N(_) => true,
            _ => false,
        }
    }

    /// Returns a reference to the `N` value, if the cell holds one
    pub fn as_n(&self) -> (r: Option<&N>)
        ensures
            match r {
                Some(x) => *self == Self::N(*x),
                None => !(*self is N),
            },
    {
        match self {
            Self::N(x) => Some(x),
            _ => None,
        }
    }

    /// Returns a mutable reference to the `N` value, if the cell holds one
    pub fn as_mut_n(&mut self) -> (r: Option<&mut N>)
        ensures
            match r {
                Some(x) => {
                    &&& *old(self) == Self::N(*x)
                    &&& *final(self) == Self::N(*final(x))
                },
                None => {
                    &&& !(*old(self) is N)
                    &&& *final(self) == *old(self)
                },
            },
    {
        match self {
            Self::N(x) => Some(x),
            _ => None,
        }
    }

    /// Returns the `N` value, if the cell holds one
    pub fn into_n(self) -> (r: Option<N>)
        ensures
            match r {
                Some(x) => self == Self::N(x),
                None => !(self is N),
            },
    {
        match self {
            Self::N(x) => Some(x),
            _ => None,
        }
    }

    /// Returns true if the cell holds the `O` variant
    pub fn is_o(&self) -> (r: bool)
        ensures
            r == (*self is O),
    {
        match self {
            Self::O(_) => true,
            _ => false,
        }
    }

    /// Returns a reference to the `O` value, if the cell holds one
    pub fn as_o(&self) -> (r: Option<&O>)
        ensures
            match r {
                Some(x) => *self == Self::O(*x),
                None => !(*self is O),
            },
    {
        match self {
            Self::O(x) => Some(x),
            _ => None,
        }
    }

    /// Returns a mutable reference to the `O` value, if the cell holds one
    pub fn as_mut_o(&mut self) -> (r: Option<&mut O>)
        ensures
            match r {
                Some(x) => {
                    &&& *old(self) == Self::O(*x)
                    &&& *final(self) == Self::O(*final(x))
                },
                None => {
                    &&& !(*old(self) is O)
                    &&& *final(self) == *old(self)
                },
            },
    {
        match self {
            Self::O(x) => Some(x),
            _ => None,
        }
    }

    /// Returns the `O` value, if the cell holds one
    pub fn into_o(self) -> (r: Option<O>)
        ensures
            match r {
                Some(x) => self == Self::O(x),
                None => !(self is O),
            },
    {
        match self {
            Self::O(x) => Some(x),
            _ => None,
        }
    }

    /// Returns true if the cell holds the `P` variant
    pub fn is_p(&self) -> (r: bool)
        ensures
            r == (*self is P),
    {
        match self {
            Self::P(_) => true,
            _ => false,
        }
    }

    /// Returns a reference to the `P` value, if the cell holds one
    pub fn as_p(&self) -> (r: Option<&P>)
        ensures
            match r {
                Some(x) => *self == Self::P(*x),
                None => !(*self is P),
            },
    {
        match self {
            Self::P(x) => Some(x),
            _ => None,
        }
    }

    /// Returns a mutable reference to the `P` value, if the cell holds one
    pub fn as_mut_p(&mut self) -> (r: Option<&mut P>)
        ensures
            match r {
                Some(x) => {
                    &&& *old(self) == Self::P(*x)
                    &&& *final(self) == Self::P(*final(x))
                },
                None => {
                    &&& !(*old(self) is P)
                    &&& *final(self) == *old(self)
                },
            },
    {
        match self {
            Self::P(x) => Some(x),
            _ => None,
        }
    }

    /// Returns the `P` value, if the cell holds one
    pub fn into_p(self) -> (r: Option<P>)
        ensures
            match r {
                Some(x) => self == Self::P(x),
                None => !(self is P),
            },
    {
        match self {
            Self::P(x) => Some(x),
            _ => None,
        }
    }

    /// Returns true if the cell holds the `Q` variant
    pub fn is_q(&self) -> (r: bool)
        ensures
            r == (*self is Q),
    {
        match self {
            Self::Q(_) => true,
            _ => false,
        }
    }

    /// Returns a reference to the `Q` value, if the cell holds one
    pub fn as_q(&self) -> (r: Option<&Q>)
        ensures
            match r {
                Some(x) => *self == Self::Q(*x),
                None => !(*self is Q),
            },
    {
        match self {
            Self::Q(x) => Some(x),
            _ => None,
        }
    }

    /// Returns a mutable reference to the `Q` value, if the cell holds one
    pub fn as_mut_q(&mut self) -> (r: Option<&mut Q>)
        ensures
            match r {
                Some(x) => {
                    &&& *old(self) == Self::Q(*x)
                    &&& *final(self) == Self::Q(*final(x))
                },
                None => {
                    &&& !(*old(self) is Q)
                    &&& *final(self) == *old(self)
                },
            },
    {
        match self {
            Self::Q(x) => Some(x),
            _ => None,
        }
    }

    /// Returns the `Q` value, if the cell holds one
    pub fn into_q(self) -> (r: Option<Q>)
        ensures
            match r {
                Some(x) => self == Self::Q(x),
                None => !(self is Q),
            },
    {
        match self {
            Self::Q(x) => Some(x),
            _ => None,
        }
    }

    /// Returns true if the cell holds the `R` variant
    pub fn is_r(&self) -> (r: bool)
        ensures
            r == (*self is R),
    {
        match self {
            Self::R(_) => true,
            _ => false,
        }
    }

    /// Returns a reference to the `R` value, if the cell holds one
    pub fn as_r(&self) -> (r: Option<&R>)
        ensures
            match r {
                Some(x) => *self == Self::R(*x),
                None => !(*self is R),
            },
    {
        match self {
            Self::R(x) => Some(x),
            _ => None,
        }
    }

    /// Returns a mutable reference to the `R` value, if the cell holds one
    pub fn as_mut_r(&mut self) -> (r: Option<&mut R>)
        ensures
            match r {
                Some(x) => {
                    &&& *old(self) == Self::R(*x)
                    &&& *final(self) == Self::R(*final(x))
                },
                None => {
                    &&& !(*old(self) is R)
                    &&& *final(self) == *old(self)
                },
            },
    {
        match self {
            Self::R(x) => Some(x),
            _ => None,
        }
    }

    /// Returns the `R` value, if the cell holds one
    pub fn into_r(self) -> (r: Option<R>)
        ensures
            match r {
                Some(x) => self == Self::R(x),
                None => !(self is R),
            },
    {
        match self {
            Self::R(x) => Some(x),
            _ => None,
        }
    }
}

/// A cell that holds a value of one of 19 types, one variant per type
#[derive(Copy, Clone, Debug, PartialEq, Eq, Hash, PartialOrd, Ord)]
pub enum Cell19<A, B, C, D, E, F, G, H, I, J, K, L, M, N, O, P, Q, R, S> {
    A(A),
    B(B),
    C(C),
    D(D),
    E(E),
    F(F),
    G(G),
    H(H),
    I(I),
    J(J),
    K(K),
    L(L),
    M(M),
    N(N),
    O(O),
    P(P),
    Q(Q),
    R(R),
    S(S),
}

impl<A, B, C, D, E, F, G, H, I, J, K, L, M, N, O, P, Q, R, S> Cell19<A, B, C, D, E, F, G, H, I, J, K, L, M, N, O, P, Q, R, S> {
    /// Returns true if the cell holds the `A` variant
    pub fn is_a(&self) -> (r: bool)
        ensures
            r == (*self is A),
    {
        match self {
            Self::A(_) => true,
            _ => false,
        }
    }

    /// Returns a reference to the `A` value, if the cell holds one
    pub fn as_a(&self) -> (r: Option<&A>)
        ensures
            match r {
                Some(x) => *self == Self::A(*x),
                None => !(*self is A),
            },
    {
        match self {
            Self::A(x) => Some(x),
            _ => None,
        }
    }

    /// Returns a mutable reference to the `A` value, if the cell holds one
    pub fn as_mut_a(&mut self) -> (r: Option<&mut A>)
        ensures
            match r {
                Some(x) => {
                    &&& *old(self) == Self::A(*x)
                    &&& *final(self) == Self::A(*final(x))
                },
                None => {
                    &&& !(*old(self) is A)
                    &&& *final(self) == *old(self)
                },
            },
    {
        match self {
            Self::A(x) => Some(x),
            _ => None,
        }
    }

    /// Returns the `A` value, if the cell holds one
    pub fn into_a(self) -> (r: Option<A>)
        ensures
            match r {
                Some(x) => self == Self::A(x),
                None => !(self is A),
            },
    {
        match self {
            Self::A(x) => Some(x),
            _ => None,
        }
    }

    /// Returns true if the cell holds the `B` variant
    pub fn is_b(&self) -> (r: bool)
        ensures
            r == (*self is B),
    {
        match self {
            Self::B(_) => true,
            _ => false,
        }
    }

    /// Returns a reference to the `B` value, if the cell holds one
    pub fn as_b(&self) -> (r: Option<&B>)
        ensures
            match r {
                Some(x) => *self == Self::B(*x),
                None => !(*self is B),
            },
    {
        match self {
            Self::B(x) => Some(x),
            _ => None,
        }
    }

    /// Returns a mutable reference to the `B` value, if the cell holds one
    pub fn as_mut_b(&mut self) -> (r: Option<&mut B>)
        ensures
            match r {
                Some(x) => {
                    &&& *old(self) == Self::B(*x)
                    &&& *final(self) == Self::B(*final(x))
                },
                None => {
                    &&& !(*old(self) is B)
                    &&& *final(self) == *old(self)
                },
            },
    {
        match self {
            Self::B(x) => Some(x),
            _ => None,
        }
    }

    /// Returns the `B` value, if the cell holds one
    pub fn into_b(self) -> (r: Option<B>)
        ensures
            match r {
                Some(x) => self == Self::B(x),
                None => !(self is B),
            },
    {
        match self {
            Self::B(x) => Some(x),
            _ => None,
        }
    }

    /// Returns true if the cell holds the `C` variant
    pub fn is_c(&self) -> (r: bool)
        ensures
            r == (*self is C),
    {
        match self {
            Self::C(_) => true,
            _ => false,
        }
    }

    /// Returns a reference to the `C` value, if the cell holds one
    pub fn as_c(&self) -> (r: Option<&C>)
        ensures
            match r {
                Some(x) => *self == Self::C(*x),
                None => !(*self is C),
            },
    {
        match self {
            Self::C(x) => Some(x),
            _ => None,
        }
    }

    /// Returns a mutable reference to the `C` value, if the cell holds one
    pub fn as_mut_c(&mut self) -> (r: Option<&mut C>)
        ensures
            match r {
                Some(x) => {
                    &&& *old(self) == Self::C(*x)
                    &&& *final(self) == Self::C(*final(x))
                },
                None => {
                    &&& !(*old(self) is C)
                    &&& *final(self) == *old(self)
                },
            },
    {
        match self {
            Self::C(x) => Some(x),
            _ => None,
        }
    }

    /// Returns the `C` value, if the cell holds one
    pub fn into_c(self) -> (r: Option<C>)
        ensures
            match r {
                Some(x) => self == Self::C(x),
                None => !(self is C),
            },
    {
        match self {
            Self::C(x) => Some(x),
            _ => None,
        }
    }

    /// Returns true if the cell holds the `D` variant
    pub fn is_d(&self) -> (r: bool)
        ensures
            r == (*self is D),
    {
        match self {
            Self::D(_) => true,
            _ => false,
        }
    }

    /// Returns a reference to the `D` value, if the cell holds one
    pub fn as_d(&self) -> (r: Option<&D>)
        ensures
            match r {
                Some(x) => *self == Self::D(*x),
                None => !(*self is D),
            },
    {
        match self {
            Self::D(x) => Some(x),
            _ => None,
        }
    }

    /// Returns a mutable reference to the `D` value, if the cell holds one
    pub fn as_mut_d(&mut self) -> (r: Option<&mut D>)
        ensures
            match r {
                Some(x) => {
                    &&& *old(self) == Self::D(*x)
                    &&& *final(self) == Self::D(*final(x))
                },
                None => {
                    &&& !(*old(self) is D)
                    &&& *final(self) == *old(self)
                },
            },
    {
        match self {
            Self::D(x) => Some(x),
            _ => None,
        }
    }

    /// Returns the `D` value, if the cell holds one
    pub fn into_d(self) -> (r: Option<D>)
        ensures
            match r {
                Some(x) => self == Self::D(x),
                None => !(self is D),
            },
    {
        match self {
            Self::D(x) => Some(x),
            _ => None,
        }
    }

    /// Returns true if the cell holds the `E` variant
    pub fn is_e(&self) -> (r: bool)
        ensures
            r == (*self is E),
    {
        match self {
            Self::E(_) => true,
            _ => false,
        }
    }

    /// Returns a reference to the `E` value, if the cell holds one
    pub fn as_e(&self) -> (r: Option<&E>)
        ensures
            match r {
                Some(x) => *self == Self::E(*x),
                None => !(*self is E),
            },
    {
        match self {
            Self::E(x) => Some(x),
            _ => None,
        }
    }

    /// Returns a mutable reference to the `E` value, if the cell holds one
    pub fn as_mut_e(&mut self) -> (r: Option<&mut E>)
        ensures
            match r {
                Some(x) => {
                    &&& *old(self) == Self::E(*x)
                    &&& *final(self) == Self::E(*final(x))
                },
                None => {
                    &&& !(*old(self) is E)
                    &&& *final(self) == *old(self)
                },
            },
    {
        match self {
            Self::E(x) => Some(x),
            _ => None,
        }
    }

    /// Returns the `E` value, if the cell holds one
    pub fn into_e(self) -> (r: Option<E>)
        ensures
            match r {
                Some(x) => self == Self::E(x),
                None => !(self is E),
            },
    {
        match self {
            Self::E(x) => Some(x),
            _ => None,
        }
    }

    /// Returns true if the cell holds the `F` variant
    pub fn is_f(&self) -> (r: bool)
        ensures
            r == (*self is F),
    {
        match self {
            Self::F(_) => true,
            _ => false,
        }
    }

    /// Returns a reference to the `F` value, if the cell holds one
    pub fn as_f(&self) -> (r: Option<&F>)
        ensures
            match r {
                Some(x) => *self == Self::F(*x),
                None => !(*self is F),
            },
    {
        match self {
            Self::F(x) => Some(x),
            _ => None,
        }
    }

    /// Returns a mutable reference to the `F` value, if the cell holds one
    pub fn as_mut_f(&mut self) -> (r: Option<&mut F>)
        ensures
            match r {
                Some(x) => {
                    &&& *old(self) == Self::F(*x)
                    &&& *final(self) == Self::F(*final(x))
                },
                None => {
                    &&& !(*old(self) is F)
                    &&& *final(self) == *old(self)
                },
            },
    {
        match self {
            Self::F(x) => Some(x),
            _ => None,
        }
    }

    /// Returns the `F` value, if the cell holds one
    pub fn into_f(self) -> (r: Option<F>)
        ensures
            match r {
                Some(x) => self == Self::F(x),
                None => !(self is F),
            },
    {
        match self {
            Self::F(x) => Some(x),
            _ => None,
        }
    }

    /// Returns true if the cell holds the `G` variant
    pub fn is_g(&self) -> (r: bool)
        ensures
            r == (*self is G),
    {
        match self {
            Self::G(_) => true,
            _ => false,
        }
    }

    /// Returns a reference to the `G` value, if the cell holds one
    pub fn as_g(&self) -> (r: Option<&G>)
        ensures
            match r {
                Some(x) => *self == Self::G(*x),
                None => !(*self is G),
            },
    {
        match self {
            Self::G(x) => Some(x),
            _ => None,
        }
    }

    /// Returns a mutable reference to the `G` value, if the cell holds one
    pub fn as_mut_g(&mut self) -> (r: Option<&mut G>)
        ensures
            match r {
                Some(x) => {
                    &&& *old(self) == Self::G(*x)
                    &&& *final(self) == Self::G(*final(x))
                },
                None => {
                    &&& !(*old(self) is G)
                    &&& *final(self) == *old(self)
                },
            },
    {
        match self {
            Self::G(x) => Some(x),
            _ => None,
        }
    }

    /// Returns the `G` value, if the cell holds one
    pub fn into_g(self) -> (r: Option<G>)
        ensures
            match r {
                Some(x) => self == Self::G(x),
                None => !(self is G),
            },
    {
        match self {
            Self::G(x) => Some(x),
            _ => None,
        }
    }

    /// Returns true if the cell holds the `H` variant
    pub fn is_h(&self) -> (r: bool)
        ensures
            r == (*self is H),
    {
        match self {
            Self::H(_) => true,
            _ => false,
        }
    }

    /// Returns a reference to the `H` value, if the cell holds one
    pub fn as_h(&self) -> (r: Option<&H>)
        ensures
            match r {
                Some(x) => *self == Self::H(*x),
                None => !(*self is H),
            },
    {
        match self {
            Self::H(x) => Some(x),
            _ => None,
        }
    }

    /// Returns a mutable reference to the `H` value, if the cell holds one
    pub fn as_mut_h(&mut self) -> (r: Option<&mut H>)
        ensures
            match r {
                Some(x) => {
                    &&& *old(self) == Self::H(*x)
                    &&& *final(self) == Self::H(*final(x))
                },
                None => {
                    &&& !(*old(self) is H)
                    &&& *final(self) == *old(self)
                },
            },
    {
        match self {
            Self::H(x) => Some(x),
            _ => None,
        }
    }

    /// Returns the `H` value, if the cell holds one
    pub fn into_h(self) -> (r: Option<H>)
        ensures
            match r {
                Some(x) => self == Self::H(x),
                None => !(self is H),
            },
    {
        match self {
            Self::H(x) => Some(x),
            _ => None,
        }
    }

    /// Returns true if the cell holds the `I` variant
    pub fn is_i(&self) -> (r: bool)
        ensures
            r == (*self is I),
    {
        match self {
            Self::I(_) => true,
            _ => false,
        }
    }

    /// Returns a reference to the `I` value, if the cell holds one
    pub fn as_i(&self) -> (r: Option<&I>)
        ensures
            match r {
                Some(x) => *self == Self::I(*x),
                None => !(*self is I),
            },
    {
        match self {
            Self::I(x) => Some(x),
            _ => None,
        }
    }

    /// Returns a mutable reference to the `I` value, if the cell holds one
    pub fn as_mut_i(&mut self) -> (r: Option<&mut I>)
        ensures
            match r {
                Some(x) => {
                    &&& *old(self) == Self::I(*x)
                    &&& *final(self) == Self::I(*final(x))
                },
                None => {
                    &&& !(*old(self) is I)
                    &&& *final(self) == *old(self)
                },
            },
    {
        match self {
            Self::I(x) => Some(x),
            _ => None,
        }
    }

    /// Returns the `I` value, if the cell holds one
    pub fn into_i(self) -> (r: Option<I>)
        ensures
            match r {
                Some(x) => self == Self::I(x),
                None => !(self is I),
            },
    {
        match self {
            Self::I(x) => Some(x),
            _ => None,
        }
    }

    /// Returns true if the cell holds the `J` variant
    pub fn is_j(&self) -> (r: bool)
        ensures
            r == (*self is J),
    {
        match self {
            Self::J(_) => true,
            _ => false,
        }
    }

    /// Returns a reference to the `J` value, if the cell holds one
    pub fn as_j(&self) -> (r: Option<&J>)
        ensures
            match r {
                Some(x) => *self == Self::J(*x),
                None => !(*self is J),
            },
    {
        match self {
            Self::J(x) => Some(x),
            _ => None,
        }
    }

    /// Returns a mutable reference to the `J` value, if the cell holds one
    pub fn as_mut_j(&mut self) -> (r: Option<&mut J>)
        ensures
            match r {
                Some(x) => {
                    &&& *old(self) == Self::J(*x)
                    &&& *final(self) == Self::J(*final(x))
                },
                None => {
                    &&& !(*old(self) is J)
                    &&& *final(self) == *old(self)
                },
            },
    {
        match self {
            Self::J(x) => Some(x),
            _ => None,
        }
    }

    /// Returns the `J` value, if the cell holds one
    pub fn into_j(self) -> (r: Option<J>)
        ensures
            match r {
                Some(x) => self == Self::J(x),
                None => !(self is J),
            },
    {
        match self {
            Self::J(x) => Some(x),
            _ => None,
        }
    }

    /// Returns true if the cell holds the `K` variant
    pub fn is_k(&self) -> (r: bool)
        ensures
            r == (*self is K),
    {
        match self {
            Self::K(_) => true,
            _ => false,
        }
    }

    /// Returns a reference to the `K` value, if the cell holds one
    pub fn as_k(&self) -> (r: Option<&K>)
        ensures
            match r {
                Some(x) => *self == Self::K(*x),
                None => !(*self is K),
            },
    {
        match self {
            Self::K(x) => Some(x),
            _ => None,
        }
    }

    /// Returns a mutable reference to the `K` value, if the cell holds one
    pub fn as_mut_k(&mut self) -> (r: Option<&mut K>)
        ensures
            match r {
                Some(x) => {
                    &&& *old(self) == Self::K(*x)
                    &&& *final(self) == Self::K(*final(x))
                },
                None => {
                    &&& !(*old(self) is K)
                    &&& *final(self) == *old(self)
                },
            },
    {
        match self {
            Self::K(x) => Some(x),
            _ => None,
        }
    }

    /// Returns the `K` value, if the cell holds one
    pub fn into_k(self) -> (r: Option<K>)
        ensures
            match r {
                Some(x) => self == Self::K(x),
                None => !(self is K),
            },
    {
        match self {
            Self::K(x) => Some(x),
            _ => None,
        }
    }

    /// Returns true if the cell holds the `L` variant
    pub fn is_l(&self) -> (r: bool)
        ensures
            r == (*self is L),
    {
        match self {
            Self::L(_) => true,
            _ => false,
        }
    }

    /// Returns a reference to the `L` value, if the cell holds one
    pub fn as_l(&self) -> (r: Option<&L>)
        ensures
            match r {
                Some(x) => *self == Self::L(*x),
                None => !(*self is L),
            },
    {
        match self {
            Self::L(x) => Some(x),
            _ => None,
        }
    }

    /// Returns a mutable reference to the `L` value, if the cell holds one
    pub fn as_mut_l(&mut self) -> (r: Option<&mut L>)
        ensures
            match r {
                Some(x) => {
                    &&& *old(self) == Self::L(*x)
                    &&& *final(self) == Self::L(*final(x))
                },
                None => {
                    &&& !(*old(self) is L)
                    &&& *final(self) == *old(self)
                },
            },
    {
        match self {
            Self::L(x) => Some(x),
            _ => None,
        }
    }

    /// Returns the `L` value, if the cell holds one
    pub fn into_l(self) -> (r: Option<L>)
        ensures
            match r {
                Some(x) => self == Self::L(x),
                None => !(self is L),
            },
    {
        match self {
            Self::L(x) => Some(x),
            _ => None,
        }
    }

    /// Returns true if the cell holds the `M` variant
    pub fn is_m(&self) -> (r: bool)
        ensures
            r == (*self is M),
    {
        match self {
            Self::M(_) => true,
            _ => false,
        }
    }

    /// Returns a reference to the `M` value, if the cell holds one
    pub fn as_m(&self) -> (r: Option<&M>)
        ensures
            match r {
                Some(x) => *self == Self::M(*x),
                None => !(*self is M),
            },
    {
        match self {
            Self::M(x) => Some(x),
            _ => None,
        }
    }

    /// Returns a mutable reference to the `M` value, if the cell holds one
    pub fn as_mut_m(&mut self) -> (r: Option<&mut M>)
        ensures
            match r {
                Some(x) => {
                    &&& *old(self) == Self::M(*x)
                    &&& *final(self) == Self::M(*final(x))
                },
                None => {
                    &&& !(*old(self) is M)
                    &&& *final(self) == *old(self)
                },
            },
    {
        match self {
            Self::M(x) => Some(x),
            _ => None,
        }
    }

    /// Returns the `M` value, if the cell holds one
    pub fn into_m(self) -> (r: Option<M>)
        ensures
            match r {
                Some(x) => self == Self::M(x),
                None => !(self is M),
            },
    {
        match self {
            Self::M(x) => Some(x),
            _ => None,
        }
    }

    /// Returns true if the cell holds the `N` variant
    pub fn is_n(&self) -> (r: bool)
        ensures
            r == (*self is N),
    {
        match self {
            Self::N(_) => true,
            _ => false,
        }
    }

    /// Returns a reference to the `N` value, if the cell holds one
    pub fn as_n(&self) -> (r: Option<&N>)
        ensures
            match r {
                Some(x) => *self == Self::N(*x),
                None => !(*self is N),
            },
    {
        match self {
            Self::N(x) => Some(x),
            _ => None,
        }
    }

    /// Returns a mutable reference to the `N` value, if the cell holds one
    pub fn as_mut_n(&mut self) -> (r: Option<&mut N>)
        ensures
            match r {
                Some(x) => {
                    &&& *old(self) == Self::N(*x)
                    &&& *final(self) == Self::N(*final(x))
                },
                None => {
                    &&& !(*old(self) is N)
                    &&& *final(self) == *old(self)
                },
            },
    {
        match self {
            Self::N(x) => Some(x),
            _ => None,
        }
    }

    /// Returns the `N` value, if the cell holds one
    pub fn into_n(self) -> (r: Option<N>)
        ensures
            match r {
                Some(x) => self == Self::N(x),
                None => !(self is N),
            },
    {
        match self {
            Self::N(x) => Some(x),
            _ => None,
        }
    }

    /// Returns true if the cell holds the `O` variant
    pub fn is_o(&self) -> (r: bool)
        ensures
            r == (*self is O),
    {
        match self {
            Self::O(_) => true,
            _ => false,
        }
    }

    /// Returns a reference to the `O` value, if the cell holds one
    pub fn as_o(&self) -> (r: Option<&O>)
        ensures
            match r {
                Some(x) => *self == Self::O(*x),
                None => !(*self is O),
            },
    {
        match self {
            Self::O(x) => Some(x),
            _ => None,
        }
    }

    /// Returns a mutable reference to the `O` value, if the cell holds one
    pub fn as_mut_o(&mut self) -> (r: Option<&mut O>)
        ensures
            match r {
                Some(x) => {
                    &&& *old(self) == Self::O(*x)
                    &&& *final(self) == Self::O(*final(x))
                },
                None => {
                    &&& !(*old(self) is O)
                    &&& *final(self) == *old(self)
                },
            },
    {
        match self {
            Self::O(x) => Some(x),
            _ => None,
        }
    }

    /// Returns the `O` value, if the cell holds one
    pub fn into_o(self) -> (r: Option<O>)
        ensures
            match r {
                Some(x) => self == Self::O(x),
                None => !(self is O),
            },
    {
        match self {
            Self::O(x) => Some(x),
            _ => None,
        }
    }

    /// Returns true if the cell holds the `P` variant
    pub fn is_p(&self) -> (r: bool)
        ensures
            r == (*self is P),
    {
        match self {
            Self::P(_) => true,
            _ => false,
        }
    }

    /// Returns a reference to the `P` value, if the cell holds one
    pub fn as_p(&self) -> (r: Option<&P>)
        ensures
            match r {
                Some(x) => *self == Self::P(*x),
                None => !(*self is P),
            },
    {
        match self {
            Self::P(x) => Some(x),
            _ => None,
        }
    }

    /// Returns a mutable reference to the `P` value, if the cell holds one
    pub fn as_mut_p(&mut self) -> (r: Option<&mut P>)
        ensures
            match r {
                Some(x) => {
                    &&& *old(self) == Self::P(*x)
                    &&& *final(self) == Self::P(*final(x))
                },
                None => {
                    &&& !(*old(self) is P)
                    &&& *final(self) == *old(self)
                },
            },
    {
        match self {
            Self::P(x) => Some(x),
            _ => None,
        }
    }

    /// Returns the `P` value, if the cell holds one
    pub fn into_p(self) -> (r: Option<P>)
        ensures
            match r {
                Some(x) => self == Self::P(x),
                None => !(self is P),
            },
    {
        match self {
            Self::P(x) => Some(x),
            _ => None,
        }
    }

    /// Returns true if the cell holds the `Q` variant
    pub fn is_q(&self) -> (r: bool)
        ensures
            r == (*self is Q),
    {
        match self {
            Self::Q(_) => true,
            _ => false,
        }
    }

    /// Returns a reference to the `Q` value, if the cell holds one
    pub fn as_q(&self) -> (r: Option<&Q>)
        ensures
            match r {
                Some(x) => *self == Self::Q(*x),
                None => !(*self is Q),
            },
    {
        match self {
            Self::Q(x) => Some(x),
            _ => None,
        }
    }

    /// Returns a mutable reference to the `Q` value, if the cell holds one
    pub fn as_mut_q(&mut self) -> (r: Option<&mut Q>)
        ensures
            match r {
                Some(x) => {
                    &&& *old(self) == Self::Q(*x)
                    &&& *final(self) == Self::Q(*final(x))
                },
                None => {
                    &&& !(*old(self) is Q)
                    &&& *final(self) == *old(self)
                },
            },
    {
        match self {
            Self::Q(x) => Some(x),
            _ => None,
        }
    }

    /// Returns the `Q` value, if the cell holds one
    pub fn into_q(self) -> (r: Option<Q>)
        ensures
            match r {
                Some(x) => self == Self::Q(x),
                None => !(self is Q),
            },
    {
        match self {
            Self::Q(x) => Some(x),
            _ => None,
        }
    }

    /// Returns true if the cell holds the `R` variant
    pub fn is_r(&self) -> (r: bool)
        ensures
            r == (*self is R),
    {
        match self {
            Self::R(_) => true,
            _ => false,
        }
    }

    /// Returns a reference to the `R` value, if the cell holds one
    pub fn as_r(&self) -> (r: Option<&R>)
        ensures
            match r {
                Some(x) => *self == Self::R(*x),
                None => !(*self is R),
            },
    {
        match self {
            Self::R(x) => Some(x),
            _ => None,
        }
    }

    /// Returns a mutable reference to the `R` value, if the cell holds one
    pub fn as_mut_r(&mut self) -> (r: Option<&mut R>)
        ensures
            match r {
                Some(x) => {
                    &&& *old(self) == Self::R(*x)
                    &&& *final(self) == Self::R(*final(x))
                },
                None => {
                    &&& !(*old(self) is R)
                    &&& *final(self) == *old(self)
                },
            },
    {
        match self {
            Self::R(x) => Some(x),
            _ => None,
        }
    }

    /// Returns the `R` value, if the cell holds one
    pub fn into_r(self) -> (r: Option<R>)
        ensures
            match r {
                Some(x) => self == Self::R(x),
                None => !(self is R),
            },
    {
        match self {
            Self::R(x) => Some(x),
            _ => None,
        }
    }

    /// Returns true if the cell holds the `S` variant
    pub fn is_s(&self) -> (r: bool)
        ensures
            r == (*self is S),
    {
        match self {
            Self::S(_) => true,
            _ => false,
        }
    }

    /// Returns a reference to the `S` value, if the cell holds one
    pub fn as_s(&self) -> (r: Option<&S>)
        ensures
            match r {
                Some(x) => *self == Self::S(*x),
                None => !(*self is S),
            },
    {
        match self {
            Self::S(x) => Some(x),
            _ => None,
        }
    }

    /// Returns a mutable reference to the `S` value, if the cell holds one
    pub fn as_mut_s(&mut self) -> (r: Option<&mut S>)
        ensures
            match r {
                Some(x) => {
                    &&& *old(self) == Self::S(*x)
                    &&& *final(self) == Self::S(*final(x))
                },
                None => {
                    &&& !(*old(self) is S)
                    &&& *final(self) == *old(self)
                },
            },
    {
        match self {
            Self::S(x) => Some(x),
            _ => None,
        }
    }

    /// Returns the `S` value, if the cell holds one
    pub fn into_s(self) -> (r: Option<S>)
        ensures
            match r {
                Some(x) => self == Self::S(x),
                None => !(self is S),
            },
    {
        match self {
            Self::S(x) => Some(x),
            _ => None,
        }
    }
}

/// A cell that holds a value of one of 20 types, one variant per type
#[derive(Copy, Clone, Debug, PartialEq, Eq, Hash, PartialOrd, Ord)]
pub enum Cell20<A, B, C, D, E, F, G, H, I, J, K, L, M, N, O, P, Q, R, S, T> {
    A(A),
    B(B),
    C(C),
    D(D),
    E(E),
    F(F),
    G(G),
    H(H),
    I(I),
    J(J),
    K(K),
    L(L),
    M(M),
    N(N),
    O(O),
    P(P),
    Q(Q),
    R(R),
    S(S),
    T(T),
}

impl<A, B, C, D, E, F, G, H, I, J, K, L, M, N, O, P, Q, R, S, T> Cell20<A, B, C, D, E, F, G, H, I, J, K, L, M, N, O, P, Q, R, S, T> {
    /// Returns true if the cell holds the `A` variant
    pub fn is_a(&self) -> (r: bool)
        ensures
            r == (*self is A),
    {
        match self {
            Self::A(_) => true,
            _ => false,
        }
    }

    /// Returns a reference to the `A` value, if the cell holds one
    pub fn as_a(&self) -> (r: Option<&A>)
        ensures
            match r {
                Some(x) => *self == Self::A(*x),
                None => !(*self is A),
            },
    {
        match self {
            Self::A(x) => Some(x),
            _ => None,
        }
    }

    /// Returns a mutable reference to the `A` value, if the cell holds one
    pub fn as_mut_a(&mut self) -> (r: Option<&mut A>)
        ensures
            match r {
                Some(x) => {
                    &&& *old(self) == Self::A(*x)
                    &&& *final(self) == Self::A(*final(x))
                },
                None => {
                    &&& !(*old(self) is A)
                    &&& *final(self) == *old(self)
                },
            },
    {
        match self {
            Self::A(x) => Some(x),
            _ => None,
        }
    }

    /// Returns the `A` value, if the cell holds one
    pub fn into_a(self) -> (r: Option<A>)
        ensures
            match r {
                Some(x) => self == Self::A(x),
                None => !(self is A),
            },
    {
        match self {
            Self::A(x) => Some(x),
            _ => None,
        }
    }

    /// Returns true if the cell holds the `B` variant
    pub fn is_b(&self) -> (r: bool)
        ensures
            r == (*self is B),
    {
        match self {
            Self::B(_) => true,
            _ => false,
        }
    }

    /// Returns a reference to the `B` value, if the cell holds one
    pub fn as_b(&self) -> (r: Option<&B>)
        ensures
            match r {
                Some(x) => *self == Self::B(*x),
                None => !(*self is B),
            },
    {
        match self {
            Self::B(x) => Some(x),
            _ => None,
        }
    }

    /// Returns a mutable reference to the `B` value, if the cell holds one
    pub fn as_mut_b(&mut self) -> (r: Option<&mut B>)
        ensures
            match r {
                Some(x) => {
                    &&& *old(self) == Self::B(*x)
                    &&& *final(self) == Self::B(*final(x))
                },
                None => {
                    &&& !(*old(self) is B)
                    &&& *final(self) == *old(self)
                },
            },
    {
        match self {
            Self::B(x) => Some(x),
            _ => None,
        }
    }

    /// Returns the `B` value, if the cell holds one
    pub fn into_b(self) -> (r: Option<B>)
        ensures
            match r {
                Some(x) => self == Self::B(x),
                None => !(self is B),
            },
    {
        match self {
            Self::B(x) => Some(x),
            _ => None,
        }
    }

    /// Returns true if the cell holds the `C` variant
    pub fn is_c(&self) -> (r: bool)
        ensures
            r == (*self is C),
    {
        match self {
            Self::C(_) => true,
            _ => false,
        }
    }

    /// Returns a reference to the `C` value, if the cell holds one
    pub fn as_c(&self) -> (r: Option<&C>)
        ensures
            match r {
                Some(x) => *self == Self::C(*x),
                None => !(*self is C),
            },
    {
        match self {
            Self::C(x) => Some(x),
            _ => None,
        }
    }

    /// Returns a mutable reference to the `C` value, if the cell holds one
    pub fn as_mut_c(&mut self) -> (r: Option<&mut C>)
        ensures
            match r {
                Some(x) => {
                    &&& *old(self) == Self::C(*x)
                    &&& *final(self) == Self::C(*final(x))
                },
                None => {
                    &&& !(*old(self) is C)
                    &&& *final(self) == *old(self)
                },
            },
    {
        match self {
            Self::C(x) => Some(x),
            _ => None,
        }
    }

    /// Returns the `C` value, if the cell holds one
    pub fn into_c(self) -> (r: Option<C>)
        ensures
            match r {
                Some(x) => self == Self::C(x),
                None => !(self is C),
            },
    {
        match self {
            Self::C(x) => Some(x),
            _ => None,
        }
    }

    /// Returns true if the cell holds the `D` variant
    pub fn is_d(&self) -> (r: bool)
        ensures
            r == (*self is D),
    {
        match self {
            Self::D(_) => true,
            _ => false,
        }
    }

    /// Returns a reference to the `D` value, if the cell holds one
    pub fn as_d(&self) -> (r: Option<&D>)
        ensures
            match r {
                Some(x) => *self == Self::D(*x),
                None => !(*self is D),
            },
    {
        match self {
            Self::D(x) => Some(x),
            _ => None,
        }
    }

    /// Returns a mutable reference to the `D` value, if the cell holds one
    pub fn as_mut_d(&mut self) -> (r: Option<&mut D>)
        ensures
            match r {
                Some(x) => {
                    &&& *old(self) == Self::D(*x)
                    &&& *final(self) == Self::D(*final(x))
                },
                None => {
                    &&& !(*old(self) is D)
                    &&& *final(self) == *old(self)
                },
            },
    {
        match self {
            Self::D(x) => Some(x),
            _ => None,
        }
    }

    /// Returns the `D` value, if the cell holds one
    pub fn into_d(self) -> (r: Option<D>)
        ensures
            match r {
                Some(x) => self == Self::D(x),
                None => !(self is D),
            },
    {
        match self {
            Self::D(x) => Some(x),
            _ => None,
        }
    }

    /// Returns true if the cell holds the `E` variant
    pub fn is_e(&self) -> (r: bool)
        ensures
            r == (*self is E),
    {
        match self {
            Self::E(_) => true,
            _ => false,
        }
    }

    /// Returns a reference to the `E` value, if the cell holds one
    pub fn as_e(&self) -> (r: Option<&E>)
        ensures
            match r {
                Some(x) => *self == Self::E(*x),
                None => !(*self is E),
            },
    {
        match self {
            Self::E(x) => Some(x),
            _ => None,
        }
    }

    /// Returns a mutable reference to the `E` value, if the cell holds one
    pub fn as_mut_e(&mut self) -> (r: Option<&mut E>)
        ensures
            match r {
                Some(x) => {
                    &&& *old(self) == Self::E(*x)
                    &&& *final(self) == Self::E(*final(x))
                },
                None => {
                    &&& !(*old(self) is E)
                    &&& *final(self) == *old(self)
                },
            },
    {
        match self {
            Self::E(x) => Some(x),
            _ => None,
        }
    }

    /// Returns the `E` value, if the cell holds one
    pub fn into_e(self) -> (r: Option<E>)
        ensures
            match r {
                Some(x) => self == Self::E(x),
                None => !(self is E),
            },
    {
        match self {
            Self::E(x) => Some(x),
            _ => None,
        }
    }

    /// Returns true if the cell holds the `F` variant
    pub fn is_f(&self) -> (r: bool)
        ensures
            r == (*self is F),
    {
        match self {
            Self::F(_) => true,
            _ => false,
        }
    }

    /// Returns a reference to the `F` value, if the cell holds one
    pub fn as_f(&self) -> (r: Option<&F>)
        ensures
            match r {
                Some(x) => *self == Self::F(*x),
                None => !(*self is F),
            },
    {
        match self {
            Self::F(x) => Some(x),
            _ => None,
        }
    }

    /// Returns a mutable reference to the `F` value, if the cell holds one
    pub fn as_mut_f(&mut self) -> (r: Option<&mut F>)
        ensures
            match r {
                Some(x) => {
                    &&& *old(self) == Self::F(*x)
                    &&& *final(self) == Self::F(*final(x))
                },
                None => {
                    &&& !(*old(self) is F)
                    &&& *final(self) == *old(self)
                },
            },
    {
        match self {
            Self::F(x) => Some(x),
            _ => None,
        }
    }

    /// Returns the `F` value, if the cell holds one
    pub fn into_f(self) -> (r: Option<F>)
        ensures
            match r {
                Some(x) => self == Self::F(x),
                None => !(self is F),
            },
    {
        match self {
            Self::F(x) => Some(x),
            _ => None,
        }
    }

    /// Returns true if the cell holds the `G` variant
    pub fn is_g(&self) -> (r: bool)
        ensures
            r == (*self is G),
    {
        match self {
            Self::G(_) => true,
            _ => false,
        }
    }

    /// Returns a reference to the `G` value, if the cell holds one
    pub fn as_g(&self) -> (r: Option<&G>)
        ensures
            match r {
                Some(x) => *self == Self::G(*x),
                None => !(*self is G),
            },
    {
        match self {
            Self::G(x) => Some(x),
            _ => None,
        }
    }

    /// Returns a mutable reference to the `G` value, if the cell holds one
    pub fn as_mut_g(&mut self) -> (r: Option<&mut G>)
        ensures
            match r {
                Some(x) => {
                    &&& *old(self) == Self::G(*x)
                    &&& *final(self) == Self::G(*final(x))
                },
                None => {
                    &&& !(*old(self) is G)
                    &&& *final(self) == *old(self)
                },
            },
    {
        match self {
            Self::G(x) => Some(x),
            _ => None,
        }
    }

    /// Returns the `G` value, if the cell holds one
    pub fn into_g(self) -> (r: Option<G>)
        ensures
            match r {
                Some(x) => self == Self::G(x),
                None => !(self is G),
            },
    {
        match self {
            Self::G(x) => Some(x),
            _ => None,
        }
    }

    /// Returns true if the cell holds the `H` variant
    pub fn is_h(&self) -> (r: bool)
        ensures
            r == (*self is H),
    {
        match self {
            Self::H(_) => true,
            _ => false,
        }
    }

    /// Returns a reference to the `H` value, if the cell holds one
    pub fn as_h(&self) -> (r: Option<&H>)
        ensures
            match r {
                Some(x) => *self == Self::H(*x),
                None => !(*self is H),
            },
    {
        match self {
            Self::H(x) => Some(x),
            _ => None,
        }
    }

    /// Returns a mutable reference to the `H` value, if the cell holds one
    pub fn as_mut_h(&mut self) -> (r: Option<&mut H>)
        ensures
            match r {
                Some(x) => {
                    &&& *old(self) == Self::H(*x)
                    &&& *final(self) == Self::H(*final(x))
                },
                None => {
                    &&& !(*old(self) is H)
                    &&& *final(self) == *old(self)
                },
            },
    {
        match self {
            Self::H(x) => Some(x),
            _ => None,
        }
    }

    /// Returns the `H` value, if the cell holds one
    pub fn into_h(self) -> (r: Option<H>)
        ensures
            match r {
                Some(x) => self == Self::H(x),
                None => !(self is H),
            },
    {
        match self {
            Self::H(x) => Some(x),
            _ => None,
        }
    }

    /// Returns true if the cell holds the `I` variant
    pub fn is_i(&self) -> (r: bool)
        ensures
            r == (*self is I),
    {
        match self {
            Self::I(_) => true,
            _ => false,
        }
    }

    /// Returns a reference to the `I` value, if the cell holds one
    pub fn as_i(&self) -> (r: Option<&I>)
        ensures
            match r {
                Some(x) => *self == Self::I(*x),
                None => !(*self is I),
            },
    {
        match self {
            Self::I(x) => Some(x),
            _ => None,
        }
    }

    /// Returns a mutable reference to the `I` value, if the cell holds one
    pub fn as_mut_i(&mut self) -> (r: Option<&mut I>)
        ensures
            match r {
                Some(x) => {
                    &&& *old(self) == Self::I(*x)
                    &&& *final(self) == Self::I(*final(x))
                },
                None => {
                    &&& !(*old(self) is I)
                    &&& *final(self) == *old(self)
                },
            },
    {
        match self {
            Self::I(x) => Some(x),
            _ => None,
        }
    }

    /// Returns the `I` value, if the cell holds one
    pub fn into_i(self) -> (r: Option<I>)
        ensures
            match r {
                Some(x) => self == Self::I(x),
                None => !(self is I),
            },
    {
        match self {
            Self::I(x) => Some(x),
            _ => None,
        }
    }

    /// Returns true if the cell holds the `J` variant
    pub fn is_j(&self) -> (r: bool)
        ensures
            r == (*self is J),
    {
        match self {
            Self::J(_) => true,
            _ => false,
        }
    }

    /// Returns a reference to the `J` value, if the cell holds one
    pub fn as_j(&self) -> (r: Option<&J>)
        ensures
            match r {
                Some(x) => *self == Self::J(*x),
                None => !(*self is J),
            },
    {
        match self {
            Self::J(x) => Some(x),
            _ => None,
        }
    }

    /// Returns a mutable reference to the `J` value, if the cell holds one
    pub fn as_mut_j(&mut self) -> (r: Option<&mut J>)
        ensures
            match r {
                Some(x) => {
                    &&& *old(self) == Self::J(*x)
                    &&& *final(self) == Self::J(*final(x))
                },
                None => {
                    &&& !(*old(self) is J)
                    &&& *final(self) == *old(self)
                },
            },
    {
        match self {
            Self::J(x) => Some(x),
            _ => None,
        }
    }

    /// Returns the `J` value, if the cell holds one
    pub fn into_j(self) -> (r: Option<J>)
        ensures
            match r {
                Some(x) => self == Self::J(x),
                None => !(self is J),
            },
    {
        match self {
            Self::J(x) => Some(x),
            _ => None,
        }
    }

    /// Returns true if the cell holds the `K` variant
    pub fn is_k(&self) -> (r: bool)
        ensures
            r == (*self is K),
    {
        match self {
            Self::K(_) => true,
            _ => false,
        }
    }

    /// Returns a reference to the `K` value, if the cell holds one
    pub fn as_k(&self) -> (r: Option<&K>)
        ensures
            match r {
                Some(x) => *self == Self::K(*x),
                None => !(*self is K),
            },
    {
        match self {
            Self::K(x) => Some(x),
            _ => None,
        }
    }

    /// Returns a mutable reference to the `K` value, if the cell holds one
    pub fn as_mut_k(&mut self) -> (r: Option<&mut K>)
        ensures
            match r {
                Some(x) => {
                    &&& *old(self) == Self::K(*x)
                    &&& *final(self) == Self::K(*final(x))
                },
                None => {
                    &&& !(*old(self) is K)
                    &&& *final(self) == *old(self)
                },
            },
    {
        match self {
            Self::K(x) => Some(x),
            _ => None,
        }
    }

    /// Returns the `K` value, if the cell holds one
    pub fn into_k(self) -> (r: Option<K>)
        ensures
            match r {
                Some(x) => self == Self::K(x),
                None => !(self is K),
            },
    {
        match self {
            Self::K(x) => Some(x),
            _ => None,
        }
    }

    /// Returns true if the cell holds the `L` variant
    pub fn is_l(&self) -> (r: bool)
        ensures
            r == (*self is L),
    {
        match self {
            Self::L(_) => true,
            _ => false,
        }
    }

    /// Returns a reference to the `L` value, if the cell holds one
    pub fn as_l(&self) -> (r: Option<&L>)
        ensures
            match r {
                Some(x) => *self == Self::L(*x),
                None => !(*self is L),
            },
    {
        match self {
            Self::L(x) => Some(x),
            _ => None,
        }
    }

    /// Returns a mutable reference to the `L` value, if the cell holds one
    pub fn as_mut_l(&mut self) -> (r: Option<&mut L>)
        ensures
            match r {
                Some(x) => {
                    &&& *old(self) == Self::L(*x)
                    &&& *final(self) == Self::L(*final(x))
                },
                None => {
                    &&& !(*old(self) is L)
                    &&& *final(self) == *old(self)
                },
            },
    {
        match self {
            Self::L(x) => Some(x),
            _ => None,
        }
    }

    /// Returns the `L` value, if the cell holds one
    pub fn into_l(self) -> (r: Option<L>)
        ensures
            match r {
                Some(x) => self == Self::L(x),
                None => !(self is L),
            },
    {
        match self {
            Self::L(x) => Some(x),
            _ => None,
        }
    }

    /// Returns true if the cell holds the `M` variant
    pub fn is_m(&self) -> (r: bool)
        ensures
            r == (*self is M),
    {
        match self {
            Self::M(_) => true,
            _ => false,
        }
    }

    /// Returns a reference to the `M` value, if the cell holds one
    pub fn as_m(&self) -> (r: Option<&M>)
        ensures
            match r {
                Some(x) => *self == Self::M(*x),
                None => !(*self is M),
            },
    {
        match self {
            Self::M(x) => Some(x),
            _ => None,
        }
    }

    /// Returns a mutable reference to the `M` value, if the cell holds one
    pub fn as_mut_m(&mut self) -> (r: Option<&mut M>)
        ensures
            match r {
                Some(x) => {
                    &&& *old(self) == Self::M(*x)
                    &&& *final(self) == Self::M(*final(x))
                },
                None => {
                    &&& !(*old(self) is M)
                    &&& *final(self) == *old(self)
                },
            },
    {
        match self {
            Self::M(x) => Some(x),
            _ => None,
        }
    }

    /// Returns the `M` value, if the cell holds one
    pub fn into_m(self) -> (r: Option<M>)
        ensures
            match r {
                Some(x) => self == Self::M(x),
                None => !(self is M),
            },
    {
        match self {
            Self::M(x) => Some(x),
            _ => None,
        }
    }

    /// Returns true if the cell holds the `N` variant
    pub fn is_n(&self) -> (r: bool)
        ensures
            r == (*self is N),
    {
        match self {
            Self::N(_) => true,
            _ => false,
        }
    }

    /// Returns a reference to the `N` value, if the cell holds one
    pub fn as_n(&self) -> (r: Option<&N>)
        ensures
            match r {
                Some(x) => *self == Self::N(*x),
                None => !(*self is N),
            },
    {
        match self {
            Self::N(x) => Some(x),
            _ => None,
        }
    }

    /// Returns a mutable reference to the `N` value, if the cell holds one
    pub fn as_mut_n(&mut self) -> (r: Option<&mut N>)
        ensures
            match r {
                Some(x) => {
                    &&& *old(self) == Self::N(*x)
                    &&& *final(self) == Self::N(*final(x))
                },
                None => {
                    &&& !(*old(self) is N)
                    &&& *final(self) == *old(self)
                },
            },
    {
        match self {
            Self::N(x) => Some(x),
            _ => None,
        }
    }

    /// Returns the `N` value, if the cell holds one
    pub fn into_n(self) -> (r: Option<N>)
        ensures
            match r {
                Some(x) => self == Self::N(x),
                None => !(self is N),
            },
    {
        match self {
            Self::N(x) => Some(x),
            _ => None,
        }
    }

    /// Returns true if the cell holds the `O` variant
    pub fn is_o(&self) -> (r: bool)
        ensures
            r == (*self is O),
    {
        match self {
            Self::O(_) => true,
            _ => false,
        }
    }

    /// Returns a reference to the `O` value, if the cell holds one
    pub fn as_o(&self) -> (r: Option<&O>)
        ensures
            match r {
                Some(x) => *self == Self::O(*x),
                None => !(*self is O),
            },
    {
        match self {
            Self::O(x) => Some(x),
            _ => None,
        }
    }

    /// Returns a mutable reference to the `O` value, if the cell holds one
    pub fn as_mut_o(&mut self) -> (r: Option<&mut O>)
        ensures
            match r {
                Some(x) => {
                    &&& *old(self) == Self::O(*x)
                    &&& *final(self) == Self::O(*final(x))
                },
                None => {
                    &&& !(*old(self) is O)
                    &&& *final(self) == *old(self)
                },
            },
    {
        match self {
            Self::O(x) => Some(x),
            _ => None,
        }
    }

    /// Returns the `O` value, if the cell holds one
    pub fn into_o(self) -> (r: Option<O>)
        ensures
            match r {
                Some(x) => self == Self::O(x),
                None => !(self is O),
            },
    {
        match self {
            Self::O(x) => Some(x),
            _ => None,
        }
    }

    /// Returns true if the cell holds the `P` variant
    pub fn is_p(&self) -> (r: bool)
        ensures
            r == (*self is P),
    {
        match self {
            Self::P(_) => true,
            _ => false,
        }
    }

    /// Returns a reference to the `P` value, if the cell holds one
    pub fn as_p(&self) -> (r: Option<&P>)
        ensures
            match r {
                Some(x) => *self == Self::P(*x),
                None => !(*self is P),
            },
    {
        match self {
            Self::P(x) => Some(x),
            _ => None,
        }
    }

    /// Returns a mutable reference to the `P` value, if the cell holds one
    pub fn as_mut_p(&mut self) -> (r: Option<&mut P>)
        ensures
            match r {
                Some(x) => {
                    &&& *old(self) == Self::P(*x)
                    &&& *final(self) == Self::P(*final(x))
                },
                None => {
                    &&& !(*old(self) is P)
                    &&& *final(self) == *old(self)
                },
            },
    {
        match self {
            Self::P(x) => Some(x),
            _ => None,
        }
    }

    /// Returns the `P` value, if the cell holds one
    pub fn into_p(self) -> (r: Option<P>)
        ensures
            match r {
                Some(x) => self == Self::P(x),
                None => !(self is P),
            },
    {
        match self {
            Self::P(x) => Some(x),
            _ => None,
        }
    }

    /// Returns true if the cell holds the `Q` variant
    pub fn is_q(&self) -> (r: bool)
        ensures
            r == (*self is Q),
    {
        match self {
            Self::Q(_) => true,
            _ => false,
        }
    }

    /// Returns a reference to the `Q` value, if the cell holds one
    pub fn as_q(&self) -> (r: Option<&Q>)
        ensures
            match r {
                Some(x) => *self == Self::Q(*x),
                None => !(*self is Q),
            },
    {
        match self {
            Self::Q(x) => Some(x),
            _ => None,
        }
    }

    /// Returns a mutable reference to the `Q` value, if the cell holds one
    pub fn as_mut_q(&mut self) -> (r: Option<&mut Q>)
        ensures
            match r {
                Some(x) => {
                    &&& *old(self) == Self::Q(*x)
                    &&& *final(self) == Self::Q(*final(x))
                },
                None => {
                    &&& !(*old(self) is Q)
                    &&& *final(self) == *old(self)
                },
            },
    {
        match self {
            Self::Q(x) => Some(x),
            _ => None,
        }
    }

    /// Returns the `Q` value, if the cell holds one
    pub fn into_q(self) -> (r: Option<Q>)
        ensures
            match r {
                Some(x) => self == Self::Q(x),
                None => !(self is Q),
            },
    {
        match self {
            Self::Q(x) => Some(x),
            _ => None,
        }
    }

    /// Returns true if the cell holds the `R` variant
    pub fn is_r(&self) -> (r: bool)
        ensures
            r == (*self is R),
    {
        match self {
            Self::R(_) => true,
            _ => false,
        }
    }

    /// Returns a reference to the `R` value, if the cell holds one
    pub fn as_r(&self) -> (r: Option<&R>)
        ensures
            match r {
                Some(x) => *self == Self::R(*x),
                None => !(*self is R),
            },
    {
        match self {
            Self::R(x) => Some(x),
            _ => None,
        }
    }

    /// Returns a mutable reference to the `R` value, if the cell holds one
    pub fn as_mut_r(&mut self) -> (r: Option<&mut R>)
        ensures
            match r {
                Some(x) => {
                    &&& *old(self) == Self::R(*x)
                    &&& *final(self) == Self::R(*final(x))
                },
                None => {
                    &&& !(*old(self) is R)
                    &&& *final(self) == *old(self)
                },
            },
    {
        match self {
            Self::R(x) => Some(x),
            _ => None,
        }
    }

    /// Returns the `R` value, if the cell holds one
    pub fn into_r(self) -> (r: Option<R>)
        ensures
            match r {
                Some(x) => self == Self::R(x),
                None => !(self is R),
            },
    {
        match self {
            Self::R(x) => Some(x),
            _ => None,
        }
    }

    /// Returns true if the cell holds the `S` variant
    pub fn is_s(&self) -> (r: bool)
        ensures
            r == (*self is S),
    {
        match self {
            Self::S(_) => true,
            _ => false,
        }
    }

    /// Returns a reference to the `S` value, if the cell holds one
    pub fn as_s(&self) -> (r: Option<&S>)
        ensures
            match r {
                Some(x) => *self == Self::S(*x),
                None => !(*self is S),
            },
    {
        match self {
            Self::S(x) => Some(x),
            _ => None,
        }
    }

    /// Returns a mutable reference to the `S` value, if the cell holds one
    pub fn as_mut_s(&mut self) -> (r: Option<&mut S>)
        ensures
            match r {
                Some(x) => {
                    &&& *old(self) == Self::S(*x)
                    &&& *final(self) == Self::S(*final(x))
                },
                None => {
                    &&& !(*old(self) is S)
                    &&& *final(self) == *old(self)
                },
            },
    {
        match self {
            Self::S(x) => Some(x),
            _ => None,
        }
    }

    /// Returns the `S` value, if the cell holds one
    pub fn into_s(self) -> (r: Option<S>)
        ensures
            match r {
                Some(x) => self == Self::S(x),
                None => !(self is S),
            },
    {
        match self {
            Self::S(x) => Some(x),
            _ => None,
        }
    }

    /// Returns true if the cell holds the `T` variant
    pub fn is_t(&self) -> (r: bool)
        ensures
            r == (*self is T),
    {
        match self {
            Self::T(_) => true,
            _ => false,
        }
    }

    /// Returns a reference to the `T` value, if the cell holds one
    pub fn as_t(&self) -> (r: Option<&T>)
        ensures
            match r {
                Some(x) => *self == Self::T(*x),
                None => !(*self is T),
            },
    {
        match self {
            Self::T(x) => Some(x),
            _ => None,
        }
    }

    /// Returns a mutable reference to the `T` value, if the cell holds one
    pub fn as_mut_t(&mut self) -> (r: Option<&mut T>)
        ensures
            match r {
                Some(x) => {
                    &&& *old(self) == Self::T(*x)
                    &&& *final(self) == Self::T(*final(x))
                },
                None => {
                    &&& !(*old(self) is T)
                    &&& *final(self) == *old(self)
                },
            },
    {
        match self {
            Self::T(x) => Some(x),
            _ => None,
        }
    }

    /// Returns the `T` value, if the cell holds one
    pub fn into_t(self) -> (r: Option<T>)
        ensures
            match r {
                Some(x) => self == Self::T(x),
                None => !(self is T),
            },
    {
        match self {
            Self::T(x) => Some(x),
            _ => None,
        }
    }
}

/// A cell that holds a value of one of 21 types, one variant per type
#[derive(Copy, Clone, Debug, PartialEq, Eq, Hash, PartialOrd, Ord)]
pub enum Cell21<A, B, C, D, E, F, G, H, I, J, K, L, M, N, O, P, Q, R, S, T, U> {
    A(A),
    B(B),
    C(C),
    D(D),
    E(E),
    F(F),
    G(G),
    H(H),
    I(I),
    J(J),
    K(K),
    L(L),
    M(M),
    N(N),
    O(O),
    P(P),
    Q(Q),
    R(R),
    S(S),
    T(T),
    U(U),
}

impl<A, B, C, D, E, F, G, H, I, J, K, L, M, N, O, P, Q, R, S, T, U> Cell21<A, B, C, D, E, F, G, H, I, J, K, L, M, N, O, P, Q, R, S, T, U> {
    /// Returns true if the cell holds the `A` variant
    pub fn is_a(&self) -> (r: bool)
        ensures
            r == (*self is A),
    {
        match self {
            Self::A(_) => true,
            _ => false,
        }
    }

    /// Returns a reference to the `A` value, if the cell holds one
    pub fn as_a(&self) -> (r: Option<&A>)
        ensures
            match r {
                Some(x) => *self == Self::A(*x),
                None => !(*self is A),
            },
    {
        match self {
            Self::A(x) => Some(x),
            _ => None,
        }
    }

    /// Returns a mutable reference to the `A` value, if the cell holds one
    pub fn as_mut_a(&mut self) -> (r: Option<&mut A>)
        ensures
            match r {
                Some(x) => {
                    &&& *old(self) == Self::A(*x)
                    &&& *final(self) == Self::A(*final(x))
                },
                None => {
                    &&& !(*old(self) is A)
                    &&& *final(self) == *old(self)
                },
            },
    {
        match self {
            Self::A(x) => Some(x),
            _ => None,
        }
    }

    /// Returns the `A` value, if the cell holds one
    pub fn into_a(self) -> (r: Option<A>)
        ensures
            match r {
                Some(x) => self == Self::A(x),
                None => !(self is A),
            },
    {
        match self {
            Self::A(x) => Some(x),
            _ => None,
        }
    }

    /// Returns true if the cell holds the `B` variant
    pub fn is_b(&self) -> (r: bool)
        ensures
            r == (*self is B),
    {
        match self {
            Self::B(_) => true,
            _ => false,
        }
    }

    /// Returns a reference to the `B` value, if the cell holds one
    pub fn as_b(&self) -> (r: Option<&B>)
        ensures
            match r {
                Some(x) => *self == Self::B(*x),
                None => !(*self is B),
            },
    {
        match self {
            Self::B(x) => Some(x),
            _ => None,
        }
    }

    /// Returns a mutable reference to the `B` value, if the cell holds one
    pub fn as_mut_b(&mut self) -> (r: Option<&mut B>)
        ensures
            match r {
                Some(x) => {
                    &&& *old(self) == Self::B(*x)
                    &&& *final(self) == Self::B(*final(x))
                },
                None => {
                    &&& !(*old(self) is B)
                    &&& *final(self) == *old(self)
                },
            },
    {
        match self {
            Self::B(x) => Some(x),
            _ => None,
        }
    }

    /// Returns the `B` value, if the cell holds one
    pub fn into_b(self) -> (r: Option<B>)
        ensures
            match r {
                Some(x) => self == Self::B(x),
                None => !(self is B),
            },
    {
        match self {
            Self::B(x) => Some(x),
            _ => None,
        }
    }

    /// Returns true if the cell holds the `C` variant
    pub fn is_c(&self) -> (r: bool)
        ensures
            r == (*self is C),
    {
        match self {
            Self::C(_) => true,
            _ => false,
        }
    }

    /// Returns a reference to the `C` value, if the cell holds one
    pub fn as_c(&self) -> (r: Option<&C>)
        ensures
            match r {
                Some(x) => *self == Self::C(*x),
                None => !(*self is C),
            },
    {
        match self {
            Self::C(x) => Some(x),
            _ => None,
        }
    }

    /// Returns a mutable reference to the `C` value, if the cell holds one
    pub fn as_mut_c(&mut self) -> (r: Option<&mut C>)
        ensures
            match r {
                Some(x) => {
                    &&& *old(self) == Self::C(*x)
                    &&& *final(self) == Self::C(*final(x))
                },
                None => {
                    &&& !(*old(self) is C)
                    &&& *final(self) == *old(self)
                },
            },
    {
        match self {
            Self::C(x) => Some(x),
            _ => None,
        }
    }

    /// Returns the `C` value, if the cell holds one
    pub fn into_c(self) -> (r: Option<C>)
        ensures
            match r {
                Some(x) => self == Self::C(x),
                None => !(self is C),
            },
    {
        match self {
            Self::C(x) => Some(x),
            _ => None,
        }
    }

    /// Returns true if the cell holds the `D` variant
    pub fn is_d(&self) -> (r: bool)
        ensures
            r == (*self is D),
    {
        match self {
            Self::D(_) => true,
            _ => false,
        }
    }

    /// Returns a reference to the `D` value, if the cell holds one
    pub fn as_d(&self) -> (r: Option<&D>)
        ensures
            match r {
                Some(x) => *self == Self::D(*x),
                None => !(*self is D),
            },
    {
        match self {
            Self::D(x) => Some(x),
            _ => None,
        }
    }

    /// Returns a mutable reference to the `D` value, if the cell holds one
    pub fn as_mut_d(&mut self) -> (r: Option<&mut D>)
        ensures
            match r {
                Some(x) => {
                    &&& *old(self) == Self::D(*x)
                    &&& *final(self) == Self::D(*final(x))
                },
                None => {
                    &&& !(*old(self) is D)
                    &&& *final(self) == *old(self)
                },
            },
    {
        match self {
            Self::D(x) => Some(x),
            _ => None,
        }
    }

    /// Returns the `D` value, if the cell holds one
    pub fn into_d(self) -> (r: Option<D>)
        ensures
            match r {
                Some(x) => self == Self::D(x),
                None => !(self is D),
            },
    {
        match self {
            Self::D(x) => Some(x),
            _ => None,
        }
    }

    /// Returns true if the cell holds the `E` variant
    pub fn is_e(&self) -> (r: bool)
        ensures
            r == (*self is E),
    {
        match self {
            Self::E(_) => true,
            _ => false,
        }
    }

    /// Returns a reference to the `E` value, if the cell holds one
    pub fn as_e(&self) -> (r: Option<&E>)
        ensures
            match r {
                Some(x) => *self == Self::E(*x),
                None => !(*self is E),
            },
    {
        match self {
            Self::E(x) => Some(x),
            _ => None,
        }
    }

    /// Returns a mutable reference to the `E` value, if the cell holds one
    pub fn as_mut_e(&mut self) -> (r: Option<&mut E>)
        ensures
            match r {
                Some(x) => {
                    &&& *old(self) == Self::E(*x)
                    &&& *final(self) == Self::E(*final(x))
                },
                None => {
                    &&& !(*old(self) is E)
                    &&& *final(self) == *old(self)
                },
            },
    {
        match self {
            Self::E(x) => Some(x),
            _ => None,
        }
    }

    /// Returns the `E` value, if the cell holds one
    pub fn into_e(self) -> (r: Option<E>)
        ensures
            match r {
                Some(x) => self == Self::E(x),
                None => !(self is E),
            },
    {
        match self {
            Self::E(x) => Some(x),
            _ => None,
        }
    }

    /// Returns true if the cell holds the `F` variant
    pub fn is_f(&self) -> (r: bool)
        ensures
            r == (*self is F),
    {
        match self {
            Self::F(_) => true,
            _ => false,
        }
    }

    /// Returns a reference to the `F` value, if the cell holds one
    pub fn as_f(&self) -> (r: Option<&F>)
        ensures
            match r {
                Some(x) => *self == Self::F(*x),
                None => !(*self is F),
            },
    {
        match self {
            Self::F(x) => Some(x),
            _ => None,
        }
    }

    /// Returns a mutable reference to the `F` value, if the cell holds one
    pub fn as_mut_f(&mut self) -> (r: Option<&mut F>)
        ensures
            match r {
                Some(x) => {
                    &&& *old(self) == Self::F(*x)
                    &&& *final(self) == Self::F(*final(x))
                },
                None => {
                    &&& !(*old(self) is F)
                    &&& *final(self) == *old(self)
                },
            },
    {
        match self {
            Self::F(x) => Some(x),
            _ => None,
        }
    }

    /// Returns the `F` value, if the cell holds one
    pub fn into_f(self) -> (r: Option<F>)
        ensures
            match r {
                Some(x) => self == Self::F(x),
                None => !(self is F),
            },
    {
        match self {
            Self::F(x) => Some(x),
            _ => None,
        }
    }

    /// Returns true if the cell holds the `G` variant
    pub fn is_g(&self) -> (r: bool)
        ensures
            r == (*self is G),
    {
        match self {
            Self::G(_) => true,
            _ => false,
        }
    }

    /// Returns a reference to the `G` value, if the cell holds one
    pub fn as_g(&self) -> (r: Option<&G>)
        ensures
            match r {
                Some(x) => *self == Self::G(*x),
                None => !(*self is G),
            },
    {
        match self {
            Self::G(x) => Some(x),
            _ => None,
        }
    }

    /// Returns a mutable reference to the `G` value, if the cell holds one
    pub fn as_mut_g(&mut self) -> (r: Option<&mut G>)
        ensures
            match r {
                Some(x) => {
                    &&& *old(self) == Self::G(*x)
                    &&& *final(self) == Self::G(*final(x))
                },
                None => {
                    &&& !(*old(self) is G)
                    &&& *final(self) == *old(self)
                },
            },
    {
        match self {
            Self::G(x) => Some(x),
            _ => None,
        }
    }

    /// Returns the `G` value, if the cell holds one
    pub fn into_g(self) -> (r: Option<G>)
        ensures
            match r {
                Some(x) => self == Self::G(x),
                None => !(self is G),
            },
    {
        match self {
            Self::G(x) => Some(x),
            _ => None,
        }
    }

    /// Returns true if the cell holds the `H` variant
    pub fn is_h(&self) -> (r: bool)
        ensures
            r == (*self is H),
    {
        match self {
            Self::H(_) => true,
            _ => false,
        }
    }

    /// Returns a reference to the `H` value, if the cell holds one
    pub fn as_h(&self) -> (r: Option<&H>)
        ensures
            match r {
                Some(x) => *self == Self::H(*x),
                None => !(*self is H),
            },
    {
        match self {
            Self::H(x) => Some(x),
            _ => None,
        }
    }

    /// Returns a mutable reference to the `H` value, if the cell holds one
    pub fn as_mut_h(&mut self) -> (r: Option<&mut H>)
        ensures
            match r {
                Some(x) => {
                    &&& *old(self) == Self::H(*x)
                    &&& *final(self) == Self::H(*final(x))
                },
                None => {
                    &&& !(*old(self) is H)
                    &&& *final(self) == *old(self)
                },
            },
    {
        match self {
            Self::H(x) => Some(x),
            _ => None,
        }
    }

    /// Returns the `H` value, if the cell holds one
    pub fn into_h(self) -> (r: Option<H>)
        ensures
            match r {
                Some(x) => self == Self::H(x),
                None => !(self is H),
            },
    {
        match self {
            Self::H(x) => Some(x),
            _ => None,
        }
    }

    /// Returns true if the cell holds the `I` variant
    pub fn is_i(&self) -> (r: bool)
        ensures
            r == (*self is I),
    {
        match self {
            Self::I(_) => true,
            _ => false,
        }
    }

    /// Returns a reference to the `I` value, if the cell holds one
    pub fn as_i(&self) -> (r: Option<&I>)
        ensures
            match r {
                Some(x) => *self == Self::I(*x),
                None => !(*self is I),
            },
    {
        match self {
            Self::I(x) => Some(x),
            _ => None,
        }
    }

    /// Returns a mutable reference to the `I` value, if the cell holds one
    pub fn as_mut_i(&mut self) -> (r: Option<&mut I>)
        ensures
            match r {
                Some(x) => {
                    &&& *old(self) == Self::I(*x)
                    &&& *final(self) == Self::I(*final(x))
                },
                None => {
                    &&& !(*old(self) is I)
                    &&& *final(self) == *old(self)
                },
            },
    {
        match self {
            Self::I(x) => Some(x),
            _ => None,
        }
    }

    /// Returns the `I` value, if the cell holds one
    pub fn into_i(self) -> (r: Option<I>)
        ensures
            match r {
                Some(x) => self == Self::I(x),
                None => !(self is I),
            },
    {
        match self {
            Self::I(x) => Some(x),
            _ => None,
        }
    }

    /// Returns true if the cell holds the `J` variant
    pub fn is_j(&self) -> (r: bool)
        ensures
            r == (*self is J),
    {
        match self {
            Self::J(_) => true,
            _ => false,
        }
    }

    /// Returns a reference to the `J` value, if the cell holds one
    pub fn as_j(&self) -> (r: Option<&J>)
        ensures
            match r {
                Some(x) => *self == Self::J(*x),
                None => !(*self is J),
            },
    {
        match self {
            Self::J(x) => Some(x),
            _ => None,
        }
    }

    /// Returns a mutable reference to the `J` value, if the cell holds one
    pub fn as_mut_j(&mut self) -> (r: Option<&mut J>)
        ensures
            match r {
                Some(x) => {
                    &&& *old(self) == Self::J(*x)
                    &&& *final(self) == Self::J(*final(x))
                },
                None => {
                    &&& !(*old(self) is J)
                    &&& *final(self) == *old(self)
                },
            },
    {
        match self {
            Self::J(x) => Some(x),
            _ => None,
        }
    }

    /// Returns the `J` value, if the cell holds one
    pub fn into_j(self) -> (r: Option<J>)
        ensures
            match r {
                Some(x) => self == Self::J(x),
                None => !(self is J),
            },
    {
        match self {
            Self::J(x) => Some(x),
            _ => None,
        }
    }

    /// Returns true if the cell holds the `K` variant
    pub fn is_k(&self) -> (r: bool)
        ensures
            r == (*self is K),
    {
        match self {
            Self::K(_) => true,
            _ => false,
        }
    }

    /// Returns a reference to the `K` value, if the cell holds one
    pub fn as_k(&self) -> (r: Option<&K>)
        ensures
            match r {
                Some(x) => *self == Self::K(*x),
                None => !(*self is K),
            },
    {
        match self {
            Self::K(x) => Some(x),
            _ => None,
        }
    }

    /// Returns a mutable reference to the `K` value, if the cell holds one
    pub fn as_mut_k(&mut self) -> (r: Option<&mut K>)
        ensures
            match r {
                Some(x) => {
                    &&& *old(self) == Self::K(*x)
                    &&& *final(self) == Self::K(*final(x))
                },
                None => {
                    &&& !(*old(self) is K)
                    &&& *final(self) == *old(self)
                },
            },
    {
        match self {
            Self::K(x) => Some(x),
            _ => None,
        }
    }

    /// Returns the `K` value, if the cell holds one
    pub fn into_k(self) -> (r: Option<K>)
        ensures
            match r {
                Some(x) => self == Self::K(x),
                None => !(self is K),
            },
    {
        match self {
            Self::K(x) => Some(x),
            _ => None,
        }
    }

    /// Returns true if the cell holds the `L` variant
    pub fn is_l(&self) -> (r: bool)
        ensures
            r == (*self is L),
    {
        match self {
            Self::L(_) => true,
            _ => false,
        }
    }

    /// Returns a reference to the `L` value, if the cell holds one
    pub fn as_l(&self) -> (r: Option<&L>)
        ensures
            match r {
                Some(x) => *self == Self::L(*x),
                None => !(*self is L),
            },
    {
        match self {
            Self::L(x) => Some(x),
            _ => None,
        }
    }

    /// Returns a mutable reference to the `L` value, if the cell holds one
    pub fn as_mut_l(&mut self) -> (r: Option<&mut L>)
        ensures
            match r {
                Some(x) => {
                    &&& *old(self) == Self::L(*x)
                    &&& *final(self) == Self::L(*final(x))
                },
                None => {
                    &&& !(*old(self) is L)
                    &&& *final(self) == *old(self)
                },
            },
    {
        match self {
            Self::L(x) => Some(x),
            _ => None,
        }
    }

    /// Returns the `L` value, if the cell holds one
    pub fn into_l(self) -> (r: Option<L>)
        ensures
            match r {
                Some(x) => self == Self::L(x),
                None => !(self is L),
            },
    {
        match self {
            Self::L(x) => Some(x),
            _ => None,
        }
    }

    /// Returns true if the cell holds the `M` variant
    pub fn is_m(&self) -> (r: bool)
        ensures
            r == (*self is M),
    {
        match self {
            Self::M(_) => true,
            _ => false,
        }
    }

    /// Returns a reference to the `M` value, if the cell holds one
    pub fn as_m(&self) -> (r: Option<&M>)
        ensures
            match r {
                Some(x) => *self == Self::M(*x),
                None => !(*self is M),
            },
    {
        match self {
            Self::M(x) => Some(x),
            _ => None,
        }
    }

    /// Returns a mutable reference to the `M` value, if the cell holds one
    pub fn as_mut_m(&mut self) -> (r: Option<&mut M>)
        ensures
            match r {
                Some(x) => {
                    &&& *old(self) == Self::M(*x)
                    &&& *final(self) == Self::M(*final(x))
                },
                None => {
                    &&& !(*old(self) is M)
                    &&& *final(self) == *old(self)
                },
            },
    {
        match self {
            Self::M(x) => Some(x),
            _ => None,
        }
    }

    /// Returns the `M` value, if the cell holds one
    pub fn into_m(self) -> (r: Option<M>)
        ensures
            match r {
                Some(x) => self == Self::M(x),
                None => !(self is M),
            },
    {
        match self {
            Self::M(x) => Some(x),
            _ => None,
        }
    }

    /// Returns true if the cell holds the `N` variant
    pub fn is_n(&self) -> (r: bool)
        ensures
            r == (*self is N),
    {
        match self {
            Self::N(_) => true,
            _ => false,
        }
    }

    /// Returns a reference to the `N` value, if the cell holds one
    pub fn as_n(&self) -> (r: Option<&N>)
        ensures
            match r {
                Some(x) => *self == Self::N(*x),
                None => !(*self is N),
            },
    {
        match self {
            Self::N(x) => Some(x),
            _ => None,
        }
    }

    /// Returns a mutable reference to the `N` value, if the cell holds one
    pub fn as_mut_n(&mut self) -> (r: Option<&mut N>)
        ensures
            match r {
                Some(x) => {
                    &&& *old(self) == Self::N(*x)
                    &&& *final(self) == Self::N(*final(x))
                },
                None => {
                    &&& !(*old(self) is N)
                    &&& *final(self) == *old(self)
                },
            },
    {
        match self {
            Self::N(x) => Some(x),
            _ => None,
        }
    }

    /// Returns the `N` value, if the cell holds one
    pub fn into_n(self) -> (r: Option<N>)
        ensures
            match r {
                Some(x) => self == Self::N(x),
                None => !(self is N),
            },
    {
        match self {
            Self::N(x) => Some(x),
            _ => None,
        }
    }

    /// Returns true if the cell holds the `O` variant
    pub fn is_o(&self) -> (r: bool)
        ensures
            r == (*self is O),
    {
        match self {
            Self::O(_) => true,
            _ => false,
        }
    }

    /// Returns a reference to the `O` value, if the cell holds one
    pub fn as_o(&self) -> (r: Option<&O>)
        ensures
            match r {
                Some(x) => *self == Self::O(*x),
                None => !(*self is O),
            },
    {
        match self {
            Self::O(x) => Some(x),
            _ => None,
        }
    }

    /// Returns a mutable reference to the `O` value, if the cell holds one
    pub fn as_mut_o(&mut self) -> (r: Option<&mut O>)
        ensures
            match r {
                Some(x) => {
                    &&& *old(self) == Self::O(*x)
                    &&& *final(self) == Self::O(*final(x))
                },
                None => {
                    &&& !(*old(self) is O)
                    &&& *final(self) == *old(self)
                },
            },
    {
        match self {
            Self::O(x) => Some(x),
            _ => None,
        }
    }

    /// Returns the `O` value, if the cell holds one
    pub fn into_o(self) -> (r: Option<O>)
        ensures
            match r {
                Some(x) => self == Self::O(x),
                None => !(self is O),
            },
    {
        match self {
            Self::O(x) => Some(x),
            _ => None,
        }
    }

    /// Returns true if the cell holds the `P` variant
    pub fn is_p(&self) -> (r: bool)
        ensures
            r == (*self is P),
    {
        match self {
            Self::P(_) => true,
            _ => false,
        }
    }

    /// Returns a reference to the `P` value, if the cell holds one
    pub fn as_p(&self) -> (r: Option<&P>)
        ensures
            match r {
                Some(x) => *self == Self::P(*x),
                None => !(*self is P),
            },
    {
        match self {
            Self::P(x) => Some(x),
            _ => None,
        }
    }

    /// Returns a mutable reference to the `P` value, if the cell holds one
    pub fn as_mut_p(&mut self) -> (r: Option<&mut P>)
        ensures
            match r {
                Some(x) => {
                    &&& *old(self) == Self::P(*x)
                    &&& *final(self) == Self::P(*final(x))
                },
                None => {
                    &&& !(*old(self) is P)
                    &&& *final(self) == *old(self)
                },
            },
    {
        match self {
            Self::P(x) => Some(x),
            _ => None,
        }
    }

    /// Returns the `P` value, if the cell holds one
    pub fn into_p(self) -> (r: Option<P>)
        ensures
            match r {
                Some(x) => self == Self::P(x),
                None => !(self is P),
            },
    {
        match self {
            Self::P(x) => Some(x),
            _ => None,
        }
    }

    /// Returns true if the cell holds the `Q` variant
    pub fn is_q(&self) -> (r: bool)
        ensures
            r == (*self is Q),
    {
        match self {
            Self::Q(_) => true,
            _ => false,
        }
    }

    /// Returns a reference to the `Q` value, if the cell holds one
    pub fn as_q(&self) -> (r: Option<&Q>)
        ensures
            match r {
                Some(x) => *self == Self::Q(*x),
                None => !(*self is Q),
            },
    {
        match self {
            Self::Q(x) => Some(x),
            _ => None,
        }
    }

    /// Returns a mutable reference to the `Q` value, if the cell holds one
    pub fn as_mut_q(&mut self) -> (r: Option<&mut Q>)
        ensures
            match r {
                Some(x) => {
                    &&& *old(self) == Self::Q(*x)
                    &&& *final(self) == Self::Q(*final(x))
                },
                None => {
                    &&& !(*old(self) is Q)
                    &&& *final(self) == *old(self)
                },
            },
    {
        match self {
            Self::Q(x) => Some(x),
            _ => None,
        }
    }

    /// Returns the `Q` value, if the cell holds one
    pub fn into_q(self) -> (r: Option<Q>)
        ensures
            match r {
                Some(x) => self == Self::Q(x),
                None => !(self is Q),
            },
    {
        match self {
            Self::Q(x) => Some(x),
            _ => None,
        }
    }

    /// Returns true if the cell holds the `R` variant
    pub fn is_r(&self) -> (r: bool)
        ensures
            r == (*self is R),
    {
        match self {
            Self::R(_) => true,
            _ => false,
        }
    }

    /// Returns a reference to the `R` value, if the cell holds one
    pub fn as_r(&self) -> (r: Option<&R>)
        ensures
            match r {
                Some(x) => *self == Self::R(*x),
                None => !(*self is R),
            },
    {
        match self {
            Self::R(x) => Some(x),
            _ => None,
        }
    }

    /// Returns a mutable reference to the `R` value, if the cell holds one
    pub fn as_mut_r(&mut self) -> (r: Option<&mut R>)
        ensures
            match r {
                Some(x) => {
                    &&& *old(self) == Self::R(*x)
                    &&& *final(self) == Self::R(*final(x))
                },
                None => {
                    &&& !(*old(self) is R)
                    &&& *final(self) == *old(self)
                },
            },
    {
        match self {
            Self::R(x) => Some(x),
            _ => None,
        }
    }

    /// Returns the `R` value, if the cell holds one
    pub fn into_r(self) -> (r: Option<R>)
        ensures
            match r {
                Some(x) => self == Self::R(x),
                None => !(self is R),
            },
    {
        match self {
            Self::R(x) => Some(x),
            _ => None,
        }
    }

    /// Returns true if the cell holds the `S` variant
    pub fn is_s(&self) -> (r: bool)
        ensures
            r == (*self is S),
    {
        match self {
            Self::S(_) => true,
            _ => false,
        }
    }

    /// Returns a reference to the `S` value, if the cell holds one
    pub fn as_s(&self) -> (r: Option<&S>)
        ensures
            match r {
                Some(x) => *self == Self::S(*x),
                None => !(*self is S),
            },
    {
        match self {
            Self::S(x) => Some(x),
            _ => None,
        }
    }

    /// Returns a mutable reference to the `S` value, if the cell holds one
    pub fn as_mut_s(&mut self) -> (r: Option<&mut S>)
        ensures
            match r {
                Some(x) => {
                    &&& *old(self) == Self::S(*x)
                    &&& *final(self) == Self::S(*final(x))
                },
                None => {
                    &&& !(*old(self) is S)
                    &&& *final(self) == *old(self)
                },
            },
    {
        match self {
            Self::S(x) => Some(x),
            _ => None,
        }
    }

    /// Returns the `S` value, if the cell holds one
    pub fn into_s(self) -> (r: Option<S>)
        ensures
            match r {
                Some(x) => self == Self::S(x),
                None => !(self is S),
            },
    {
        match self {
            Self::S(x) => Some(x),
            _ => None,
        }
    }

    /// Returns true if the cell holds the `T` variant
    pub fn is_t(&self) -> (r: bool)
        ensures
            r == (*self is T),
    {
        match self {
            Self::T(_) => true,
            _ => false,
        }
    }

    /// Returns a reference to the `T` value, if the cell holds one
    pub fn as_t(&self) -> (r: Option<&T>)
        ensures
            match r {
                Some(x) => *self == Self::T(*x),
                None => !(*self is T),
            },
    {
        match self {
            Self::T(x) => Some(x),
            _ => None,
        }
    }

    /// Returns a mutable reference to the `T` value, if the cell holds one
    pub fn as_mut_t(&mut self) -> (r: Option<&mut T>)
        ensures
            match r {
                Some(x) => {
                    &&& *old(self) == Self::T(*x)
                    &&& *final(self) == Self::T(*final(x))
                },
                None => {
                    &&& !(*old(self) is T)
                    &&& *final(self) == *old(self)
                },
            },
    {
        match self {
            Self::T(x) => Some(x),
            _ => None,
        }
    }

    /// Returns the `T` value, if the cell holds one
    pub fn into_t(self) -> (r: Option<T>)
        ensures
            match r {
                Some(x) => self == Self::T(x),
                None => !(self is T),
            },
    {
        match self {
            Self::T(x) => Some(x),
            _ => None,
        }
    }

    /// Returns true if the cell holds the `U` variant
    pub fn is_u(&self) -> (r: bool)
        ensures
            r == (*self is U),
    {
        match self {
            Self::U(_) => true,
            _ => false,
        }
    }

    /// Returns a reference to the `U` value, if the cell holds one
    pub fn as_u(&self) -> (r: Option<&U>)
        ensures
            match r {
                Some(x) => *self == Self::U(*x),
                None => !(*self is U),
            },
    {
        match self {
            Self::U(x) => Some(x),
            _ => None,
        }
    }

    /// Returns a mutable reference to the `U` value, if the cell holds one
    pub fn as_mut_u(&mut self) -> (r: Option<&mut U>)
        ensures
            match r {
                Some(x) => {
                    &&& *old(self) == Self::U(*x)
                    &&& *final(self) == Self::U(*final(x))
                },
                None => {
                    &&& !(*old(self) is U)
                    &&& *final(self) == *old(self)
                },
            },
    {
        match self {
            Self::U(x) => Some(x),
            _ => None,
        }
    }

    /// Returns the `U` value, if the cell holds one
    pub fn into_u(self) -> (r: Option<U>)
        ensures
            match r {
                Some(x) => self == Self::U(x),
                None => !(self is U),
            },
    {
        match self {
            Self::U(x) => Some(x),
            _ => None,
        }
    }
}

/// A cell that holds a value of one of 22 types, one variant per type
#[derive(Copy, Clone, Debug, PartialEq, Eq, Hash, PartialOrd, Ord)]
pub enum Cell22<A, B, C, D, E, F, G, H, I, J, K, L, M, N, O, P, Q, R, S, T, U, V> {
    A(A),
    B(B),
    C(C),
    D(D),
    E(E),
    F(F),
    G(G),
    H(H),
    I(I),
    J(J),
    K(K),
    L(L),
    M(M),
    N(N),
    O(O),
    P(P),
    Q(Q),
    R(R),
    S(S),
    T(T),
    U(U),
    V(V),
}

impl<A, B, C, D, E, F, G, H, I, J, K, L, M, N, O, P, Q, R, S, T, U, V> Cell22<A, B, C, D, E, F, G, H, I, J, K, L, M, N, O, P, Q, R, S, T, U, V> {
    /// Returns true if the cell holds the `A` variant
    pub fn is_a(&self) -> (r: bool)
        ensures
            r == (*self is A),
    {
        match self {
            Self::A(_) => true,
            _ => false,
        }
    }

    /// Returns a reference to the `A` value, if the cell holds one
    pub fn as_a(&self) -> (r: Option<&A>)
        ensures
            match r {
                Some(x) => *self == Self::A(*x),
                None => !(*self is A),
            },
    {
        match self {
            Self::A(x) => Some(x),
            _ => None,
        }
    }

    /// Returns a mutable reference to the `A` value, if the cell holds one
    pub fn as_mut_a(&mut self) -> (r: Option<&mut A>)
        ensures
            match r {
                Some(x) => {
                    &&& *old(self) == Self::A(*x)
                    &&& *final(self) == Self::A(*final(x))
                },
                None => {
                    &&& !(*old(self) is A)
                    &&& *final(self) == *old(self)
                },
            },
    {
        match self {
            Self::A(x) => Some(x),
            _ => None,
        }
    }

    /// Returns the `A` value, if the cell holds one
    pub fn into_a(self) -> (r: Option<A>)
        ensures
            match r {
                Some(x) => self == Self::A(x),
                None => !(self is A),
            },
    {
        match self {
            Self::A(x) => Some(x),
            _ => None,
        }
    }

    /// Returns true if the cell holds the `B` variant
    pub fn is_b(&self) -> (r: bool)
        ensures
            r == (*self is B),
    {
        match self {
            Self::B(_) => true,
            _ => false,
        }
    }

    /// Returns a reference to the `B` value, if the cell holds one
    pub fn as_b(&self) -> (r: Option<&B>)
        ensures
            match r {
                Some(x) => *self == Self::B(*x),
                None => !(*self is B),
            },
    {
        match self {
            Self::B(x) => Some(x),
            _ => None,
        }
    }

    /// Returns a mutable reference to the `B` value, if the cell holds one
    pub fn as_mut_b(&mut self) -> (r: Option<&mut B>)
        ensures
            match r {
                Some(x) => {
                    &&& *old(self) == Self::B(*x)
                    &&& *final(self) == Self::B(*final(x))
                },
                None => {
                    &&& !(*old(self) is B)
                    &&& *final(self) == *old(self)
                },
            },
    {
        match self {
            Self::B(x) => Some(x),
            _ => None,
        }
    }

    /// Returns the `B` value, if the cell holds one
    pub fn into_b(self) -> (r: Option<B>)
        ensures
            match r {
                Some(x) => self == Self::B(x),
                None => !(self is B),
            },
    {
        match self {
            Self::B(x) => Some(x),
            _ => None,
        }
    }

    /// Returns true if the cell holds the `C` variant
    pub fn is_c(&self) -> (r: bool)
        ensures
            r == (*self is C),
    {
        match self {
            Self::C(_) => true,
            _ => false,
        }
    }

    /// Returns a reference to the `C` value, if the cell holds one
    pub fn as_c(&self) -> (r: Option<&C>)
        ensures
            match r {
                Some(x) => *self == Self::C(*x),
                None => !(*self is C),
            },
    {
        match self {
            Self::C(x) => Some(x),
            _ => None,
        }
    }

    /// Returns a mutable reference to the `C` value, if the cell holds one
    pub fn as_mut_c(&mut self) -> (r: Option<&mut C>)
        ensures
            match r {
                Some(x) => {
                    &&& *old(self) == Self::C(*x)
                    &&& *final(self) == Self::C(*final(x))
                },
                None => {
                    &&& !(*old(self) is C)
                    &&& *final(self) == *old(self)
                },
            },
    {
        match self {
            Self::C(x) => Some(x),
            _ => None,
        }
    }

    /// Returns the `C` value, if the cell holds one
    pub fn into_c(self) -> (r: Option<C>)
        ensures
            match r {
                Some(x) => self == Self::C(x),
                None => !(self is C),
            },
    {
        match self {
            Self::C(x) => Some(x),
            _ => None,
        }
    }

    /// Returns true if the cell holds the `D` variant
    pub fn is_d(&self) -> (r: bool)
        ensures
            r == (*self is D),
    {
        match self {
            Self::D(_) => true,
            _ => false,
        }
    }

    /// Returns a reference to the `D` value, if the cell holds one
    pub fn as_d(&self) -> (r: Option<&D>)
        ensures
            match r {
                Some(x) => *self == Self::D(*x),
                None => !(*self is D),
            },
    {
        match self {
            Self::D(x) => Some(x),
            _ => None,
        }
    }

    /// Returns a mutable reference to the `D` value, if the cell holds one
    pub fn as_mut_d(&mut self) -> (r: Option<&mut D>)
        ensures
            match r {
                Some(x) => {
                    &&& *old(self) == Self::D(*x)
                    &&& *final(self) == Self::D(*final(x))
                },
                None => {
                    &&& !(*old(self) is D)
                    &&& *final(self) == *old(self)
                },
            },
    {
        match self {
            Self::D(x) => Some(x),
            _ => None,
        }
    }

    /// Returns the `D` value, if the cell holds one
    pub fn into_d(self) -> (r: Option<D>)
        ensures
            match r {
                Some(x) => self == Self::D(x),
                None => !(self is D),
            },
    {
        match self {
            Self::D(x) => Some(x),
            _ => None,
        }
    }

    /// Returns true if the cell holds the `E` variant
    pub fn is_e(&self) -> (r: bool)
        ensures
            r == (*self is E),
    {
        match self {
            Self::E(_) => true,
            _ => false,
        }
    }

    /// Returns a reference to the `E` value, if the cell holds one
    pub fn as_e(&self) -> (r: Option<&E>)
        ensures
            match r {
                Some(x) => *self == Self::E(*x),
                None => !(*self is E),
            },
    {
        match self {
            Self::E(x) => Some(x),
            _ => None,
        }
    }

    /// Returns a mutable reference to the `E` value, if the cell holds one
    pub fn as_mut_e(&mut self) -> (r: Option<&mut E>)
        ensures
            match r {
                Some(x) => {
                    &&& *old(self) == Self::E(*x)
                    &&& *final(self) == Self::E(*final(x))
                },
                None => {
                    &&& !(*old(self) is E)
                    &&& *final(self) == *old(self)
                },
            },
    {
        match self {
            Self::E(x) => Some(x),
            _ => None,
        }
    }

    /// Returns the `E` value, if the cell holds one
    pub fn into_e(self) -> (r: Option<E>)
        ensures
            match r {
                Some(x) => self == Self::E(x),
                None => !(self is E),
            },
    {
        match self {
            Self::E(x) => Some(x),
            _ => None,
        }
    }

    /// Returns true if the cell holds the `F` variant
    pub fn is_f(&self) -> (r: bool)
        ensures
            r == (*self is F),
    {
        match self {
            Self::F(_) => true,
            _ => false,
        }
    }

    /// Returns a reference to the `F` value, if the cell holds one
    pub fn as_f(&self) -> (r: Option<&F>)
        ensures
            match r {
                Some(x) => *self == Self::F(*x),
                None => !(*self is F),
            },
    {
        match self {
            Self::F(x) => Some(x),
            _ => None,
        }
    }

    /// Returns a mutable reference to the `F` value, if the cell holds one
    pub fn as_mut_f(&mut self) -> (r: Option<&mut F>)
        ensures
            match r {
                Some(x) => {
                    &&& *old(self) == Self::F(*x)
                    &&& *final(self) == Self::F(*final(x))
                },
                None => {
                    &&& !(*old(self) is F)
                    &&& *final(self) == *old(self)
                },
            },
    {
        match self {
            Self::F(x) => Some(x),
            _ => None,
        }
    }

    /// Returns the `F` value, if the cell holds one
    pub fn into_f(self) -> (r: Option<F>)
        ensures
            match r {
                Some(x) => self == Self::F(x),
                None => !(self is F),
            },
    {
        match self {
            Self::F(x) => Some(x),
            _ => None,
        }
    }

    /// Returns true if the cell holds the `G` variant
    pub fn is_g(&self) -> (r: bool)
        ensures
            r == (*self is G),
    {
        match self {
            Self::G(_) => true,
            _ => false,
        }
    }

    /// Returns a reference to the `G` value, if the cell holds one
    pub fn as_g(&self) -> (r: Option<&G>)
        ensures
            match r {
                Some(x) => *self == Self::G(*x),
                None => !(*self is G),
            },
    {
        match self {
            Self::G(x) => Some(x),
            _ => None,
        }
    }

    /// Returns a mutable reference to the `G` value, if the cell holds one
    pub fn as_mut_g(&mut self) -> (r: Option<&mut G>)
        ensures
            match r {
                Some(x) => {
                    &&& *old(self) == Self::G(*x)
                    &&& *final(self) == Self::G(*final(x))
                },
                None => {
                    &&& !(*old(self) is G)
                    &&& *final(self) == *old(self)
                },
            },
    {
        match self {
            Self::G(x) => Some(x),
            _ => None,
        }
    }

    /// Returns the `G` value, if the cell holds one
    pub fn into_g(self) -> (r: Option<G>)
        ensures
            match r {
                Some(x) => self == Self::G(x),
                None => !(self is G),
            },
    {
        match self {
            Self::G(x) => Some(x),
            _ => None,
        }
    }

    /// Returns true if the cell holds the `H` variant
    pub fn is_h(&self) -> (r: bool)
        ensures
            r == (*self is H),
    {
        match self {
            Self::H(_) => true,
            _ => false,
        }
    }

    /// Returns a reference to the `H` value, if the cell holds one
    pub fn as_h(&self) -> (r: Option<&H>)
        ensures
            match r {
                Some(x) => *self == Self::H(*x),
                None => !(*self is H),
            },
    {
        match self {
            Self::H(x) => Some(x),
            _ => None,
        }
    }

    /// Returns a mutable reference to the `H` value, if the cell holds one
    pub fn as_mut_h(&mut self) -> (r: Option<&mut H>)
        ensures
            match r {
                Some(x) => {
                    &&& *old(self) == Self::H(*x)
                    &&& *final(self) == Self::H(*final(x))
                },
                None => {
                    &&& !(*old(self) is H)
                    &&& *final(self) == *old(self)
                },
            },
    {
        match self {
            Self::H(x) => Some(x),
            _ => None,
        }
    }

    /// Returns the `H` value, if the cell holds one
    pub fn into_h(self) -> (r: Option<H>)
        ensures
            match r {
                Some(x) => self == Self::H(x),
                None => !(self is H),
            },
    {
        match self {
            Self::H(x) => Some(x),
            _ => None,
        }
    }

    /// Returns true if the cell holds the `I` variant
    pub fn is_i(&self) -> (r: bool)
        ensures
            r == (*self is I),
    {
        match self {
            Self::I(_) => true,
            _ => false,
        }
    }

    /// Returns a reference to the `I` value, if the cell holds one
    pub fn as_i(&self) -> (r: Option<&I>)
        ensures
            match r {
                Some(x) => *self == Self::I(*x),
                None => !(*self is I),
            },
    {
        match self {
            Self::I(x) => Some(x),
            _ => None,
        }
    }

    /// Returns a mutable reference to the `I` value, if the cell holds one
    pub fn as_mut_i(&mut self) -> (r: Option<&mut I>)
        ensures
            match r {
                Some(x) => {
                    &&& *old(self) == Self::I(*x)
                    &&& *final(self) == Self::I(*final(x))
                },
                None => {
                    &&& !(*old(self) is I)
                    &&& *final(self) == *old(self)
                },
            },
    {
        match self {
            Self::I(x) => Some(x),
            _ => None,
        }
    }

    /// Returns the `I` value, if the cell holds one
    pub fn into_i(self) -> (r: Option<I>)
        ensures
            match r {
                Some(x) => self == Self::I(x),
                None => !(self is I),
            },
    {
        match self {
            Self::I(x) => Some(x),
            _ => None,
        }
    }

    /// Returns true if the cell holds the `J` variant
    pub fn is_j(&self) -> (r: bool)
        ensures
            r == (*self is J),
    {
        match self {
            Self::J(_) => true,
            _ => false,
        }
    }

    /// Returns a reference to the `J` value, if the cell holds one
    pub fn as_j(&self) -> (r: Option<&J>)
        ensures
            match r {
                Some(x) => *self == Self::J(*x),
                None => !(*self is J),
            },
    {
        match self {
            Self::J(x) => Some(x),
            _ => None,
        }
    }

    /// Returns a mutable reference to the `J` value, if the cell holds one
    pub fn as_mut_j(&mut self) -> (r: Option<&mut J>)
        ensures
            match r {
                Some(x) => {
                    &&& *old(self) == Self::J(*x)
                    &&& *final(self) == Self::J(*final(x))
                },
                None => {
                    &&& !(*old(self) is J)
                    &&& *final(self) == *old(self)
                },
            },
    {
        match self {
            Self::J(x) => Some(x),
            _ => None,
        }
    }

    /// Returns the `J` value, if the cell holds one
    pub fn into_j(self) -> (r: Option<J>)
        ensures
            match r {
                Some(x) => self == Self::J(x),
                None => !(self is J),
            },
    {
        match self {
            Self::J(x) => Some(x),
            _ => None,
        }
    }

    /// Returns true if the cell holds the `K` variant
    pub fn is_k(&self) -> (r: bool)
        ensures
            r == (*self is K),
    {
        match self {
            Self::K(_) => true,
            _ => false,
        }
    }

    /// Returns a reference to the `K` value, if the cell holds one
    pub fn as_k(&self) -> (r: Option<&K>)
        ensures
            match r {
                Some(x) => *self == Self::K(*x),
                None => !(*self is K),
            },
    {
        match self {
            Self::K(x) => Some(x),
            _ => None,
        }
    }

    /// Returns a mutable reference to the `K` value, if the cell holds one
    pub fn as_mut_k(&mut self) -> (r: Option<&mut K>)
        ensures
            match r {
                Some(x) => {
                    &&& *old(self) == Self::K(*x)
                    &&& *final(self) == Self::K(*final(x))
                },
                None => {
                    &&& !(*old(self) is K)
                    &&& *final(self) == *old(self)
                },
            },
    {
        match self {
            Self::K(x) => Some(x),
            _ => None,
        }
    }

    /// Returns the `K` value, if the cell holds one
    pub fn into_k(self) -> (r: Option<K>)
        ensures
            match r {
                Some(x) => self == Self::K(x),
                None => !(self is K),
            },
    {
        match self {
            Self::K(x) => Some(x),
            _ => None,
        }
    }

    /// Returns true if the cell holds the `L` variant
    pub fn is_l(&self) -> (r: bool)
        ensures
            r == (*self is L),
    {
        match self {
            Self::L(_) => true,
            _ => false,
        }
    }

    /// Returns a reference to the `L` value, if the cell holds one
    pub fn as_l(&self) -> (r: Option<&L>)
        ensures
            match r {
                Some(x) => *self == Self::L(*x),
                None => !(*self is L),
            },
    {
        match self {
            Self::L(x) => Some(x),
            _ => None,
        }
    }

    /// Returns a mutable reference to the `L` value, if the cell holds one
    pub fn as_mut_l(&mut self) -> (r: Option<&mut L>)
        ensures
            match r {
                Some(x) => {
                    &&& *old(self) == Self::L(*x)
                    &&& *final(self) == Self::L(*final(x))
                },
                None => {
                    &&& !(*old(self) is L)
                    &&& *final(self) == *old(self)
                },
            },
    {
        match self {
            Self::L(x) => Some(x),
            _ => None,
        }
    }

    /// Returns the `L` value, if the cell holds one
    pub fn into_l(self) -> (r: Option<L>)
        ensures
            match r {
                Some(x) => self == Self::L(x),
                None => !(self is L),
            },
    {
        match self {
            Self::L(x) => Some(x),
            _ => None,
        }
    }

    /// Returns true if the cell holds the `M` variant
    pub fn is_m(&self) -> (r: bool)
        ensures
            r == (*self is M),
    {
        match self {
            Self::M(_) => true,
            _ => false,
        }
    }

    /// Returns a reference to the `M` value, if the cell holds one
    pub fn as_m(&self) -> (r: Option<&M>)
        ensures
            match r {
                Some(x) => *self == Self::M(*x),
                None => !(*self is M),
            },
    {
        match self {
            Self::M(x) => Some(x),
            _ => None,
        }
    }

    /// Returns a mutable reference to the `M` value, if the cell holds one
    pub fn as_mut_m(&mut self) -> (r: Option<&mut M>)
        ensures
            match r {
                Some(x) => {
                    &&& *old(self) == Self::M(*x)
                    &&& *final(self) == Self::M(*final(x))
                },
                None => {
                    &&& !(*old(self) is M)
                    &&& *final(self) == *old(self)
                },
            },
    {
        match self {
            Self::M(x) => Some(x),
            _ => None,
        }
    }

    /// Returns the `M` value, if the cell holds one
    pub fn into_m(self) -> (r: Option<M>)
        ensures
            match r {
                Some(x) => self == Self::M(x),
                None => !(self is M),
            },
    {
        match self {
            Self::M(x) => Some(x),
            _ => None,
        }
    }

    /// Returns true if the cell holds the `N` variant
    pub fn is_n(&self) -> (r: bool)
        ensures
            r == (*self is N),
    {
        match self {
            Self::N(_) => true,
            _ => false,
        }
    }

    /// Returns a reference to the `N` value, if the cell holds one
    pub fn as_n(&self) -> (r: Option<&N>)
        ensures
            match r {
                Some(x) => *self == Self::N(*x),
                None => !(*self is N),
            },
    {
        match self {
            Self::N(x) => Some(x),
            _ => None,
        }
    }

    /// Returns a mutable reference to the `N` value, if the cell holds one
    pub fn as_mut_n(&mut self) -> (r: Option<&mut N>)
        ensures
            match r {
                Some(x) => {
                    &&& *old(self) == Self::N(*x)
                    &&& *final(self) == Self::N(*final(x))
                },
                None => {
                    &&& !(*old(self) is N)
                    &&& *final(self) == *old(self)
                },
            },
    {
        match self {
            Self::N(x) => Some(x),
            _ => None,
        }
    }

    /// Returns the `N` value, if the cell holds one
    pub fn into_n(self) -> (r: Option<N>)
        ensures
            match r {
                Some(x) => self == Self::N(x),
                None => !(self is N),
            },
    {
        match self {
            Self::N(x) => Some(x),
            _ => None,
        }
    }

    /// Returns true if the cell holds the `O` variant
    pub fn is_o(&self) -> (r: bool)
        ensures
            r == (*self is O),
    {
        match self {
            Self::O(_) => true,
            _ => false,
        }
    }

    /// Returns a reference to the `O` value, if the cell holds one
    pub fn as_o(&self) -> (r: Option<&O>)
        ensures
            match r {
                Some(x) => *self == Self::O(*x),
                None => !(*self is O),
            },
    {
        match self {
            Self::O(x) => Some(x),
            _ => None,
        }
    }

    /// Returns a mutable reference to the `O` value, if the cell holds one
    pub fn as_mut_o(&mut self) -> (r: Option<&mut O>)
        ensures
            match r {
                Some(x) => {
                    &&& *old(self) == Self::O(*x)
                    &&& *final(self) == Self::O(*final(x))
                },
                None => {
                    &&& !(*old(self) is O)
                    &&& *final(self) == *old(self)
                },
            },
    {
        match self {
            Self::O(x) => Some(x),
            _ => None,
        }
    }

    /// Returns the `O` value, if the cell holds one
    pub fn into_o(self) -> (r: Option<O>)
        ensures
            match r {
                Some(x) => self == Self::O(x),
                None => !(self is O),
            },
    {
        match self {
            Self::O(x) => Some(x),
            _ => None,
        }
    }

    /// Returns true if the cell holds the `P` variant
    pub fn is_p(&self) -> (r: bool)
        ensures
            r == (*self is P),
    {
        match self {
            Self::P(_) => true,
            _ => false,
        }
    }

    /// Returns a reference to the `P` value, if the cell holds one
    pub fn as_p(&self) -> (r: Option<&P>)
        ensures
            match r {
                Some(x) => *self == Self::P(*x),
                None => !(*self is P),
            },
    {
        match self {
            Self::P(x) => Some(x),
            _ => None,
        }
    }

    /// Returns a mutable reference to the `P` value, if the cell holds one
    pub fn as_mut_p(&mut self) -> (r: Option<&mut P>)
        ensures
            match r {
                Some(x) => {
                    &&& *old(self) == Self::P(*x)
                    &&& *final(self) == Self::P(*final(x))
                },
                None => {
                    &&& !(*old(self) is P)
                    &&& *final(self) == *old(self)
                },
            },
    {
        match self {
            Self::P(x) => Some(x),
            _ => None,
        }
    }

    /// Returns the `P` value, if the cell holds one
    pub fn into_p(self) -> (r: Option<P>)
        ensures
            match r {
                Some(x) => self == Self::P(x),
                None => !(self is P),
            },
    {
        match self {
            Self::P(x) => Some(x),
            _ => None,
        }
    }

    /// Returns true if the cell holds the `Q` variant
    pub fn is_q(&self) -> (r: bool)
        ensures
            r == (*self is Q),
    {
        match self {
            Self::Q(_) => true,
            _ => false,
        }
    }

    /// Returns a reference to the `Q` value, if the cell holds one
    pub fn as_q(&self) -> (r: Option<&Q>)
        ensures
            match r {
                Some(x) => *self == Self::Q(*x),
                None => !(*self is Q),
            },
    {
        match self {
            Self::Q(x) => Some(x),
            _ => None,
        }
    }

    /// Returns a mutable reference to the `Q` value, if the cell holds one
    pub fn as_mut_q(&mut self) -> (r: Option<&mut Q>)
        ensures
            match r {
                Some(x) => {
                    &&& *old(self) == Self::Q(*x)
                    &&& *final(self) == Self::Q(*final(x))
                },
                None => {
                    &&& !(*old(self) is Q)
                    &&& *final(self) == *old(self)
                },
            },
    {
        match self {
            Self::Q(x) => Some(x),
            _ => None,
        }
    }

    /// Returns the `Q` value, if the cell holds one
    pub fn into_q(self) -> (r: Option<Q>)
        ensures
            match r {
                Some(x) => self == Self::Q(x),
                None => !(self is Q),
            },
    {
        match self {
            Self::Q(x) => Some(x),
            _ => None,
        }
    }

    /// Returns true if the cell holds the `R` variant
    pub fn is_r(&self) -> (r: bool)
        ensures
            r == (*self is R),
    {
        match self {
            Self::R(_) => true,
            _ => false,
        }
    }

    /// Returns a reference to the `R` value, if the cell holds one
    pub fn as_r(&self) -> (r: Option<&R>)
        ensures
            match r {
                Some(x) => *self == Self::R(*x),
                None => !(*self is R),
            },
    {
        match self {
            Self::R(x) => Some(x),
            _ => None,
        }
    }

    /// Returns a mutable reference to the `R` value, if the cell holds one
    pub fn as_mut_r(&mut self) -> (r: Option<&mut R>)
        ensures
            match r {
                Some(x) => {
                    &&& *old(self) == Self::R(*x)
                    &&& *final(self) == Self::R(*final(x))
                },
                None => {
                    &&& !(*old(self) is R)
                    &&& *final(self) == *old(self)
                },
            },
    {
        match self {
            Self::R(x) => Some(x),
            _ => None,
        }
    }

    /// Returns the `R` value, if the cell holds one
    pub fn into_r(self) -> (r: Option<R>)
        ensures
            match r {
                Some(x) => self == Self::R(x),
                None => !(self is R),
            },
    {
        match self {
            Self::R(x) => Some(x),
            _ => None,
        }
    }

    /// Returns true if the cell holds the `S` variant
    pub fn is_s(&self) -> (r: bool)
        ensures
            r == (*self is S),
    {
        match self {
            Self::S(_) => true,
            _ => false,
        }
    }

    /// Returns a reference to the `S` value, if the cell holds one
    pub fn as_s(&self) -> (r: Option<&S>)
        ensures
            match r {
                Some(x) => *self == Self::S(*x),
                None => !(*self is S),
            },
    {
        match self {
            Self::S(x) => Some(x),
            _ => None,
        }
    }

    /// Returns a mutable reference to the `S` value, if the cell holds one
    pub fn as_mut_s(&mut self) -> (r: Option<&mut S>)
        ensures
            match r {
                Some(x) => {
                    &&& *old(self) == Self::S(*x)
                    &&& *final(self) == Self::S(*final(x))
                },
                None => {
                    &&& !(*old(self) is S)
                    &&& *final(self) == *old(self)
                },
            },
    {
        match self {
            Self::S(x) => Some(x),
            _ => None,
        }
    }

    /// Returns the `S` value, if the cell holds one
    pub fn into_s(self) -> (r: Option<S>)
        ensures
            match r {
                Some(x) => self == Self::S(x),
                None => !(self is S),
            },
    {
        match self {
            Self::S(x) => Some(x),
            _ => None,
        }
    }

    /// Returns true if the cell holds the `T` variant
    pub fn is_t(&self) -> (r: bool)
        ensures
            r == (*self is T),
    {
        match self {
            Self::T(_) => true,
            _ => false,
        }
    }

    /// Returns a reference to the `T` value, if the cell holds one
    pub fn as_t(&self) -> (r: Option<&T>)
        ensures
            match r {
                Some(x) => *self == Self::T(*x),
                None => !(*self is T),
            },
    {
        match self {
            Self::T(x) => Some(x),
            _ => None,
        }
    }

    /// Returns a mutable reference to the `T` value, if the cell holds one
    pub fn as_mut_t(&mut self) -> (r: Option<&mut T>)
        ensures
            match r {
                Some(x) => {
                    &&& *old(self) == Self::T(*x)
                    &&& *final(self) == Self::T(*final(x))
                },
                None => {
                    &&& !(*old(self) is T)
                    &&& *final(self) == *old(self)
                },
            },
    {
        match self {
            Self::T(x) => Some(x),
            _ => None,
        }
    }

    /// Returns the `T` value, if the cell holds one
    pub fn into_t(self) -> (r: Option<T>)
        ensures
            match r {
                Some(x) => self == Self::T(x),
                None => !(self is T),
            },
    {
        match self {
            Self::T(x) => Some(x),
            _ => None,
        }
    }

    /// Returns true if the cell holds the `U` variant
    pub fn is_u(&self) -> (r: bool)
        ensures
            r == (*self is U),
    {
        match self {
            Self::U(_) => true,
            _ => false,
        }
    }

    /// Returns a reference to the `U` value, if the cell holds one
    pub fn as_u(&self) -> (r: Option<&U>)
        ensures
            match r {
                Some(x) => *self == Self::U(*x),
                None => !(*self is U),
            },
    {
        match self {
            Self::U(x) => Some(x),
            _ => None,
        }
    }

    /// Returns a mutable reference to the `U` value, if the cell holds one
    pub fn as_mut_u(&mut self) -> (r: Option<&mut U>)
        ensures
            match r {
                Some(x) => {
                    &&& *old(self) == Self::U(*x)
                    &&& *final(self) == Self::U(*final(x))
                },
                None => {
                    &&& !(*old(self) is U)
                    &&& *final(self) == *old(self)
                },
            },
    {
        match self {
            Self::U(x) => Some(x),
            _ => None,
        }
    }

    /// Returns the `U` value, if the cell holds one
    pub fn into_u(self) -> (r: Option<U>)
        ensures
            match r {
                Some(x) => self == Self::U(x),
                None => !(self is U),
            },
    {
        match self {
            Self::U(x) => Some(x),
            _ => None,
        }
    }

    /// Returns true if the cell holds the `V` variant
    pub fn is_v(&self) -> (r: bool)
        ensures
            r == (*self is V),
    {
        match self {
            Self::V(_) => true,
            _ => false,
        }
    }

    /// Returns a reference to the `V` value, if the cell holds one
    pub fn as_v(&self) -> (r: Option<&V>)
        ensures
            match r {
                Some(x) => *self == Self::V(*x),
                None => !(*self is V),
            },
    {
        match self {
            Self::V(x) => Some(x),
            _ => None,
        }
    }

    /// Returns a mutable reference to the `V` value, if the cell holds one
    pub fn as_mut_v(&mut self) -> (r: Option<&mut V>)
        ensures
            match r {
                Some(x) => {
                    &&& *old(self) == Self::V(*x)
                    &&& *final(self) == Self::V(*final(x))
                },
                None => {
                    &&& !(*old(self) is V)
                    &&& *final(self) == *old(self)
                },
            },
    {
        match self {
            Self::V(x) => Some(x),
            _ => None,
        }
    }

    /// Returns the `V` value, if the cell holds one
    pub fn into_v(self) -> (r: Option<V>)
        ensures
            match r {
                Some(x) => self == Self::V(x),
                None => !(self is V),
            },
    {
        match self {
            Self::V(x) => Some(x),
            _ => None,
        }
    }
}

/// A cell that holds a value of one of 23 types, one variant per type
#[derive(Copy, Clone, Debug, PartialEq, Eq, Hash, PartialOrd, Ord)]
pub enum Cell23<A, B, C, D, E, F, G, H, I, J, K, L, M, N, O, P, Q, R, S, T, U, V, W> {
    A(A),
    B(B),
    C(C),
    D(D),
    E(E),
    F(F),
    G(G),
    H(H),
    I(I),
    J(J),
    K(K),
    L(L),
    M(M),
    N(N),
    O(O),
    P(P),
    Q(Q),
    R(R),
    S(S),
    T(T),
    U(U),
    V(V),
    W(W),
}

impl<A, B, C, D, E, F, G, H, I, J, K, L, M, N, O, P, Q, R, S, T, U, V, W> Cell23<A, B, C, D, E, F, G, H, I, J, K, L, M, N, O, P, Q, R, S, T, U, V, W> {
    /// Returns true if the cell holds the `A` variant
    pub fn is_a(&self) -> (r: bool)
        ensures
            r == (*self is A),
    {
        match self {
            Self::A(_) => true,
            _ => false,
        }
    }

    /// Returns a reference to the `A` value, if the cell holds one
    pub fn as_a(&self) -> (r: Option<&A>)
        ensures
            match r {
                Some(x) => *self == Self::A(*x),
                None => !(*self is A),
            },
    {
        match self {
            Self::A(x) => Some(x),
            _ => None,
        }
    }

    /// Returns a mutable reference to the `A` value, if the cell holds one
    pub fn as_mut_a(&mut self) -> (r: Option<&mut A>)
        ensures
            match r {
                Some(x) => {
                    &&& *old(self) == Self::A(*x)
                    &&& *final(self) == Self::A(*final(x))
                },
                None => {
                    &&& !(*old(self) is A)
                    &&& *final(self) == *old(self)
                },
            },
    {
        match self {
            Self::A(x) => Some(x),
            _ => None,
        }
    }

    /// Returns the `A` value, if the cell holds one
    pub fn into_a(self) -> (r: Option<A>)
        ensures
            match r {
                Some(x) => self == Self::A(x),
                None => !(self is A),
            },
    {
        match self {
            Self::A(x) => Some(x),
            _ => None,
        }
    }

    /// Returns true if the cell holds the `B` variant
    pub fn is_b(&self) -> (r: bool)
        ensures
            r == (*self is B),
    {
        match self {
            Self::B(_) => true,
            _ => false,
        }
    }

    /// Returns a reference to the `B` value, if the cell holds one
    pub fn as_b(&self) -> (r: Option<&B>)
        ensures
            match r {
                Some(x) => *self == Self::B(*x),
                None => !(*self is B),
            },
    {
        match self {
            Self::B(x) => Some(x),
            _ => None,
        }
    }

    /// Returns a mutable reference to the `B` value, if the cell holds one
    pub fn as_mut_b(&mut self) -> (r: Option<&mut B>)
        ensures
            match r {
                Some(x) => {
                    &&& *old(self) == Self::B(*x)
                    &&& *final(self) == Self::B(*final(x))
                },
                None => {
                    &&& !(*old(self) is B)
                    &&& *final(self) == *old(self)
                },
            },
    {
        match self {
            Self::B(x) => Some(x),
            _ => None,
        }
    }

    /// Returns the `B` value, if the cell holds one
    pub fn into_b(self) -> (r: Option<B>)
        ensures
            match r {
                Some(x) => self == Self::B(x),
                None => !(self is B),
            },
    {
        match self {
            Self::B(x) => Some(x),
            _ => None,
        }
    }

    /// Returns true if the cell holds the `C` variant
    pub fn is_c(&self) -> (r: bool)
        ensures
            r == (*self is C),
    {
        match self {
            Self::C(_) => true,
            _ => false,
        }
    }

    /// Returns a reference to the `C` value, if the cell holds one
    pub fn as_c(&self) -> (r: Option<&C>)
        ensures
            match r {
                Some(x) => *self == Self::C(*x),
                None => !(*self is C),
            },
    {
        match self {
            Self::C(x) => Some(x),
            _ => None,
        }
    }

    /// Returns a mutable reference to the `C` value, if the cell holds one
    pub fn as_mut_c(&mut self) -> (r: Option<&mut C>)
        ensures
            match r {
                Some(x) => {
                    &&& *old(self) == Self::C(*x)
                    &&& *final(self) == Self::C(*final(x))
                },
                None => {
                    &&& !(*old(self) is C)
                    &&& *final(self) == *old(self)
                },
            },
    {
        match self {
            Self::C(x) => Some(x),
            _ => None,
        }
    }

    /// Returns the `C` value, if the cell holds one
    pub fn into_c(self) -> (r: Option<C>)
        ensures
            match r {
                Some(x) => self == Self::C(x),
                None => !(self is C),
            },
    {
        match self {
            Self::C(x) => Some(x),
            _ => None,
        }
    }

    /// Returns true if the cell holds the `D` variant
    pub fn is_d(&self) -> (r: bool)
        ensures
            r == (*self is D),
    {
        match self {
            Self::D(_) => true,
            _ => false,
        }
    }

    /// Returns a reference to the `D` value, if the cell holds one
    pub fn as_d(&self) -> (r: Option<&D>)
        ensures
            match r {
                Some(x) => *self == Self::D(*x),
                None => !(*self is D),
            },
    {
        match self {
            Self::D(x) => Some(x),
            _ => None,
        }
    }

    /// Returns a mutable reference to the `D` value, if the cell holds one
    pub fn as_mut_d(&mut self) -> (r: Option<&mut D>)
        ensures
            match r {
                Some(x) => {
                    &&& *old(self) == Self::D(*x)
                    &&& *final(self) == Self::D(*final(x))
                },
                None => {
                    &&& !(*old(self) is D)
                    &&& *final(self) == *old(self)
                },
            },
    {
        match self {
            Self::D(x) => Some(x),
            _ => None,
        }
    }

    /// Returns the `D` value, if the cell holds one
    pub fn into_d(self) -> (r: Option<D>)
        ensures
            match r {
                Some(x) => self == Self::D(x),
                None => !(self is D),
            },
    {
        match self {
            Self::D(x) => Some(x),
            _ => None,
        }
    }

    /// Returns true if the cell holds the `E` variant
    pub fn is_e(&self) -> (r: bool)
        ensures
            r == (*self is E),
    {
        match self {
            Self::E(_) => true,
            _ => false,
        }
    }

    /// Returns a reference to the `E` value, if the cell holds one
    pub fn as_e(&self) -> (r: Option<&E>)
        ensures
            match r {
                Some(x) => *self == Self::E(*x),
                None => !(*self is E),
            },
    {
        match self {
            Self::E(x) => Some(x),
            _ => None,
        }
    }

    /// Returns a mutable reference to the `E` value, if the cell holds one
    pub fn as_mut_e(&mut self) -> (r: Option<&mut E>)
        ensures
            match r {
                Some(x) => {
                    &&& *old(self) == Self::E(*x)
                    &&& *final(self) == Self::E(*final(x))
                },
                None => {
                    &&& !(*old(self) is E)
                    &&& *final(self) == *old(self)
                },
            },
    {
        match self {
            Self::E(x) => Some(x),
            _ => None,
        }
    }

    /// Returns the `E` value, if the cell holds one
    pub fn into_e(self) -> (r: Option<E>)
        ensures
            match r {
                Some(x) => self == Self::E(x),
                None => !(self is E),
            },
    {
        match self {
            Self::E(x) => Some(x),
            _ => None,
        }
    }

    /// Returns true if the cell holds the `F` variant
    pub fn is_f(&self) -> (r: bool)
        ensures
            r == (*self is F),
    {
        match self {
            Self::F(_) => true,
            _ => false,
        }
    }

    /// Returns a reference to the `F` value, if the cell holds one
    pub fn as_f(&self) -> (r: Option<&F>)
        ensures
            match r {
                Some(x) => *self == Self::F(*x),
                None => !(*self is F),
            },
    {
        match self {
            Self::F(x) => Some(x),
            _ => None,
        }
    }

    /// Returns a mutable reference to the `F` value, if the cell holds one
    pub fn as_mut_f(&mut self) -> (r: Option<&mut F>)
        ensures
            match r {
                Some(x) => {
                    &&& *old(self) == Self::F(*x)
                    &&& *final(self) == Self::F(*final(x))
                },
                None => {
                    &&& !(*old(self) is F)
                    &&& *final(self) == *old(self)
                },
            },
    {
        match self {
            Self::F(x) => Some(x),
            _ => None,
        }
    }

    /// Returns the `F` value, if the cell holds one
    pub fn into_f(self) -> (r: Option<F>)
        ensures
            match r {
                Some(x) => self == Self::F(x),
                None => !(self is F),
            },
    {
        match self {
            Self::F(x) => Some(x),
            _ => None,
        }
    }

    /// Returns true if the cell holds the `G` variant
    pub fn is_g(&self) -> (r: bool)
        ensures
            r == (*self is G),
    {
        match self {
            Self::G(_) => true,
            _ => false,
        }
    }

    /// Returns a reference to the `G` value, if the cell holds one
    pub fn as_g(&self) -> (r: Option<&G>)
        ensures
            match r {
                Some(x) => *self == Self::G(*x),
                None => !(*self is G),
            },
    {
        match self {
            Self::G(x) => Some(x),
            _ => None,
        }
    }

    /// Returns a mutable reference to the `G` value, if the cell holds one
    pub fn as_mut_g(&mut self) -> (r: Option<&mut G>)
        ensures
            match r {
                Some(x) => {
                    &&& *old(self) == Self::G(*x)
                    &&& *final(self) == Self::G(*final(x))
                },
                None => {
                    &&& !(*old(self) is G)
                    &&& *final(self) == *old(self)
                },
            },
    {
        match self {
            Self::G(x) => Some(x),
            _ => None,
        }
    }

    /// Returns the `G` value, if the cell holds one
    pub fn into_g(self) -> (r: Option<G>)
        ensures
            match r {
                Some(x) => self == Self::G(x),
                None => !(self is G),
            },
    {
        match self {
            Self::G(x) => Some(x),
            _ => None,
        }
    }

    /// Returns true if the cell holds the `H` variant
    pub fn is_h(&self) -> (r: bool)
        ensures
            r == (*self is H),
    {
        match self {
            Self::H(_) => true,
            _ => false,
        }
    }

    /// Returns a reference to the `H` value, if the cell holds one
    pub fn as_h(&self) -> (r: Option<&H>)
        ensures
            match r {
                Some(x) => *self == Self::H(*x),
                None => !(*self is H),
            },
    {
        match self {
            Self::H(x) => Some(x),
            _ => None,
        }
    }

    /// Returns a mutable reference to the `H` value, if the cell holds one
    pub fn as_mut_h(&mut self) -> (r: Option<&mut H>)
        ensures
            match r {
                Some(x) => {
                    &&& *old(self) == Self::H(*x)
                    &&& *final(self) == Self::H(*final(x))
                },
                None => {
                    &&& !(*old(self) is H)
                    &&& *final(self) == *old(self)
                },
            },
    {
        match self {
            Self::H(x) => Some(x),
            _ => None,
        }
    }

    /// Returns the `H` value, if the cell holds one
    pub fn into_h(self) -> (r: Option<H>)
        ensures
            match r {
                Some(x) => self == Self::H(x),
                None => !(self is H),
            },
    {
        match self {
            Self::H(x) => Some(x),
            _ => None,
        }
    }

    /// Returns true if the cell holds the `I` variant
    pub fn is_i(&self) -> (r: bool)
        ensures
            r == (*self is I),
    {
        match self {
            Self::I(_) => true,
            _ => false,
        }
    }

    /// Returns a reference to the `I` value, if the cell holds one
    pub fn as_i(&self) -> (r: Option<&I>)
        ensures
            match r {
                Some(x) => *self == Self::I(*x),
                None => !(*self is I),
            },
    {
        match self {
            Self::I(x) => Some(x),
            _ => None,
        }
    }

    /// Returns a mutable reference to the `I` value, if the cell holds one
    pub fn as_mut_i(&mut self) -> (r: Option<&mut I>)
        ensures
            match r {
                Some(x) => {
                    &&& *old(self) == Self::I(*x)
                    &&& *final(self) == Self::I(*final(x))
                },
                None => {
                    &&& !(*old(self) is I)
                    &&& *final(self) == *old(self)
                },
            },
    {
        match self {
            Self::I(x) => Some(x),
            _ => None,
        }
    }

    /// Returns the `I` value, if the cell holds one
    pub fn into_i(self) -> (r: Option<I>)
        ensures
            match r {
                Some(x) => self == Self::I(x),
                None => !(self is I),
            },
    {
        match self {
            Self::I(x) => Some(x),
            _ => None,
        }
    }

    /// Returns true if the cell holds the `J` variant
    pub fn is_j(&self) -> (r: bool)
        ensures
            r == (*self is J),
    {
        match self {
            Self::J(_) => true,
            _ => false,
        }
    }

    /// Returns a reference to the `J` value, if the cell holds one
    pub fn as_j(&self) -> (r: Option<&J>)
        ensures
            match r {
                Some(x) => *self == Self::J(*x),
                None => !(*self is J),
            },
    {
        match self {
            Self::J(x) => Some(x),
            _ => None,
        }
    }

    /// Returns a mutable reference to the `J` value, if the cell holds one
    pub fn as_mut_j(&mut self) -> (r: Option<&mut J>)
        ensures
            match r {
                Some(x) => {
                    &&& *old(self) == Self::J(*x)
                    &&& *final(self) == Self::J(*final(x))
                },
                None => {
                    &&& !(*old(self) is J)
                    &&& *final(self) == *old(self)
                },
            },
    {
        match self {
            Self::J(x) => Some(x),
            _ => None,
        }
    }

    /// Returns the `J` value, if the cell holds one
    pub fn into_j(self) -> (r: Option<J>)
        ensures
            match r {
                Some(x) => self == Self::J(x),
                None => !(self is J),
            },
    {
        match self {
            Self::J(x) => Some(x),
            _ => None,
        }
    }

    /// Returns true if the cell holds the `K` variant
    pub fn is_k(&self) -> (r: bool)
        ensures
            r == (*self is K),
    {
        match self {
            Self::K(_) => true,
            _ => false,
        }
    }

    /// Returns a reference to the `K` value, if the cell holds one
    pub fn as_k(&self) -> (r: Option<&K>)
        ensures
            match r {
                Some(x) => *self == Self::K(*x),
                None => !(*self is K),
            },
    {
        match self {
            Self::K(x) => Some(x),
            _ => None,
        }
    }

    /// Returns a mutable reference to the `K` value, if the cell holds one
    pub fn as_mut_k(&mut self) -> (r: Option<&mut K>)
        ensures
            match r {
                Some(x) => {
                    &&& *old(self) == Self::K(*x)
                    &&& *final(self) == Self::K(*final(x))
                },
                None => {
                    &&& !(*old(self) is K)
                    &&& *final(self) == *old(self)
                },
            },
    {
        match self {
            Self::K(x) => Some(x),
            _ => None,
        }
    }

    /// Returns the `K` value, if the cell holds one
    pub fn into_k(self) -> (r: Option<K>)
        ensures
            match r {
                Some(x) => self == Self::K(x),
                None => !(self is K),
            },
    {
        match self {
            Self::K(x) => Some(x),
            _ => None,
        }
    }

    /// Returns true if the cell holds the `L` variant
    pub fn is_l(&self) -> (r: bool)
        ensures
            r == (*self is L),
    {
        match self {
            Self::L(_) => true,
            _ => false,
        }
    }

    /// Returns a reference to the `L` value, if the cell holds one
    pub fn as_l(&self) -> (r: Option<&L>)
        ensures
            match r {
                Some(x) => *self == Self::L(*x),
                None => !(*self is L),
            },
    {
        match self {
            Self::L(x) => Some(x),
            _ => None,
        }
    }

    /// Returns a mutable reference to the `L` value, if the cell holds one
    pub fn as_mut_l(&mut self) -> (r: Option<&mut L>)
        ensures
            match r {
                Some(x) => {
                    &&& *old(self) == Self::L(*x)
                    &&& *final(self) == Self::L(*final(x))
                },
                None => {
                    &&& !(*old(self) is L)
                    &&& *final(self) == *old(self)
                },
            },
    {
        match self {
            Self::L(x) => Some(x),
            _ => None,
        }
    }

    /// Returns the `L` value, if the cell holds one
    pub fn into_l(self) -> (r: Option<L>)
        ensures
            match r {
                Some(x) => self == Self::L(x),
                None => !(self is L),
            },
    {
        match self {
            Self::L(x) => Some(x),
            _ => None,
        }
    }

    /// Returns true if the cell holds the `M` variant
    pub fn is_m(&self) -> (r: bool)
        ensures
            r == (*self is M),
    {
        match self {
            Self::M(_) => true,
            _ => false,
        }
    }

    /// Returns a reference to the `M` value, if the cell holds one
    pub fn as_m(&self) -> (r: Option<&M>)
        ensures
            match r {
                Some(x) => *self == Self::M(*x),
                None => !(*self is M),
            },
    {
        match self {
            Self::M(x) => Some(x),
            _ => None,
        }
    }

    /// Returns a mutable reference to the `M` value, if the cell holds one
    pub fn as_mut_m(&mut self) -> (r: Option<&mut M>)
        ensures
            match r {
                Some(x) => {
                    &&& *old(self) == Self::M(*x)
                    &&& *final(self) == Self::M(*final(x))
                },
                None => {
                    &&& !(*old(self) is M)
                    &&& *final(self) == *old(self)
                },
            },
    {
        match self {
            Self::M(x) => Some(x),
            _ => None,
        }
    }

    /// Returns the `M` value, if the cell holds one
    pub fn into_m(self) -> (r: Option<M>)
        ensures
            match r {
                Some(x) => self == Self::M(x),
                None => !(self is M),
            },
    {
        match self {
            Self::M(x) => Some(x),
            _ => None,
        }
    }

    /// Returns true if the cell holds the `N` variant
    pub fn is_n(&self) -> (r: bool)
        ensures
            r == (*self is N),
    {
        match self {
            Self::N(_) => true,
            _ => false,
        }
    }

    /// Returns a reference to the `N` value, if the cell holds one
    pub fn as_n(&self) -> (r: Option<&N>)
        ensures
            match r {
                Some(x) => *self == Self::N(*x),
                None => !(*self is N),
            },
    {
        match self {
            Self::N(x) => Some(x),
            _ => None,
        }
    }

    /// Returns a mutable reference to the `N` value, if the cell holds one
    pub fn as_mut_n(&mut self) -> (r: Option<&mut N>)
        ensures
            match r {
                Some(x) => {
                    &&& *old(self) == Self::N(*x)
                    &&& *final(self) == Self::N(*final(x))
                },
                None => {
                    &&& !(*old(self) is N)
                    &&& *final(self) == *old(self)
                },
            },
    {
        match self {
            Self::N(x) => Some(x),
            _ => None,
        }
    }

    /// Returns the `N` value, if the cell holds one
    pub fn into_n(self) -> (r: Option<N>)
        ensures
            match r {
                Some(x) => self == Self::N(x),
                None => !(self is N),
            },
    {
        match self {
            Self::N(x) => Some(x),
            _ => None,
        }
    }

    /// Returns true if the cell holds the `O` variant
    pub fn is_o(&self) -> (r: bool)
        ensures
            r == (*self is O),
    {
        match self {
            Self::O(_) => true,
            _ => false,
        }
    }

    /// Returns a reference to the `O` value, if the cell holds one
    pub fn as_o(&self) -> (r: Option<&O>)
        ensures
            match r {
                Some(x) => *self == Self::O(*x),
                None => !(*self is O),
            },
    {
        match self {
            Self::O(x) => Some(x),
            _ => None,
        }
    }

    /// Returns a mutable reference to the `O` value, if the cell holds one
    pub fn as_mut_o(&mut self) -> (r: Option<&mut O>)
        ensures
            match r {
                Some(x) => {
                    &&& *old(self) == Self::O(*x)
                    &&& *final(self) == Self::O(*final(x))
                },
                None => {
                    &&& !(*old(self) is O)
                    &&& *final(self) == *old(self)
                },
            },
    {
        match self {
            Self::O(x) => Some(x),
            _ => None,
        }
    }

    /// Returns the `O` value, if the cell holds one
    pub fn into_o(self) -> (r: Option<O>)
        ensures
            match r {
                Some(x) => self == Self::O(x),
                None => !(self is O),
            },
    {
        match self {
            Self::O(x) => Some(x),
            _ => None,
        }
    }

    /// Returns true if the cell holds the `P` variant
    pub fn is_p(&self) -> (r: bool)
        ensures
            r == (*self is P),
    {
        match self {
            Self::P(_) => true,
            _ => false,
        }
    }

    /// Returns a reference to the `P` value, if the cell holds one
    pub fn as_p(&self) -> (r: Option<&P>)
        ensures
            match r {
                Some(x) => *self == Self::P(*x),
                None => !(*self is P),
            },
    {
        match self {
            Self::P(x) => Some(x),
            _ => None,
        }
    }

    /// Returns a mutable reference to the `P` value, if the cell holds one
    pub fn as_mut_p(&mut self) -> (r: Option<&mut P>)
        ensures
            match r {
                Some(x) => {
                    &&& *old(self) == Self::P(*x)
                    &&& *final(self) == Self::P(*final(x))
                },
                None => {
                    &&& !(*old(self) is P)
                    &&& *final(self) == *old(self)
                },
            },
    {
        match self {
            Self::P(x) => Some(x),
            _ => None,
        }
    }

    /// Returns the `P` value, if the cell holds one
    pub fn into_p(self) -> (r: Option<P>)
        ensures
            match r {
                Some(x) => self == Self::P(x),
                None => !(self is P),
            },
    {
        match self {
            Self::P(x) => Some(x),
            _ => None,
        }
    }

    /// Returns true if the cell holds the `Q` variant
    pub fn is_q(&self) -> (r: bool)
        ensures
            r == (*self is Q),
    {
        match self {
            Self::Q(_) => true,
            _ => false,
        }
    }

    /// Returns a reference to the `Q` value, if the cell holds one
    pub fn as_q(&self) -> (r: Option<&Q>)
        ensures
            match r {
                Some(x) => *self == Self::Q(*x),
                None => !(*self is Q),
            },
    {
        match self {
            Self::Q(x) => Some(x),
            _ => None,
        }
    }

    /// Returns a mutable reference to the `Q` value, if the cell holds one
    pub fn as_mut_q(&mut self) -> (r: Option<&mut Q>)
        ensures
            match r {
                Some(x) => {
                    &&& *old(self) == Self::Q(*x)
                    &&& *final(self) == Self::Q(*final(x))
                },
                None => {
                    &&& !(*old(self) is Q)
                    &&& *final(self) == *old(self)
                },
            },
    {
        match self {
            Self::Q(x) => Some(x),
            _ => None,
        }
    }

    /// Returns the `Q` value, if the cell holds one
    pub fn into_q(self) -> (r: Option<Q>)
        ensures
            match r {
                Some(x) => self == Self::Q(x),
                None => !(self is Q),
            },
    {
        match self {
            Self::Q(x) => Some(x),
            _ => None,
        }
    }

    /// Returns true if the cell holds the `R` variant
    pub fn is_r(&self) -> (r: bool)
        ensures
            r == (*self is R),
    {
        match self {
            Self::R(_) => true,
            _ => false,
        }
    }

    /// Returns a reference to the `R` value, if the cell holds one
    pub fn as_r(&self) -> (r: Option<&R>)
        ensures
            match r {
                Some(x) => *self == Self::R(*x),
                None => !(*self is R),
            },
    {
        match self {
            Self::R(x) => Some(x),
            _ => None,
        }
    }

    /// Returns a mutable reference to the `R` value, if the cell holds one
    pub fn as_mut_r(&mut self) -> (r: Option<&mut R>)
        ensures
            match r {
                Some(x) => {
                    &&& *old(self) == Self::R(*x)
                    &&& *final(self) == Self::R(*final(x))
                },
                None => {
                    &&& !(*old(self) is R)
                    &&& *final(self) == *old(self)
                },
            },
    {
        match self {
            Self::R(x) => Some(x),
            _ => None,
        }
    }

    /// Returns the `R` value, if the cell holds one
    pub fn into_r(self) -> (r: Option<R>)
        ensures
            match r {
                Some(x) => self == Self::R(x),
                None => !(self is R),
            },
    {
        match self {
            Self::R(x) => Some(x),
            _ => None,
        }
    }

    /// Returns true if the cell holds the `S` variant
    pub fn is_s(&self) -> (r: bool)
        ensures
            r == (*self is S),
    {
        match self {
            Self::S(_) => true,
            _ => false,
        }
    }

    /// Returns a reference to the `S` value, if the cell holds one
    pub fn as_s(&self) -> (r: Option<&S>)
        ensures
            match r {
                Some(x) => *self == Self::S(*x),
                None => !(*self is S),
            },
    {
        match self {
            Self::S(x) => Some(x),
            _ => None,
        }
    }

    /// Returns a mutable reference to the `S` value, if the cell holds one
    pub fn as_mut_s(&mut self) -> (r: Option<&mut S>)
        ensures
            match r {
                Some(x) => {
                    &&& *old(self) == Self::S(*x)
                    &&& *final(self) == Self::S(*final(x))
                },
                None => {
                    &&& !(*old(self) is S)
                    &&& *final(self) == *old(self)
                },
            },
    {
        match self {
            Self::S(x) => Some(x),
            _ => None,
        }
    }

    /// Returns the `S` value, if the cell holds one
    pub fn into_s(self) -> (r: Option<S>)
        ensures
            match r {
                Some(x) => self == Self::S(x),
                None => !(self is S),
            },
    {
        match self {
            Self::S(x) => Some(x),
            _ => None,
        }
    }

    /// Returns true if the cell holds the `T` variant
    pub fn is_t(&self) -> (r: bool)
        ensures
            r == (*self is T),
    {
        match self {
            Self::T(_) => true,
            _ => false,
        }
    }

    /// Returns a reference to the `T` value, if the cell holds one
    pub fn as_t(&self) -> (r: Option<&T>)
        ensures
            match r {
                Some(x) => *self == Self::T(*x),
                None => !(*self is T),
            },
    {
        match self {
            Self::T(x) => Some(x),
            _ => None,
        }
    }

    /// Returns a mutable reference to the `T` value, if the cell holds one
    pub fn as_mut_t(&mut self) -> (r: Option<&mut T>)
        ensures
            match r {
                Some(x) => {
                    &&& *old(self) == Self::T(*x)
                    &&& *final(self) == Self::T(*final(x))
                },
                None => {
                    &&& !(*old(self) is T)
                    &&& *final(self) == *old(self)
                },
            },
    {
        match self {
            Self::T(x) => Some(x),
            _ => None,
        }
    }

    /// Returns the `T` value, if the cell holds one
    pub fn into_t(self) -> (r: Option<T>)
        ensures
            match r {
                Some(x) => self == Self::T(x),
                None => !(self is T),
            },
    {
        match self {
            Self::T(x) => Some(x),
            _ => None,
        }
    }

    /// Returns true if the cell holds the `U` variant
    pub fn is_u(&self) -> (r: bool)
        ensures
            r == (*self is U),
    {
        match self {
            Self::U(_) => true,
            _ => false,
        }
    }

    /// Returns a reference to the `U` value, if the cell holds one
    pub fn as_u(&self) -> (r: Option<&U>)
        ensures
            match r {
                Some(x) => *self == Self::U(*x),
                None => !(*self is U),
            },
    {
        match self {
            Self::U(x) => Some(x),
            _ => None,
        }
    }

    /// Returns a mutable reference to the `U` value, if the cell holds one
    pub fn as_mut_u(&mut self) -> (r: Option<&mut U>)
        ensures
            match r {
                Some(x) => {
                    &&& *old(self) == Self::U(*x)
                    &&& *final(self) == Self::U(*final(x))
                },
                None => {
                    &&& !(*old(self) is U)
                    &&& *final(self) == *old(self)
                },
            },
    {
        match self {
            Self::U(x) => Some(x),
            _ => None,
        }
    }

    /// Returns the `U` value, if the cell holds one
    pub fn into_u(self) -> (r: Option<U>)
        ensures
            match r {
                Some(x) => self == Self::U(x),
                None => !(self is U),
            },
    {
        match self {
            Self::U(x) => Some(x),
            _ => None,
        }
    }

    /// Returns true if the cell holds the `V` variant
    pub fn is_v(&self) -> (r: bool)
        ensures
            r == (*self is V),
    {
        match self {
            Self::V(_) => true,
            _ => false,
        }
    }

    /// Returns a reference to the `V` value, if the cell holds one
    pub fn as_v(&self) -> (r: Option<&V>)
        ensures
            match r {
                Some(x) => *self == Self::V(*x),
                None => !(*self is V),
            },
    {
        match self {
            Self::V(x) => Some(x),
            _ => None,
        }
    }

    /// Returns a mutable reference to the `V` value, if the cell holds one
    pub fn as_mut_v(&mut self) -> (r: Option<&mut V>)
        ensures
            match r {
                Some(x) => {
                    &&& *old(self) == Self::V(*x)
                    &&& *final(self) == Self::V(*final(x))
                },
                None => {
                    &&& !(*old(self) is V)
                    &&& *final(self) == *old(self)
                },
            },
    {
        match self {
            Self::V(x) => Some(x),
            _ => None,
        }
    }

    /// Returns the `V` value, if the cell holds one
    pub fn into_v(self) -> (r: Option<V>)
        ensures
            match r {
                Some(x) => self == Self::V(x),
                None => !(self is V),
            },
    {
        match self {
            Self::V(x) => Some(x),
            _ => None,
        }
    }

    /// Returns true if the cell holds the `W` variant
    pub fn is_w(&self) -> (r: bool)
        ensures
            r == (*self is W),
    {
        match self {
            Self::W(_) => true,
            _ => false,
        }
    }

    /// Returns a reference to the `W` value, if the cell holds one
    pub fn as_w(&self) -> (r: Option<&W>)
        ensures
            match r {
                Some(x) => *self == Self::W(*x),
                None => !(*self is W),
            },
    {
        match self {
            Self::W(x) => Some(x),
            _ => None,
        }
    }

    /// Returns a mutable reference to the `W` value, if the cell holds one
    pub fn as_mut_w(&mut self) -> (r: Option<&mut W>)
        ensures
            match r {
                Some(x) => {
                    &&& *old(self) == Self::W(*x)
                    &&& *final(self) == Self::W(*final(x))
                },
                None => {
                    &&& !(*old(self) is W)
                    &&& *final(self) == *old(self)
                },
            },
    {
        match self {
            Self::W(x) => Some(x),
            _ => None,
        }
    }

    /// Returns the `W` value, if the cell holds one
    pub fn into_w(self) -> (r: Option<W>)
        ensures
            match r {
                Some(x) => self == Self::W(x),
                None => !(self is W),
            },
    {
        match self {
            Self::W(x) => Some(x),
            _ => None,
        }
    }
}

/// A cell that holds a value of one of 24 types, one variant per type
#[derive(Copy, Clone, Debug, PartialEq, Eq, Hash, PartialOrd, Ord)]
pub enum Cell24<A, B, C, D, E, F, G, H, I, J, K, L, M, N, O, P, Q, R, S, T, U, V, W, X> {
    A(A),
    B(B),
    C(C),
    D(D),
    E(E),
    F(F),
    G(G),
    H(H),
    I(I),
    J(J),
    K(K),
    L(L),
    M(M),
    N(N),
    O(O),
    P(P),
    Q(Q),
    R(R),
    S(S),
    T(T),
    U(U),
    V(V),
    W(W),
    X(X),
}

impl<A, B, C, D, E, F, G, H, I, J, K, L, M, N, O, P, Q, R, S, T, U, V, W, X> Cell24<A, B, C, D, E, F, G, H, I, J, K, L, M, N, O, P, Q, R, S, T, U, V, W, X> {
    /// Returns true if the cell holds the `A` variant
    pub fn is_a(&self) -> (r: bool)
        ensures
            r == (*self is A),
    {
        match self {
            Self::A(_) => true,
            _ => false,
        }
    }

    /// Returns a reference to the `A` value, if the cell holds one
    pub fn as_a(&self) -> (r: Option<&A>)
        ensures
            match r {
                Some(x) => *self == Self::A(*x),
                None => !(*self is A),
            },
    {
        match self {
            Self::A(x) => Some(x),
            _ => None,
        }
    }

    /// Returns a mutable reference to the `A` value, if the cell holds one
    pub fn as_mut_a(&mut self) -> (r: Option<&mut A>)
        ensures
            match r {
                Some(x) => {
                    &&& *old(self) == Self::A(*x)
                    &&& *final(self) == Self::A(*final(x))
                },
                None => {
                    &&& !(*old(self) is A)
                    &&& *final(self) == *old(self)
                },
            },
    {
        match self {
            Self::A(x) => Some(x),
            _ => None,
        }
    }

    /// Returns the `A` value, if the cell holds one
    pub fn into_a(self) -> (r: Option<A>)
        ensures
            match r {
                Some(x) => self == Self::A(x),
                None => !(self is A),
            },
    {
        match self {
            Self::A(x) => Some(x),
            _ => None,
        }
    }

    /// Returns true if the cell holds the `B` variant
    pub fn is_b(&self) -> (r: bool)
        ensures
            r == (*self is B),
    {
        match self {
            Self::B(_) => true,
            _ => false,
        }
    }

    /// Returns a reference to the `B` value, if the cell holds one
    pub fn as_b(&self) -> (r: Option<&B>)
        ensures
            match r {
                Some(x) => *self == Self::B(*x),
                None => !(*self is B),
            },
    {
        match self {
            Self::B(x) => Some(x),
            _ => None,
        }
    }

    /// Returns a mutable reference to the `B` value, if the cell holds one
    pub fn as_mut_b(&mut self) -> (r: Option<&mut B>)
        ensures
            match r {
                Some(x) => {
                    &&& *old(self) == Self::B(*x)
                    &&& *final(self) == Self::B(*final(x))
                },
                None => {
                    &&& !(*old(self) is B)
                    &&& *final(self) == *old(self)
                },
            },
    {
        match self {
            Self::B(x) => Some(x),
            _ => None,
        }
    }

    /// Returns the `B` value, if the cell holds one
    pub fn into_b(self) -> (r: Option<B>)
        ensures
            match r {
                Some(x) => self == Self::B(x),
                None => !(self is B),
            },
    {
        match self {
            Self::B(x) => Some(x),
            _ => None,
        }
    }

    /// Returns true if the cell holds the `C` variant
    pub fn is_c(&self) -> (r: bool)
        ensures
            r == (*self is C),
    {
        match self {
            Self::C(_) => true,
            _ => false,
        }
    }

    /// Returns a reference to the `C` value, if the cell holds one
    pub fn as_c(&self) -> (r: Option<&C>)
        ensures
            match r {
                Some(x) => *self == Self::C(*x),
                None => !(*self is C),
            },
    {
        match self {
            Self::C(x) => Some(x),
            _ => None,
        }
    }

    /// Returns a mutable reference to the `C` value, if the cell holds one
    pub fn as_mut_c(&mut self) -> (r: Option<&mut C>)
        ensures
            match r {
                Some(x) => {
                    &&& *old(self) == Self::C(*x)
                    &&& *final(self) == Self::C(*final(x))
                },
                None => {
                    &&& !(*old(self) is C)
                    &&& *final(self) == *old(self)
                },
            },
    {
        match self {
            Self::C(x) => Some(x),
            _ => None,
        }
    }

    /// Returns the `C` value, if the cell holds one
    pub fn into_c(self) -> (r: Option<C>)
        ensures
            match r {
                Some(x) => self == Self::C(x),
                None => !(self is C),
            },
    {
        match self {
            Self::C(x) => Some(x),
            _ => None,
        }
    }

    /// Returns true if the cell holds the `D` variant
    pub fn is_d(&self) -> (r: bool)
        ensures
            r == (*self is D),
    {
        match self {
            Self::D(_) => true,
            _ => false,
        }
    }

    /// Returns a reference to the `D` value, if the cell holds one
    pub fn as_d(&self) -> (r: Option<&D>)
        ensures
            match r {
                Some(x) => *self == Self::D(*x),
                None => !(*self is D),
            },
    {
        match self {
            Self::D(x) => Some(x),
            _ => None,
        }
    }

    /// Returns a mutable reference to the `D` value, if the cell holds one
    pub fn as_mut_d(&mut self) -> (r: Option<&mut D>)
        ensures
            match r {
                Some(x) => {
                    &&& *old(self) == Self::D(*x)
                    &&& *final(self) == Self::D(*final(x))
                },
                None => {
                    &&& !(*old(self) is D)
                    &&& *final(self) == *old(self)
                },
            },
    {
        match self {
            Self::D(x) => Some(x),
            _ => None,
        }
    }

    /// Returns the `D` value, if the cell holds one
    pub fn into_d(self) -> (r: Option<D>)
        ensures
            match r {
                Some(x) => self == Self::D(x),
                None => !(self is D),
            },
    {
        match self {
            Self::D(x) => Some(x),
            _ => None,
        }
    }

    /// Returns true if the cell holds the `E` variant
    pub fn is_e(&self) -> (r: bool)
        ensures
            r == (*self is E),
    {
        match self {
            Self::E(_) => true,
            _ => false,
        }
    }

    /// Returns a reference to the `E` value, if the cell holds one
    pub fn as_e(&self) -> (r: Option<&E>)
        ensures
            match r {
                Some(x) => *self == Self::E(*x),
                None => !(*self is E),
            },
    {
        match self {
            Self::E(x) => Some(x),
            _ => None,
        }
    }

    /// Returns a mutable reference to the `E` value, if the cell holds one
    pub fn as_mut_e(&mut self) -> (r: Option<&mut E>)
        ensures
            match r {
                Some(x) => {
                    &&& *old(self) == Self::E(*x)
                    &&& *final(self) == Self::E(*final(x))
                },
                None => {
                    &&& !(*old(self) is E)
                    &&& *final(self) == *old(self)
                },
            },
    {
        match self {
            Self::E(x) => Some(x),
            _ => None,
        }
    }

    /// Returns the `E` value, if the cell holds one
    pub fn into_e(self) -> (r: Option<E>)
        ensures
            match r {
                Some(x) => self == Self::E(x),
                None => !(self is E),
            },
    {
        match self {
            Self::E(x) => Some(x),
            _ => None,
        }
    }

    /// Returns true if the cell holds the `F` variant
    pub fn is_f(&self) -> (r: bool)
        ensures
            r == (*self is F),
    {
        match self {
            Self::F(_) => true,
            _ => false,
        }
    }

    /// Returns a reference to the `F` value, if the cell holds one
    pub fn as_f(&self) -> (r: Option<&F>)
        ensures
            match r {
                Some(x) => *self == Self::F(*x),
                None => !(*self is F),
            },
    {
        match self {
            Self::F(x) => Some(x),
            _ => None,
        }
    }

    /// Returns a mutable reference to the `F` value, if the cell holds one
    pub fn as_mut_f(&mut self) -> (r: Option<&mut F>)
        ensures
            match r {
                Some(x) => {
                    &&& *old(self) == Self::F(*x)
                    &&& *final(self) == Self::F(*final(x))
                },
                None => {
                    &&& !(*old(self) is F)
                    &&& *final(self) == *old(self)
                },
            },
    {
        match self {
            Self::F(x) => Some(x),
            _ => None,
        }
    }

    /// Returns the `F` value, if the cell holds one
    pub fn into_f(self) -> (r: Option<F>)
        ensures
            match r {
                Some(x) => self == Self::F(x),
                None => !(self is F),
            },
    {
        match self {
            Self::F(x) => Some(x),
            _ => None,
        }
    }

    /// Returns true if the cell holds the `G` variant
    pub fn is_g(&self) -> (r: bool)
        ensures
            r == (*self is G),
    {
        match self {
            Self::G(_) => true,
            _ => false,
        }
    }

    /// Returns a reference to the `G` value, if the cell holds one
    pub fn as_g(&self) -> (r: Option<&G>)
        ensures
            match r {
                Some(x) => *self == Self::G(*x),
                None => !(*self is G),
            },
    {
        match self {
            Self::G(x) => Some(x),
            _ => None,
        }
    }

    /// Returns a mutable reference to the `G` value, if the cell holds one
    pub fn as_mut_g(&mut self) -> (r: Option<&mut G>)
        ensures
            match r {
                Some(x) => {
                    &&& *old(self) == Self::G(*x)
                    &&& *final(self) == Self::G(*final(x))
                },
                None => {
                    &&& !(*old(self) is G)
                    &&& *final(self) == *old(self)
                },
            },
    {
        match self {
            Self::G(x) => Some(x),
            _ => None,
        }
    }

    /// Returns the `G` value, if the cell holds one
    pub fn into_g(self) -> (r: Option<G>)
        ensures
            match r {
                Some(x) => self == Self::G(x),
                None => !(self is G),
            },
    {
        match self {
            Self::G(x) => Some(x),
            _ => None,
        }
    }

    /// Returns true if the cell holds the `H` variant
    pub fn is_h(&self) -> (r: bool)
        ensures
            r == (*self is H),
    {
        match self {
            Self::H(_) => true,
            _ => false,
        }
    }

    /// Returns a reference to the `H` value, if the cell holds one
    pub fn as_h(&self) -> (r: Option<&H>)
        ensures
            match r {
                Some(x) => *self == Self::H(*x),
                None => !(*self is H),
            },
    {
        match self {
            Self::H(x) => Some(x),
            _ => None,
        }
    }

    /// Returns a mutable reference to the `H` value, if the cell holds one
    pub fn as_mut_h(&mut self) -> (r: Option<&mut H>)
        ensures
            match r {
                Some(x) => {
                    &&& *old(self) == Self::H(*x)
                    &&& *final(self) == Self::H(*final(x))
                },
                None => {
                    &&& !(*old(self) is H)
                    &&& *final(self) == *old(self)
                },
            },
    {
        match self {
            Self::H(x) => Some(x),
            _ => None,
        }
    }

    /// Returns the `H` value, if the cell holds one
    pub fn into_h(self) -> (r: Option<H>)
        ensures
            match r {
                Some(x) => self == Self::H(x),
                None => !(self is H),
            },
    {
        match self {
            Self::H(x) => Some(x),
            _ => None,
        }
    }

    /// Returns true if the cell holds the `I` variant
    pub fn is_i(&self) -> (r: bool)
        ensures
            r == (*self is I),
    {
        match self {
            Self::I(_) => true,
            _ => false,
        }
    }

    /// Returns a reference to the `I` value, if the cell holds one
    pub fn as_i(&self) -> (r: Option<&I>)
        ensures
            match r {
                Some(x) => *self == Self::I(*x),
                None => !(*self is I),
            },
    {
        match self {
            Self::I(x) => Some(x),
            _ => None,
        }
    }

    /// Returns a mutable reference to the `I` value, if the cell holds one
    pub fn as_mut_i(&mut self) -> (r: Option<&mut I>)
        ensures
            match r {
                Some(x) => {
                    &&& *old(self) == Self::I(*x)
                    &&& *final(self) == Self::I(*final(x))
                },
                None => {
                    &&& !(*old(self) is I)
                    &&& *final(self) == *old(self)
                },
            },
    {
        match self {
            Self::I(x) => Some(x),
            _ => None,
        }
    }

    /// Returns the `I` value, if the cell holds one
    pub fn into_i(self) -> (r: Option<I>)
        ensures
            match r {
                Some(x) => self == Self::I(x),
                None => !(self is I),
            },
    {
        match self {
            Self::I(x) => Some(x),
            _ => None,
        }
    }

    /// Returns true if the cell holds the `J` variant
    pub fn is_j(&self) -> (r: bool)
        ensures
            r == (*self is J),
    {
        match self {
            Self::J(_) => true,
            _ => false,
        }
    }

    /// Returns a reference to the `J` value, if the cell holds one
    pub fn as_j(&self) -> (r: Option<&J>)
        ensures
            match r {
                Some(x) => *self == Self::J(*x),
                None => !(*self is J),
            },
    {
        match self {
            Self::J(x) => Some(x),
            _ => None,
        }
    }

    /// Returns a mutable reference to the `J` value, if the cell holds one
    pub fn as_mut_j(&mut self) -> (r: Option<&mut J>)
        ensures
            match r {
                Some(x) => {
                    &&& *old(self) == Self::J(*x)
                    &&& *final(self) == Self::J(*final(x))
                },
                None => {
                    &&& !(*old(self) is J)
                    &&& *final(self) == *old(self)
                },
            },
    {
        match self {
            Self::J(x) => Some(x),
            _ => None,
        }
    }

    /// Returns the `J` value, if the cell holds one
    pub fn into_j(self) -> (r: Option<J>)
        ensures
            match r {
                Some(x) => self == Self::J(x),
                None => !(self is J),
            },
    {
        match self {
            Self::J(x) => Some(x),
            _ => None,
        }
    }

    /// Returns true if the cell holds the `K` variant
    pub fn is_k(&self) -> (r: bool)
        ensures
            r == (*self is K),
    {
        match self {
            Self::K(_) => true,
            _ => false,
        }
    }

    /// Returns a reference to the `K` value, if the cell holds one
    pub fn as_k(&self) -> (r: Option<&K>)
        ensures
            match r {
                Some(x) => *self == Self::K(*x),
                None => !(*self is K),
            },
    {
        match self {
            Self::K(x) => Some(x),
            _ => None,
        }
    }

    /// Returns a mutable reference to the `K` value, if the cell holds one
    pub fn as_mut_k(&mut self) -> (r: Option<&mut K>)
        ensures
            match r {
                Some(x) => {
                    &&& *old(self) == Self::K(*x)
                    &&& *final(self) == Self::K(*final(x))
                },
                None => {
                    &&& !(*old(self) is K)
                    &&& *final(self) == *old(self)
                },
            },
    {
        match self {
            Self::K(x) => Some(x),
            _ => None,
        }
    }

    /// Returns the `K` value, if the cell holds one
    pub fn into_k(self) -> (r: Option<K>)
        ensures
            match r {
                Some(x) => self == Self::K(x),
                None => !(self is K),
            },
    {
        match self {
            Self::K(x) => Some(x),
            _ => None,
        }
    }

    /// Returns true if the cell holds the `L` variant
    pub fn is_l(&self) -> (r: bool)
        ensures
            r == (*self is L),
    {
        match self {
            Self::L(_) => true,
            _ => false,
        }
    }

    /// Returns a reference to the `L` value, if the cell holds one
    pub fn as_l(&self) -> (r: Option<&L>)
        ensures
            match r {
                Some(x) => *self == Self::L(*x),
                None => !(*self is L),
            },
    {
        match self {
            Self::L(x) => Some(x),
            _ => None,
        }
    }

    /// Returns a mutable reference to the `L` value, if the cell holds one
    pub fn as_mut_l(&mut self) -> (r: Option<&mut L>)
        ensures
            match r {
                Some(x) => {
                    &&& *old(self) == Self::L(*x)
                    &&& *final(self) == Self::L(*final(x))
                },
                None => {
                    &&& !(*old(self) is L)
                    &&& *final(self) == *old(self)
                },
            },
    {
        match self {
            Self::L(x) => Some(x),
            _ => None,
        }
    }

    /// Returns the `L` value, if the cell holds one
    pub fn into_l(self) -> (r: Option<L>)
        ensures
            match r {
                Some(x) => self == Self::L(x),
                None => !(self is L),
            },
    {
        match self {
            Self::L(x) => Some(x),
            _ => None,
        }
    }

    /// Returns true if the cell holds the `M` variant
    pub fn is_m(&self) -> (r: bool)
        ensures
            r == (*self is M),
    {
        match self {
            Self::M(_) => true,
            _ => false,
        }
    }

    /// Returns a reference to the `M` value, if the cell holds one
    pub fn as_m(&self) -> (r: Option<&M>)
        ensures
            match r {
                Some(x) => *self == Self::M(*x),
                None => !(*self is M),
            },
    {
        match self {
            Self::M(x) => Some(x),
            _ => None,
        }
    }

    /// Returns a mutable reference to the `M` value, if the cell holds one
    pub fn as_mut_m(&mut self) -> (r: Option<&mut M>)
        ensures
            match r {
                Some(x) => {
                    &&& *old(self) == Self::M(*x)
                    &&& *final(self) == Self::M(*final(x))
                },
                None => {
                    &&& !(*old(self) is M)
                    &&& *final(self) == *old(self)
                },
            },
    {
        match self {
            Self::M(x) => Some(x),
            _ => None,
        }
    }

    /// Returns the `M` value, if the cell holds one
    pub fn into_m(self) -> (r: Option<M>)
        ensures
            match r {
                Some(x) => self == Self::M(x),
                None => !(self is M),
            },
    {
        match self {
            Self::M(x) => Some(x),
            _ => None,
        }
    }

    /// Returns true if the cell holds the `N` variant
    pub fn is_n(&self) -> (r: bool)
        ensures
            r == (*self is N),
    {
        match self {
            Self::N(_) => true,
            _ => false,
        }
    }

    /// Returns a reference to the `N` value, if the cell holds one
    pub fn as_n(&self) -> (r: Option<&N>)
        ensures
            match r {
                Some(x) => *self == Self::N(*x),
                None => !(*self is N),
            },
    {
        match self {
            Self::N(x) => Some(x),
            _ => None,
        }
    }

    /// Returns a mutable reference to the `N` value, if the cell holds one
    pub fn as_mut_n(&mut self) -> (r: Option<&mut N>)
        ensures
            match r {
                Some(x) => {
                    &&& *old(self) == Self::N(*x)
                    &&& *final(self) == Self::N(*final(x))
                },
                None => {
                    &&& !(*old(self) is N)
                    &&& *final(self) == *old(self)
                },
            },
    {
        match self {
            Self::N(x) => Some(x),
            _ => None,
        }
    }

    /// Returns the `N` value, if the cell holds one
    pub fn into_n(self) -> (r: Option<N>)
        ensures
            match r {
                Some(x) => self == Self::N(x),
                None => !(self is N),
            },
    {
        match self {
            Self::N(x) => Some(x),
            _ => None,
        }
    }

    /// Returns true if the cell holds the `O` variant
    pub fn is_o(&self) -> (r: bool)
        ensures
            r == (*self is O),
    {
        match self {
            Self::O(_) => true,
            _ => false,
        }
    }

    /// Returns a reference to the `O` value, if the cell holds one
    pub fn as_o(&self) -> (r: Option<&O>)
        ensures
            match r {
                Some(x) => *self == Self::O(*x),
                None => !(*self is O),
            },
    {
        match self {
            Self::O(x) => Some(x),
            _ => None,
        }
    }

    /// Returns a mutable reference to the `O` value, if the cell holds one
    pub fn as_mut_o(&mut self) -> (r: Option<&mut O>)
        ensures
            match r {
                Some(x) => {
                    &&& *old(self) == Self::O(*x)
                    &&& *final(self) == Self::O(*final(x))
                },
                None => {
                    &&& !(*old(self) is O)
                    &&& *final(self) == *old(self)
                },
            },
    {
        match self {
            Self::O(x) => Some(x),
            _ => None,
        }
    }

    /// Returns the `O` value, if the cell holds one
    pub fn into_o(self) -> (r: Option<O>)
        ensures
            match r {
                Some(x) => self == Self::O(x),
                None => !(self is O),
            },
    {
        match self {
            Self::O(x) => Some(x),
            _ => None,
        }
    }

    /// Returns true if the cell holds the `P` variant
    pub fn is_p(&self) -> (r: bool)
        ensures
            r == (*self is P),
    {
        match self {
            Self::P(_) => true,
            _ => false,
        }
    }

    /// Returns a reference to the `P` value, if the cell holds one
    pub fn as_p(&self) -> (r: Option<&P>)
        ensures
            match r {
                Some(x) => *self == Self::P(*x),
                None => !(*self is P),
            },
    {
        match self {
            Self::P(x) => Some(x),
            _ => None,
        }
    }

    /// Returns a mutable reference to the `P` value, if the cell holds one
    pub fn as_mut_p(&mut self) -> (r: Option<&mut P>)
        ensures
            match r {
                Some(x) => {
                    &&& *old(self) == Self::P(*x)
                    &&& *final(self) == Self::P(*final(x))
                },
                None => {
                    &&& !(*old(self) is P)
                    &&& *final(self) == *old(self)
                },
            },
    {
        match self {
            Self::P(x) => Some(x),
            _ => None,
        }
    }

    /// Returns the `P` value, if the cell holds one
    pub fn into_p(self) -> (r: Option<P>)
        ensures
            match r {
                Some(x) => self == Self::P(x),
                None => !(self is P),
            },
    {
        match self {
            Self::P(x) => Some(x),
            _ => None,
        }
    }

    /// Returns true if the cell holds the `Q` variant
    pub fn is_q(&self) -> (r: bool)
        ensures
            r == (*self is Q),
    {
        match self {
            Self::Q(_) => true,
            _ => false,
        }
    }

    /// Returns a reference to the `Q` value, if the cell holds one
    pub fn as_q(&self) -> (r: Option<&Q>)
        ensures
            match r {
                Some(x) => *self == Self::Q(*x),
                None => !(*self is Q),
            },
    {
        match self {
            Self::Q(x) => Some(x),
            _ => None,
        }
    }

    /// Returns a mutable reference to the `Q` value, if the cell holds one
    pub fn as_mut_q(&mut self) -> (r: Option<&mut Q>)
        ensures
            match r {
                Some(x) => {
                    &&& *old(self) == Self::Q(*x)
                    &&& *final(self) == Self::Q(*final(x))
                },
                None => {
                    &&& !(*old(self) is Q)
                    &&& *final(self) == *old(self)
                },
            },
    {
        match self {
            Self::Q(x) => Some(x),
            _ => None,
        }
    }

    /// Returns the `Q` value, if the cell holds one
    pub fn into_q(self) -> (r: Option<Q>)
        ensures
            match r {
                Some(x) => self == Self::Q(x),
                None => !(self is Q),
            },
    {
        match self {
            Self::Q(x) => Some(x),
            _ => None,
        }
    }

    /// Returns true if the cell holds the `R` variant
    pub fn is_r(&self) -> (r: bool)
        ensures
            r == (*self is R),
    {
        match self {
            Self::R(_) => true,
            _ => false,
        }
    }

    /// Returns a reference to the `R` value, if the cell holds one
    pub fn as_r(&self) -> (r: Option<&R>)
        ensures
            match r {
                Some(x) => *self == Self::R(*x),
                None => !(*self is R),
            },
    {
        match self {
            Self::R(x) => Some(x),
            _ => None,
        }
    }

    /// Returns a mutable reference to the `R` value, if the cell holds one
    pub fn as_mut_r(&mut self) -> (r: Option<&mut R>)
        ensures
            match r {
                Some(x) => {
                    &&& *old(self) == Self::R(*x)
                    &&& *final(self) == Self::R(*final(x))
                },
                None => {
                    &&& !(*old(self) is R)
                    &&& *final(self) == *old(self)
                },
            },
    {
        match self {
            Self::R(x) => Some(x),
            _ => None,
        }
    }

    /// Returns the `R` value, if the cell holds one
    pub fn into_r(self) -> (r: Option<R>)
        ensures
            match r {
                Some(x) => self == Self::R(x),
                None => !(self is R),
            },
    {
        match self {
            Self::R(x) => Some(x),
            _ => None,
        }
    }

    /// Returns true if the cell holds the `S` variant
    pub fn is_s(&self) -> (r: bool)
        ensures
            r == (*self is S),
    {
        match self {
            Self::S(_) => true,
            _ => false,
        }
    }

    /// Returns a reference to the `S` value, if the cell holds one
    pub fn as_s(&self) -> (r: Option<&S>)
        ensures
            match r {
                Some(x) => *self == Self::S(*x),
                None => !(*self is S),
            },
    {
        match self {
            Self::S(x) => Some(x),
            _ => None,
        }
    }

    /// Returns a mutable reference to the `S` value, if the cell holds one
    pub fn as_mut_s(&mut self) -> (r: Option<&mut S>)
        ensures
            match r {
                Some(x) => {
                    &&& *old(self) == Self::S(*x)
                    &&& *final(self) == Self::S(*final(x))
                },
                None => {
                    &&& !(*old(self) is S)
                    &&& *final(self) == *old(self)
                },
            },
    {
        match self {
            Self::S(x) => Some(x),
            _ => None,
        }
    }

    /// Returns the `S` value, if the cell holds one
    pub fn into_s(self) -> (r: Option<S>)
        ensures
            match r {
                Some(x) => self == Self::S(x),
                None => !(self is S),
            },
    {
        match self {
            Self::S(x) => Some(x),
            _ => None,
        }
    }

    /// Returns true if the cell holds the `T` variant
    pub fn is_t(&self) -> (r: bool)
        ensures
            r == (*self is T),
    {
        match self {
            Self::T(_) => true,
            _ => false,
        }
    }

    /// Returns a reference to the `T` value, if the cell holds one
    pub fn as_t(&self) -> (r: Option<&T>)
        ensures
            match r {
                Some(x) => *self == Self::T(*x),
                None => !(*self is T),
            },
    {
        match self {
            Self::T(x) => Some(x),
            _ => None,
        }
    }

    /// Returns a mutable reference to the `T` value, if the cell holds one
    pub fn as_mut_t(&mut self) -> (r: Option<&mut T>)
        ensures
            match r {
                Some(x) => {
                    &&& *old(self) == Self::T(*x)
                    &&& *final(self) == Self::T(*final(x))
                },
                None => {
                    &&& !(*old(self) is T)
                    &&& *final(self) == *old(self)
                },
            },
    {
        match self {
            Self::T(x) => Some(x),
            _ => None,
        }
    }

    /// Returns the `T` value, if the cell holds one
    pub fn into_t(self) -> (r: Option<T>)
        ensures
            match r {
                Some(x) => self == Self::T(x),
                None => !(self is T),
            },
    {
        match self {
            Self::T(x) => Some(x),
            _ => None,
        }
    }

    /// Returns true if the cell holds the `U` variant
    pub fn is_u(&self) -> (r: bool)
        ensures
            r == (*self is U),
    {
        match self {
            Self::U(_) => true,
            _ => false,
        }
    }

    /// Returns a reference to the `U` value, if the cell holds one
    pub fn as_u(&self) -> (r: Option<&U>)
        ensures
            match r {
                Some(x) => *self == Self::U(*x),
                None => !(*self is U),
            },
    {
        match self {
            Self::U(x) => Some(x),
            _ => None,
        }
    }

    /// Returns a mutable reference to the `U` value, if the cell holds one
    pub fn as_mut_u(&mut self) -> (r: Option<&mut U>)
        ensures
            match r {
                Some(x) => {
                    &&& *old(self) == Self::U(*x)
                    &&& *final(self) == Self::U(*final(x))
                },
                None => {
                    &&& !(*old(self) is U)
                    &&& *final(self) == *old(self)
                },
            },
    {
        match self {
            Self::U(x) => Some(x),
            _ => None,
        }
    }

    /// Returns the `U` value, if the cell holds one
    pub fn into_u(self) -> (r: Option<U>)
        ensures
            match r {
                Some(x) => self == Self::U(x),
                None => !(self is U),
            },
    {
        match self {
            Self::U(x) => Some(x),
            _ => None,
        }
    }

    /// Returns true if the cell holds the `V` variant
    pub fn is_v(&self) -> (r: bool)
        ensures
            r == (*self is V),
    {
        match self {
            Self::V(_) => true,
            _ => false,
        }
    }

    /// Returns a reference to the `V` value, if the cell holds one
    pub fn as_v(&self) -> (r: Option<&V>)
        ensures
            match r {
                Some(x) => *self == Self::V(*x),
                None => !(*self is V),
            },
    {
        match self {
            Self::V(x) => Some(x),
            _ => None,
        }
    }

    /// Returns a mutable reference to the `V` value, if the cell holds one
    pub fn as_mut_v(&mut self) -> (r: Option<&mut V>)
        ensures
            match r {
                Some(x) => {
                    &&& *old(self) == Self::V(*x)
                    &&& *final(self) == Self::V(*final(x))
                },
                None => {
                    &&& !(*old(self) is V)
                    &&& *final(self) == *old(self)
                },
            },
    {
        match self {
            Self::V(x) => Some(x),
            _ => None,
        }
    }

    /// Returns the `V` value, if the cell holds one
    pub fn into_v(self) -> (r: Option<V>)
        ensures
            match r {
                Some(x) => self == Self::V(x),
                None => !(self is V),
            },
    {
        match self {
            Self::V(x) => Some(x),
            _ => None,
        }
    }

    /// Returns true if the cell holds the `W` variant
    pub fn is_w(&self) -> (r: bool)
        ensures
            r == (*self is W),
    {
        match self {
            Self::W(_) => true,
            _ => false,
        }
    }

    /// Returns a reference to the `W` value, if the cell holds one
    pub fn as_w(&self) -> (r: Option<&W>)
        ensures
            match r {
                Some(x) => *self == Self::W(*x),
                None => !(*self is W),
            },
    {
        match self {
            Self::W(x) => Some(x),
            _ => None,
        }
    }

    /// Returns a mutable reference to the `W` value, if the cell holds one
    pub fn as_mut_w(&mut self) -> (r: Option<&mut W>)
        ensures
            match r {
                Some(x) => {
                    &&& *old(self) == Self::W(*x)
                    &&& *final(self) == Self::W(*final(x))
                },
                None => {
                    &&& !(*old(self) is W)
                    &&& *final(self) == *old(self)
                },
            },
    {
        match self {
            Self::W(x) => Some(x),
            _ => None,
        }
    }

    /// Returns the `W` value, if the cell holds one
    pub fn into_w(self) -> (r: Option<W>)
        ensures
            match r {
                Some(x) => self == Self::W(x),
                None => !(self is W),
            },
    {
        match self {
            Self::W(x) => Some(x),
            _ => None,
        }
    }

    /// Returns true if the cell holds the `X` variant
    pub fn is_x(&self) -> (r: bool)
        ensures
            r == (*self is X),
    {
        match self {
            Self::X(_) => true,
            _ => false,
        }
    }

    /// Returns a reference to the `X` value, if the cell holds one
    pub fn as_x(&self) -> (r: Option<&X>)
        ensures
            match r {
                Some(x) => *self == Self::X(*x),
                None => !(*self is X),
            },
    {
        match self {
            Self::X(x) => Some(x),
            _ => None,
        }
    }

    /// Returns a mutable reference to the `X` value, if the cell holds one
    pub fn as_mut_x(&mut self) -> (r: Option<&mut X>)
        ensures
            match r {
                Some(x) => {
                    &&& *old(self) == Self::X(*x)
                    &&& *final(self) == Self::X(*final(x))
                },
                None => {
                    &&& !(*old(self) is X)
                    &&& *final(self) == *old(self)
                },
            },
    {
        match self {
            Self::X(x) => Some(x),
            _ => None,
        }
    }

    /// Returns the `X` value, if the cell holds one
    pub fn into_x(self) -> (r: Option<X>)
        ensures
            match r {
                Some(x) => self == Self::X(x),
                None => !(self is X),
            },
    {
        match self {
            Self::X(x) => Some(x),
            _ => None,
        }
    }
}

/// A cell that holds a value of one of 25 types, one variant per type
#[derive(Copy, Clone, Debug, PartialEq, Eq, Hash, PartialOrd, Ord)]
pub enum Cell25<A, B, C, D, E, F, G, H, I, J, K, L, M, N, O, P, Q, R, S, T, U, V, W, X, Y> {
    A(A),
    B(B),
    C(C),
    D(D),
    E(E),
    F(F),
    G(G),
    H(H),
    I(I),
    J(J),
    K(K),
    L(L),
    M(M),
    N(N),
    O(O),
    P(P),
    Q(Q),
    R(R),
    S(S),
    T(T),
    U(U),
    V(V),
    W(W),
    X(X),
    Y(Y),
}

impl<A, B, C, D, E, F, G, H, I, J, K, L, M, N, O, P, Q, R, S, T, U, V, W, X, Y> Cell25<A, B, C, D, E, F, G, H, I, J, K, L, M, N, O, P, Q, R, S, T, U, V, W, X, Y> {
    /// Returns true if the cell holds the `A` variant
    pub fn is_a(&self) -> (r: bool)
        ensures
            r == (*self is A),
    {
        match self {
            Self::A(_) => true,
            _ => false,
        }
    }

    /// Returns a reference to the `A` value, if the cell holds one
    pub fn as_a(&self) -> (r: Option<&A>)
        ensures
            match r {
                Some(x) => *self == Self::A(*x),
                None => !(*self is A),
            },
    {
        match self {
            Self::A(x) => Some(x),
            _ => None,
        }
    }

    /// Returns a mutable reference to the `A` value, if the cell holds one
    pub fn as_mut_a(&mut self) -> (r: Option<&mut A>)
        ensures
            match r {
                Some(x) => {
                    &&& *old(self) == Self::A(*x)
                    &&& *final(self) == Self::A(*final(x))
                },
                None => {
                    &&& !(*old(self) is A)
                    &&& *final(self) == *old(self)
                },
            },
    {
        match self {
            Self::A(x) => Some(x),
            _ => None,
        }
    }

    /// Returns the `A` value, if the cell holds one
    pub fn into_a(self) -> (r: Option<A>)
        ensures
            match r {
                Some(x) => self == Self::A(x),
                None => !(self is A),
            },
    {
        match self {
            Self::A(x) => Some(x),
            _ => None,
        }
    }

    /// Returns true if the cell holds the `B` variant
    pub fn is_b(&self) -> (r: bool)
        ensures
            r == (*self is B),
    {
        match self {
            Self::B(_) => true,
            _ => false,
        }
    }

    /// Returns a reference to the `B` value, if the cell holds one
    pub fn as_b(&self) -> (r: Option<&B>)
        ensures
            match r {
                Some(x) => *self == Self::B(*x),
                None => !(*self is B),
            },
    {
        match self {
            Self::B(x) => Some(x),
            _ => None,
        }
    }

    /// Returns a mutable reference to the `B` value, if the cell holds one
    pub fn as_mut_b(&mut self) -> (r: Option<&mut B>)
        ensures
            match r {
                Some(x) => {
                    &&& *old(self) == Self::B(*x)
                    &&& *final(self) == Self::B(*final(x))
                },
                None => {
                    &&& !(*old(self) is B)
                    &&& *final(self) == *old(self)
                },
            },
    {
        match self {
            Self::B(x) => Some(x),
            _ => None,
        }
    }

    /// Returns the `B` value, if the cell holds one
    pub fn into_b(self) -> (r: Option<B>)
        ensures
            match r {
                Some(x) => self == Self::B(x),
                None => !(self is B),
            },
    {
        match self {
            Self::B(x) => Some(x),
            _ => None,
        }
    }

    /// Returns true if the cell holds the `C` variant
    pub fn is_c(&self) -> (r: bool)
        ensures
            r == (*self is C),
    {
        match self {
            Self::C(_) => true,
            _ => false,
        }
    }

    /// Returns a reference to the `C` value, if the cell holds one
    pub fn as_c(&self) -> (r: Option<&C>)
        ensures
            match r {
                Some(x) => *self == Self::C(*x),
                None => !(*self is C),
            },
    {
        match self {
            Self::C(x) => Some(x),
            _ => None,
        }
    }

    /// Returns a mutable reference to the `C` value, if the cell holds one
    pub fn as_mut_c(&mut self) -> (r: Option<&mut C>)
        ensures
            match r {
                Some(x) => {
                    &&& *old(self) == Self::C(*x)
                    &&& *final(self) == Self::C(*final(x))
                },
                None => {
                    &&& !(*old(self) is C)
                    &&& *final(self) == *old(self)
                },
            },
    {
        match self {
            Self::C(x) => Some(x),
            _ => None,
        }
    }

    /// Returns the `C` value, if the cell holds one
    pub fn into_c(self) -> (r: Option<C>)
        ensures
            match r {
                Some(x) => self == Self::C(x),
                None => !(self is C),
            },
    {
        match self {
            Self::C(x) => Some(x),
            _ => None,
        }
    }

    /// Returns true if the cell holds the `D` variant
    pub fn is_d(&self) -> (r: bool)
        ensures
            r == (*self is D),
    {
        match self {
            Self::D(_) => true,
            _ => false,
        }
    }

    /// Returns a reference to the `D` value, if the cell holds one
    pub fn as_d(&self) -> (r: Option<&D>)
        ensures
            match r {
                Some(x) => *self == Self::D(*x),
                None => !(*self is D),
            },
    {
        match self {
            Self::D(x) => Some(x),
            _ => None,
        }
    }

    /// Returns a mutable reference to the `D` value, if the cell holds one
    pub fn as_mut_d(&mut self) -> (r: Option<&mut D>)
        ensures
            match r {
                Some(x) => {
                    &&& *old(self) == Self::D(*x)
                    &&& *final(self) == Self::D(*final(x))
                },
                None => {
                    &&& !(*old(self) is D)
                    &&& *final(self) == *old(self)
                },
            },
    {
        match self {
            Self::D(x) => Some(x),
            _ => None,
        }
    }

    /// Returns the `D` value, if the cell holds one
    pub fn into_d(self) -> (r: Option<D>)
        ensures
            match r {
                Some(x) => self == Self::D(x),
                None => !(self is D),
            },
    {
        match self {
            Self::D(x) => Some(x),
            _ => None,
        }
    }

    /// Returns true if the cell holds the `E` variant
    pub fn is_e(&self) -> (r: bool)
        ensures
            r == (*self is E),
    {
        match self {
            Self::E(_) => true,
            _ => false,
        }
    }

    /// Returns a reference to the `E` value, if the cell holds one
    pub fn as_e(&self) -> (r: Option<&E>)
        ensures
            match r {
                Some(x) => *self == Self::E(*x),
                None => !(*self is E),
            },
    {
        match self {
            Self::E(x) => Some(x),
            _ => None,
        }
    }

    /// Returns a mutable reference to the `E` value, if the cell holds one
    pub fn as_mut_e(&mut self) -> (r: Option<&mut E>)
        ensures
            match r {
                Some(x) => {
                    &&& *old(self) == Self::E(*x)
                    &&& *final(self) == Self::E(*final(x))
                },
                None => {
                    &&& !(*old(self) is E)
                    &&& *final(self) == *old(self)
                },
            },
    {
        match self {
            Self::E(x) => Some(x),
            _ => None,
        }
    }

    /// Returns the `E` value, if the cell holds one
    pub fn into_e(self) -> (r: Option<E>)
        ensures
            match r {
                Some(x) => self == Self::E(x),
                None => !(self is E),
            },
    {
        match self {
            Self::E(x) => Some(x),
            _ => None,
        }
    }

    /// Returns true if the cell holds the `F` variant
    pub fn is_f(&self) -> (r: bool)
        ensures
            r == (*self is F),
    {
        match self {
            Self::F(_) => true,
            _ => false,
        }
    }

    /// Returns a reference to the `F` value, if the cell holds one
    pub fn as_f(&self) -> (r: Option<&F>)
        ensures
            match r {
                Some(x) => *self == Self::F(*x),
                None => !(*self is F),
            },
    {
        match self {
            Self::F(x) => Some(x),
            _ => None,
        }
    }

    /// Returns a mutable reference to the `F` value, if the cell holds one
    pub fn as_mut_f(&mut self) -> (r: Option<&mut F>)
        ensures
            match r {
                Some(x) => {
                    &&& *old(self) == Self::F(*x)
                    &&& *final(self) == Self::F(*final(x))
                },
                None => {
                    &&& !(*old(self) is F)
                    &&& *final(self) == *old(self)
                },
            },
    {
        match self {
            Self::F(x) => Some(x),
            _ => None,
        }
    }

    /// Returns the `F` value, if the cell holds one
    pub fn into_f(self) -> (r: Option<F>)
        ensures
            match r {
                Some(x) => self == Self::F(x),
                None => !(self is F),
            },
    {
        match self {
            Self::F(x) => Some(x),
            _ => None,
        }
    }

    /// Returns true if the cell holds the `G` variant
    pub fn is_g(&self) -> (r: bool)
        ensures
            r == (*self is G),
    {
        match self {
            Self::G(_) => true,
            _ => false,
        }
    }

    /// Returns a reference to the `G` value, if the cell holds one
    pub fn as_g(&self) -> (r: Option<&G>)
        ensures
            match r {
                Some(x) => *self == Self::G(*x),
                None => !(*self is G),
            },
    {
        match self {
            Self::G(x) => Some(x),
            _ => None,
        }
    }

    /// Returns a mutable reference to the `G` value, if the cell holds one
    pub fn as_mut_g(&mut self) -> (r: Option<&mut G>)
        ensures
            match r {
                Some(x) => {
                    &&& *old(self) == Self::G(*x)
                    &&& *final(self) == Self::G(*final(x))
                },
                None => {
                    &&& !(*old(self) is G)
                    &&& *final(self) == *old(self)
                },
            },
    {
        match self {
            Self::G(x) => Some(x),
            _ => None,
        }
    }

    /// Returns the `G` value, if the cell holds one
    pub fn into_g(self) -> (r: Option<G>)
        ensures
            match r {
                Some(x) => self == Self::G(x),
                None => !(self is G),
            },
    {
        match self {
            Self::G(x) => Some(x),
            _ => None,
        }
    }

    /// Returns true if the cell holds the `H` variant
    pub fn is_h(&self) -> (r: bool)
        ensures
            r == (*self is H),
    {
        match self {
            Self::H(_) => true,
            _ => false,
        }
    }

    /// Returns a reference to the `H` value, if the cell holds one
    pub fn as_h(&self) -> (r: Option<&H>)
        ensures
            match r {
                Some(x) => *self == Self::H(*x),
                None => !(*self is H),
            },
    {
        match self {
            Self::H(x) => Some(x),
            _ => None,
        }
    }

    /// Returns a mutable reference to the `H` value, if the cell holds one
    pub fn as_mut_h(&mut self) -> (r: Option<&mut H>)
        ensures
            match r {
                Some(x) => {
                    &&& *old(self) == Self::H(*x)
                    &&& *final(self) == Self::H(*final(x))
                },
                None => {
                    &&& !(*old(self) is H)
                    &&& *final(self) == *old(self)
                },
            },
    {
        match self {
            Self::H(x) => Some(x),
            _ => None,
        }
    }

    /// Returns the `H` value, if the cell holds one
    pub fn into_h(self) -> (r: Option<H>)
        ensures
            match r {
                Some(x) => self == Self::H(x),
                None => !(self is H),
            },
    {
        match self {
            Self::H(x) => Some(x),
            _ => None,
        }
    }

    /// Returns true if the cell holds the `I` variant
    pub fn is_i(&self) -> (r: bool)
        ensures
            r == (*self is I),
    {
        match self {
            Self::I(_) => true,
            _ => false,
        }
    }

    /// Returns a reference to the `I` value, if the cell holds one
    pub fn as_i(&self) -> (r: Option<&I>)
        ensures
            match r {
                Some(x) => *self == Self::I(*x),
                None => !(*self is I),
            },
    {
        match self {
            Self::I(x) => Some(x),
            _ => None,
        }
    }

    /// Returns a mutable reference to the `I` value, if the cell holds one
    pub fn as_mut_i(&mut self) -> (r: Option<&mut I>)
        ensures
            match r {
                Some(x) => {
                    &&& *old(self) == Self::I(*x)
                    &&& *final(self) == Self::I(*final(x))
                },
                None => {
                    &&& !(*old(self) is I)
                    &&& *final(self) == *old(self)
                },
            },
    {
        match self {
            Self::I(x) => Some(x),
            _ => None,
        }
    }

    /// Returns the `I` value, if the cell holds one
    pub fn into_i(self) -> (r: Option<I>)
        ensures
            match r {
                Some(x) => self == Self::I(x),
                None => !(self is I),
            },
    {
        match self {
            Self::I(x) => Some(x),
            _ => None,
        }
    }

    /// Returns true if the cell holds the `J` variant
    pub fn is_j(&self) -> (r: bool)
        ensures
            r == (*self is J),
    {
        match self {
            Self::J(_) => true,
            _ => false,
        }
    }

    /// Returns a reference to the `J` value, if the cell holds one
    pub fn as_j(&self) -> (r: Option<&J>)
        ensures
            match r {
                Some(x) => *self == Self::J(*x),
                None => !(*self is J),
            },
    {
        match self {
            Self::J(x) => Some(x),
            _ => None,
        }
    }

    /// Returns a mutable reference to the `J` value, if the cell holds one
    pub fn as_mut_j(&mut self) -> (r: Option<&mut J>)
        ensures
            match r {
                Some(x) => {
                    &&& *old(self) == Self::J(*x)
                    &&& *final(self) == Self::J(*final(x))
                },
                None => {
                    &&& !(*old(self) is J)
                    &&& *final(self) == *old(self)
                },
            },
    {
        match self {
            Self::J(x) => Some(x),
            _ => None,
        }
    }

    /// Returns the `J` value, if the cell holds one
    pub fn into_j(self) -> (r: Option<J>)
        ensures
            match r {
                Some(x) => self == Self::J(x),
                None => !(self is J),
            },
    {
        match self {
            Self::J(x) => Some(x),
            _ => None,
        }
    }

    /// Returns true if the cell holds the `K` variant
    pub fn is_k(&self) -> (r: bool)
        ensures
            r == (*self is K),
    {
        match self {
            Self::K(_) => true,
            _ => false,
        }
    }

    /// Returns a reference to the `K` value, if the cell holds one
    pub fn as_k(&self) -> (r: Option<&K>)
        ensures
            match r {
                Some(x) => *self == Self::K(*x),
                None => !(*self is K),
            },
    {
        match self {
            Self::K(x) => Some(x),
            _ => None,
        }
    }

    /// Returns a mutable reference to the `K` value, if the cell holds one
    pub fn as_mut_k(&mut self) -> (r: Option<&mut K>)
        ensures
            match r {
                Some(x) => {
                    &&& *old(self) == Self::K(*x)
                    &&& *final(self) == Self::K(*final(x))
                },
                None => {
                    &&& !(*old(self) is K)
                    &&& *final(self) == *old(self)
                },
            },
    {
        match self {
            Self::K(x) => Some(x),
            _ => None,
        }
    }

    /// Returns the `K` value, if the cell holds one
    pub fn into_k(self) -> (r: Option<K>)
        ensures
            match r {
                Some(x) => self == Self::K(x),
                None => !(self is K),
            },
    {
        match self {
            Self::K(x) => Some(x),
            _ => None,
        }
    }

    /// Returns true if the cell holds the `L` variant
    pub fn is_l(&self) -> (r: bool)
        ensures
            r == (*self is L),
    {
        match self {
            Self::L(_) => true,
            _ => false,
        }
    }

    /// Returns a reference to the `L` value, if the cell holds one
    pub fn as_l(&self) -> (r: Option<&L>)
        ensures
            match r {
                Some(x) => *self == Self::L(*x),
                None => !(*self is L),
            },
    {
        match self {
            Self::L(x) => Some(x),
            _ => None,
        }
    }

    /// Returns a mutable reference to the `L` value, if the cell holds one
    pub fn as_mut_l(&mut self) -> (r: Option<&mut L>)
        ensures
            match r {
                Some(x) => {
                    &&& *old(self) == Self::L(*x)
                    &&& *final(self) == Self::L(*final(x))
                },
                None => {
                    &&& !(*old(self) is L)
                    &&& *final(self) == *old(self)
                },
            },
    {
        match self {
            Self::L(x) => Some(x),
            _ => None,
        }
    }

    /// Returns the `L` value, if the cell holds one
    pub fn into_l(self) -> (r: Option<L>)
        ensures
            match r {
                Some(x) => self == Self::L(x),
                None => !(self is L),
            },
    {
        match self {
            Self::L(x) => Some(x),
            _ => None,
        }
    }

    /// Returns true if the cell holds the `M` variant
    pub fn is_m(&self) -> (r: bool)
        ensures
            r == (*self is M),
    {
        match self {
            Self::M(_) => true,
            _ => false,
        }
    }

    /// Returns a reference to the `M` value, if the cell holds one
    pub fn as_m(&self) -> (r: Option<&M>)
        ensures
            match r {
                Some(x) => *self == Self::M(*x),
                None => !(*self is M),
            },
    {
        match self {
            Self::M(x) => Some(x),
            _ => None,
        }
    }

    /// Returns a mutable reference to the `M` value, if the cell holds one
    pub fn as_mut_m(&mut self) -> (r: Option<&mut M>)
        ensures
            match r {
                Some(x) => {
                    &&& *old(self) == Self::M(*x)
                    &&& *final(self) == Self::M(*final(x))
                },
                None => {
                    &&& !(*old(self) is M)
                    &&& *final(self) == *old(self)
                },
            },
    {
        match self {
            Self::M(x) => Some(x),
            _ => None,
        }
    }

    /// Returns the `M` value, if the cell holds one
    pub fn into_m(self) -> (r: Option<M>)
        ensures
            match r {
                Some(x) => self == Self::M(x),
                None => !(self is M),
            },
    {
        match self {
            Self::M(x) => Some(x),
            _ => None,
        }
    }

    /// Returns true if the cell holds the `N` variant
    pub fn is_n(&self) -> (r: bool)
        ensures
            r == (*self is N),
    {
        match self {
            Self::N(_) => true,
            _ => false,
        }
    }

    /// Returns a reference to the `N` value, if the cell holds one
    pub fn as_n(&self) -> (r: Option<&N>)
        ensures
            match r {
                Some(x) => *self == Self::N(*x),
                None => !(*self is N),
            },
    {
        match self {
            Self::N(x) => Some(x),
            _ => None,
        }
    }

    /// Returns a mutable reference to the `N` value, if the cell holds one
    pub fn as_mut_n(&mut self) -> (r: Option<&mut N>)
        ensures
            match r {
                Some(x) => {
                    &&& *old(self) == Self::N(*x)
                    &&& *final(self) == Self::N(*final(x))
                },
                None => {
                    &&& !(*old(self) is N)
                    &&& *final(self) == *old(self)
                },
            },
    {
        match self {
            Self::N(x) => Some(x),
            _ => None,
        }
    }

    /// Returns the `N` value, if the cell holds one
    pub fn into_n(self) -> (r: Option<N>)
        ensures
            match r {
                Some(x) => self == Self::N(x),
                None => !(self is N),
            },
    {
        match self {
            Self::N(x) => Some(x),
            _ => None,
        }
    }

    /// Returns true if the cell holds the `O` variant
    pub fn is_o(&self) -> (r: bool)
        ensures
            r == (*self is O),
    {
        match self {
            Self::O(_) => true,
            _ => false,
        }
    }

    /// Returns a reference to the `O` value, if the cell holds one
    pub fn as_o(&self) -> (r: Option<&O>)
        ensures
            match r {
                Some(x) => *self == Self::O(*x),
                None => !(*self is O),
            },
    {
        match self {
            Self::O(x) => Some(x),
            _ => None,
        }
    }

    /// Returns a mutable reference to the `O` value, if the cell holds one
    pub fn as_mut_o(&mut self) -> (r: Option<&mut O>)
        ensures
            match r {
                Some(x) => {
                    &&& *old(self) == Self::O(*x)
                    &&& *final(self) == Self::O(*final(x))
                },
                None => {
                    &&& !(*old(self) is O)
                    &&& *final(self) == *old(self)
                },
            },
    {
        match self {
            Self::O(x) => Some(x),
            _ => None,
        }
    }

    /// Returns the `O` value, if the cell holds one
    pub fn into_o(self) -> (r: Option<O>)
        ensures
            match r {
                Some(x) => self == Self::O(x),
                None => !(self is O),
            },
    {
        match self {
            Self::O(x) => Some(x),
            _ => None,
        }
    }

    /// Returns true if the cell holds the `P` variant
    pub fn is_p(&self) -> (r: bool)
        ensures
            r == (*self is P),
    {
        match self {
            Self::P(_) => true,
            _ => false,
        }
    }

    /// Returns a reference to the `P` value, if the cell holds one
    pub fn as_p(&self) -> (r: Option<&P>)
        ensures
            match r {
                Some(x) => *self == Self::P(*x),
                None => !(*self is P),
            },
    {
        match self {
            Self::P(x) => Some(x),
            _ => None,
        }
    }

    /// Returns a mutable reference to the `P` value, if the cell holds one
    pub fn as_mut_p(&mut self) -> (r: Option<&mut P>)
        ensures
            match r {
                Some(x) => {
                    &&& *old(self) == Self::P(*x)
                    &&& *final(self) == Self::P(*final(x))
                },
                None => {
                    &&& !(*old(self) is P)
                    &&& *final(self) == *old(self)
                },
            },
    {
        match self {
            Self::P(x) => Some(x),
            _ => None,
        }
    }

    /// Returns the `P` value, if the cell holds one
    pub fn into_p(self) -> (r: Option<P>)
        ensures
            match r {
                Some(x) => self == Self::P(x),
                None => !(self is P),
            },
    {
        match self {
            Self::P(x) => Some(x),
            _ => None,
        }
    }

    /// Returns true if the cell holds the `Q` variant
    pub fn is_q(&self) -> (r: bool)
        ensures
            r == (*self is Q),
    {
        match self {
            Self::Q(_) => true,
            _ => false,
        }
    }

    /// Returns a reference to the `Q` value, if the cell holds one
    pub fn as_q(&self) -> (r: Option<&Q>)
        ensures
            match r {
                Some(x) => *self == Self::Q(*x),
                None => !(*self is Q),
            },
    {
        match self {
            Self::Q(x) => Some(x),
            _ => None,
        }
    }

    /// Returns a mutable reference to the `Q` value, if the cell holds one
    pub fn as_mut_q(&mut self) -> (r: Option<&mut Q>)
        ensures
            match r {
                Some(x) => {
                    &&& *old(self) == Self::Q(*x)
                    &&& *final(self) == Self::Q(*final(x))
                },
                None => {
                    &&& !(*old(self) is Q)
                    &&& *final(self) == *old(self)
                },
            },
    {
        match self {
            Self::Q(x) => Some(x),
            _ => None,
        }
    }

    /// Returns the `Q` value, if the cell holds one
    pub fn into_q(self) -> (r: Option<Q>)
        ensures
            match r {
                Some(x) => self == Self::Q(x),
                None => !(self is Q),
            },
    {
        match self {
            Self::Q(x) => Some(x),
            _ => None,
        }
    }

    /// Returns true if the cell holds the `R` variant
    pub fn is_r(&self) -> (r: bool)
        ensures
            r == (*self is R),
    {
        match self {
            Self::R(_) => true,
            _ => false,
        }
    }

    /// Returns a reference to the `R` value, if the cell holds one
    pub fn as_r(&self) -> (r: Option<&R>)
        ensures
            match r {
                Some(x) => *self == Self::R(*x),
                None => !(*self is R),
            },
    {
        match self {
            Self::R(x) => Some(x),
            _ => None,
        }
    }

    /// Returns a mutable reference to the `R` value, if the cell holds one
    pub fn as_mut_r(&mut self) -> (r: Option<&mut R>)
        ensures
            match r {
                Some(x) => {
                    &&& *old(self) == Self::R(*x)
                    &&& *final(self) == Self::R(*final(x))
                },
                None => {
                    &&& !(*old(self) is R)
                    &&& *final(self) == *old(self)
                },
            },
    {
        match self {
            Self::R(x) => Some(x),
            _ => None,
        }
    }

    /// Returns the `R` value, if the cell holds one
    pub fn into_r(self) -> (r: Option<R>)
        ensures
            match r {
                Some(x) => self == Self::R(x),
                None => !(self is R),
            },
    {
        match self {
            Self::R(x) => Some(x),
            _ => None,
        }
    }

    /// Returns true if the cell holds the `S` variant
    pub fn is_s(&self) -> (r: bool)
        ensures
            r == (*self is S),
    {
        match self {
            Self::S(_) => true,
            _ => false,
        }
    }

    /// Returns a reference to the `S` value, if the cell holds one
    pub fn as_s(&self) -> (r: Option<&S>)
        ensures
            match r {
                Some(x) => *self == Self::S(*x),
                None => !(*self is S),
            },
    {
        match self {
            Self::S(x) => Some(x),
            _ => None,
        }
    }

    /// Returns a mutable reference to the `S` value, if the cell holds one
    pub fn as_mut_s(&mut self) -> (r: Option<&mut S>)
        ensures
            match r {
                Some(x) => {
                    &&& *old(self) == Self::S(*x)
                    &&& *final(self) == Self::S(*final(x))
                },
                None => {
                    &&& !(*old(self) is S)
                    &&& *final(self) == *old(self)
                },
            },
    {
        match self {
            Self::S(x) => Some(x),
            _ => None,
        }
    }

    /// Returns the `S` value, if the cell holds one
    pub fn into_s(self) -> (r: Option<S>)
        ensures
            match r {
                Some(x) => self == Self::S(x),
                None => !(self is S),
            },
    {
        match self {
            Self::S(x) => Some(x),
            _ => None,
        }
    }

    /// Returns true if the cell holds the `T` variant
    pub fn is_t(&self) -> (r: bool)
        ensures
            r == (*self is T),
    {
        match self {
            Self::T(_) => true,
            _ => false,
        }
    }

    /// Returns a reference to the `T` value, if the cell holds one
    pub fn as_t(&self) -> (r: Option<&T>)
        ensures
            match r {
                Some(x) => *self == Self::T(*x),
                None => !(*self is T),
            },
    {
        match self {
            Self::T(x) => Some(x),
            _ => None,
        }
    }

    /// Returns a mutable reference to the `T` value, if the cell holds one
    pub fn as_mut_t(&mut self) -> (r: Option<&mut T>)
        ensures
            match r {
                Some(x) => {
                    &&& *old(self) == Self::T(*x)
                    &&& *final(self) == Self::T(*final(x))
                },
                None => {
                    &&& !(*old(self) is T)
                    &&& *final(self) == *old(self)
                },
            },
    {
        match self {
            Self::T(x) => Some(x),
            _ => None,
        }
    }

    /// Returns the `T` value, if the cell holds one
    pub fn into_t(self) -> (r: Option<T>)
        ensures
            match r {
                Some(x) => self == Self::T(x),
                None => !(self is T),
            },
    {
        match self {
            Self::T(x) => Some(x),
            _ => None,
        }
    }

    /// Returns true if the cell holds the `U` variant
    pub fn is_u(&self) -> (r: bool)
        ensures
            r == (*self is U),
    {
        match self {
            Self::U(_) => true,
            _ => false,
        }
    }

    /// Returns a reference to the `U` value, if the cell holds one
    pub fn as_u(&self) -> (r: Option<&U>)
        ensures
            match r {
                Some(x) => *self == Self::U(*x),
                None => !(*self is U),
            },
    {
        match self {
            Self::U(x) => Some(x),
            _ => None,
        }
    }

    /// Returns a mutable reference to the `U` value, if the cell holds one
    pub fn as_mut_u(&mut self) -> (r: Option<&mut U>)
        ensures
            match r {
                Some(x) => {
                    &&& *old(self) == Self::U(*x)
                    &&& *final(self) == Self::U(*final(x))
                },
                None => {
                    &&& !(*old(self) is U)
                    &&& *final(self) == *old(self)
                },
            },
    {
        match self {
            Self::U(x) => Some(x),
            _ => None,
        }
    }

    /// Returns the `U` value, if the cell holds one
    pub fn into_u(self) -> (r: Option<U>)
        ensures
            match r {
                Some(x) => self == Self::U(x),
                None => !(self is U),
            },
    {
        match self {
            Self::U(x) => Some(x),
            _ => None,
        }
    }

    /// Returns true if the cell holds the `V` variant
    pub fn is_v(&self) -> (r: bool)
        ensures
            r == (*self is V),
    {
        match self {
            Self::V(_) => true,
            _ => false,
        }
    }

    /// Returns a reference to the `V` value, if the cell holds one
    pub fn as_v(&self) -> (r: Option<&V>)
        ensures
            match r {
                Some(x) => *self == Self::V(*x),
                None => !(*self is V),
            },
    {
        match self {
            Self::V(x) => Some(x),
            _ => None,
        }
    }

    /// Returns a mutable reference to the `V` value, if the cell holds one
    pub fn as_mut_v(&mut self) -> (r: Option<&mut V>)
        ensures
            match r {
                Some(x) => {
                    &&& *old(self) == Self::V(*x)
                    &&& *final(self) == Self::V(*final(x))
                },
                None => {
                    &&& !(*old(self) is V)
                    &&& *final(self) == *old(self)
                },
            },
    {
        match self {
            Self::V(x) => Some(x),
            _ => None,
        }
    }

    /// Returns the `V` value, if the cell holds one
    pub fn into_v(self) -> (r: Option<V>)
        ensures
            match r {
                Some(x) => self == Self::V(x),
                None => !(self is V),
            },
    {
        match self {
            Self::V(x) => Some(x),
            _ => None,
        }
    }

    /// Returns true if the cell holds the `W` variant
    pub fn is_w(&self) -> (r: bool)
        ensures
            r == (*self is W),
    {
        match self {
            Self::W(_) => true,
            _ => false,
        }
    }

    /// Returns a reference to the `W` value, if the cell holds one
    pub fn as_w(&self) -> (r: Option<&W>)
        ensures
            match r {
                Some(x) => *self == Self::W(*x),
                None => !(*self is W),
            },
    {
        match self {
            Self::W(x) => Some(x),
            _ => None,
        }
    }

    /// Returns a mutable reference to the `W` value, if the cell holds one
    pub fn as_mut_w(&mut self) -> (r: Option<&mut W>)
        ensures
            match r {
                Some(x) => {
                    &&& *old(self) == Self::W(*x)
                    &&& *final(self) == Self::W(*final(x))
                },
                None => {
                    &&& !(*old(self) is W)
                    &&& *final(self) == *old(self)
                },
            },
    {
        match self {
            Self::W(x) => Some(x),
            _ => None,
        }
    }

    /// Returns the `W` value, if the cell holds one
    pub fn into_w(self) -> (r: Option<W>)
        ensures
            match r {
                Some(x) => self == Self::W(x),
                None => !(self is W),
            },
    {
        match self {
            Self::W(x) => Some(x),
            _ => None,
        }
    }

    /// Returns true if the cell holds the `X` variant
    pub fn is_x(&self) -> (r: bool)
        ensures
            r == (*self is X),
    {
        match self {
            Self::X(_) => true,
            _ => false,
        }
    }

    /// Returns a reference to the `X` value, if the cell holds one
    pub fn as_x(&self) -> (r: Option<&X>)
        ensures
            match r {
                Some(x) => *self == Self::X(*x),
                None => !(*self is X),
            },
    {
        match self {
            Self::X(x) => Some(x),
            _ => None,
        }
    }

    /// Returns a mutable reference to the `X` value, if the cell holds one
    pub fn as_mut_x(&mut self) -> (r: Option<&mut X>)
        ensures
            match r {
                Some(x) => {
                    &&& *old(self) == Self::X(*x)
                    &&& *final(self) == Self::X(*final(x))
                },
                None => {
                    &&& !(*old(self) is X)
                    &&& *final(self) == *old(self)
                },
            },
    {
        match self {
            Self::X(x) => Some(x),
            _ => None,
        }
    }

    /// Returns the `X` value, if the cell holds one
    pub fn into_x(self) -> (r: Option<X>)
        ensures
            match r {
                Some(x) => self == Self::X(x),
                None => !(self is X),
            },
    {
        match self {
            Self::X(x) => Some(x),
            _ => None,
        }
    }

    /// Returns true if the cell holds the `Y` variant
    pub fn is_y(&self) -> (r: bool)
        ensures
            r == (*self is Y),
    {
        match self {
            Self::Y(_) => true,
            _ => false,
        }
    }

    /// Returns a reference to the `Y` value, if the cell holds one
    pub fn as_y(&self) -> (r: Option<&Y>)
        ensures
            match r {
                Some(x) => *self == Self::Y(*x),
                None => !(*self is Y),
            },
    {
        match self {
            Self::Y(x) => Some(x),
            _ => None,
        }
    }

    /// Returns a mutable reference to the `Y` value, if the cell holds one
    pub fn as_mut_y(&mut self) -> (r: Option<&mut Y>)
        ensures
            match r {
                Some(x) => {
                    &&& *old(self) == Self::Y(*x)
                    &&& *final(self) == Self::Y(*final(x))
                },
                None => {
                    &&& !(*old(self) is Y)
                    &&& *final(self) == *old(self)
                },
            },
    {
        match self {
            Self::Y(x) => Some(x),
            _ => None,
        }
    }

    /// Returns the `Y` value, if the cell holds one
    pub fn into_y(self) -> (r: Option<Y>)
        ensures
            match r {
                Some(x) => self == Self::Y(x),
                None => !(self is Y),
            },
    {
        match self {
            Self::Y(x) => Some(x),
            _ => None,
        }
    }
}

/// A cell that holds a value of one of 26 types, one variant per type
#[derive(Copy, Clone, Debug, PartialEq, Eq, Hash, PartialOrd, Ord)]
pub enum Cell26<A, B, C, D, E, F, G, H, I, J, K, L, M, N, O, P, Q, R, S, T, U, V, W, X, Y, Z> {
    A(A),
    B(B),
    C(C),
    D(D),
    E(E),
    F(F),
    G(G),
    H(H),
    I(I),
    J(J),
    K(K),
    L(L),
    M(M),
    N(N),
    O(O),
    P(P),
    Q(Q),
    R(R),
    S(S),
    T(T),
    U(U),
    V(V),
    W(W),
    X(X),
    Y(Y),
    Z(Z),
}

impl<A, B, C, D, E, F, G, H, I, J, K, L, M, N, O, P, Q, R, S, T, U, V, W, X, Y, Z> Cell26<A, B, C, D, E, F, G, H, I, J, K, L, M, N, O, P, Q, R, S, T, U, V, W, X, Y, Z> {
    /// Returns true if the cell holds the `A` variant
    pub fn is_a(&self) -> (r: bool)
        ensures
            r == (*self is A),
    {
        match self {
            Self::A(_) => true,
            _ => false,
        }
    }

    /// Returns a reference to the `A` value, if the cell holds one
    pub fn as_a(&self) -> (r: Option<&A>)
        ensures
            match r {
                Some(x) => *self == Self::A(*x),
                None => !(*self is A),
            },
    {
        match self {
            Self::A(x) => Some(x),
            _ => None,
        }
    }

    /// Returns a mutable reference to the `A` value, if the cell holds one
    pub fn as_mut_a(&mut self) -> (r: Option<&mut A>)
        ensures
            match r {
                Some(x) => {
                    &&& *old(self) == Self::A(*x)
                    &&& *final(self) == Self::A(*final(x))
                },
                None => {
                    &&& !(*old(self) is A)
                    &&& *final(self) == *old(self)
                },
            },
    {
        match self {
            Self::A(x) => Some(x),
            _ => None,
        }
    }

    /// Returns the `A` value, if the cell holds one
    pub fn into_a(self) -> (r: Option<A>)
        ensures
            match r {
                Some(x) => self == Self::A(x),
                None => !(self is A),
            },
    {
        match self {
            Self::A(x) => Some(x),
            _ => None,
        }
    }

    /// Returns true if the cell holds the `B` variant
    pub fn is_b(&self) -> (r: bool)
        ensures
            r == (*self is B),
    {
        match self {
            Self::B(_) => true,
            _ => false,
        }
    }

    /// Returns a reference to the `B` value, if the cell holds one
    pub fn as_b(&self) -> (r: Option<&B>)
        ensures
            match r {
                Some(x) => *self == Self::B(*x),
                None => !(*self is B),
            },
    {
        match self {
            Self::B(x) => Some(x),
            _ => None,
        }
    }

    /// Returns a mutable reference to the `B` value, if the cell holds one
    pub fn as_mut_b(&mut self) -> (r: Option<&mut B>)
        ensures
            match r {
                Some(x) => {
                    &&& *old(self) == Self::B(*x)
                    &&& *final(self) == Self::B(*final(x))
                },
                None => {
                    &&& !(*old(self) is B)
                    &&& *final(self) == *old(self)
                },
            },
    {
        match self {
            Self::B(x) => Some(x),
            _ => None,
        }
    }

    /// Returns the `B` value, if the cell holds one
    pub fn into_b(self) -> (r: Option<B>)
        ensures
            match r {
                Some(x) => self == Self::B(x),
                None => !(self is B),
            },
    {
        match self {
            Self::B(x) => Some(x),
            _ => None,
        }
    }

    /// Returns true if the cell holds the `C` variant
    pub fn is_c(&self) -> (r: bool)
        ensures
            r == (*self is C),
    {
        match self {
            Self::C(_) => true,
            _ => false,
        }
    }

    /// Returns a reference to the `C` value, if the cell holds one
    pub fn as_c(&self) -> (r: Option<&C>)
        ensures
            match r {
                Some(x) => *self == Self::C(*x),
                None => !(*self is C),
            },
    {
        match self {
            Self::C(x) => Some(x),
            _ => None,
        }
    }

    /// Returns a mutable reference to the `C` value, if the cell holds one
    pub fn as_mut_c(&mut self) -> (r: Option<&mut C>)
        ensures
            match r {
                Some(x) => {
                    &&& *old(self) == Self::C(*x)
                    &&& *final(self) == Self::C(*final(x))
                },
                None => {
                    &&& !(*old(self) is C)
                    &&& *final(self) == *old(self)
                },
            },
    {
        match self {
            Self::C(x) => Some(x),
            _ => None,
        }
    }

    /// Returns the `C` value, if the cell holds one
    pub fn into_c(self) -> (r: Option<C>)
        ensures
            match r {
                Some(x) => self == Self::C(x),
                None => !(self is C),
            },
    {
        match self {
            Self::C(x) => Some(x),
            _ => None,
        }
    }

    /// Returns true if the cell holds the `D` variant
    pub fn is_d(&self) -> (r: bool)
        ensures
            r == (*self is D),
    {
        match self {
            Self::D(_) => true,
            _ => false,
        }
    }

    /// Returns a reference to the `D` value, if the cell holds one
    pub fn as_d(&self) -> (r: Option<&D>)
        ensures
            match r {
                Some(x) => *self == Self::D(*x),
                None => !(*self is D),
            },
    {
        match self {
            Self::D(x) => Some(x),
            _ => None,
        }
    }

    /// Returns a mutable reference to the `D` value, if the cell holds one
    pub fn as_mut_d(&mut self) -> (r: Option<&mut D>)
        ensures
            match r {
                Some(x) => {
                    &&& *old(self) == Self::D(*x)
                    &&& *final(self) == Self::D(*final(x))
                },
                None => {
                    &&& !(*old(self) is D)
                    &&& *final(self) == *old(self)
                },
            },
    {
        match self {
            Self::D(x) => Some(x),
            _ => None,
        }
    }

    /// Returns the `D` value, if the cell holds one
    pub fn into_d(self) -> (r: Option<D>)
        ensures
            match r {
                Some(x) => self == Self::D(x),
                None => !(self is D),
            },
    {
        match self {
            Self::D(x) => Some(x),
            _ => None,
        }
    }

    /// Returns true if the cell holds the `E` variant
    pub fn is_e(&self) -> (r: bool)
        ensures
            r == (*self is E),
    {
        match self {
            Self::E(_) => true,
            _ => false,
        }
    }

    /// Returns a reference to the `E` value, if the cell holds one
    pub fn as_e(&self) -> (r: Option<&E>)
        ensures
            match r {
                Some(x) => *self == Self::E(*x),
                None => !(*self is E),
            },
    {
        match self {
            Self::E(x) => Some(x),
            _ => None,
        }
    }

    /// Returns a mutable reference to the `E` value, if the cell holds one
    pub fn as_mut_e(&mut self) -> (r: Option<&mut E>)
        ensures
            match r {
                Some(x) => {
                    &&& *old(self) == Self::E(*x)
                    &&& *final(self) == Self::E(*final(x))
                },
                None => {
                    &&& !(*old(self) is E)
                    &&& *final(self) == *old(self)
                },
            },
    {
        match self {
            Self::E(x) => Some(x),
            _ => None,
        }
    }

    /// Returns the `E` value, if the cell holds one
    pub fn into_e(self) -> (r: Option<E>)
        ensures
            match r {
                Some(x) => self == Self::E(x),
                None => !(self is E),
            },
    {
        match self {
            Self::E(x) => Some(x),
            _ => None,
        }
    }

    /// Returns true if the cell holds the `F` variant
    pub fn is_f(&self) -> (r: bool)
        ensures
            r == (*self is F),
    {
        match self {
            Self::F(_) => true,
            _ => false,
        }
    }

    /// Returns a reference to the `F` value, if the cell holds one
    pub fn as_f(&self) -> (r: Option<&F>)
        ensures
            match r {
                Some(x) => *self == Self::F(*x),
                None => !(*self is F),
            },
    {
        match self {
            Self::F(x) => Some(x),
            _ => None,
        }
    }

    /// Returns a mutable reference to the `F` value, if the cell holds one
    pub fn as_mut_f(&mut self) -> (r: Option<&mut F>)
        ensures
            match r {
                Some(x) => {
                    &&& *old(self) == Self::F(*x)
                    &&& *final(self) == Self::F(*final(x))
                },
                None => {
                    &&& !(*old(self) is F)
                    &&& *final(self) == *old(self)
                },
            },
    {
        match self {
            Self::F(x) => Some(x),
            _ => None,
        }
    }

    /// Returns the `F` value, if the cell holds one
    pub fn into_f(self) -> (r: Option<F>)
        ensures
            match r {
                Some(x) => self == Self::F(x),
                None => !(self is F),
            },
    {
        match self {
            Self::F(x) => Some(x),
            _ => None,
        }
    }

    /// Returns true if the cell holds the `G` variant
    pub fn is_g(&self) -> (r: bool)
        ensures
            r == (*self is G),
    {
        match self {
            Self::G(_) => true,
            _ => false,
        }
    }

    /// Returns a reference to the `G` value, if the cell holds one
    pub fn as_g(&self) -> (r: Option<&G>)
        ensures
            match r {
                Some(x) => *self == Self::G(*x),
                None => !(*self is G),
            },
    {
        match self {
            Self::G(x) => Some(x),
            _ => None,
        }
    }

    /// Returns a mutable reference to the `G` value, if the cell holds one
    pub fn as_mut_g(&mut self) -> (r: Option<&mut G>)
        ensures
            match r {
                Some(x) => {
                    &&& *old(self) == Self::G(*x)
                    &&& *final(self) == Self::G(*final(x))
                },
                None => {
                    &&& !(*old(self) is G)
                    &&& *final(self) == *old(self)
                },
            },
    {
        match self {
            Self::G(x) => Some(x),
            _ => None,
        }
    }

    /// Returns the `G` value, if the cell holds one
    pub fn into_g(self) -> (r: Option<G>)
        ensures
            match r {
                Some(x) => self == Self::G(x),
                None => !(self is G),
            },
    {
        match self {
            Self::G(x) => Some(x),
            _ => None,
        }
    }

    /// Returns true if the cell holds the `H` variant
    pub fn is_h(&self) -> (r: bool)
        ensures
            r == (*self is H),
    {
        match self {
            Self::H(_) => true,
            _ => false,
        }
    }

    /// Returns a reference to the `H` value, if the cell holds one
    pub fn as_h(&self) -> (r: Option<&H>)
        ensures
            match r {
                Some(x) => *self == Self::H(*x),
                None => !(*self is H),
            },
    {
        match self {
            Self::H(x) => Some(x),
            _ => None,
        }
    }

    /// Returns a mutable reference to the `H` value, if the cell holds one
    pub fn as_mut_h(&mut self) -> (r: Option<&mut H>)
        ensures
            match r {
                Some(x) => {
                    &&& *old(self) == Self::H(*x)
                    &&& *final(self) == Self::H(*final(x))
                },
                None => {
                    &&& !(*old(self) is H)
                    &&& *final(self) == *old(self)
                },
            },
    {
        match self {
            Self::H(x) => Some(x),
            _ => None,
        }
    }

    /// Returns the `H` value, if the cell holds one
    pub fn into_h(self) -> (r: Option<H>)
        ensures
            match r {
                Some(x) => self == Self::H(x),
                None => !(self is H),
            },
    {
        match self {
            Self::H(x) => Some(x),
            _ => None,
        }
    }

    /// Returns true if the cell holds the `I` variant
    pub fn is_i(&self) -> (r: bool)
        ensures
            r == (*self is I),
    {
        match self {
            Self::I(_) => true,
            _ => false,
        }
    }

    /// Returns a reference to the `I` value, if the cell holds one
    pub fn as_i(&self) -> (r: Option<&I>)
        ensures
            match r {
                Some(x) => *self == Self::I(*x),
                None => !(*self is I),
            },
    {
        match self {
            Self::I(x) => Some(x),
            _ => None,
        }
    }

    /// Returns a mutable reference to the `I` value, if the cell holds one
    pub fn as_mut_i(&mut self) -> (r: Option<&mut I>)
        ensures
            match r {
                Some(x) => {
                    &&& *old(self) == Self::I(*x)
                    &&& *final(self) == Self::I(*final(x))
                },
                None => {
                    &&& !(*old(self) is I)
                    &&& *final(self) == *old(self)
                },
            },
    {
        match self {
            Self::I(x) => Some(x),
            _ => None,
        }
    }

    /// Returns the `I` value, if the cell holds one
    pub fn into_i(self) -> (r: Option<I>)
        ensures
            match r {
                Some(x) => self == Self::I(x),
                None => !(self is I),
            },
    {
        match self {
            Self::I(x) => Some(x),
            _ => None,
        }
    }

    /// Returns true if the cell holds the `J` variant
    pub fn is_j(&self) -> (r: bool)
        ensures
            r == (*self is J),
    {
        match self {
            Self::J(_) => true,
            _ => false,
        }
    }

    /// Returns a reference to the `J` value, if the cell holds one
    pub fn as_j(&self) -> (r: Option<&J>)
        ensures
            match r {
                Some(x) => *self == Self::J(*x),
                None => !(*self is J),
            },
    {
        match self {
            Self::J(x) => Some(x),
            _ => None,
        }
    }

    /// Returns a mutable reference to the `J` value, if the cell holds one
    pub fn as_mut_j(&mut self) -> (r: Option<&mut J>)
        ensures
            match r {
                Some(x) => {
                    &&& *old(self) == Self::J(*x)
                    &&& *final(self) == Self::J(*final(x))
                },
                None => {
                    &&& !(*old(self) is J)
                    &&& *final(self) == *old(self)
                },
            },
    {
        match self {
            Self::J(x) => Some(x),
            _ => None,
        }
    }

    /// Returns the `J` value, if the cell holds one
    pub fn into_j(self) -> (r: Option<J>)
        ensures
            match r {
                Some(x) => self == Self::J(x),
                None => !(self is J),
            },
    {
        match self {
            Self::J(x) => Some(x),
            _ => None,
        }
    }

    /// Returns true if the cell holds the `K` variant
    pub fn is_k(&self) -> (r: bool)
        ensures
            r == (*self is K),
    {
        match self {
            Self::K(_) => true,
            _ => false,
        }
    }

    /// Returns a reference to the `K` value, if the cell holds one
    pub fn as_k(&self) -> (r: Option<&K>)
        ensures
            match r {
                Some(x) => *self == Self::K(*x),
                None => !(*self is K),
            },
    {
        match self {
            Self::K(x) => Some(x),
            _ => None,
        }
    }

    /// Returns a mutable reference to the `K` value, if the cell holds one
    pub fn as_mut_k(&mut self) -> (r: Option<&mut K>)
        ensures
            match r {
                Some(x) => {
                    &&& *old(self) == Self::K(*x)
                    &&& *final(self) == Self::K(*final(x))
                },
                None => {
                    &&& !(*old(self) is K)
                    &&& *final(self) == *old(self)
                },
            },
    {
        match self {
            Self::K(x) => Some(x),
            _ => None,
        }
    }

    /// Returns the `K` value, if the cell holds one
    pub fn into_k(self) -> (r: Option<K>)
        ensures
            match r {
                Some(x) => self == Self::K(x),
                None => !(self is K),
            },
    {
        match self {
            Self::K(x) => Some(x),
            _ => None,
        }
    }

    /// Returns true if the cell holds the `L` variant
    pub fn is_l(&self) -> (r: bool)
        ensures
            r == (*self is L),
    {
        match self {
            Self::L(_) => true,
            _ => false,
        }
    }

    /// Returns a reference to the `L` value, if the cell holds one
    pub fn as_l(&self) -> (r: Option<&L>)
        ensures
            match r {
                Some(x) => *self == Self::L(*x),
                None => !(*self is L),
            },
    {
        match self {
            Self::L(x) => Some(x),
            _ => None,
        }
    }

    /// Returns a mutable reference to the `L` value, if the cell holds one
    pub fn as_mut_l(&mut self) -> (r: Option<&mut L>)
        ensures
            match r {
                Some(x) => {
                    &&& *old(self) == Self::L(*x)
                    &&& *final(self) == Self::L(*final(x))
                },
                None => {
                    &&& !(*old(self) is L)
                    &&& *final(self) == *old(self)
                },
            },
    {
        match self {
            Self::L(x) => Some(x),
            _ => None,
        }
    }

    /// Returns the `L` value, if the cell holds one
    pub fn into_l(self) -> (r: Option<L>)
        ensures
            match r {
                Some(x) => self == Self::L(x),
                None => !(self is L),
            },
    {
        match self {
            Self::L(x) => Some(x),
            _ => None,
        }
    }

    /// Returns true if the cell holds the `M` variant
    pub fn is_m(&self) -> (r: bool)
        ensures
            r == (*self is M),
    {
        match self {
            Self::M(_) => true,
            _ => false,
        }
    }

    /// Returns a reference to the `M` value, if the cell holds one
    pub fn as_m(&self) -> (r: Option<&M>)
        ensures
            match r {
                Some(x) => *self == Self::M(*x),
                None => !(*self is M),
            },
    {
        match self {
            Self::M(x) => Some(x),
            _ => None,
        }
    }

    /// Returns a mutable reference to the `M` value, if the cell holds one
    pub fn as_mut_m(&mut self) -> (r: Option<&mut M>)
        ensures
            match r {
                Some(x) => {
                    &&& *old(self) == Self::M(*x)
                    &&& *final(self) == Self::M(*final(x))
                },
                None => {
                    &&& !(*old(self) is M)
                    &&& *final(self) == *old(self)
                },
            },
    {
        match self {
            Self::M(x) => Some(x),
            _ => None,
        }
    }

    /// Returns the `M` value, if the cell holds one
    pub fn into_m(self) -> (r: Option<M>)
        ensures
            match r {
                Some(x) => self == Self::M(x),
                None => !(self is M),
            },
    {
        match self {
            Self::M(x) => Some(x),
            _ => None,
        }
    }

    /// Returns true if the cell holds the `N` variant
    pub fn is_n(&self) -> (r: bool)
        ensures
            r == (*self is N),
    {
        match self {
            Self::N(_) => true,
            _ => false,
        }
    }

    /// Returns a reference to the `N` value, if the cell holds one
    pub fn as_n(&self) -> (r: Option<&N>)
        ensures
            match r {
                Some(x) => *self == Self::N(*x),
                None => !(*self is N),
            },
    {
        match self {
            Self::N(x) => Some(x),
            _ => None,
        }
    }

    /// Returns a mutable reference to the `N` value, if the cell holds one
    pub fn as_mut_n(&mut self) -> (r: Option<&mut N>)
        ensures
            match r {
                Some(x) => {
                    &&& *old(self) == Self::N(*x)
                    &&& *final(self) == Self::N(*final(x))
                },
                None => {
                    &&& !(*old(self) is N)
                    &&& *final(self) == *old(self)
                },
            },
    {
        match self {
            Self::N(x) => Some(x),
            _ => None,
        }
    }

    /// Returns the `N` value, if the cell holds one
    pub fn into_n(self) -> (r: Option<N>)
        ensures
            match r {
                Some(x) => self == Self::N(x),
                None => !(self is N),
            },
    {
        match self {
            Self::N(x) => Some(x),
            _ => None,
        }
    }

    /// Returns true if the cell holds the `O` variant
    pub fn is_o(&self) -> (r: bool)
        ensures
            r == (*self is O),
    {
        match self {
            Self::O(_) => true,
            _ => false,
        }
    }

    /// Returns a reference to the `O` value, if the cell holds one
    pub fn as_o(&self) -> (r: Option<&O>)
        ensures
            match r {
                Some(x) => *self == Self::O(*x),
                None => !(*self is O),
            },
    {
        match self {
            Self::O(x) => Some(x),
            _ => None,
        }
    }

    /// Returns a mutable reference to the `O` value, if the cell holds one
    pub fn as_mut_o(&mut self) -> (r: Option<&mut O>)
        ensures
            match r {
                Some(x) => {
                    &&& *old(self) == Self::O(*x)
                    &&& *final(self) == Self::O(*final(x))
                },
                None => {
                    &&& !(*old(self) is O)
                    &&& *final(self) == *old(self)
                },
            },
    {
        match self {
            Self::O(x) => Some(x),
            _ => None,
        }
    }

    /// Returns the `O` value, if the cell holds one
    pub fn into_o(self) -> (r: Option<O>)
        ensures
            match r {
                Some(x) => self == Self::O(x),
                None => !(self is O),
            },
    {
        match self {
            Self::O(x) => Some(x),
            _ => None,
        }
    }

    /// Returns true if the cell holds the `P` variant
    pub fn is_p(&self) -> (r: bool)
        ensures
            r == (*self is P),
    {
        match self {
            Self::P(_) => true,
            _ => false,
        }
    }

    /// Returns a reference to the `P` value, if the cell holds one
    pub fn as_p(&self) -> (r: Option<&P>)
        ensures
            match r {
                Some(x) => *self == Self::P(*x),
                None => !(*self is P),
            },
    {
        match self {
            Self::P(x) => Some(x),
            _ => None,
        }
    }

    /// Returns a mutable reference to the `P` value, if the cell holds one
    pub fn as_mut_p(&mut self) -> (r: Option<&mut P>)
        ensures
            match r {
                Some(x) => {
                    &&& *old(self) == Self::P(*x)
                    &&& *final(self) == Self::P(*final(x))
                },
                None => {
                    &&& !(*old(self) is P)
                    &&& *final(self) == *old(self)
                },
            },
    {
        match self {
            Self::P(x) => Some(x),
            _ => None,
        }
    }

    /// Returns the `P` value, if the cell holds one
    pub fn into_p(self) -> (r: Option<P>)
        ensures
            match r {
                Some(x) => self == Self::P(x),
                None => !(self is P),
            },
    {
        match self {
            Self::P(x) => Some(x),
            _ => None,
        }
    }

    /// Returns true if the cell holds the `Q` variant
    pub fn is_q(&self) -> (r: bool)
        ensures
            r == (*self is Q),
    {
        match self {
            Self::Q(_) => true,
            _ => false,
        }
    }

    /// Returns a reference to the `Q` value, if the cell holds one
    pub fn as_q(&self) -> (r: Option<&Q>)
        ensures
            match r {
                Some(x) => *self == Self::Q(*x),
                None => !(*self is Q),
            },
    {
        match self {
            Self::Q(x) => Some(x),
            _ => None,
        }
    }

    /// Returns a mutable reference to the `Q` value, if the cell holds one
    pub fn as_mut_q(&mut self) -> (r: Option<&mut Q>)
        ensures
            match r {
                Some(x) => {
                    &&& *old(self) == Self::Q(*x)
                    &&& *final(self) == Self::Q(*final(x))
                },
                None => {
                    &&& !(*old(self) is Q)
                    &&& *final(self) == *old(self)
                },
            },
    {
        match self {
            Self::Q(x) => Some(x),
            _ => None,
        }
    }

    /// Returns the `Q` value, if the cell holds one
    pub fn into_q(self) -> (r: Option<Q>)
        ensures
            match r {
                Some(x) => self == Self::Q(x),
                None => !(self is Q),
            },
    {
        match self {
            Self::Q(x) => Some(x),
            _ => None,
        }
    }

    /// Returns true if the cell holds the `R` variant
    pub fn is_r(&self) -> (r: bool)
        ensures
            r == (*self is R),
    {
        match self {
            Self::R(_) => true,
            _ => false,
        }
    }

    /// Returns a reference to the `R` value, if the cell holds one
    pub fn as_r(&self) -> (r: Option<&R>)
        ensures
            match r {
                Some(x) => *self == Self::R(*x),
                None => !(*self is R),
            },
    {
        match self {
            Self::R(x) => Some(x),
            _ => None,
        }
    }

    /// Returns a mutable reference to the `R` value, if the cell holds one
    pub fn as_mut_r(&mut self) -> (r: Option<&mut R>)
        ensures
            match r {
                Some(x) => {
                    &&& *old(self) == Self::R(*x)
                    &&& *final(self) == Self::R(*final(x))
                },
                None => {
                    &&& !(*old(self) is R)
                    &&& *final(self) == *old(self)
                },
            },
    {
        match self {
            Self::R(x) => Some(x),
            _ => None,
        }
    }

    /// Returns the `R` value, if the cell holds one
    pub fn into_r(self) -> (r: Option<R>)
        ensures
            match r {
                Some(x) => self == Self::R(x),
                None => !(self is R),
            },
    {
        match self {
            Self::R(x) => Some(x),
            _ => None,
        }
    }

    /// Returns true if the cell holds the `S` variant
    pub fn is_s(&self) -> (r: bool)
        ensures
            r == (*self is S),
    {
        match self {
            Self::S(_) => true,
            _ => false,
        }
    }

    /// Returns a reference to the `S` value, if the cell holds one
    pub fn as_s(&self) -> (r: Option<&S>)
        ensures
            match r {
                Some(x) => *self == Self::S(*x),
                None => !(*self is S),
            },
    {
        match self {
            Self::S(x) => Some(x),
            _ => None,
        }
    }

    /// Returns a mutable reference to the `S` value, if the cell holds one
    pub fn as_mut_s(&mut self) -> (r: Option<&mut S>)
        ensures
            match r {
                Some(x) => {
                    &&& *old(self) == Self::S(*x)
                    &&& *final(self) == Self::S(*final(x))
                },
                None => {
                    &&& !(*old(self) is S)
                    &&& *final(self) == *old(self)
                },
            },
    {
        match self {
            Self::S(x) => Some(x),
            _ => None,
        }
    }

    /// Returns the `S` value, if the cell holds one
    pub fn into_s(self) -> (r: Option<S>)
        ensures
            match r {
                Some(x) => self == Self::S(x),
                None => !(self is S),
            },
    {
        match self {
            Self::S(x) => Some(x),
            _ => None,
        }
    }

    /// Returns true if the cell holds the `T` variant
    pub fn is_t(&self) -> (r: bool)
        ensures
            r == (*self is T),
    {
        match self {
            Self::T(_) => true,
            _ => false,
        }
    }

    /// Returns a reference to the `T` value, if the cell holds one
    pub fn as_t(&self) -> (r: Option<&T>)
        ensures
            match r {
                Some(x) => *self == Self::T(*x),
                None => !(*self is T),
            },
    {
        match self {
            Self::T(x) => Some(x),
            _ => None,
        }
    }

    /// Returns a mutable reference to the `T` value, if the cell holds one
    pub fn as_mut_t(&mut self) -> (r: Option<&mut T>)
        ensures
            match r {
                Some(x) => {
                    &&& *old(self) == Self::T(*x)
                    &&& *final(self) == Self::T(*final(x))
                },
                None => {
                    &&& !(*old(self) is T)
                    &&& *final(self) == *old(self)
                },
            },
    {
        match self {
            Self::T(x) => Some(x),
            _ => None,
        }
    }

    /// Returns the `T` value, if the cell holds one
    pub fn into_t(self) -> (r: Option<T>)
        ensures
            match r {
                Some(x) => self == Self::T(x),
                None => !(self is T),
            },
    {
        match self {
            Self::T(x) => Some(x),
            _ => None,
        }
    }

    /// Returns true if the cell holds the `U` variant
    pub fn is_u(&self) -> (r: bool)
        ensures
            r == (*self is U),
    {
        match self {
            Self::U(_) => true,
            _ => false,
        }
    }

    /// Returns a reference to the `U` value, if the cell holds one
    pub fn as_u(&self) -> (r: Option<&U>)
        ensures
            match r {
                Some(x) => *self == Self::U(*x),
                None => !(*self is U),
            },
    {
        match self {
            Self::U(x) => Some(x),
            _ => None,
        }
    }

    /// Returns a mutable reference to the `U` value, if the cell holds one
    pub fn as_mut_u(&mut self) -> (r: Option<&mut U>)
        ensures
            match r {
                Some(x) => {
                    &&& *old(self) == Self::U(*x)
                    &&& *final(self) == Self::U(*final(x))
                },
                None => {
                    &&& !(*old(self) is U)
                    &&& *final(self) == *old(self)
                },
            },
    {
        match self {
            Self::U(x) => Some(x),
            _ => None,
        }
    }

    /// Returns the `U` value, if the cell holds one
    pub fn into_u(self) -> (r: Option<U>)
        ensures
            match r {
                Some(x) => self == Self::U(x),
                None => !(self is U),
            },
    {
        match self {
            Self::U(x) => Some(x),
            _ => None,
        }
    }

    /// Returns true if the cell holds the `V` variant
    pub fn is_v(&self) -> (r: bool)
        ensures
            r == (*self is V),
    {
        match self {
            Self::V(_) => true,
            _ => false,
        }
    }

    /// Returns a reference to the `V` value, if the cell holds one
    pub fn as_v(&self) -> (r: Option<&V>)
        ensures
            match r {
                Some(x) => *self == Self::V(*x),
                None => !(*self is V),
            },
    {
        match self {
            Self::V(x) => Some(x),
            _ => None,
        }
    }

    /// Returns a mutable reference to the `V` value, if the cell holds one
    pub fn as_mut_v(&mut self) -> (r: Option<&mut V>)
        ensures
            match r {
                Some(x) => {
                    &&& *old(self) == Self::V(*x)
                    &&& *final(self) == Self::V(*final(x))
                },
                None => {
                    &&& !(*old(self) is V)
                    &&& *final(self) == *old(self)
                },
            },
    {
        match self {
            Self::V(x) => Some(x),
            _ => None,
        }
    }

    /// Returns the `V` value, if the cell holds one
    pub fn into_v(self) -> (r: Option<V>)
        ensures
            match r {
                Some(x) => self == Self::V(x),
                None => !(self is V),
            },
    {
        match self {
            Self::V(x) => Some(x),
            _ => None,
        }
    }

    /// Returns true if the cell holds the `W` variant
    pub fn is_w(&self) -> (r: bool)
        ensures
            r == (*self is W),
    {
        match self {
            Self::W(_) => true,
            _ => false,
        }
    }

    /// Returns a reference to the `W` value, if the cell holds one
    pub fn as_w(&self) -> (r: Option<&W>)
        ensures
            match r {
                Some(x) => *self == Self::W(*x),
                None => !(*self is W),
            },
    {
        match self {
            Self::W(x) => Some(x),
            _ => None,
        }
    }

    /// Returns a mutable reference to the `W` value, if the cell holds one
    pub fn as_mut_w(&mut self) -> (r: Option<&mut W>)
        ensures
            match r {
                Some(x) => {
                    &&& *old(self) == Self::W(*x)
                    &&& *final(self) == Self::W(*final(x))
                },
                None => {
                    &&& !(*old(self) is W)
                    &&& *final(self) == *old(self)
                },
            },
    {
        match self {
            Self::W(x) => Some(x),
            _ => None,
        }
    }

    /// Returns the `W` value, if the cell holds one
    pub fn into_w(self) -> (r: Option<W>)
        ensures
            match r {
                Some(x) => self == Self::W(x),
                None => !(self is W),
            },
    {
        match self {
            Self::W(x) => Some(x),
            _ => None,
        }
    }

    /// Returns true if the cell holds the `X` variant
    pub fn is_x(&self) -> (r: bool)
        ensures
            r == (*self is X),
    {
        match self {
            Self::X(_) => true,
            _ => false,
        }
    }

    /// Returns a reference to the `X` value, if the cell holds one
    pub fn as_x(&self) -> (r: Option<&X>)
        ensures
            match r {
                Some(x) => *self == Self::X(*x),
                None => !(*self is X),
            },
    {
        match self {
            Self::X(x) => Some(x),
            _ => None,
        }
    }

    /// Returns a mutable reference to the `X` value, if the cell holds one
    pub fn as_mut_x(&mut self) -> (r: Option<&mut X>)
        ensures
            match r {
                Some(x) => {
                    &&& *old(self) == Self::X(*x)
                    &&& *final(self) == Self::X(*final(x))
                },
                None => {
                    &&& !(*old(self) is X)
                    &&& *final(self) == *old(self)
                },
            },
    {
        match self {
            Self::X(x) => Some(x),
            _ => None,
        }
    }

    /// Returns the `X` value, if the cell holds one
    pub fn into_x(self) -> (r: Option<X>)
        ensures
            match r {
                Some(x) => self == Self::X(x),
                None => !(self is X),
            },
    {
        match self {
            Self::X(x) => Some(x),
            _ => None,
        }
    }

    /// Returns true if the cell holds the `Y` variant
    pub fn is_y(&self) -> (r: bool)
        ensures
            r == (*self is Y),
    {
        match self {
            Self::Y(_) => true,
            _ => false,
        }
    }

    /// Returns a reference to the `Y` value, if the cell holds one
    pub fn as_y(&self) -> (r: Option<&Y>)
        ensures
            match r {
                Some(x) => *self == Self::Y(*x),
                None => !(*self is Y),
            },
    {
        match self {
            Self::Y(x) => Some(x),
            _ => None,
        }
    }

    /// Returns a mutable reference to the `Y` value, if the cell holds one
    pub fn as_mut_y(&mut self) -> (r: Option<&mut Y>)
        ensures
            match r {
                Some(x) => {
                    &&& *old(self) == Self::Y(*x)
                    &&& *final(self) == Self::Y(*final(x))
                },
                None => {
                    &&& !(*old(self) is Y)
                    &&& *final(self) == *old(self)
                },
            },
    {
        match self {
            Self::Y(x) => Some(x),
            _ => None,
        }
    }

    /// Returns the `Y` value, if the cell holds one
    pub fn into_y(self) -> (r: Option<Y>)
        ensures
            match r {
                Some(x) => self == Self::Y(x),
                None => !(self is Y),
            },
    {
        match self {
            Self::Y(x) => Some(x),
            _ => None,
        }
    }

    /// Returns true if the cell holds the `Z` variant
    pub fn is_z(&self) -> (r: bool)
        ensures
            r == (*self is Z),
    {
        match self {
            Self::Z(_) => true,
            _ => false,
        }
    }

    /// Returns a reference to the `Z` value, if the cell holds one
    pub fn as_z(&self) -> (r: Option<&Z>)
        ensures
            match r {
                Some(x) => *self == Self::Z(*x),
                None => !(*self is Z),
            },
    {
        match self {
            Self::Z(x) => Some(x),
            _ => None,
        }
    }

    /// Returns a mutable reference to the `Z` value, if the cell holds one
    pub fn as_mut_z(&mut self) -> (r: Option<&mut Z>)
        ensures
            match r {
                Some(x) => {
                    &&& *old(self) == Self::Z(*x)
                    &&& *final(self) == Self::Z(*final(x))
                },
                None => {
                    &&& !(*old(self) is Z)
                    &&& *final(self) == *old(self)
                },
            },
    {
        match self {
            Self::Z(x) => Some(x),
            _ => None,
        }
    }

    /// Returns the `Z` value, if the cell holds one
    pub fn into_z(self) -> (r: Option<Z>)
        ensures
            match r {
                Some(x) => self == Self::Z(x),
                None => !(self is Z),
            },
    {
        match self {
            Self::Z(x) => Some(x),
            _ => None,
        }
    }
}

} // verus!
