use crate::utils;
use vstd::prelude::*;
use vstd::std_specs::convert::FromSpecImpl;

verus! {

/// Represents the capacity of the list
#[derive(Copy, Clone, Debug, PartialEq, Eq, Structural, Hash)]
pub enum Capacity {
    /// Represents a capacity that has a maximum bounds
    Limited(usize),
    /// Represents a capacity with no bounds
    Unlimited,
}

impl Capacity {
    /// Returns true if the capacity is unlimited
    pub fn is_unlimited(self) -> (r: bool)
        ensures
            r <==> self is Unlimited,
    {
        matches!(self, Self::Unlimited)
    }

    /// Returns true if the capacity is limited
    pub fn is_limited(self) -> (r: bool)
        ensures
            r <==> self is Limited,
    {
        matches!(self, Self::Limited(_))
    }

    /// Returns the limit associated with the capacity if it has one
    pub fn limit(self) -> (r: Option<usize>)
        ensures
            r == match self {
                Capacity::Limited(x) => Some(x),
                Capacity::Unlimited => None::<usize>,
            },
    {
        match self {
            Self::Limited(x) => Some(x),
            _ => None,
        }
    }
}

/// `r` refers to the value held by `v`, or both are empty
pub open spec fn same_item<T>(r: Option<&T>, v: Option<T>) -> bool {
    match (r, v) {
        (Some(a), Some(b)) => *a == b,
        (None, None) => true,
        _ => false,
    }
}

/// Represents a generic list of items
pub trait List: Sized {
    type Item;

    /// The list's internal bookkeeping is consistent
    spec fn spec_well_formed(&self) -> bool;

    /// The items that [`List::get`] can reach, by index
    spec fn spec_items(&self) -> Seq<Self::Item>;

    /// What [`List::len`] reports
    spec fn spec_len(&self) -> nat;

    /// What [`List::max_capacity`] reports
    spec fn spec_max_capacity(&self) -> Capacity;

    /// `list` is what [`List::new_filled_with`] makes from `items`
    spec fn spec_filled_with(items: Seq<Option<Self::Item>>, list: Self) -> bool;

    /// [`List::insert`] accepts `index` on `list`
    spec fn spec_insert_ok(list: Self, index: int) -> bool;

    /// `post` is `pre` after [`List::insert`] of `element` at `index`
    spec fn spec_inserted(pre: Self, index: int, element: Self::Item, post: Self) -> bool;

    /// `post` is `pre` after [`List::remove`] at `index` returned `item`
    spec fn spec_removed(pre: Self, index: int, post: Self, item: Self::Item) -> bool;

    /// Creates a new list with **up to** `items.len()` elements, where the
    /// element at each index comes from the entry of `items` at that index;
    /// when an entry is `None`, the underlying list implementation will
    /// determine what to do
    fn new_filled_with(items: Vec<Option<Self::Item>>) -> (r: Self)
        ensures
            Self::spec_filled_with(items@, r),
            r.spec_well_formed(),
    ;

    /// Returns the maximum capacity of the list
    fn max_capacity(&self) -> (r: Capacity)
        ensures
            r == self.spec_max_capacity(),
    ;

    /// Returns the actual length of the list, which may be less than the
    /// actual capacity
    fn len(&self) -> (r: usize)
        ensures
            r == self.spec_len(),
    ;

    /// Returns true if the list is empty
    fn is_empty(&self) -> (r: bool)
        ensures
            r == (self.spec_len() == 0),
    {
        self.len() == 0
    }

    /// Returns a reference to an element found at the given index, or None
    /// if no element found
    fn get(&self, index: usize) -> (r: Option<&Self::Item>)
        ensures
            same_item(
                r,
                if index < self.spec_items().len() {
                    Some(self.spec_items()[index as int])
                } else {
                    None
                },
            ),
    ;

    /// Returns a mutable reference to an element found at the given index, or
    /// None if no element found
    fn get_mut(&mut self, index: usize) -> (r: Option<&mut Self::Item>)
        ensures
            match r {
                Some(x) => {
                    &&& index < old(self).spec_items().len()
                    &&& *x == old(self).spec_items()[index as int]
                    &&& final(self).spec_items() == old(self).spec_items().update(
                        index as int,
                        *final(x),
                    )
                    &&& final(self).spec_len() == old(self).spec_len()
                },
                None => index >= old(self).spec_items().len() && *final(self) == *old(self),
            },
            old(self).spec_well_formed() ==> final(self).spec_well_formed(),
    ;

    /// Inserts an element at position `index` within the list
    fn insert(&mut self, index: usize, element: Self::Item)
        requires
            old(self).spec_well_formed(),
            Self::spec_insert_ok(*old(self), index as int),
        ensures
            final(self).spec_well_formed(),
            Self::spec_inserted(*old(self), index as int, element, *final(self)),
            index < final(self).spec_items().len() ==> final(self).spec_items()[index as int] == element,
            forall|i: int|
                0 <= i < index && i < final(self).spec_items().len() ==> #[trigger] final(self).spec_items()[i]
                    == old(self).spec_items()[i],
            forall|i: int|
                index < i <= old(self).spec_len() && i < final(self).spec_items().len()
                    ==> #[trigger] final(self).spec_items()[i] == old(self).spec_items()[i - 1],
            final(self).spec_len() == if old(self).spec_max_capacity() matches Capacity::Limited(n)
                && old(self).spec_len() >= n {
                old(self).spec_len() as int
            } else {
                old(self).spec_len() + 1int
            },
    ;

    /// Removes and returns the element at position `index` within the list,
    /// shifting all elements after it to the left
    fn remove(&mut self, index: usize) -> (r: Self::Item)
        requires
            old(self).spec_well_formed(),
            index < old(self).spec_len(),
        ensures
            final(self).spec_well_formed(),
            Self::spec_removed(*old(self), index as int, *final(self), r),
            r == old(self).spec_items()[index as int],
            final(self).spec_len() == old(self).spec_len() - 1,
            forall|i: int| 0 <= i < index ==> #[trigger] final(self).spec_items()[i] == old(self).spec_items()[i],
            forall|i: int|
                index <= i < old(self).spec_len() - 1 ==> #[trigger] final(self).spec_items()[i]
                    == old(self).spec_items()[i + 1],
    ;
}

/// Represents a fixed list that can grow up to a specific capacity `N`
#[derive(Clone, Debug, PartialEq, Eq, Hash)]
pub struct FixedList<T: Default, const N: usize>([T; N], usize);

impl<T: Default, const N: usize> FixedList<T, N> {
    /// The array holding the list's storage
    pub closed spec fn spec_array(&self) -> Seq<T> {
        self.0@
    }

    /// Returns a reference to the array that holds the list's storage
    pub fn as_array(&self) -> (r: &[T; N])
        ensures
            r@ == self.spec_array(),
    {
        &self.0
    }

    /// The list's storage always holds `N` items, and the list is well
    /// formed exactly when its length is at most `N`
    pub proof fn lemma_shape(list: Self)
        ensures
            list.spec_items().len() == N,
            list.spec_well_formed() <==> list.spec_len() <= N,
    {
    }

    /// Consumes the list and returns the array that holds its storage
    pub fn into_array(self) -> (r: [T; N])
        ensures
            r@ == self.spec_array(),
    {
        self.0
    }
}

impl<T: Default, const N: usize> core::ops::Deref for FixedList<T, N> {
    type Target = [T; N];

    fn deref(&self) -> (r: &[T; N])
        ensures
            r@ == self.spec_array(),
    {
        self.as_array()
    }
}

impl<T: Default, const N: usize> List for FixedList<T, N> {
    type Item = T;

    /// The length never exceeds the capacity
    closed spec fn spec_well_formed(&self) -> bool {
        self.1 <= N
    }

    closed spec fn spec_items(&self) -> Seq<T> {
        self.0@
    }

    closed spec fn spec_len(&self) -> nat {
        self.1 as nat
    }

    open spec fn spec_max_capacity(&self) -> Capacity {
        Capacity::Limited(N)
    }

    /// Fills all `N` slots: the slot at an index below `items.len()` whose
    /// entry is `Some` holds that entry's value, every other slot holds a
    /// value produced by `T::default()`; the length is `N`
    open spec fn spec_filled_with(items: Seq<Option<T>>, list: Self) -> bool {
        &&& list.spec_len() == N
        &&& list.spec_items().len() == N
        &&& forall|i: int|
            0 <= i < N ==> if i < items.len() && items[i] is Some {
                #[trigger] list.spec_items()[i] == items[i]->Some_0
            } else {
                call_ensures(T::default, (), list.spec_items()[i])
            }
    }

    /// The slot at `index` must exist and lie at or before the current end
    open spec fn spec_insert_ok(list: Self, index: int) -> bool {
        index <= list.spec_len() && index < N
    }

    /// The items from `index` up to the current end move one slot right and
    /// `element` takes slot `index`; the length grows by one, unless the list
    /// is full, in which case its last item falls off the end
    open spec fn spec_inserted(pre: Self, index: int, element: T, post: Self) -> bool {
        let len = pre.spec_len() as int;
        let end = if len < N {
            len
        } else {
            N - 1
        };
        &&& post.spec_len() == if len < N {
            len + 1
        } else {
            len
        }
        &&& post.spec_items().len() == pre.spec_items().len()
        &&& forall|i: int|
            0 <= i < pre.spec_items().len() ==> #[trigger] post.spec_items()[i] == if i < index || i > end {
                pre.spec_items()[i]
            } else if i == index {
                element
            } else {
                pre.spec_items()[i - 1]
            }
    }

    /// The item at `index` is taken out, the items after it up to the
    /// current end move one slot left, the vacated last slot receives a value
    /// produced by `T::default()`, and the length drops by one
    open spec fn spec_removed(pre: Self, index: int, post: Self, item: T) -> bool {
        let len = pre.spec_len() as int;
        &&& item == pre.spec_items()[index]
        &&& post.spec_len() == len - 1
        &&& post.spec_items().len() == pre.spec_items().len()
        &&& forall|i: int|
            0 <= i < pre.spec_items().len() ==> {
                &&& (i < index || i >= len) ==> #[trigger] post.spec_items()[i]
                    == pre.spec_items()[i]
                &&& (index <= i < len - 1) ==> post.spec_items()[i] == pre.spec_items()[i + 1]
                &&& i == len - 1 ==> call_ensures(T::default, (), post.spec_items()[i])
            }
    }

    /// Will make a list that fills up to N, and any additional elements
    /// not filled in using the provided items will be completed with the
    /// default value; when an item is None, the default value will also
    /// be used
    fn new_filled_with(items: Vec<Option<T>>) -> (r: Self) {
        let n = items.len();
        let ghost orig = items@;
        let mut items = items;
        let mut filled: Vec<T> = Vec::new();
        let mut i: usize = 0;
        while i < N
            invariant
                i <= N,
                n == items@.len(),
                filled@.len() == i,
                forall|j: int|
                    i <= j < n ==> #[trigger] items@[j] == orig[j],
                forall|j: int|
                    0 <= j < i ==> if j < n && orig[j] is Some {
                        #[trigger] filled@[j] == orig[j]->Some_0
                    } else {
                        call_ensures(T::default, (), filled@[j])
                    },
            decreases N - i,
        {
            let next = if i < n {
                items[i].take()
            } else {
                None
            };
            match next {
                Some(data) => filled.push(data),
                None => filled.push(T::default()),
            }
            i = i + 1;
        }
        let arr: [T; N] = utils::make::array_from_vec(filled);
        Self(arr, N)
    }

    fn max_capacity(&self) -> (r: Capacity) {
        Capacity::Limited(N)
    }

    fn len(&self) -> (r: usize) {
        self.1
    }

    fn get(&self, index: usize) -> (r: Option<&T>) {
        if index < N {
            Some(&self.0[index])
        } else {
            None
        }
    }

    fn get_mut(&mut self, index: usize) -> (r: Option<&mut T>) {
        if index < N {
            Some(&mut self.0[index])
        } else {
            None
        }
    }

    fn insert(&mut self, index: usize, element: T) {
        let len = self.1;
        let ghost pre = self.0@;
        // The last slot that receives a shifted item
        let end = if len < N {
            len
        } else {
            N - 1
        };
        let mut i = end;
        while i > index
            invariant
                index <= i <= end < N,
                self.1 == len,
                self.0@.len() == N,
                forall|k: int|
                    0 <= k < N && k != i ==> #[trigger] self.0@[k] == if k < i || k > end {
                        pre[k]
                    } else {
                        pre[k - 1]
                    },
            decreases i,
        {
            let mut value = T::default();
            core::mem::swap(&mut self.0[i - 1], &mut value);
            self.0[i] = value;
            i = i - 1;
        }
        self.0[index] = element;
        if len < N {
            self.1 = len + 1;
        }
    }

    fn remove(&mut self, index: usize) -> (r: T) {
        let len = self.1;
        let ghost pre = self.0@;
        let mut data = T::default();
        core::mem::swap(&mut self.0[index], &mut data);
        let mut i = index + 1;
        while i < len
            invariant
                index < i <= len <= N,
                self.1 == len,
                self.0@.len() == N,
                forall|k: int|
                    0 <= k < N ==> {
                        &&& (k < index || k >= len) ==> #[trigger] self.0@[k] == pre[k]
                        &&& (index <= k < i - 1) ==> self.0@[k] == pre[k + 1]
                        &&& k == i - 1 ==> call_ensures(T::default, (), self.0@[k])
                        &&& (i <= k < len) ==> self.0@[k] == pre[k]
                    },
            decreases len - i,
        {
            let mut value = T::default();
            core::mem::swap(&mut self.0[i], &mut value);
            self.0[i - 1] = value;
            i = i + 1;
        }
        self.1 = len - 1;
        data
    }
}

/// Represents a dynamic list that can grow and shrink with unlimited capacity
#[derive(Clone, Debug, PartialEq, Eq, Hash)]
pub struct DynamicList<T>(Vec<T>);

impl<T> DynamicList<T> {
    /// Returns a reference to the vector that holds the list
    pub fn as_vec(&self) -> (r: &Vec<T>)
        ensures
            r@ == self.spec_items(),
    {
        &self.0
    }

    /// Consumes the list and returns the vector that holds it
    pub fn into_vec(self) -> (r: Vec<T>)
        ensures
            r@ == self.spec_items(),
    {
        self.0
    }
}

impl<T> core::ops::Deref for DynamicList<T> {
    type Target = Vec<T>;

    fn deref(&self) -> (r: &Vec<T>)
        ensures
            r@ == self.spec_items(),
    {
        self.as_vec()
    }
}

impl<T> From<Vec<T>> for DynamicList<T> {
    fn from(vec: Vec<T>) -> (r: Self)
        ensures
            r.spec_items() == vec@,
    {
        Self(vec)
    }
}

impl<T> FromSpecImpl<Vec<T>> for DynamicList<T> {
    open spec fn obeys_from_spec() -> bool {
        true
    }

    closed spec fn from_spec(vec: Vec<T>) -> Self {
        DynamicList(vec)
    }
}

impl<T> List for DynamicList<T> {
    type Item = T;

    open spec fn spec_well_formed(&self) -> bool {
        true
    }

    closed spec fn spec_items(&self) -> Seq<T> {
        self.0@
    }

    open spec fn spec_len(&self) -> nat {
        self.spec_items().len()
    }

    open spec fn spec_max_capacity(&self) -> Capacity {
        Capacity::Unlimited
    }

    /// Holds the values of the entries that are `Some`, in order
    open spec fn spec_filled_with(items: Seq<Option<T>>, list: Self) -> bool {
        list.spec_items() == somes(items)
    }

    /// Vec::insert accepts any index up to the length
    open spec fn spec_insert_ok(list: Self, index: int) -> bool {
        index <= list.spec_len()
    }

    /// Shifts every element at or after `index` one step right
    open spec fn spec_inserted(pre: Self, index: int, element: T, post: Self) -> bool {
        post.spec_items() == pre.spec_items().insert(index, element)
    }

    /// Shifts every element after `index` one step left
    open spec fn spec_removed(pre: Self, index: int, post: Self, item: T) -> bool {
        &&& item == pre.spec_items()[index]
        &&& post.spec_items() == pre.spec_items().remove(index)
    }

    /// Makes a new list of **up to** `items.len()` elements; whenever an
    /// entry is None, the item is skipped and the list's length will not grow
    fn new_filled_with(items: Vec<Option<T>>) -> (r: Self) {
        let n = items.len();
        let ghost orig = items@;
        let mut items = items;
        let mut inner: Vec<T> = Vec::new();
        let mut i: usize = 0;
        while i < n
            invariant
                i <= n,
                n == items@.len(),
                orig.len() == n,
                forall|j: int| i <= j < n ==> #[trigger] items@[j] == orig[j],
                inner@ == somes(orig.take(i as int)),
            decreases n - i,
        {
            assert(orig.take(i + 1).drop_last() =~= orig.take(i as int));
            assert(orig.take(i + 1).last() == orig[i as int]);
            if let Some(data) = items[i].take() {
                inner.push(data);
            }
            i = i + 1;
        }
        assert(orig.take(n as int) == orig);
        Self(inner)
    }

    fn max_capacity(&self) -> (r: Capacity) {
        Capacity::Unlimited
    }

    fn len(&self) -> (r: usize) {
        self.0.len()
    }

    fn get(&self, index: usize) -> (r: Option<&T>) {
        if index < self.0.len() {
            Some(&self.0[index])
        } else {
            None
        }
    }

    fn get_mut(&mut self, index: usize) -> (r: Option<&mut T>) {
        if index < self.0.len() {
            Some(&mut self.0[index])
        } else {
            None
        }
    }

    fn insert(&mut self, index: usize, element: T) {
        self.0.insert(index, element)
    }

    fn remove(&mut self, index: usize) -> (r: T) {
        self.0.remove(index)
    }
}

/// The values held by the `Some` entries of `items`, in order
pub open spec fn somes<T>(items: Seq<Option<T>>) -> Seq<T>
    decreases items.len(),
{
    if items.len() == 0 {
        Seq::empty()
    } else {
        let rest = somes(items.drop_last());
        match items.last() {
            Some(x) => rest.push(x),
            None => rest,
        }
    }
}

} // verus!
