use core::convert::TryFrom;
use vstd::prelude::*;

verus! {

/// `f` can yield a successful result when called with index `i`
pub open spec fn succeeds_at<T, E, F: Fn(usize) -> Result<T, E>>(f: F, i: usize) -> bool {
    exists|x: T| call_ensures(f, (i,), Ok(x))
}

/// Calling `f` with index `k` can yield the error `e`, after calls with every
/// smaller index can have succeeded
pub open spec fn first_failure_at<T, E, F: Fn(usize) -> Result<T, E>>(f: F, k: usize, e: E) -> bool {
    &&& call_ensures(f, (k,), Err(e))
    &&& forall|i: usize| i < k ==> #[trigger] succeeds_at(f, i)
}

/// Calling `f` with position `(k, l)` can yield the error `e`, after calls with
/// every earlier position (row by row) below column `cols` can have succeeded
pub open spec fn first_failure_at2<T, E, F: Fn(usize, usize) -> Result<T, E>>(
    f: F,
    cols: usize,
    k: usize,
    l: usize,
    e: E,
) -> bool {
    &&& call_ensures(f, (k, l), Err(e))
    &&& forall|i: usize, j: usize|
        j < cols && (i < k || (i == k && j < l)) ==> #[trigger] succeeds_at2(f, i, j)
}

/// `f` can yield a successful result when called with position `(i, j)`
pub open spec fn succeeds_at2<T, E, F: Fn(usize, usize) -> Result<T, E>>(
    f: F,
    i: usize,
    j: usize,
) -> bool {
    exists|x: T| call_ensures(f, (i, j), Ok(x))
}

/// Moves the items of a vector into an array of the same length.
///
/// Calls `<[T; N] as TryFrom<Vec<T>>>::try_from`, which std documents as
/// returning the whole contents of the vector as an array when the vector's
/// length is exactly `N`, and handing the vector back unchanged otherwise.
#[verifier::external_body]
fn vec_into_array<T, const N: usize>(v: Vec<T>) -> (r: Result<[T; N], Vec<T>>)
    ensures
        match r {
            Ok(arr) => v@.len() == N && arr@ == v@,
            Err(back) => v@.len() != N && back@ == v@,
        },
{
    <[T; N]>::try_from(v)
}

/// Turns a vector that holds exactly `N` items into an array
pub(crate) fn array_from_vec<T, const N: usize>(v: Vec<T>) -> (r: [T; N])
    requires
        v@.len() == N,
    ensures
        r@ == v@,
{
    match vec_into_array::<T, N>(v) {
        Ok(arr) => arr,
        Err(_) => vstd::pervasive::unreached(),
    }
}

/// Creates a new array initialized element-by-element using the provided
/// function to produce `T`; stops at the first element whose production
/// fails and returns that error
pub fn try_make_array<T, E, const N: usize>(f: impl Fn(usize) -> Result<T, E>) -> (r: Result<
    [T; N],
    E,
>)
    requires
        forall|i: usize| i < N ==> call_requires(f, (i,)),
    ensures
        match r {
            Ok(arr) => forall|i: int|
                0 <= i < N ==> call_ensures(f, (i as usize,), Ok(#[trigger] arr@[i])),
            Err(_) => exists|k: usize| k < N && #[trigger] first_failure_at(f, k, r->Err_0),
        },
{
    let mut items: Vec<T> = Vec::new();
    let mut i: usize = 0;
    while i < N
        invariant
            i <= N,
            items@.len() == i,
            forall|j: usize| j < N ==> call_requires(f, (j,)),
            forall|j: int| 0 <= j < i ==> call_ensures(f, (j as usize,), Ok(#[trigger] items@[j])),
        decreases N - i,
    {
        match f(i) {
            Ok(x) => {
                items.push(x);
            },
            Err(e) => {
                assert forall|j: usize| j < i implies #[trigger] succeeds_at(f, j) by {
                    assert(call_ensures(f, (j as usize,), Ok(items@[j as int])));
                }
                let r: Result<[T; N], E> = Err(e);
                assert(first_failure_at(f, i, r->Err_0));
                return r;
            },
        }
        i = i + 1;
    }
    Ok(array_from_vec(items))
}

/// Like [`try_make_array`], but uses an element allocator that is guaranteed
/// to succeed; therefore, this array allocator will also be guaranteed to succeed
pub fn make_array<T, const N: usize>(f: impl Fn(usize) -> T) -> (r: [T; N])
    requires
        forall|i: usize| i < N ==> call_requires(f, (i,)),
    ensures
        forall|i: int| 0 <= i < N ==> call_ensures(f, (i as usize,), #[trigger] r@[i]),
{
    let mut items: Vec<T> = Vec::new();
    let mut i: usize = 0;
    while i < N
        invariant
            i <= N,
            items@.len() == i,
            forall|j: usize| j < N ==> call_requires(f, (j,)),
            forall|j: int| 0 <= j < i ==> call_ensures(f, (j as usize,), #[trigger] items@[j]),
        decreases N - i,
    {
        items.push(f(i));
        i = i + 1;
    }
    array_from_vec(items)
}

/// Creates an array where every element is a value produced by `T::default()`
pub fn default_array<T: Default, const N: usize>() -> (r: [T; N])
    ensures
        forall|i: int| 0 <= i < N ==> call_ensures(T::default, (), #[trigger] r@[i]),
{
    make_array(|_i: usize| -> (d: T)
        ensures
            call_ensures(T::default, (), d),
        { T::default() })
}


/// Creates a new table in the form of a 2D array initialized element-by-element
/// (row by row, and column by column within a row) using the provided function
/// to produce `T`; stops at the first element whose production fails and
/// returns that error
pub fn try_make_table_array<T, E, const ROW: usize, const COL: usize>(
    f: impl Fn(usize, usize) -> Result<T, E>,
) -> (r: Result<[[T; COL]; ROW], E>)
    requires
        forall|i: usize, j: usize| i < ROW && j < COL ==> call_requires(f, (i, j)),
    ensures
        match r {
            Ok(arr) => forall|i: int, j: int|
                0 <= i < ROW && 0 <= j < COL ==> call_ensures(
                    f,
                    (i as usize, j as usize),
                    Ok(#[trigger] arr@[i]@[j]),
                ),
            Err(_) => exists|k: usize, l: usize|
                k < ROW && l < COL && #[trigger] first_failure_at2(f, COL, k, l, r->Err_0),
        },
{
    let mut rows: Vec<[T; COL]> = Vec::new();
    let mut i: usize = 0;
    while i < ROW
        invariant
            i <= ROW,
            rows@.len() == i,
            forall|a: usize, b: usize| a < ROW && b < COL ==> call_requires(f, (a, b)),
            forall|a: int, b: int|
                0 <= a < i && 0 <= b < COL ==> call_ensures(
                    f,
                    (a as usize, b as usize),
                    Ok(#[trigger] rows@[a]@[b]),
                ),
        decreases ROW - i,
    {
        let mut items: Vec<T> = Vec::new();
        let mut j: usize = 0;
        while j < COL
            invariant
                i < ROW,
                j <= COL,
                items@.len() == j,
                rows@.len() == i,
                forall|a: usize, b: usize| a < ROW && b < COL ==> call_requires(f, (a, b)),
                forall|a: int, b: int|
                    0 <= a < i && 0 <= b < COL ==> call_ensures(
                        f,
                        (a as usize, b as usize),
                        Ok(#[trigger] rows@[a]@[b]),
                    ),
                forall|b: int| 0 <= b < j ==> call_ensures(f, (i, b as usize), Ok(#[trigger] items@[b])),
            decreases COL - j,
        {
            match f(i, j) {
                Ok(x) => {
                    items.push(x);
                },
                Err(e) => {
                    assert forall|a: usize, b: usize|
                        b < COL && (a < i || (a == i && b < j)) implies #[trigger] succeeds_at2(f, a, b) by {
                        if a < i {
                            assert(call_ensures(f, (a as usize, b as usize), Ok(rows@[a as int]@[b as int])));
                        } else {
                            assert(call_ensures(f, (i, b as usize), Ok(items@[b as int])));
                        }
                    }
                    let r: Result<[[T; COL]; ROW], E> = Err(e);
                    assert(first_failure_at2(f, COL, i, j, r->Err_0));
                    return r;
                },
            }
            j = j + 1;
        }
        let row: [T; COL] = array_from_vec(items);
        rows.push(row);
        i = i + 1;
    }
    Ok(array_from_vec(rows))
}

/// Like [`try_make_table_array`], but uses an element allocator that is
/// guaranteed to succeed; therefore, this 2D array allocator will also be
/// guaranteed to succeed
pub fn make_table_array<T, const ROW: usize, const COL: usize>(
    f: impl Fn(usize, usize) -> T,
) -> (r: [[T; COL]; ROW])
    requires
        forall|i: usize, j: usize| i < ROW && j < COL ==> call_requires(f, (i, j)),
    ensures
        forall|i: int, j: int|
            0 <= i < ROW && 0 <= j < COL ==> call_ensures(
                f,
                (i as usize, j as usize),
                #[trigger] r@[i]@[j],
            ),
{
    let mut rows: Vec<[T; COL]> = Vec::new();
    let mut i: usize = 0;
    while i < ROW
        invariant
            i <= ROW,
            rows@.len() == i,
            forall|a: usize, b: usize| a < ROW && b < COL ==> call_requires(f, (a, b)),
            forall|a: int, b: int|
                0 <= a < i && 0 <= b < COL ==> call_ensures(
                    f,
                    (a as usize, b as usize),
                    #[trigger] rows@[a]@[b],
                ),
        decreases ROW - i,
    {
        let mut items: Vec<T> = Vec::new();
        let mut j: usize = 0;
        while j < COL
            invariant
                i < ROW,
                j <= COL,
                items@.len() == j,
                rows@.len() == i,
                forall|a: usize, b: usize| a < ROW && b < COL ==> call_requires(f, (a, b)),
                forall|a: int, b: int|
                    0 <= a < i && 0 <= b < COL ==> call_ensures(
                        f,
                        (a as usize, b as usize),
                        #[trigger] rows@[a]@[b],
                    ),
                forall|b: int| 0 <= b < j ==> call_ensures(f, (i, b as usize), #[trigger] items@[b]),
            decreases COL - j,
        {
            items.push(f(i, j));
            j = j + 1;
        }
        let row: [T; COL] = array_from_vec(items);
        rows.push(row);
        i = i + 1;
    }
    array_from_vec(rows)
}

/// Creates a 2D array where every element is a value produced by `T::default()`
pub fn default_table_array<T: Default, const ROW: usize, const COL: usize>() -> (r: [[T; COL]; ROW])
    ensures
        forall|i: int, j: int|
            0 <= i < ROW && 0 <= j < COL ==> call_ensures(T::default, (), #[trigger] r@[i]@[j]),
{
    make_table_array(|_row: usize, _col: usize| -> (d: T)
        ensures
            call_ensures(T::default, (), d),
        { T::default() })
}

} // verus!
