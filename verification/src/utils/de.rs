use super::make::array_from_vec;
use vstd::prelude::*;

verus! {

/// Assembles an array of `N` items out of the items read from a sequence.
///
/// Reading stops at the first missing item or once one item more than `N`
/// has been read; anything but exactly `N` items is an invalid length, whose
/// count is returned: the number of items read when there were too few, and
/// `N + 1` when there were too many
pub fn array_from_items<T, const N: usize>(items: Vec<T>) -> (r: Result<[T; N], usize>)
    requires
        N < usize::MAX,
    ensures
        items@.len() == N ==> (r matches Ok(arr) && arr@ == items@),
        items@.len() < N ==> r == Err::<[T; N], usize>(items@.len() as usize),
        items@.len() > N ==> r == Err::<[T; N], usize>((N + 1) as usize),
{
    let n = items.len();
    if n < N {
        Err(n)
    } else if n > N {
        Err(N + 1)
    } else {
        Ok(array_from_vec(items))
    }
}

/// Assembles a table array of `ROW` rows of `COL` items out of the items
/// read from a sequence, row by row.
///
/// Reading stops at the first missing item or once one item more than
/// `ROW * COL` has been read; anything but exactly `ROW * COL` items is an
/// invalid length, whose count is returned: the number of items read when
/// there were too few, and `ROW * COL + 1` when there were too many
pub fn table_array_from_items<T, const ROW: usize, const COL: usize>(items: Vec<T>) -> (r: Result<
    [[T; COL]; ROW],
    usize,
>)
    requires
        ROW * COL < usize::MAX,
    ensures
        items@.len() == ROW * COL ==> (r matches Ok(arr) && forall|i: int, j: int|
            0 <= i < ROW && 0 <= j < COL ==> #[trigger] arr@[i]@[j] == items@[i * COL + j]),
        items@.len() < ROW * COL ==> r == Err::<[[T; COL]; ROW], usize>(items@.len() as usize),
        items@.len() > ROW * COL ==> r == Err::<[[T; COL]; ROW], usize>((ROW * COL + 1) as usize),
{
    let n = items.len();
    let total = ROW * COL;
    if n < total {
        return Err(n);
    } else if n > total {
        return Err(total + 1);
    }
    let ghost orig = items@;
    // Take the items off the back, so that they can then be taken from the
    // first one on
    let mut rest = items;
    let mut reversed: Vec<T> = Vec::new();
    while rest.len() > 0
        invariant
            n == orig.len(),
            rest@ == orig.take(rest@.len() as int),
            reversed@.len() == n - rest@.len(),
            forall|k: int| 0 <= k < reversed@.len() ==> #[trigger] reversed@[k] == orig[n - 1 - k],
        decreases rest@.len(),
    {
        let x = rest.pop().unwrap();
        reversed.push(x);
    }
    let mut rows: Vec<[T; COL]> = Vec::new();
    let mut r: usize = 0;
    while r < ROW
        invariant
            n == orig.len(),
            n == ROW * COL,
            r <= ROW,
            rows@.len() == r,
            reversed@.len() + r * COL == n,
            forall|k: int| 0 <= k < reversed@.len() ==> #[trigger] reversed@[k] == orig[n - 1 - k],
            forall|i: int, j: int|
                0 <= i < r && 0 <= j < COL ==> #[trigger] rows@[i]@[j] == orig[i * COL + j],
        decreases ROW - r,
    {
        proof {
            assert(r * COL + COL == (r + 1) * COL) by (nonlinear_arith);
            assert((r + 1) * COL <= ROW * COL) by (nonlinear_arith)
                requires
                    r < ROW,
            ;
        }
        let mut row: Vec<T> = Vec::new();
        let mut c: usize = 0;
        while c < COL
            invariant
                n == orig.len(),
                c <= COL,
                row@.len() == c,
                reversed@.len() + r * COL + c == n,
                r * COL + COL <= n,
                forall|k: int| 0 <= k < reversed@.len() ==> #[trigger] reversed@[k] == orig[n - 1 - k],
                forall|j: int| 0 <= j < c ==> #[trigger] row@[j] == orig[r * COL + j],
            decreases COL - c,
        {
            let x = reversed.pop().unwrap();
            row.push(x);
            c = c + 1;
        }
        let arr: [T; COL] = array_from_vec(row);
        let ghost before = rows@;
        rows.push(arr);
        proof {
            assert forall|i: int, j: int| 0 <= i < r + 1 && 0 <= j < COL implies #[trigger] rows@[i]@[j]
                == orig[i * COL + j] by {
                if i < r {
                    assert(rows@[i] == before[i]);
                }
            }
        }
        r = r + 1;
    }
    Ok(array_from_vec(rows))
}

/// Assembles arrays of `N` items each out of all the items read from a
/// sequence, in order.
///
/// Items that do not fill a whole last array are an invalid length, whose
/// count, the number of items read, is returned
pub fn vec_array_from_items<T, const N: usize>(items: Vec<T>) -> (r: Result<Vec<[T; N]>, usize>)
    requires
        N > 0,
    ensures
        items@.len() % (N as nat) == 0 ==> (r matches Ok(arrs) && arrs@.len() * N == items@.len()
            && forall|i: int, j: int|
            0 <= i < arrs@.len() && 0 <= j < N ==> #[trigger] arrs@[i]@[j] == items@[i * N + j]),
        items@.len() % (N as nat) != 0 ==> r == Err::<Vec<[T; N]>, usize>(items@.len() as usize),
{
    let n = items.len();
    if n % N != 0 {
        return Err(n);
    }
    let ghost orig = items@;
    let mut rest = items;
    let mut reversed: Vec<T> = Vec::new();
    while rest.len() > 0
        invariant
            n == orig.len(),
            rest@ == orig.take(rest@.len() as int),
            reversed@.len() == n - rest@.len(),
            forall|k: int| 0 <= k < reversed@.len() ==> #[trigger] reversed@[k] == orig[n - 1 - k],
        decreases rest@.len(),
    {
        let x = rest.pop().unwrap();
        reversed.push(x);
    }
    let mut arrs: Vec<[T; N]> = Vec::new();
    while reversed.len() > 0
        invariant
            n == orig.len(),
            N > 0,
            reversed@.len() + arrs@.len() * N == n,
            reversed@.len() % (N as nat) == 0,
            forall|k: int| 0 <= k < reversed@.len() ==> #[trigger] reversed@[k] == orig[n - 1 - k],
            forall|i: int, j: int|
                0 <= i < arrs@.len() && 0 <= j < N ==> #[trigger] arrs@[i]@[j] == orig[i * N + j],
        decreases reversed@.len(),
    {
        let ghost m = arrs@.len();
        let ghost left = reversed@.len();
        proof {
            assert(left >= N) by (nonlinear_arith)
                requires
                    left % (N as nat) == 0,
                    left > 0,
                    N > 0,
            ;
            assert(((left - N) as nat) % (N as nat) == 0) by (nonlinear_arith)
                requires
                    left % (N as nat) == 0,
                    left >= N,
                    N > 0,
            ;
            assert(m * N + N == (m + 1) * N) by (nonlinear_arith);
        }
        let mut chunk: Vec<T> = Vec::new();
        let mut c: usize = 0;
        while c < N
            invariant
                n == orig.len(),
                c <= N,
                chunk@.len() == c,
                reversed@.len() + m * N + c == n,
                left == reversed@.len() + c,
                left >= N,
                forall|k: int| 0 <= k < reversed@.len() ==> #[trigger] reversed@[k] == orig[n - 1 - k],
                forall|j: int| 0 <= j < c ==> #[trigger] chunk@[j] == orig[m * N + j],
            decreases N - c,
        {
            let x = reversed.pop().unwrap();
            chunk.push(x);
            c = c + 1;
        }
        let arr: [T; N] = array_from_vec(chunk);
        let ghost before = arrs@;
        arrs.push(arr);
        proof {
            assert forall|i: int, j: int| 0 <= i < arrs@.len() && 0 <= j < N implies #[trigger] arrs@[i]@[j]
                == orig[i * N + j] by {
                if i < m {
                    assert(arrs@[i] == before[i]);
                }
            }
        }
    }
    Ok(arrs)
}

} // verus!
