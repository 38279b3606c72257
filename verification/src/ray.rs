use vstd::prelude::*;

verus! {

/// The hit among intersections whose t-values arrive as order-preserving
/// integer keys (non-negative t <=> key >= 0): the index of the smallest
/// non-negative key, or nothing when every key is negative. Of equal
/// smallest keys the last one is returned.
pub fn hit_index(keys: &Vec<i64>) -> (r: Option<usize>)
    ensures
        r is None ==> forall|i: int| 0 <= i < keys@.len() ==> keys@[i] < 0,
        r matches Some(j) ==> j < keys@.len() && keys@[j as int] >= 0 && forall|i: int|
            0 <= i < keys@.len() && keys@[i] >= 0 ==> keys@[j as int] <= keys@[i],
{
    let mut best: Option<usize> = None;
    let mut i: usize = 0;
    while i < keys.len()
        invariant
            i <= keys@.len(),
            best is None ==> forall|k: int| 0 <= k < i ==> keys@[k] < 0,
            best matches Some(j) ==> j < i && keys@[j as int] >= 0 && forall|k: int|
                0 <= k < i && keys@[k] >= 0 ==> keys@[j as int] <= keys@[k],
        decreases keys@.len() - i,
    {
        let key = keys[i];
        if key >= 0 {
            best = match best {
                None => Some(i),
                Some(j) => if keys[j] < key {
                    Some(j)
                } else {
                    Some(i)
                },
            };
        }
        i = i + 1;
    }
    best
}

/// An ascending ordering of the intersections: a permutation of
/// 0..keys.len() (every position below the length, no position twice)
/// that visits the keys in non-decreasing order. Equal keys keep their
/// relative order, so the sort is stable.
pub fn sort_order(keys: &Vec<i64>) -> (order: Vec<usize>)
    ensures
        order@.len() == keys@.len(),
        forall|k: int| 0 <= k < order@.len() ==> (#[trigger] order@[k]) < keys@.len(),
        forall|a: int, b: int| 0 <= a < b < order@.len() ==> order@[a] != order@[b],
        forall|a: int, b: int|
            0 <= a < b < order@.len() ==> keys@[order@[a] as int] <= keys@[order@[b] as int],
        forall|a: int, b: int|
            0 <= a < b < order@.len() && keys@[order@[a] as int] == keys@[order@[b] as int]
                ==> order@[a] < order@[b],
{
    let n: usize = keys.len();
    let mut order: Vec<usize> = Vec::new();
    let mut p: usize = 0;
    while p < n
        invariant
            p <= n,
            order@.len() == p,
            forall|k: int| 0 <= k < p ==> (#[trigger] order@[k]) == k,
        decreases n - p,
    {
        order.push(p);
        p = p + 1;
    }

    let mut i: usize = 1;
    while i < n
        invariant
            n == keys@.len(),
            order@.len() == n,
            1 <= i,
            forall|k: int| 0 <= k < n ==> (#[trigger] order@[k]) < n,
            forall|a: int, b: int| 0 <= a < b < n ==> order@[a] != order@[b],
            forall|a: int, b: int|
                0 <= a < b < i ==> keys@[order@[a] as int] <= keys@[order@[b] as int],
            forall|a: int, b: int|
                0 <= a < b < n && keys@[order@[a] as int] == keys@[order@[b] as int]
                    ==> order@[a] < order@[b],
        decreases n - i,
    {
        let mut j: usize = i;
        while j > 0 && keys[order[j - 1]] > keys[order[j]]
            invariant
                n == keys@.len(),
                order@.len() == n,
                0 <= j <= i < n,
                forall|k: int| 0 <= k < n ==> (#[trigger] order@[k]) < n,
                forall|a: int, b: int| 0 <= a < b < n ==> order@[a] != order@[b],
                forall|a: int, b: int|
                    0 <= a < b <= i && a != j && b != j ==> keys@[order@[a] as int]
                        <= keys@[order@[b] as int],
                forall|b: int|
                    j < b <= i ==> keys@[order@[j as int] as int] <= keys@[order@[b] as int],
                forall|a: int, b: int|
                    0 <= a < b < n && keys@[order@[a] as int] == keys@[order@[b] as int]
                        ==> order@[a] < order@[b],
            decreases j,
        {
            let u: usize = order[j - 1];
            let v: usize = order[j];
            order[j - 1] = v;
            order[j] = u;
            j = j - 1;
        }
        i = i + 1;
    }
    order
}

} // verus!
