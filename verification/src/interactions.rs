//! The order in which atoms act on each other in one simulation step:
//! collisions are resolved once per unordered pair, attraction is applied
//! once per ordered pair. Each step updates the atoms in place, so the
//! order is part of the result.

use vstd::prelude::*;

verus! {

/// The pairs `(i, j)` with `i < j < len` for a fixed first index `i`, in
/// increasing `j`.
pub open spec fn collision_row(i: nat, len: nat) -> Seq<(usize, usize)> {
    Seq::new(
        if i + 1 <= len { (len - i - 1) as nat } else { 0 },
        |k: int| (i as usize, (i + 1 + k) as usize),
    )
}

/// The collision pairs whose first index is below `rows`.
pub open spec fn collision_pairs_upto(rows: nat, len: nat) -> Seq<(usize, usize)>
    decreases rows,
{
    if rows == 0 {
        seq![]
    } else {
        collision_pairs_upto((rows - 1) as nat, len) + collision_row((rows - 1) as nat, len)
    }
}

/// Every unordered pair of `len` atoms, as `(i, j)` with `i < j`, in
/// lexicographic order.
pub open spec fn spec_collision_pairs(len: nat) -> Seq<(usize, usize)> {
    collision_pairs_upto(len, len)
}

/// The pairs `(i, j)` with `j != i` for a fixed first index `i`, in
/// increasing `j`.
pub open spec fn attraction_row(i: nat, len: nat) -> Seq<(usize, usize)> {
    Seq::new(
        if i < len { (len - 1) as nat } else { 0 },
        |k: int| (i as usize, (if k < i { k } else { k + 1 }) as usize),
    )
}

pub open spec fn attraction_pairs_upto(rows: nat, len: nat) -> Seq<(usize, usize)>
    decreases rows,
{
    if rows == 0 {
        seq![]
    } else {
        attraction_pairs_upto((rows - 1) as nat, len) + attraction_row((rows - 1) as nat, len)
    }
}

/// Every ordered pair of distinct atoms among `len`, `(i, j)` with the atom
/// `i` attracted towards atom `j`, in lexicographic order.
pub open spec fn spec_attraction_pairs(len: nat) -> Seq<(usize, usize)> {
    attraction_pairs_upto(len, len)
}

/// Lists the pairs whose collisions are resolved, in the order they are
/// resolved.
pub fn collision_pairs(len: usize) -> (pairs: Vec<(usize, usize)>)
    ensures
        pairs@ == spec_collision_pairs(len as nat),
{
    let mut pairs: Vec<(usize, usize)> = Vec::new();
    let mut i: usize = 0;
    while i < len
        invariant
            i <= len,
            pairs@ == collision_pairs_upto(i as nat, len as nat),
        decreases len - i,
    {
        let mut j: usize = i + 1;
        while j < len
            invariant
                i < len,
                i + 1 <= j <= len,
                pairs@ == collision_pairs_upto(i as nat, len as nat) + collision_row(
                    i as nat,
                    len as nat,
                ).take(j - i - 1),
            decreases len - j,
        {
            let ghost before = pairs@;
            pairs.push((i, j));
            assert(collision_row(i as nat, len as nat).take(j - i) =~= collision_row(
                i as nat,
                len as nat,
            ).take(j - i - 1).push((i, j)));
            j = j + 1;
        }
        assert(collision_row(i as nat, len as nat).take(len - i - 1) =~= collision_row(
            i as nat,
            len as nat,
        ));
        i = i + 1;
    }
    pairs
}

/// Lists the pairs along which attraction is applied, in the order it is
/// applied.
pub fn attraction_pairs(len: usize) -> (pairs: Vec<(usize, usize)>)
    ensures
        pairs@ == spec_attraction_pairs(len as nat),
{
    let mut pairs: Vec<(usize, usize)> = Vec::new();
    let mut i: usize = 0;
    while i < len
        invariant
            i <= len,
            pairs@ == attraction_pairs_upto(i as nat, len as nat),
        decreases len - i,
    {
        let mut j: usize = 0;
        while j < len
            invariant
                i < len,
                j <= len,
                pairs@ == attraction_pairs_upto(i as nat, len as nat) + attraction_row(
                    i as nat,
                    len as nat,
                ).take(if j <= i { j as int } else { j - 1 }),
            decreases len - j,
        {
            if j != i {
                pairs.push((i, j));
                let ghost taken: int = if j < i { j as int } else { j - 1 };
                assert(attraction_row(i as nat, len as nat).take(taken + 1) =~= attraction_row(
                    i as nat,
                    len as nat,
                ).take(taken).push((i, j)));
            }
            j = j + 1;
        }
        assert(attraction_row(i as nat, len as nat).take(len - 1) =~= attraction_row(
            i as nat,
            len as nat,
        ));
        i = i + 1;
    }
    pairs
}

/// Strict lexicographic order on index pairs.
pub open spec fn pair_before(a: (usize, usize), b: (usize, usize)) -> bool {
    a.0 < b.0 || (a.0 == b.0 && a.1 < b.1)
}

proof fn lemma_collision_rows(rows: nat, len: usize)
    requires
        rows <= len,
    ensures
        forall|k: int|
            0 <= k < collision_pairs_upto(rows, len as nat).len() ==> {
                let p = #[trigger] collision_pairs_upto(rows, len as nat)[k];
                p.0 < rows && p.0 < p.1 && p.1 < len
            },
        forall|i: usize, j: usize|
            i < rows && i < j && j < len ==> #[trigger] collision_pairs_upto(rows, len as nat).contains((i, j)),
        forall|a: int, b: int|
            0 <= a < b < collision_pairs_upto(rows, len as nat).len() ==> pair_before(
                #[trigger] collision_pairs_upto(rows, len as nat)[a],
                #[trigger] collision_pairs_upto(rows, len as nat)[b],
            ),
    decreases rows,
{
    if rows > 0 {
        let r = (rows - 1) as nat;
        lemma_collision_rows(r, len);
        let prev = collision_pairs_upto(r, len as nat);
        let row = collision_row(r, len as nat);
        let s = collision_pairs_upto(rows, len as nat);
        assert(s == prev + row);
        assert forall|k: int| 0 <= k < s.len() implies {
            let p = #[trigger] s[k];
            p.0 < rows && p.0 < p.1 && p.1 < len
        } by {
            if k >= prev.len() {
                assert(s[k] == row[k - prev.len()]);
            } else {
                assert(s[k] == prev[k]);
            }
        }
        assert forall|i: usize, j: usize| i < rows && i < j && j < len implies #[trigger] s.contains((i, j)) by {
            if i < r {
                assert(prev.contains((i, j)));
                let k = choose|k: int| 0 <= k < prev.len() && prev[k] == (i, j);
                assert(s[k] == prev[k]);
            } else {
                let k = j - i - 1;
                assert(row[k] == (i, j));
                assert(s[prev.len() + k] == row[k]);
            }
        }
        assert forall|a: int, b: int| 0 <= a < b < s.len() implies pair_before(
            #[trigger] s[a],
            #[trigger] s[b],
        ) by {
            if b < prev.len() {
                assert(s[a] == prev[a] && s[b] == prev[b]);
            } else if a < prev.len() {
                assert(s[a] == prev[a] && s[b] == row[b - prev.len()]);
            } else {
                assert(s[a] == row[a - prev.len()] && s[b] == row[b - prev.len()]);
            }
        }
    }
}

/// Collisions are resolved once for each unordered pair: every entry is a
/// pair `(i, j)` with `i < j < len`, every such pair is listed, and the
/// list is strictly increasing, so no pair comes twice.
pub proof fn lemma_collision_pairs_once_each(len: usize)
    ensures
        forall|k: int|
            0 <= k < spec_collision_pairs(len as nat).len() ==> {
                let p = #[trigger] spec_collision_pairs(len as nat)[k];
                p.0 < p.1 && p.1 < len
            },
        forall|i: usize, j: usize| i < j && j < len ==> #[trigger] spec_collision_pairs(len as nat).contains((i, j)),
        forall|a: int, b: int|
            0 <= a < b < spec_collision_pairs(len as nat).len() ==> pair_before(
                #[trigger] spec_collision_pairs(len as nat)[a],
                #[trigger] spec_collision_pairs(len as nat)[b],
            ),
{
    lemma_collision_rows(len as nat, len);
}

proof fn lemma_attraction_rows(rows: nat, len: usize)
    requires
        rows <= len,
    ensures
        forall|k: int|
            0 <= k < attraction_pairs_upto(rows, len as nat).len() ==> {
                let p = #[trigger] attraction_pairs_upto(rows, len as nat)[k];
                p.0 < rows && p.0 != p.1 && p.1 < len
            },
        forall|i: usize, j: usize|
            i < rows && i != j && j < len ==> #[trigger] attraction_pairs_upto(rows, len as nat).contains((i, j)),
        forall|a: int, b: int|
            0 <= a < b < attraction_pairs_upto(rows, len as nat).len() ==> pair_before(
                #[trigger] attraction_pairs_upto(rows, len as nat)[a],
                #[trigger] attraction_pairs_upto(rows, len as nat)[b],
            ),
    decreases rows,
{
    if rows > 0 {
        let r = (rows - 1) as nat;
        lemma_attraction_rows(r, len);
        let prev = attraction_pairs_upto(r, len as nat);
        let row = attraction_row(r, len as nat);
        let s = attraction_pairs_upto(rows, len as nat);
        assert(s == prev + row);
        assert forall|k: int| 0 <= k < s.len() implies {
            let p = #[trigger] s[k];
            p.0 < rows && p.0 != p.1 && p.1 < len
        } by {
            if k >= prev.len() {
                assert(s[k] == row[k - prev.len()]);
            } else {
                assert(s[k] == prev[k]);
            }
        }
        assert forall|i: usize, j: usize| i < rows && i != j && j < len implies #[trigger] s.contains((i, j)) by {
            if i < r {
                assert(prev.contains((i, j)));
                let k = choose|k: int| 0 <= k < prev.len() && prev[k] == (i, j);
                assert(s[k] == prev[k]);
            } else {
                let k: int = if j < i { j as int } else { j - 1 };
                assert(row[k] == (i, j));
                assert(s[prev.len() + k] == row[k]);
            }
        }
        assert forall|a: int, b: int| 0 <= a < b < s.len() implies pair_before(
            #[trigger] s[a],
            #[trigger] s[b],
        ) by {
            if b < prev.len() {
                assert(s[a] == prev[a] && s[b] == prev[b]);
            } else if a < prev.len() {
                assert(s[a] == prev[a] && s[b] == row[b - prev.len()]);
            } else {
                assert(s[a] == row[a - prev.len()] && s[b] == row[b - prev.len()]);
            }
        }
    }
}

/// Attraction is applied once along each ordered pair of distinct atoms:
/// every entry is a pair `(i, j)` with `i != j`, both below `len`, every
/// such pair is listed, and the list is strictly increasing.
pub proof fn lemma_attraction_pairs_once_each(len: usize)
    ensures
        forall|k: int|
            0 <= k < spec_attraction_pairs(len as nat).len() ==> {
                let p = #[trigger] spec_attraction_pairs(len as nat)[k];
                p.0 != p.1 && p.0 < len && p.1 < len
            },
        forall|i: usize, j: usize|
            i != j && i < len && j < len ==> #[trigger] spec_attraction_pairs(len as nat).contains((i, j)),
        forall|a: int, b: int|
            0 <= a < b < spec_attraction_pairs(len as nat).len() ==> pair_before(
                #[trigger] spec_attraction_pairs(len as nat)[a],
                #[trigger] spec_attraction_pairs(len as nat)[b],
            ),
{
    lemma_attraction_rows(len as nat, len);
}

} // verus!
