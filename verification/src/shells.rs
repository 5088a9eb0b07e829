//! Electron shells: how many shells an atom occupies (which sets its outer
//! radius) and how its electrons are spread over the drawn shells.

use vstd::prelude::*;

verus! {

/// The number of shells that are drawn at most.
pub const SHELL_COUNT: usize = 4;

/// The capacity of drawn shell `k`: 2, 8, 18, then 999 for the last one.
pub open spec fn shell_capacity(k: int) -> int {
    if k == 0 {
        2
    } else if k == 1 {
        8
    } else if k == 2 {
        18
    } else {
        999
    }
}

/// The electrons placed on shells `k..`, given `rem` electrons left: each
/// shell takes as many as it can hold, and filling stops when none are left
/// or the shells run out.
pub open spec fn fill_shells(rem: int, k: nat) -> Seq<int>
    decreases SHELL_COUNT - k,
{
    if k >= SHELL_COUNT || rem <= 0 {
        seq![]
    } else {
        let taken = if rem < shell_capacity(k as int) { rem } else { shell_capacity(k as int) };
        seq![taken] + fill_shells(rem - taken, k + 1)
    }
}

/// The electrons on each drawn shell of an atom with `electrons` electrons.
pub open spec fn spec_shell_distribution(electrons: int) -> Seq<int> {
    fill_shells(electrons, 0)
}

/// The number of shells an atom with `electrons` electrons occupies: none
/// without electrons, then one more past 2, 10 and 28 electrons.
pub open spec fn spec_occupied_shells(electrons: int) -> nat {
    if electrons <= 0 {
        0
    } else if electrons <= 2 {
        1
    } else if electrons <= 10 {
        2
    } else if electrons <= 28 {
        3
    } else {
        4
    }
}

/// The sum of a sequence of integers.
pub open spec fn total(s: Seq<int>) -> int
    decreases s.len(),
{
    if s.len() == 0 {
        0
    } else {
        s[0] + total(s.drop_first())
    }
}

/// Counts the shells an atom occupies, one per threshold its electrons pass.
pub fn occupied_shells(nb_electrons: i32) -> (n: u32)
    ensures
        n == spec_occupied_shells(nb_electrons as int),
{
    let mut shells: u32 = 0;
    let mut electrons: i32 = nb_electrons;
    if electrons > 0 {
        shells = shells + 1;
        electrons = electrons - if electrons < 2 { electrons } else { 2 };
    }
    if electrons > 0 {
        shells = shells + 1;
        electrons = electrons - if electrons < 8 { electrons } else { 8 };
    }
    if electrons > 0 {
        shells = shells + 1;
        electrons = electrons - if electrons < 18 { electrons } else { 18 };
    }
    if electrons > 0 {
        shells = shells + 1;
    }
    shells
}

fn capacity(k: usize) -> (c: i32)
    requires
        k < SHELL_COUNT,
    ensures
        c == shell_capacity(k as int),
{
    if k == 0 {
        2
    } else if k == 1 {
        8
    } else if k == 2 {
        18
    } else {
        999
    }
}

/// Spreads an atom's electrons over the drawn shells, innermost first.
pub fn shell_distribution(nb_electrons: i32) -> (v: Vec<i32>)
    ensures
        v@.map_values(|x: i32| x as int) == spec_shell_distribution(nb_electrons as int),
{
    let mut v: Vec<i32> = Vec::new();
    let mut rem: i32 = nb_electrons;
    let mut k: usize = 0;
    while k < SHELL_COUNT
        invariant_except_break
            k <= SHELL_COUNT,
            v@.map_values(|x: i32| x as int) + fill_shells(rem as int, k as nat)
                == fill_shells(nb_electrons as int, 0),
        ensures
            v@.map_values(|x: i32| x as int) == fill_shells(nb_electrons as int, 0),
        decreases SHELL_COUNT - k,
    {
        if rem <= 0 {
            assert(fill_shells(rem as int, k as nat) =~= seq![]);
            assert(v@.map_values(|x: i32| x as int) + seq![] =~= v@.map_values(|x: i32| x as int));
            break;
        }
        let cap = capacity(k);
        let taken = if rem < cap { rem } else { cap };
        let ghost before = v@.map_values(|x: i32| x as int);
        v.push(taken);
        rem = rem - taken;
        k = k + 1;
        assert(v@.map_values(|x: i32| x as int) =~= before.push(taken as int));
        assert(before + fill_shells((rem + taken) as int, (k - 1) as nat)
            =~= before.push(taken as int) + fill_shells(rem as int, k as nat));
    }
    proof {
        if k >= SHELL_COUNT {
            assert(fill_shells(rem as int, k as nat) =~= seq![]);
            assert(v@.map_values(|x: i32| x as int) + seq![] =~= v@.map_values(|x: i32| x as int));
        }
    }
    v
}

/// The shells that are drawn are exactly the shells that count toward the
/// outer radius: for any electron count, the distribution has one entry per
/// occupied shell.
pub proof fn lemma_drawn_shells_are_occupied_shells(electrons: int)
    ensures
        spec_shell_distribution(electrons).len() == spec_occupied_shells(electrons),
{
    reveal_with_fuel(fill_shells, 5);
}

/// Every electron up to the combined capacity of the drawn shells (1027) is
/// drawn: the shells together hold the electron count, clamped to 0..=1027.
pub proof fn lemma_shells_hold_all_electrons(electrons: int)
    ensures
        total(spec_shell_distribution(electrons)) == if electrons <= 0 {
            0
        } else if electrons <= 1027 {
            electrons
        } else {
            1027
        },
{
    reveal_with_fuel(fill_shells, 5);
    reveal_with_fuel(total, 5);
    let d = spec_shell_distribution(electrons);
    assert(d.len() <= 4) by {
        lemma_drawn_shells_are_occupied_shells(electrons);
    }
    if d.len() >= 1 {
        assert(d.drop_first() =~= fill_shells(electrons - d[0], 1));
        if d.len() >= 2 {
            assert(d.drop_first().drop_first() =~= fill_shells(electrons - d[0] - d[1], 2));
            if d.len() >= 3 {
                assert(d.drop_first().drop_first().drop_first()
                    =~= fill_shells(electrons - d[0] - d[1] - d[2], 3));
            }
        }
    }
}

/// Shells fill from the inside: every drawn shell holds at least one and at
/// most its capacity, and every shell but the outermost drawn one is full.
pub proof fn lemma_shells_fill_inside_out(electrons: int)
    ensures
        forall|i: int|
            0 <= i < spec_shell_distribution(electrons).len() ==> 0
                < #[trigger] spec_shell_distribution(electrons)[i] <= shell_capacity(i),
        forall|i: int|
            0 <= i < spec_shell_distribution(electrons).len() - 1
                ==> #[trigger] spec_shell_distribution(electrons)[i] == shell_capacity(i),
{
    reveal_with_fuel(fill_shells, 5);
}

/// Adding electrons never removes a shell, so an atom's outer radius never
/// shrinks as its electron count grows; an atom never occupies more than
/// the four drawn shells.
pub proof fn lemma_occupied_shells_monotonic(fewer: int, more: int)
    requires
        fewer <= more,
    ensures
        spec_occupied_shells(fewer) <= spec_occupied_shells(more),
        spec_occupied_shells(more) <= SHELL_COUNT,
{
}


/// The drawn shells in closed form: the first shell takes up to 2
/// electrons, the second up to 8, the third up to 18 and the fourth the
/// rest up to 999.
pub proof fn lemma_shell_distribution_closed_form(e: int)
    ensures
        e <= 0 ==> spec_shell_distribution(e) == Seq::<int>::empty(),
        0 < e <= 2 ==> spec_shell_distribution(e) == seq![e],
        2 < e <= 10 ==> spec_shell_distribution(e) == seq![2, e - 2],
        10 < e <= 28 ==> spec_shell_distribution(e) == seq![2, 8, e - 10],
        28 < e <= 1027 ==> spec_shell_distribution(e) == seq![2, 8, 18, e - 28],
        1027 < e ==> spec_shell_distribution(e) == seq![2int, 8, 18, 999],
{
    reveal_with_fuel(fill_shells, 5);
    if e <= 0 {
        assert(spec_shell_distribution(e) =~= Seq::<int>::empty());
    } else if e <= 2 {
        assert(spec_shell_distribution(e) =~= seq![e]);
    } else if e <= 10 {
        assert(spec_shell_distribution(e) =~= seq![2, e - 2]);
    } else if e <= 28 {
        assert(spec_shell_distribution(e) =~= seq![2, 8, e - 10]);
    } else if e <= 1027 {
        assert(spec_shell_distribution(e) =~= seq![2, 8, 18, e - 28]);
    } else {
        assert(spec_shell_distribution(e) =~= seq![2int, 8, 18, 999]);
    }
}

} // verus!
