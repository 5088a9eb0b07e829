//! The make-up of a nucleus: in which order protons and neutrons are laid
//! out along the spiral that draws it.

use vstd::prelude::*;
use crate::templates::fits_i32;

verus! {

/// Kind code of a proton.
pub const PROTON: i32 = 0;

/// Kind code of a neutron.
pub const NEUTRON: i32 = 1;

/// The kind placed next, given the protons and neutrons still to place and
/// a coin: the coin decides while both remain, otherwise the kind that
/// remains is placed (a neutron once no proton remains).
pub open spec fn spec_next_kind(protons_left: int, neutrons_left: int, coin: int) -> int {
    if protons_left > 0 && neutrons_left > 0 {
        coin
    } else if protons_left > 0 {
        PROTON as int
    } else {
        NEUTRON as int
    }
}

/// Whether `kind` may be placed next, for a fair coin (0 or 1).
pub open spec fn kind_allowed(protons_left: int, neutrons_left: int, kind: int) -> bool {
    kind == spec_next_kind(protons_left, neutrons_left, 0)
        || kind == spec_next_kind(protons_left, neutrons_left, 1)
}

/// How many entries of `s` equal `kind`.
pub open spec fn count_kind(s: Seq<i32>, kind: i32) -> int
    decreases s.len(),
{
    if s.len() == 0 {
        0
    } else {
        count_kind(s.drop_last(), kind) + if s.last() == kind { 1int } else { 0int }
    }
}

/// `s` is a sequence of kinds that the placement rule can produce from
/// `protons` protons and `neutrons` neutrons, one coin per step.
pub open spec fn follows_rules(protons: int, neutrons: int, s: Seq<i32>) -> bool
    decreases s.len(),
{
    if s.len() == 0 {
        true
    } else {
        let before = s.drop_last();
        &&& follows_rules(protons, neutrons, before)
        &&& kind_allowed(
            protons - count_kind(before, PROTON),
            neutrons - count_kind(before, NEUTRON),
            s.last() as int,
        )
    }
}

/// Draws the coin that decides between a proton and a neutron.
///
/// Calls `macroquad::rand::gen_range(0, 2)` (quad-rand's global generator).
/// quad-rand computes `low + (high - low) * r` in `f64`, with `r` a 32-bit
/// draw divided by 2^32, and truncates to `i32`; the result is therefore 0
/// or 1. Which of the two comes out depends on the generator's state and is
/// not stated.
#[verifier::external_body]
fn nucleon_coin() -> (coin: i32)
    ensures
        coin == 0 || coin == 1,
{
    macroquad::rand::gen_range(0, 2)
}

/// Decides the kind of the next nucleon from what remains and a coin.
pub fn next_nucleon_kind(protons_left: i32, neutrons_left: i32, coin: i32) -> (kind: i32)
    ensures
        kind == spec_next_kind(protons_left as int, neutrons_left as int, coin as int),
{
    if protons_left > 0 && neutrons_left > 0 {
        coin
    } else if protons_left > 0 {
        PROTON
    } else {
        NEUTRON
    }
}

proof fn lemma_count_push(s: Seq<i32>, k: i32)
    ensures
        count_kind(s.push(k), PROTON) == count_kind(s, PROTON) + if k == PROTON { 1int } else { 0int },
        count_kind(s.push(k), NEUTRON) == count_kind(s, NEUTRON) + if k == NEUTRON { 1int } else { 0int },
{
    assert(s.push(k).drop_last() =~= s);
}

/// Lays out the kinds of the nucleons of a nucleus with `protons` protons
/// and `neutrons` neutrons, drawing a coin whenever both kinds remain. One
/// kind is laid per nucleon of the mass number (none when it is not
/// positive).
pub fn gen_core_nucleon_kinds(protons: i32, neutrons: i32) -> (kinds: Vec<i32>)
    requires
        fits_i32(protons + neutrons),
    ensures
        kinds@.len() == if protons + neutrons > 0 { protons + neutrons } else { 0 },
        follows_rules(protons as int, neutrons as int, kinds@),
        protons >= 0 && neutrons >= 0 ==> count_kind(kinds@, PROTON) == protons
            && count_kind(kinds@, NEUTRON) == neutrons,
{
    let total: i32 = protons + neutrons;
    let mut protons_left: i32 = protons;
    let mut neutrons_left: i32 = neutrons;
    let mut kinds: Vec<i32> = Vec::new();
    let mut i: i32 = 0;
    while i < total
        invariant
            total == protons + neutrons,
            0 <= i,
            i <= total || i == 0,
            kinds@.len() == i,
            follows_rules(protons as int, neutrons as int, kinds@),
            protons_left == protons - count_kind(kinds@, PROTON),
            neutrons_left == neutrons - count_kind(kinds@, NEUTRON),
            count_kind(kinds@, PROTON) + count_kind(kinds@, NEUTRON) == i,
        decreases total - i,
    {
        let coin: i32 = if protons_left > 0 && neutrons_left > 0 {
            nucleon_coin()
        } else {
            0
        };
        let kind = next_nucleon_kind(protons_left, neutrons_left, coin);
        let ghost before = kinds@;
        proof {
            lemma_count_push(before, kind);
            assert(before.push(kind).drop_last() =~= before);
        }
        if kind == PROTON {
            protons_left = protons_left - 1;
        } else {
            neutrons_left = neutrons_left - 1;
        }
        kinds.push(kind);
        i = i + 1;
    }
    proof {
        if protons >= 0 && neutrons >= 0 {
            lemma_nucleon_counts(protons as int, neutrons as int, kinds@);
        }
    }
    kinds
}

proof fn lemma_counts_bounded(protons: int, neutrons: int, s: Seq<i32>)
    requires
        protons >= 0,
        neutrons >= 0,
        s.len() <= protons + neutrons,
        follows_rules(protons, neutrons, s),
    ensures
        count_kind(s, PROTON) <= protons,
        count_kind(s, NEUTRON) <= neutrons,
        count_kind(s, PROTON) + count_kind(s, NEUTRON) == s.len(),
    decreases s.len(),
{
    if s.len() > 0 {
        let before = s.drop_last();
        lemma_counts_bounded(protons, neutrons, before);
        lemma_count_push(before, s.last());
        assert(before.push(s.last()) =~= s);
    }
}

/// A nucleus holds exactly its protons and neutrons: any sequence of kinds
/// that the placement rule produces for non-negative counts, one per
/// nucleon, has `protons` protons and `neutrons` neutrons, whatever the
/// coins were.
pub proof fn lemma_nucleon_counts(protons: int, neutrons: int, kinds: Seq<i32>)
    requires
        protons >= 0,
        neutrons >= 0,
        kinds.len() == protons + neutrons,
        follows_rules(protons, neutrons, kinds),
    ensures
        count_kind(kinds, PROTON) == protons,
        count_kind(kinds, NEUTRON) == neutrons,
{
    lemma_counts_bounded(protons, neutrons, kinds);
}


/// The placement rule never places a particle that is not left: a proton
/// only while protons remain, a neutron while protons remain only if
/// neutrons remain too; the coin is only consulted, and always obeyed, when
/// both remain.
pub proof fn lemma_placement_rule(protons_left: int, neutrons_left: int, kind: int)
    requires
        kind_allowed(protons_left, neutrons_left, kind),
    ensures
        kind == PROTON || kind == NEUTRON,
        kind == PROTON ==> protons_left > 0,
        kind == NEUTRON && protons_left > 0 ==> neutrons_left > 0,
        protons_left <= 0 ==> kind == NEUTRON,
        protons_left > 0 && neutrons_left <= 0 ==> kind == PROTON,
        protons_left > 0 && neutrons_left > 0 ==> forall|coin: int|
            (coin == 0 || coin == 1) ==> #[trigger] spec_next_kind(protons_left, neutrons_left, coin) == coin,
{
}

} // verus!
