//! Element data shown for an atom: chemical symbol, family, colours and the
//! charge label of the element card.

use vstd::prelude::*;
use vstd::string::*;
use crate::decimal::{decimal_repr, decimal_string, decimal_value, digits_value, is_digit, lemma_decimal_round_trip};

verus! {

/// An RGBA colour with 8-bit channels.
#[derive(Clone, Copy, Debug, PartialEq, Eq, Structural)]
pub struct Rgba {
    pub r: u8,
    pub g: u8,
    pub b: u8,
    pub a: u8,
}

pub open spec fn rgba(r: u8, g: u8, b: u8, a: u8) -> Rgba {
    Rgba { r, g, b, a }
}

/// The symbols of the first eighteen elements, indexed by atomic number minus one.
pub open spec fn symbol_table() -> Seq<Seq<char>> {
    seq![
        "H"@, "He"@, "Li"@, "Be"@, "B"@, "C"@, "N"@, "O"@, "F"@,
        "Ne"@, "Na"@, "Mg"@, "Al"@, "Si"@, "P"@, "S"@, "Cl"@, "Ar"@,
    ]
}

/// The symbol of the element with `protons` protons; `??` outside 1..=18.
pub open spec fn spec_element_symbol(protons: int) -> Seq<char> {
    if 1 <= protons <= 18 {
        symbol_table()[protons - 1]
    } else {
        "??"@
    }
}

/// Returns the chemical symbol for an atomic number.
pub fn get_element_symbol(protons: i32) -> (s: &'static str)
    ensures
        s@ == spec_element_symbol(protons as int),
        symbol_key(s@) == periodic_symbol_key(protons as int),
{
    proof {
        lemma_symbol_key(protons as int);
    }
    match protons {
        1 => "H",
        2 => "He",
        3 => "Li",
        4 => "Be",
        5 => "B",
        6 => "C",
        7 => "N",
        8 => "O",
        9 => "F",
        10 => "Ne",
        11 => "Na",
        12 => "Mg",
        13 => "Al",
        14 => "Si",
        15 => "P",
        16 => "S",
        17 => "Cl",
        18 => "Ar",
        _ => "??",
    }
}

/// The family an element is shown under on the element card.
#[derive(Clone, Copy, Debug, PartialEq, Eq, Structural)]
pub enum ElementFamily {
    Hydrogen,
    NobleGas,
    AlkaliMetal,
    AlkalineEarthMetal,
    Metalloid,
    NonMetal,
    Other,
}

pub open spec fn spec_element_family(protons: int) -> ElementFamily {
    if protons == 1 {
        ElementFamily::Hydrogen
    } else if protons == 2 || protons == 10 || protons == 18 {
        ElementFamily::NobleGas
    } else if protons == 3 || protons == 11 {
        ElementFamily::AlkaliMetal
    } else if protons == 4 || protons == 12 {
        ElementFamily::AlkalineEarthMetal
    } else if protons == 5 || protons == 14 {
        ElementFamily::Metalloid
    } else if 6 <= protons <= 8 {
        ElementFamily::NonMetal
    } else {
        ElementFamily::Other
    }
}

/// Classifies an atomic number into the family shown on its card.
pub fn element_family(protons: i32) -> (f: ElementFamily)
    ensures
        f == spec_element_family(protons as int),
        (f == ElementFamily::NobleGas) <==> (protons == 2 || protons == 10 || protons == 18),
        (f == ElementFamily::Hydrogen) <==> protons == 1,
        (f == ElementFamily::AlkaliMetal) <==> (protons == 3 || protons == 11),
        (f == ElementFamily::AlkalineEarthMetal) <==> (protons == 4 || protons == 12),
        (f == ElementFamily::Metalloid) <==> (protons == 5 || protons == 14),
        (f == ElementFamily::NonMetal) <==> (6 <= protons <= 8),
{
    proof {
        lemma_family_members(protons as int);
    }
    match protons {
        1 => ElementFamily::Hydrogen,
        2 | 10 | 18 => ElementFamily::NobleGas,
        3 | 11 => ElementFamily::AlkaliMetal,
        4 | 12 => ElementFamily::AlkalineEarthMetal,
        5 | 14 => ElementFamily::Metalloid,
        6 | 7 | 8 => ElementFamily::NonMetal,
        _ => ElementFamily::Other,
    }
}

pub open spec fn spec_family_label(f: ElementFamily) -> Seq<char> {
    match f {
        ElementFamily::Hydrogen => "Non-m\u{e9}tal"@,
        ElementFamily::NobleGas => "Gaz noble"@,
        ElementFamily::AlkaliMetal => "M\u{e9}tal alcalin"@,
        ElementFamily::AlkalineEarthMetal => "M\u{e9}tal alc-terreux"@,
        ElementFamily::Metalloid => "M\u{e9}tallo\u{ef}de"@,
        ElementFamily::NonMetal => "Non-m\u{e9}tal"@,
        ElementFamily::Other => "\u{c9}l\u{e9}ment"@,
    }
}

/// The caption of a family on the element card.
pub fn family_label(f: ElementFamily) -> (s: &'static str)
    ensures
        s@ == spec_family_label(f),
{
    match f {
        ElementFamily::Hydrogen => "Non-m\u{e9}tal",
        ElementFamily::NobleGas => "Gaz noble",
        ElementFamily::AlkaliMetal => "M\u{e9}tal alcalin",
        ElementFamily::AlkalineEarthMetal => "M\u{e9}tal alc-terreux",
        ElementFamily::Metalloid => "M\u{e9}tallo\u{ef}de",
        ElementFamily::NonMetal => "Non-m\u{e9}tal",
        ElementFamily::Other => "\u{c9}l\u{e9}ment",
    }
}

pub open spec fn spec_family_color(f: ElementFamily) -> Rgba {
    match f {
        ElementFamily::Hydrogen => rgba(255, 255, 255, 255),
        ElementFamily::NobleGas => rgba(241, 196, 15, 255),
        ElementFamily::AlkaliMetal => rgba(230, 126, 34, 255),
        ElementFamily::AlkalineEarthMetal => rgba(155, 89, 182, 255),
        ElementFamily::Metalloid => rgba(52, 152, 219, 255),
        ElementFamily::NonMetal => rgba(46, 204, 113, 255),
        ElementFamily::Other => rgba(149, 165, 166, 255),
    }
}

/// The colour the chemical symbol is drawn in.
pub fn family_color(f: ElementFamily) -> (c: Rgba)
    ensures
        c == spec_family_color(f),
{
    match f {
        ElementFamily::Hydrogen => Rgba { r: 255, g: 255, b: 255, a: 255 },
        ElementFamily::NobleGas => Rgba { r: 241, g: 196, b: 15, a: 255 },
        ElementFamily::AlkaliMetal => Rgba { r: 230, g: 126, b: 34, a: 255 },
        ElementFamily::AlkalineEarthMetal => Rgba { r: 155, g: 89, b: 182, a: 255 },
        ElementFamily::Metalloid => Rgba { r: 52, g: 152, b: 219, a: 255 },
        ElementFamily::NonMetal => Rgba { r: 46, g: 204, b: 113, a: 255 },
        ElementFamily::Other => Rgba { r: 149, g: 165, b: 166, a: 255 },
    }
}

/// How the card writes a net charge: `+n` when positive, `-n` when
/// negative, `Neutre` when zero.
pub open spec fn spec_charge_label(charge: int) -> Seq<char> {
    if charge > 0 {
        "+"@ + decimal_repr(charge)
    } else if charge < 0 {
        decimal_repr(charge)
    } else {
        "Neutre"@
    }
}

/// Writes a net charge for the element card.
pub fn charge_label(charge: i32) -> (s: String)
    ensures
        s@ == spec_charge_label(charge as int),
        (s@ == "Neutre"@) <==> charge == 0,
        charge != 0 ==> signed_value(s@) == charge,
{
    proof {
        lemma_charge_label_reads_back(charge as int);
    }
    if charge > 0 {
        let mut s = String::from_str("+");
        let digits = decimal_string(charge);
        s.append(digits.as_str());
        s
    } else if charge < 0 {
        decimal_string(charge)
    } else {
        String::from_str("Neutre")
    }
}

pub open spec fn spec_charge_color(charge: int) -> Rgba {
    if charge == 0 {
        rgba(255, 255, 255, 255)
    } else if charge > 0 {
        rgba(235, 59, 90, 255)
    } else {
        rgba(56, 173, 169, 255)
    }
}

/// The colour of the charge line: white when neutral, the proton colour when
/// positive, the neutron colour when negative.
pub fn charge_color(charge: i32) -> (c: Rgba)
    ensures
        c == spec_charge_color(charge as int),
        (c == rgba(255, 255, 255, 255)) <==> charge == 0,
        charge > 0 ==> c == rgba(235, 59, 90, 255),
        charge < 0 ==> c == rgba(56, 173, 169, 255),
{
    if charge == 0 {
        Rgba { r: 255, g: 255, b: 255, a: 255 }
    } else if charge > 0 {
        Rgba { r: 235, g: 59, b: 90, a: 255 }
    } else {
        Rgba { r: 56, g: 173, b: 169, a: 255 }
    }
}


/// A short fingerprint of a symbol: its length and its first two characters
/// (a blank where there is none).
pub open spec fn symbol_key(s: Seq<char>) -> (nat, char, char) {
    (s.len(), if s.len() > 0 { s[0] } else { ' ' }, if s.len() > 1 { s[1] } else { ' ' })
}

/// The fingerprints of the periodic table's symbols H .. Ar, and of `??`.
pub open spec fn periodic_symbol_key(z: int) -> (nat, char, char) {
    if z == 1 { (1, 'H', ' ') }
    else if z == 2 { (2, 'H', 'e') }
    else if z == 3 { (2, 'L', 'i') }
    else if z == 4 { (2, 'B', 'e') }
    else if z == 5 { (1, 'B', ' ') }
    else if z == 6 { (1, 'C', ' ') }
    else if z == 7 { (1, 'N', ' ') }
    else if z == 8 { (1, 'O', ' ') }
    else if z == 9 { (1, 'F', ' ') }
    else if z == 10 { (2, 'N', 'e') }
    else if z == 11 { (2, 'N', 'a') }
    else if z == 12 { (2, 'M', 'g') }
    else if z == 13 { (2, 'A', 'l') }
    else if z == 14 { (2, 'S', 'i') }
    else if z == 15 { (1, 'P', ' ') }
    else if z == 16 { (1, 'S', ' ') }
    else if z == 17 { (2, 'C', 'l') }
    else if z == 18 { (2, 'A', 'r') }
    else { (2, '?', '?') }
}

proof fn lemma_symbol_key(z: int)
    ensures
        symbol_key(spec_element_symbol(z)) == periodic_symbol_key(z),
{
    reveal_strlit("H");
    reveal_strlit("He");
    reveal_strlit("Li");
    reveal_strlit("Be");
    reveal_strlit("B");
    reveal_strlit("C");
    reveal_strlit("N");
    reveal_strlit("O");
    reveal_strlit("F");
    reveal_strlit("Ne");
    reveal_strlit("Na");
    reveal_strlit("Mg");
    reveal_strlit("Al");
    reveal_strlit("Si");
    reveal_strlit("P");
    reveal_strlit("S");
    reveal_strlit("Cl");
    reveal_strlit("Ar");
    reveal_strlit("??");
}

/// The symbols of the first eighteen elements are the periodic table's:
/// H, He, Li, Be, B, C, N, O, F, Ne, Na, Mg, Al, Si, P, S, Cl, Ar; any other
/// atomic number reads `??`.
pub proof fn lemma_periodic_symbols(z: int)
    ensures
        z == 1 ==> spec_element_symbol(z) == "H"@,
        z == 2 ==> spec_element_symbol(z) == "He"@,
        z == 3 ==> spec_element_symbol(z) == "Li"@,
        z == 4 ==> spec_element_symbol(z) == "Be"@,
        z == 5 ==> spec_element_symbol(z) == "B"@,
        z == 6 ==> spec_element_symbol(z) == "C"@,
        z == 7 ==> spec_element_symbol(z) == "N"@,
        z == 8 ==> spec_element_symbol(z) == "O"@,
        z == 9 ==> spec_element_symbol(z) == "F"@,
        z == 10 ==> spec_element_symbol(z) == "Ne"@,
        z == 11 ==> spec_element_symbol(z) == "Na"@,
        z == 12 ==> spec_element_symbol(z) == "Mg"@,
        z == 13 ==> spec_element_symbol(z) == "Al"@,
        z == 14 ==> spec_element_symbol(z) == "Si"@,
        z == 15 ==> spec_element_symbol(z) == "P"@,
        z == 16 ==> spec_element_symbol(z) == "S"@,
        z == 17 ==> spec_element_symbol(z) == "Cl"@,
        z == 18 ==> spec_element_symbol(z) == "Ar"@,
        !(1 <= z <= 18) ==> spec_element_symbol(z) == "??"@,
{
}

/// Each known element has its own symbol: two atomic numbers get the same
/// symbol only when they are equal or both unknown (outside 1..=18), and
/// no known element reads `??`.
pub proof fn lemma_element_symbols_distinct(a: int, b: int)
    ensures
        (spec_element_symbol(a) == spec_element_symbol(b)) <==> (a == b || (!(1 <= a <= 18)
            && !(1 <= b <= 18))),
        1 <= a <= 18 ==> spec_element_symbol(a) != "??"@,
{
    lemma_symbol_key(a);
    lemma_symbol_key(b);
    reveal_strlit("??");
    assert(symbol_key("??"@) == (2nat, '?', '?'));
}

/// The families group the elements as the periodic table does: hydrogen is
/// alone, the noble gases are helium, neon and argon (2, 10, 18), the alkali
/// metals lithium and sodium (3, 11), the alkaline-earth metals beryllium and
/// magnesium (4, 12), the metalloids boron and silicon (5, 14), the other
/// non-metals carbon, nitrogen and oxygen (6, 7, 8); every other number is
/// an unclassified element.
pub proof fn lemma_family_members(z: int)
    ensures
        (spec_element_family(z) == ElementFamily::Hydrogen) <==> z == 1,
        (spec_element_family(z) == ElementFamily::NobleGas) <==> (z == 2 || z == 10 || z == 18),
        (spec_element_family(z) == ElementFamily::AlkaliMetal) <==> (z == 3 || z == 11),
        (spec_element_family(z) == ElementFamily::AlkalineEarthMetal) <==> (z == 4 || z == 12),
        (spec_element_family(z) == ElementFamily::Metalloid) <==> (z == 5 || z == 14),
        (spec_element_family(z) == ElementFamily::NonMetal) <==> (z == 6 || z == 7 || z == 8),
        (spec_element_family(z) == ElementFamily::Other) <==> !(z == 1 || z == 2 || z == 3
            || z == 4 || z == 5 || z == 6 || z == 7 || z == 8 || z == 10 || z == 11 || z == 12
            || z == 14 || z == 18),
{
}

/// Family and symbol agree: an element is a noble gas exactly when its
/// symbol is He, Ne or Ar, an alkali metal exactly when it is Li or Na, an
/// alkaline-earth metal exactly when it is Be or Mg, a metalloid exactly when
/// it is B or Si, a (non-hydrogen) non-metal exactly when it is C, N or O,
/// and hydrogen exactly when it is H. The alkali metals follow the noble
/// gases and the alkaline-earth metals follow them by two.
pub proof fn lemma_family_agrees_with_symbol(z: int)
    ensures
        (spec_element_family(z) == ElementFamily::NobleGas) <==> (spec_element_symbol(z) == "He"@
            || spec_element_symbol(z) == "Ne"@ || spec_element_symbol(z) == "Ar"@),
        (spec_element_family(z) == ElementFamily::AlkaliMetal) <==> (spec_element_symbol(z)
            == "Li"@ || spec_element_symbol(z) == "Na"@),
        (spec_element_family(z) == ElementFamily::AlkalineEarthMetal) <==> (
        spec_element_symbol(z) == "Be"@ || spec_element_symbol(z) == "Mg"@),
        (spec_element_family(z) == ElementFamily::Metalloid) <==> (spec_element_symbol(z) == "B"@
            || spec_element_symbol(z) == "Si"@),
        (spec_element_family(z) == ElementFamily::NonMetal) <==> (spec_element_symbol(z) == "C"@
            || spec_element_symbol(z) == "N"@ || spec_element_symbol(z) == "O"@),
        (spec_element_family(z) == ElementFamily::Hydrogen) <==> spec_element_symbol(z) == "H"@,
        3 <= z <= 18 ==> ((spec_element_family(z) == ElementFamily::AlkaliMetal) <==> (
        spec_element_family(z - 1) == ElementFamily::NobleGas)),
        4 <= z <= 18 ==> ((spec_element_family(z) == ElementFamily::AlkalineEarthMetal) <==> (
        spec_element_family(z - 2) == ElementFamily::NobleGas)),
{
    lemma_periodic_symbols(1);
    lemma_periodic_symbols(2);
    lemma_periodic_symbols(3);
    lemma_periodic_symbols(4);
    lemma_periodic_symbols(5);
    lemma_periodic_symbols(6);
    lemma_periodic_symbols(7);
    lemma_periodic_symbols(8);
    lemma_periodic_symbols(10);
    lemma_periodic_symbols(11);
    lemma_periodic_symbols(12);
    lemma_periodic_symbols(14);
    lemma_periodic_symbols(18);
    lemma_element_symbols_distinct(z, 1);
    lemma_element_symbols_distinct(z, 2);
    lemma_element_symbols_distinct(z, 3);
    lemma_element_symbols_distinct(z, 4);
    lemma_element_symbols_distinct(z, 5);
    lemma_element_symbols_distinct(z, 6);
    lemma_element_symbols_distinct(z, 7);
    lemma_element_symbols_distinct(z, 8);
    lemma_element_symbols_distinct(z, 10);
    lemma_element_symbols_distinct(z, 11);
    lemma_element_symbols_distinct(z, 12);
    lemma_element_symbols_distinct(z, 14);
    lemma_element_symbols_distinct(z, 18);
    lemma_family_members(z);
    lemma_family_members(z - 1);
    lemma_family_members(z - 2);
}

/// Reads a charge label: `+n` and `-n` as signed numbers, anything else as
/// its plain digits.
pub open spec fn signed_value(s: Seq<char>) -> int {
    if s.len() > 0 && s[0] == '+' {
        digits_value(s.drop_first())
    } else {
        decimal_value(s)
    }
}

/// The charge label says `Neutre` exactly for a zero charge; otherwise it
/// carries the sign of the charge (`+` or `-`) and reads back as the charge.
pub proof fn lemma_charge_label_reads_back(charge: int)
    ensures
        (spec_charge_label(charge) == "Neutre"@) <==> charge == 0,
        charge > 0 ==> spec_charge_label(charge)[0] == '+',
        charge < 0 ==> spec_charge_label(charge)[0] == '-',
        charge != 0 ==> signed_value(spec_charge_label(charge)) == charge,
{
    reveal_strlit("Neutre");
    reveal_strlit("+");
    lemma_decimal_round_trip(charge);
    let s = spec_charge_label(charge);
    if charge > 0 {
        assert(s[0] == '+');
        assert(s.drop_first() =~= decimal_repr(charge));
        assert(is_digit(decimal_repr(charge)[0]));
        assert("Neutre"@[0] == 'N');
    } else if charge < 0 {
        assert(s[0] == '-');
        assert("Neutre"@[0] == 'N');
    }
}


/// The card captions name the families: `Gaz noble` exactly for helium,
/// neon and argon, `Métal alcalin` exactly for lithium and sodium,
/// `Métal alc-terreux` exactly for beryllium and magnesium, `Métalloïde`
/// exactly for boron and silicon, `Non-métal` exactly for hydrogen, carbon,
/// nitrogen and oxygen, and `Élément` for every other atomic number.
pub proof fn lemma_family_captions(z: int)
    ensures
        (spec_family_label(spec_element_family(z)) == "Gaz noble"@) <==> (z == 2 || z == 10 || z == 18),
        (spec_family_label(spec_element_family(z)) == "M\u{e9}tal alcalin"@) <==> (z == 3 || z == 11),
        (spec_family_label(spec_element_family(z)) == "M\u{e9}tal alc-terreux"@) <==> (z == 4 || z == 12),
        (spec_family_label(spec_element_family(z)) == "M\u{e9}tallo\u{ef}de"@) <==> (z == 5 || z == 14),
        (spec_family_label(spec_element_family(z)) == "Non-m\u{e9}tal"@) <==> (z == 1 || z == 6 || z == 7 || z == 8),
        (spec_family_label(spec_element_family(z)) == "\u{c9}l\u{e9}ment"@) <==> spec_element_family(z) == ElementFamily::Other,
{
    reveal_strlit("Gaz noble");
    reveal_strlit("M\u{e9}tal alcalin");
    reveal_strlit("M\u{e9}tal alc-terreux");
    reveal_strlit("M\u{e9}tallo\u{ef}de");
    reveal_strlit("Non-m\u{e9}tal");
    reveal_strlit("\u{c9}l\u{e9}ment");
    lemma_family_members(z);
    let labels = seq![
        "Gaz noble"@, "M\u{e9}tal alcalin"@, "M\u{e9}tal alc-terreux"@, "M\u{e9}tallo\u{ef}de"@,
        "Non-m\u{e9}tal"@, "\u{c9}l\u{e9}ment"@,
    ];
    assert forall|i: int, j: int| 0 <= i < j < 6 implies labels[i] != labels[j] by {
        assert(labels[i].len() != labels[j].len() || labels[i][0] != labels[j][0]
            || labels[i][4] != labels[j][4]);
    }
    assert(labels[0] != labels[1]);
    assert(labels[0] != labels[2]);
    assert(labels[0] != labels[3]);
    assert(labels[0] != labels[4]);
    assert(labels[0] != labels[5]);
    assert(labels[1] != labels[2]);
    assert(labels[1] != labels[3]);
    assert(labels[1] != labels[4]);
    assert(labels[1] != labels[5]);
    assert(labels[2] != labels[3]);
    assert(labels[2] != labels[4]);
    assert(labels[2] != labels[5]);
    assert(labels[3] != labels[4]);
    assert(labels[3] != labels[5]);
    assert(labels[4] != labels[5]);
}

/// The symbol of hydrogen is drawn white, and the non-metals carbon,
/// nitrogen and oxygen in the electron green; the seven families have seven
/// different colours, so the colour tells the family.
pub proof fn lemma_family_colors_distinct(f: ElementFamily, g: ElementFamily)
    ensures
        (spec_family_color(f) == spec_family_color(g)) <==> f == g,
        spec_family_color(ElementFamily::Hydrogen) == rgba(255, 255, 255, 255),
        spec_family_color(ElementFamily::NonMetal) == rgba(46, 204, 113, 255),
{
}

} // verus!
