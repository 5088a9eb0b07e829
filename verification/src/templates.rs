//! Atom templates: the composition an atom is spawned from, the built-in
//! defaults, and what the control panel and element card show of it.

use vstd::prelude::*;
use vstd::string::*;
use crate::decimal::{decimal_repr, decimal_string, decimal_value, lemma_decimal_round_trip};
use crate::element::{Rgba, rgba, get_element_symbol, spec_element_symbol, charge_label, spec_charge_label, charge_color, spec_charge_color, signed_value, lemma_charge_label_reads_back};

verus! {

/// The composition of an atom: its name and its particle counts.
#[derive(Clone, Debug)]
pub struct Atome {
    pub nom_atome: String,
    pub nb_neutrons: i32,
    pub nb_protons: i32,
    pub nb_electrons: i32,
}

/// The composition as plain values: name, neutrons, protons, electrons.
pub open spec fn atome_model(a: Atome) -> (Seq<char>, int, int, int) {
    (a.nom_atome@, a.nb_neutrons as int, a.nb_protons as int, a.nb_electrons as int)
}

pub open spec fn fits_i32(x: int) -> bool {
    i32::MIN <= x <= i32::MAX
}

impl Atome {
    /// Mass number: protons plus neutrons.
    pub fn mass_number(&self) -> (m: i32)
        requires
            fits_i32(self.nb_protons + self.nb_neutrons),
        ensures
            m == self.nb_protons + self.nb_neutrons,
    {
        self.nb_protons + self.nb_neutrons
    }

    /// Net charge: protons minus electrons.
    pub fn charge(&self) -> (c: i32)
        requires
            fits_i32(self.nb_protons - self.nb_electrons),
        ensures
            c == self.nb_protons - self.nb_electrons,
    {
        self.nb_protons - self.nb_electrons
    }

    /// The nucleon count that sizes and weighs a spawned atom: the mass
    /// number, but at least one.
    pub fn scale_nucleons(&self) -> (n: i32)
        requires
            fits_i32(self.nb_protons + self.nb_neutrons),
        ensures
            n == if self.nb_protons + self.nb_neutrons >= 1 {
                self.nb_protons + self.nb_neutrons
            } else {
                1
            },
            n >= 1,
    {
        let total = self.nb_protons + self.nb_neutrons;
        if total >= 1 {
            total
        } else {
            1
        }
    }
}

pub open spec fn hydrogen_name() -> Seq<char> {
    "Hydrog\u{e8}ne"@
}

pub open spec fn helium_name() -> Seq<char> {
    "H\u{e9}lium"@
}

pub open spec fn carbon_name() -> Seq<char> {
    "Carbone"@
}

/// The built-in templates, as (name, neutrons, protons, electrons).
pub open spec fn default_template_models() -> Seq<(Seq<char>, int, int, int)> {
    seq![
        (hydrogen_name(), 0int, 1int, 1int),
        (helium_name(), 2int, 2int, 2int),
        (carbon_name(), 6int, 6int, 6int),
    ]
}

/// The built-in templates used when no template file can be read:
/// hydrogen, helium and carbon.
pub fn default_templates() -> (v: Vec<Atome>)
    ensures
        v@.len() == 3,
        forall|i: int| 0 <= i < 3 ==> atome_model(#[trigger] v@[i]) == default_template_models()[i],
{
    let mut v: Vec<Atome> = Vec::new();
    v.push(Atome {
        nom_atome: String::from_str("Hydrog\u{e8}ne"),
        nb_neutrons: 0,
        nb_protons: 1,
        nb_electrons: 1,
    });
    v.push(Atome {
        nom_atome: String::from_str("H\u{e9}lium"),
        nb_neutrons: 2,
        nb_protons: 2,
        nb_electrons: 2,
    });
    v.push(Atome {
        nom_atome: String::from_str("Carbone"),
        nb_neutrons: 6,
        nb_protons: 6,
        nb_electrons: 6,
    });
    v
}

/// Chooses the templates from what the template text parsed as: a list of
/// templates if it was one, else the single template it held, else the
/// built-in defaults.
pub fn choose_templates(as_list: Option<Vec<Atome>>, as_single: Option<Atome>) -> (v: Vec<Atome>)
    ensures
        as_list is Some ==> v@ == as_list->0@,
        as_list is None && as_single is Some ==> v@ == seq![as_single->0],
        as_list is None && as_single is None ==> {
            &&& v@.len() == 3
            &&& forall|i: int| 0 <= i < 3 ==> atome_model(#[trigger] v@[i]) == default_template_models()[i]
        },
{
    match as_list {
        Some(list) => list,
        None => match as_single {
            Some(single) => {
                let mut v: Vec<Atome> = Vec::new();
                v.push(single);
                v
            },
            None => default_templates(),
        },
    }
}

/// The caption of a template's spawn button: `[symbol] name`.
pub open spec fn spec_template_label(t: Atome) -> Seq<char> {
    "["@ + spec_element_symbol(t.nb_protons as int) + "] "@ + t.nom_atome@
}

/// Writes the caption of a template's spawn button.
pub fn template_label(t: &Atome) -> (s: String)
    ensures
        s@ == spec_template_label(*t),
{
    let mut s = String::from_str("[");
    s.append(get_element_symbol(t.nb_protons));
    s.append("] ");
    s.append(t.nom_atome.as_str());
    s
}

/// One line of the element card, with its colour.
#[derive(Clone, Debug)]
pub struct InfoLine {
    pub text: String,
    pub color: Rgba,
}

/// The five lines of the element card: protons, neutrons, electrons, mass
/// number and charge, each as (text, colour).
pub open spec fn spec_info_lines(a: Atome) -> Seq<(Seq<char>, Rgba)> {
    let charge = a.nb_protons - a.nb_electrons;
    seq![
        ("Protons (Z):  "@ + decimal_repr(a.nb_protons as int), rgba(235, 59, 90, 255)),
        ("Neutrons (N): "@ + decimal_repr(a.nb_neutrons as int), rgba(56, 173, 169, 255)),
        ("\u{c9}lectrons:    "@ + decimal_repr(a.nb_electrons as int), rgba(46, 204, 113, 255)),
        ("Nombre Masse: "@ + decimal_repr(a.nb_protons + a.nb_neutrons), rgba(255, 255, 255, 255)),
        ("Charge:       "@ + spec_charge_label(charge), spec_charge_color(charge)),
    ]
}

fn labelled(label: &str, value: i32) -> (s: String)
    ensures
        s@ == label@ + decimal_repr(value as int),
{
    let mut s = String::from_str(label);
    let digits = decimal_string(value);
    s.append(digits.as_str());
    s
}

/// Builds the detail lines of the element card for an atom.
pub fn info_lines(a: &Atome) -> (lines: Vec<InfoLine>)
    requires
        fits_i32(a.nb_protons + a.nb_neutrons),
        fits_i32(a.nb_protons - a.nb_electrons),
    ensures
        lines@.len() == 5,
        forall|i: int| 0 <= i < 5 ==> (#[trigger] lines@[i]).text@ == spec_info_lines(*a)[i].0
            && lines@[i].color == spec_info_lines(*a)[i].1,
        forall|i: int| 0 <= i < 5 ==> (#[trigger] lines@[i]).text@.take(14) == card_caption(i),
        decimal_value(lines@[0].text@.skip(14)) == a.nb_protons,
        decimal_value(lines@[1].text@.skip(14)) == a.nb_neutrons,
        decimal_value(lines@[2].text@.skip(14)) == a.nb_electrons,
        decimal_value(lines@[3].text@.skip(14)) == a.nb_protons + a.nb_neutrons,
        (lines@[4].text@.skip(14) == "Neutre"@) <==> a.nb_protons == a.nb_electrons,
        a.nb_protons != a.nb_electrons ==> signed_value(lines@[4].text@.skip(14))
            == a.nb_protons - a.nb_electrons,
{
    proof {
        lemma_info_lines_show_counts(*a);
    }
    let mass = a.mass_number();
    let charge = a.charge();
    let mut lines: Vec<InfoLine> = Vec::new();
    lines.push(InfoLine {
        text: labelled("Protons (Z):  ", a.nb_protons),
        color: Rgba { r: 235, g: 59, b: 90, a: 255 },
    });
    lines.push(InfoLine {
        text: labelled("Neutrons (N): ", a.nb_neutrons),
        color: Rgba { r: 56, g: 173, b: 169, a: 255 },
    });
    lines.push(InfoLine {
        text: labelled("\u{c9}lectrons:    ", a.nb_electrons),
        color: Rgba { r: 46, g: 204, b: 113, a: 255 },
    });
    lines.push(InfoLine {
        text: labelled("Nombre Masse: ", mass),
        color: Rgba { r: 255, g: 255, b: 255, a: 255 },
    });
    let mut charge_text = String::from_str("Charge:       ");
    let label = charge_label(charge);
    charge_text.append(label.as_str());
    lines.push(InfoLine { text: charge_text, color: charge_color(charge) });
    lines
}


/// The caption of line `i` of the element card; every caption is fourteen
/// characters wide.
pub open spec fn card_caption(i: int) -> Seq<char> {
    if i == 0 {
        "Protons (Z):  "@
    } else if i == 1 {
        "Neutrons (N): "@
    } else if i == 2 {
        "\u{c9}lectrons:    "@
    } else if i == 3 {
        "Nombre Masse: "@
    } else {
        "Charge:       "@
    }
}

/// The element card shows, under its five captions, the atom's protons,
/// neutrons, electrons, its mass number (protons plus neutrons) and its
/// charge (protons minus electrons, `Neutre` exactly when it is zero): the
/// text after each caption reads back as that number. The count lines use
/// the proton, neutron and electron colours, the mass line is white, and the
/// charge line is white exactly when the atom is neutral.
pub proof fn lemma_info_lines_show_counts(a: Atome)
    ensures
        spec_info_lines(a).len() == 5,
        forall|i: int| 0 <= i < 5 ==> (#[trigger] spec_info_lines(a)[i]).0.take(14) == card_caption(i),
        decimal_value(spec_info_lines(a)[0].0.skip(14)) == a.nb_protons,
        decimal_value(spec_info_lines(a)[1].0.skip(14)) == a.nb_neutrons,
        decimal_value(spec_info_lines(a)[2].0.skip(14)) == a.nb_electrons,
        decimal_value(spec_info_lines(a)[3].0.skip(14)) == a.nb_protons + a.nb_neutrons,
        (spec_info_lines(a)[4].0.skip(14) == "Neutre"@) <==> a.nb_protons == a.nb_electrons,
        a.nb_protons != a.nb_electrons ==> signed_value(spec_info_lines(a)[4].0.skip(14))
            == a.nb_protons - a.nb_electrons,
        spec_info_lines(a)[0].1 == rgba(235, 59, 90, 255),
        spec_info_lines(a)[1].1 == rgba(56, 173, 169, 255),
        spec_info_lines(a)[2].1 == rgba(46, 204, 113, 255),
        spec_info_lines(a)[3].1 == rgba(255, 255, 255, 255),
        (spec_info_lines(a)[4].1 == rgba(255, 255, 255, 255)) <==> a.nb_protons == a.nb_electrons,
{
    reveal_strlit("Protons (Z):  ");
    reveal_strlit("Neutrons (N): ");
    reveal_strlit("\u{c9}lectrons:    ");
    reveal_strlit("Nombre Masse: ");
    reveal_strlit("Charge:       ");
    let l = spec_info_lines(a);
    let charge = a.nb_protons - a.nb_electrons;
    lemma_decimal_round_trip(a.nb_protons as int);
    lemma_decimal_round_trip(a.nb_neutrons as int);
    lemma_decimal_round_trip(a.nb_electrons as int);
    lemma_decimal_round_trip(a.nb_protons + a.nb_neutrons);
    lemma_charge_label_reads_back(charge);
    assert(l[0].0.skip(14) =~= decimal_repr(a.nb_protons as int));
    assert(l[1].0.skip(14) =~= decimal_repr(a.nb_neutrons as int));
    assert(l[2].0.skip(14) =~= decimal_repr(a.nb_electrons as int));
    assert(l[3].0.skip(14) =~= decimal_repr(a.nb_protons + a.nb_neutrons));
    assert(l[4].0.skip(14) =~= spec_charge_label(charge));
    assert forall|i: int| 0 <= i < 5 implies (#[trigger] l[i]).0.take(14) == card_caption(i) by {
        assert(l[i].0.take(14) =~= card_caption(i));
    }
}

/// The neutron line of two atoms' cards is the same exactly when they have
/// the same number of neutrons; likewise for protons and electrons.
pub proof fn lemma_info_lines_tell_atoms_apart(a: Atome, b: Atome)
    ensures
        (spec_info_lines(a)[0].0 == spec_info_lines(b)[0].0) <==> a.nb_protons == b.nb_protons,
        (spec_info_lines(a)[1].0 == spec_info_lines(b)[1].0) <==> a.nb_neutrons == b.nb_neutrons,
        (spec_info_lines(a)[2].0 == spec_info_lines(b)[2].0) <==> a.nb_electrons == b.nb_electrons,
{
    lemma_info_lines_show_counts(a);
    lemma_info_lines_show_counts(b);
    if spec_info_lines(a)[1].0 == spec_info_lines(b)[1].0 {
        assert(spec_info_lines(a)[1].0.skip(14) == spec_info_lines(b)[1].0.skip(14));
    }
    if spec_info_lines(a)[0].0 == spec_info_lines(b)[0].0 {
        assert(spec_info_lines(a)[0].0.skip(14) == spec_info_lines(b)[0].0.skip(14));
    }
    if spec_info_lines(a)[2].0 == spec_info_lines(b)[2].0 {
        assert(spec_info_lines(a)[2].0.skip(14) == spec_info_lines(b)[2].0.skip(14));
    }
}


/// A spawn button reads `[`, the symbol of the template's element, `] `,
/// then the template's name: the bracketed part identifies the element and
/// the caption ends with the name.
pub proof fn lemma_template_label_parts(t: Atome)
    ensures
        spec_template_label(t)[0] == '[',
        spec_template_label(t).subrange(1, 1 + spec_element_symbol(t.nb_protons as int).len() as int)
            == spec_element_symbol(t.nb_protons as int),
        spec_template_label(t).skip(spec_template_label(t).len() - t.nom_atome@.len())
            == t.nom_atome@,
        spec_template_label(t).len() == 3 + spec_element_symbol(t.nb_protons as int).len()
            + t.nom_atome@.len(),
{
    reveal_strlit("[");
    reveal_strlit("] ");
    let sym = spec_element_symbol(t.nb_protons as int);
    let l = spec_template_label(t);
    assert(l.subrange(1, 1 + sym.len() as int) =~= sym);
    assert(l.skip(l.len() - t.nom_atome@.len()) =~= t.nom_atome@);
}

/// The built-in templates are neutral hydrogen-1, helium-4 and carbon-12:
/// each has as many electrons as protons, their atomic numbers are 1, 2 and
/// 6, and their mass numbers 1, 4 and 12.
pub proof fn lemma_default_templates_are_neutral_atoms()
    ensures
        forall|i: int| 0 <= i < 3 ==> (#[trigger] default_template_models()[i]).2 == default_template_models()[i].3,
        default_template_models()[0].2 == 1 && default_template_models()[0].1 + default_template_models()[0].2 == 1,
        default_template_models()[1].2 == 2 && default_template_models()[1].1 + default_template_models()[1].2 == 4,
        default_template_models()[2].2 == 6 && default_template_models()[2].1 + default_template_models()[2].2 == 12,
{
}

} // verus!
