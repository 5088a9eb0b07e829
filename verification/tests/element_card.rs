use atom_sim::decimal::decimal_string;
use atom_sim::element::{
    charge_color, charge_label, element_family, family_color, family_label, get_element_symbol,
    ElementFamily, Rgba,
};
use atom_sim::templates::{
    choose_templates, default_templates, info_lines, template_label, Atome,
};

fn atom(name: &str, neutrons: i32, protons: i32, electrons: i32) -> Atome {
    Atome {
        nom_atome: name.to_string(),
        nb_neutrons: neutrons,
        nb_protons: protons,
        nb_electrons: electrons,
    }
}

#[test]
fn decimal_string_matches_display() {
    for n in [0, 7, 10, 42, 100, 1027, -1, -30, 123456789, i32::MAX, i32::MIN] {
        assert_eq!(decimal_string(n), format!("{}", n));
    }
}

#[test]
fn symbols_of_first_elements() {
    assert_eq!(get_element_symbol(1), "H");
    assert_eq!(get_element_symbol(2), "He");
    assert_eq!(get_element_symbol(6), "C");
    assert_eq!(get_element_symbol(11), "Na");
    assert_eq!(get_element_symbol(17), "Cl");
    assert_eq!(get_element_symbol(18), "Ar");
}

#[test]
fn unknown_symbols() {
    assert_eq!(get_element_symbol(0), "??");
    assert_eq!(get_element_symbol(19), "??");
    assert_eq!(get_element_symbol(-3), "??");
}

#[test]
fn families_and_labels() {
    assert_eq!(element_family(1), ElementFamily::Hydrogen);
    assert_eq!(element_family(10), ElementFamily::NobleGas);
    assert_eq!(element_family(11), ElementFamily::AlkaliMetal);
    assert_eq!(element_family(12), ElementFamily::AlkalineEarthMetal);
    assert_eq!(element_family(14), ElementFamily::Metalloid);
    assert_eq!(element_family(7), ElementFamily::NonMetal);
    assert_eq!(element_family(9), ElementFamily::Other);
    assert_eq!(element_family(13), ElementFamily::Other);
    assert_eq!(family_label(ElementFamily::Hydrogen), "Non-métal");
    assert_eq!(family_label(ElementFamily::NonMetal), "Non-métal");
    assert_eq!(family_label(ElementFamily::NobleGas), "Gaz noble");
    assert_eq!(family_label(ElementFamily::AlkaliMetal), "Métal alcalin");
    assert_eq!(family_label(ElementFamily::AlkalineEarthMetal), "Métal alc-terreux");
    assert_eq!(family_label(ElementFamily::Metalloid), "Métalloïde");
    assert_eq!(family_label(ElementFamily::Other), "Élément");
}

#[test]
fn family_colors() {
    assert_eq!(family_color(ElementFamily::Hydrogen), Rgba { r: 255, g: 255, b: 255, a: 255 });
    assert_eq!(family_color(ElementFamily::NobleGas), Rgba { r: 241, g: 196, b: 15, a: 255 });
    assert_eq!(family_color(ElementFamily::NonMetal), Rgba { r: 46, g: 204, b: 113, a: 255 });
    assert_eq!(family_color(ElementFamily::Other), Rgba { r: 149, g: 165, b: 166, a: 255 });
}

#[test]
fn charge_labels_and_colors() {
    assert_eq!(charge_label(2), "+2");
    assert_eq!(charge_label(-3), "-3");
    assert_eq!(charge_label(0), "Neutre");
    assert_eq!(charge_color(0), Rgba { r: 255, g: 255, b: 255, a: 255 });
    assert_eq!(charge_color(1), Rgba { r: 235, g: 59, b: 90, a: 255 });
    assert_eq!(charge_color(-1), Rgba { r: 56, g: 173, b: 169, a: 255 });
}

#[test]
fn mass_number_and_charge() {
    let carbon_ion = atom("Carbone", 6, 6, 4);
    assert_eq!(carbon_ion.mass_number(), 12);
    assert_eq!(carbon_ion.charge(), 2);
    assert_eq!(atom("x", 0, 0, 0).scale_nucleons(), 1);
    assert_eq!(atom("x", 2, 1, 1).scale_nucleons(), 3);
}

#[test]
fn info_lines_of_an_ion() {
    let lines = info_lines(&atom("Carbone", 6, 6, 7));
    let texts: Vec<&str> = lines.iter().map(|l| l.text.as_str()).collect();
    assert_eq!(
        texts,
        vec![
            "Protons (Z):  6",
            "Neutrons (N): 6",
            "Électrons:    7",
            "Nombre Masse: 12",
            "Charge:       -1",
        ]
    );
    assert_eq!(lines[0].color, Rgba { r: 235, g: 59, b: 90, a: 255 });
    assert_eq!(lines[3].color, Rgba { r: 255, g: 255, b: 255, a: 255 });
    assert_eq!(lines[4].color, Rgba { r: 56, g: 173, b: 169, a: 255 });
}

#[test]
fn info_lines_of_a_neutral_atom() {
    let lines = info_lines(&atom("Hélium", 2, 2, 2));
    assert_eq!(lines[4].text, "Charge:       Neutre");
    assert_eq!(lines[4].color, Rgba { r: 255, g: 255, b: 255, a: 255 });
}

#[test]
fn template_labels() {
    assert_eq!(template_label(&atom("Hydrogène", 0, 1, 1)), "[H] Hydrogène");
    assert_eq!(template_label(&atom("Mystère", 0, 40, 1)), "[??] Mystère");
}

#[test]
fn default_template_set() {
    let d = default_templates();
    assert_eq!(d.len(), 3);
    assert_eq!(d[0].nom_atome, "Hydrogène");
    assert_eq!((d[0].nb_neutrons, d[0].nb_protons, d[0].nb_electrons), (0, 1, 1));
    assert_eq!(d[1].nom_atome, "Hélium");
    assert_eq!((d[1].nb_neutrons, d[1].nb_protons, d[1].nb_electrons), (2, 2, 2));
    assert_eq!(d[2].nom_atome, "Carbone");
    assert_eq!((d[2].nb_neutrons, d[2].nb_protons, d[2].nb_electrons), (6, 6, 6));
}

#[test]
fn template_choice_prefers_list_then_single_then_defaults() {
    let list = vec![atom("Lithium", 4, 3, 3), atom("Bore", 6, 5, 5)];
    let chosen = choose_templates(Some(list), Some(atom("Néon", 10, 10, 10)));
    assert_eq!(chosen.len(), 2);
    assert_eq!(chosen[1].nom_atome, "Bore");

    let chosen = choose_templates(None, Some(atom("Néon", 10, 10, 10)));
    assert_eq!(chosen.len(), 1);
    assert_eq!(chosen[0].nom_atome, "Néon");

    let chosen = choose_templates(None, None);
    assert_eq!(chosen.len(), 3);
    assert_eq!(chosen[2].nom_atome, "Carbone");

    let chosen = choose_templates(Some(Vec::new()), None);
    assert_eq!(chosen.len(), 0);
}
