use atom_sim::nucleons::{gen_core_nucleon_kinds, next_nucleon_kind, NEUTRON, PROTON};
use atom_sim::shells::{occupied_shells, shell_distribution};

#[test]
fn occupied_shell_thresholds() {
    assert_eq!(occupied_shells(-5), 0);
    assert_eq!(occupied_shells(0), 0);
    assert_eq!(occupied_shells(1), 1);
    assert_eq!(occupied_shells(2), 1);
    assert_eq!(occupied_shells(3), 2);
    assert_eq!(occupied_shells(10), 2);
    assert_eq!(occupied_shells(11), 3);
    assert_eq!(occupied_shells(28), 3);
    assert_eq!(occupied_shells(29), 4);
    assert_eq!(occupied_shells(5000), 4);
    assert_eq!(occupied_shells(i32::MAX), 4);
}

#[test]
fn shell_distributions() {
    assert_eq!(shell_distribution(0), Vec::<i32>::new());
    assert_eq!(shell_distribution(-4), Vec::<i32>::new());
    assert_eq!(shell_distribution(1), vec![1]);
    assert_eq!(shell_distribution(6), vec![2, 4]);
    assert_eq!(shell_distribution(18), vec![2, 8, 8]);
    assert_eq!(shell_distribution(28), vec![2, 8, 18]);
    assert_eq!(shell_distribution(30), vec![2, 8, 18, 2]);
    assert_eq!(shell_distribution(2000), vec![2, 8, 18, 999]);
}

#[test]
fn drawn_shells_match_occupied_shells() {
    for e in -3..1100 {
        assert_eq!(shell_distribution(e).len() as u32, occupied_shells(e));
        let sum: i32 = shell_distribution(e).iter().sum();
        assert_eq!(sum, e.clamp(0, 1027));
    }
}

#[test]
fn next_kind_rule() {
    assert_eq!(next_nucleon_kind(3, 2, 1), 1);
    assert_eq!(next_nucleon_kind(3, 2, 0), 0);
    assert_eq!(next_nucleon_kind(3, 0, 1), PROTON);
    assert_eq!(next_nucleon_kind(0, 4, 0), NEUTRON);
    assert_eq!(next_nucleon_kind(0, 0, 0), NEUTRON);
    assert_eq!(next_nucleon_kind(-1, -1, 0), NEUTRON);
}

#[test]
fn nucleus_holds_its_protons_and_neutrons() {
    for (p, n) in [(1, 0), (2, 2), (6, 6), (3, 4), (0, 5), (17, 18)] {
        let kinds = gen_core_nucleon_kinds(p, n);
        assert_eq!(kinds.len() as i32, p + n);
        assert_eq!(kinds.iter().filter(|k| **k == PROTON).count() as i32, p);
        assert_eq!(kinds.iter().filter(|k| **k == NEUTRON).count() as i32, n);
    }
}

#[test]
fn nucleus_with_one_kind_is_deterministic() {
    assert_eq!(gen_core_nucleon_kinds(3, 0), vec![0, 0, 0]);
    assert_eq!(gen_core_nucleon_kinds(0, 2), vec![1, 1]);
    assert_eq!(gen_core_nucleon_kinds(0, 0), Vec::<i32>::new());
    assert_eq!(gen_core_nucleon_kinds(-2, 1), Vec::<i32>::new());
    assert_eq!(gen_core_nucleon_kinds(3, -1), vec![0, 0]);
    assert_eq!(gen_core_nucleon_kinds(-1, 3), vec![1, 1]);
}
