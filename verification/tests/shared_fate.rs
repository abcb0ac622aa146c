use fewfc::domain::TeamId;
use fewfc::rules::formation_effect_sequence::{shared_fate_deltas, SharedFateOwner};

fn owner(team: &str, still_bound: bool, next: &str) -> SharedFateOwner {
    SharedFateOwner { owner_team: TeamId::new(team), still_bound, next_team: TeamId::new(next) }
}

fn teams(names: &[&str]) -> Vec<TeamId> {
    names.iter().map(|n| TeamId::new(n)).collect()
}

#[test]
fn each_bound_owner_of_a_struck_team_costs_the_next_team_ten_life() {
    let owners = [owner("a", true, "b"), owner("a", true, "b"), owner("c", true, "a"), owner("a", false, "c")];
    let hp_order = teams(&["a", "b", "c"]);
    let only_a = shared_fate_deltas(&teams(&["a"]), &owners, &hp_order).unwrap();
    assert_eq!(only_a.iter().map(|(t, d)| (t.0.clone(), *d)).collect::<Vec<_>>(), vec![("b".to_string(), -20)]);
    let a_and_c = shared_fate_deltas(&teams(&["c", "a"]), &owners, &hp_order).unwrap();
    assert_eq!(
        a_and_c.iter().map(|(t, d)| (t.0.clone(), *d)).collect::<Vec<_>>(),
        vec![("a".to_string(), -10), ("b".to_string(), -20)]
    );
    assert!(shared_fate_deltas(&[], &owners, &hp_order).unwrap().is_empty());
}
