use fewfc::domain::{Element, ECHO_MODULE_ID};
use fewfc::rules::echo::{
    melody, melody_catalog, EchoPolicy, MelodyExecutionOrigin, PLANT_EARTH, PURE_FIRE,
};

#[test]
fn catalog_contains_all_seven_published_melodies() {
    let catalog = melody_catalog();
    assert_eq!(catalog.len(), 7);
    let basic = catalog
        .iter()
        .filter(|melody| matches!(melody.echo_policy, EchoPolicy::OptionalCost { .. }))
        .collect::<Vec<_>>();
    assert_eq!(basic.len(), 5);
    assert_eq!(
        basic.iter().map(|melody| (melody.name, melody.element)).collect::<Vec<_>>(),
        vec![
            ("商調‧鳴金", Element::Metal),
            ("角調‧落木", Element::Wood),
            ("羽調‧流水", Element::Water),
            ("徵調‧戰火", Element::Fire),
            ("宮調‧裂土", Element::Earth),
        ]
    );
    assert_eq!(
        basic
            .iter()
            .map(|melody| match melody.echo_policy {
                EchoPolicy::OptionalCost { allowed_printed_elements } => allowed_printed_elements,
                _ => unreachable!(),
            })
            .collect::<Vec<_>>(),
        vec![
            [Element::Metal, Element::Earth],
            [Element::Wood, Element::Water],
            [Element::Water, Element::Metal],
            [Element::Fire, Element::Wood],
            [Element::Earth, Element::Fire],
        ]
    );
    assert!(matches!(melody(PURE_FIRE).unwrap().echo_policy, EchoPolicy::Automatic));
    assert!(matches!(melody(PLANT_EARTH).unwrap().echo_policy, EchoPolicy::Never));
}

#[test]
fn delayed_origins_cannot_schedule_recursive_echo() {
    assert!(MelodyExecutionOrigin::FormationUse.can_schedule_echo());
    assert!(!MelodyExecutionOrigin::Echo.can_schedule_echo());
    assert!(!MelodyExecutionOrigin::PlantedEarth.can_schedule_echo());
    assert_eq!(ECHO_MODULE_ID, "echo");
}

#[test]
fn only_formation_use_of_an_echoing_melody_schedules_an_echo() {
    let automatic = melody(PURE_FIRE).unwrap().echo_policy;
    let never = melody(PLANT_EARTH).unwrap().echo_policy;
    assert!(automatic.is_schedulable_from(MelodyExecutionOrigin::FormationUse));
    assert!(!automatic.is_schedulable_from(MelodyExecutionOrigin::Echo));
    assert!(!never.is_schedulable_from(MelodyExecutionOrigin::FormationUse));
}

#[test]
fn unknown_melody_is_absent() {
    assert!(melody("echo:unknown").is_none());
}

#[test]
fn echo_formations_follow_the_melody_catalog() {
    let specs = fewfc::rules::echo::formation_specs();
    let catalog = melody_catalog();
    assert_eq!(specs.len(), catalog.len());
    for (spec, melody) in specs.iter().zip(catalog.iter()) {
        assert_eq!(spec.formation.id, melody.id);
        assert_eq!(spec.formation.name, melody.name);
    }
}
