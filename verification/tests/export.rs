use yas_scanner::march7th::March7thFormat;
use yas_scanner::relic::{RelicSetName, RelicSlot, RelicStat, RelicStatName, StarRailRelic};

fn relic(slot: RelicSlot, level: i32) -> StarRailRelic {
    StarRailRelic {
        set_name: RelicSetName::MusketeerofWildWheat,
        slot,
        star: 5,
        lock: false,
        discard: false,
        level,
        main_stat: RelicStat { name: RelicStatName::ATK, value_milli: 352_000 },
        sub_stat_1: Some(RelicStat { name: RelicStatName::CRITRate, value_milli: 43 }),
        sub_stat_2: None,
        sub_stat_3: None,
        sub_stat_4: None,
        equip: None,
    }
}

#[test]
fn stat_name_keys() {
    assert_eq!(RelicStatName::HP.to_march7th(), "hp");
    assert_eq!(RelicStatName::HPPercentage.to_march7th(), "hp_");
    assert_eq!(RelicStatName::CRITRate.to_march7th(), "critRate");
    assert_eq!(RelicStatName::BreakEffect.to_march7th(), "break");
    assert_eq!(RelicStatName::EnergyRegenerationRate.to_march7th(), "enerRegen");
    assert_eq!(RelicStatName::ImaginaryDMGBoost.to_march7th(), "imaginaryDmg");
    assert_eq!(RelicStatName::EffectRES.to_march7th(), "effRes");
}

#[test]
fn set_name_keys() {
    assert_eq!(
        RelicSetName::PasserbyofWanderingCloud.to_march7th(),
        "PasserbyofWanderingCloud"
    );
    assert_eq!(
        RelicSetName::PenaconyLandoftheDreams.to_march7th(),
        "PenaconyLandoftheDreams"
    );
}

#[test]
fn slot_keys() {
    assert_eq!(RelicSlot::Head.to_march7th(), "head");
    assert_eq!(RelicSlot::Hands.to_march7th(), "hands");
    assert_eq!(RelicSlot::Body.to_march7th(), "body");
    assert_eq!(RelicSlot::Feet.to_march7th(), "feet");
    assert_eq!(RelicSlot::PlanarSphere.to_march7th(), "planarSphere");
    assert_eq!(RelicSlot::LinkRope.to_march7th(), "linkRope");
}

#[test]
fn format_groups_by_slot_keeping_order() {
    let relics = vec![
        relic(RelicSlot::Head, 1),
        relic(RelicSlot::Feet, 2),
        relic(RelicSlot::Head, 3),
        relic(RelicSlot::LinkRope, 4),
        relic(RelicSlot::Body, 5),
    ];
    let format = March7thFormat::new(&relics);
    assert_eq!(format.version, "1");
    assert_eq!(
        format.head.iter().map(|r| r.level).collect::<Vec<_>>(),
        vec![1, 3]
    );
    assert_eq!(format.feet.iter().map(|r| r.level).collect::<Vec<_>>(), vec![2]);
    assert_eq!(format.rope.iter().map(|r| r.level).collect::<Vec<_>>(), vec![4]);
    assert_eq!(format.body.iter().map(|r| r.level).collect::<Vec<_>>(), vec![5]);
    assert!(format.hands.is_empty());
    assert!(format.sphere.is_empty());
    assert_eq!(format.head[0], relic(RelicSlot::Head, 1));
}

#[test]
fn format_of_empty_scan_is_empty() {
    let format = March7thFormat::new(&Vec::new());
    assert_eq!(format.version, "1");
    assert!(format.head.is_empty());
    assert!(format.hands.is_empty());
    assert!(format.body.is_empty());
    assert!(format.feet.is_empty());
    assert!(format.sphere.is_empty());
    assert!(format.rope.is_empty());
}
