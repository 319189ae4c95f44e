use yas_scanner::artifact::{
    ArtifactSetName, ArtifactSlot, ArtifactStat, ArtifactStatName, GenshinArtifact,
    GenshinArtifactScanResult,
};

#[test]
fn stat_name_lookup_plain() {
    assert_eq!(
        ArtifactStatName::from_zh_cn("治疗加成", false),
        Some(ArtifactStatName::HealingBonus)
    );
    assert_eq!(
        ArtifactStatName::from_zh_cn("暴击伤害", false),
        Some(ArtifactStatName::CriticalDamage)
    );
    assert_eq!(ArtifactStatName::from_zh_cn("元素精通", true), Some(ArtifactStatName::ElementalMastery));
    assert_eq!(ArtifactStatName::from_zh_cn("不存在的词条", false), None);
}

#[test]
fn stat_name_lookup_percentage_flavors() {
    assert_eq!(ArtifactStatName::from_zh_cn("攻击力", false), Some(ArtifactStatName::Atk));
    assert_eq!(ArtifactStatName::from_zh_cn("攻击力", true), Some(ArtifactStatName::AtkPercentage));
    assert_eq!(ArtifactStatName::from_zh_cn("生命值", false), Some(ArtifactStatName::Hp));
    assert_eq!(ArtifactStatName::from_zh_cn("生命值", true), Some(ArtifactStatName::HpPercentage));
    assert_eq!(ArtifactStatName::from_zh_cn("防御力", false), Some(ArtifactStatName::Def));
    assert_eq!(ArtifactStatName::from_zh_cn("防御力", true), Some(ArtifactStatName::DefPercentage));
}

#[test]
fn slot_lookup_covers_every_slot() {
    assert_eq!(ArtifactSlot::from_zh_cn("磐陀裂生之花"), Some(ArtifactSlot::Flower));
    assert_eq!(ArtifactSlot::from_zh_cn("嵯峨群峰之翼"), Some(ArtifactSlot::Feather));
    assert_eq!(ArtifactSlot::from_zh_cn("星罗圭壁之晷"), Some(ArtifactSlot::Sand));
    assert_eq!(ArtifactSlot::from_zh_cn("星罗圭璧之晷"), Some(ArtifactSlot::Sand));
    assert_eq!(ArtifactSlot::from_zh_cn("巉岩琢塑之樽"), Some(ArtifactSlot::Goblet));
    assert_eq!(ArtifactSlot::from_zh_cn("不动玄石之相"), Some(ArtifactSlot::Head));
    assert_eq!(ArtifactSlot::from_zh_cn("筹谋的共樽"), Some(ArtifactSlot::Goblet));
    assert_eq!(ArtifactSlot::from_zh_cn("不存在之物"), None);
}

#[test]
fn set_lookup_early_and_late_entries() {
    assert_eq!(ArtifactSetName::from_zh_cn("磐陀裂生之花"), Some(ArtifactSetName::ArchaicPetra));
    assert_eq!(ArtifactSetName::from_zh_cn("历经风雪的思念"), Some(ArtifactSetName::BlizzardStrayer));
    assert_eq!(ArtifactSetName::from_zh_cn("祭水礼冠"), Some(ArtifactSetName::PrayersForDestiny));
    assert_eq!(
        ArtifactSetName::from_zh_cn("失冕的宝冠"),
        Some(ArtifactSetName::UnfinishedReverie)
    );
    assert_eq!(
        ArtifactSetName::from_zh_cn("黄金剧团的奖赏"),
        Some(ArtifactSetName::GoldenTroupe)
    );
    assert_eq!(ArtifactSetName::from_zh_cn(""), None);
    assert_eq!(ArtifactSetName::from_zh_cn("不存在之物"), None);
}

#[test]
fn parse_flat_stat_with_thousands_separator() {
    let stat = ArtifactStat::from_zh_cn_raw("生命值+4,123").expect("should parse");
    assert_eq!(stat.name, ArtifactStatName::Hp);
    assert_eq!(stat.value_milli, 4_123_000);
}

#[test]
fn parse_percentage_stat() {
    let stat = ArtifactStat::from_zh_cn_raw("暴击率+10.5%").expect("should parse");
    assert_eq!(stat.name, ArtifactStatName::Critical);
    // 10.5% is 0.105, held as 105 thousandths
    assert_eq!(stat.value_milli, 105);

    let stat = ArtifactStat::from_zh_cn_raw("攻击力+18.2%").expect("should parse");
    assert_eq!(stat.name, ArtifactStatName::AtkPercentage);
    assert_eq!(stat.value_milli, 182);
}

#[test]
fn parse_decimal_flat_stat() {
    let stat = ArtifactStat::from_zh_cn_raw("元素精通+86").expect("should parse");
    assert_eq!(stat.name, ArtifactStatName::ElementalMastery);
    assert_eq!(stat.value_milli, 86_000);
}

#[test]
fn parse_rejects_malformed_lines() {
    assert_eq!(ArtifactStat::from_zh_cn_raw("生命值"), None);
    assert_eq!(ArtifactStat::from_zh_cn_raw("生命值+"), None);
    assert_eq!(ArtifactStat::from_zh_cn_raw("生命值+abc"), None);
    assert_eq!(ArtifactStat::from_zh_cn_raw("生命值+1+2"), None);
    assert_eq!(ArtifactStat::from_zh_cn_raw("不存在+10"), None);
    assert_eq!(ArtifactStat::from_zh_cn_raw("生命值+1.2.3"), None);
    assert_eq!(ArtifactStat::from_zh_cn_raw("生命值+."), None);
}

fn scan_result() -> GenshinArtifactScanResult {
    GenshinArtifactScanResult {
        name: "魔女的炎之花".to_string(),
        main_stat_name: "生命值".to_string(),
        main_stat_value: "4,780".to_string(),
        sub_stat_1: "暴击率+3.1%".to_string(),
        sub_stat_2: "攻击力+19".to_string(),
        sub_stat_3: "没有词条".to_string(),
        sub_stat_4: "防御力+5.8%".to_string(),
        level: 20,
        star: 5,
        lock: true,
        equip: "胡桃已装备".to_string(),
    }
}

#[test]
fn scan_result_to_artifact() {
    let names = vec!["胡桃".to_string(), "钟离".to_string()];
    let artifact = GenshinArtifact::from_scan_result(&scan_result(), &names).expect("should convert");
    assert_eq!(artifact.set_name, ArtifactSetName::CrimsonWitch);
    assert_eq!(artifact.slot, ArtifactSlot::Flower);
    assert_eq!(artifact.star, 5);
    assert_eq!(artifact.level, 20);
    assert!(artifact.lock);
    assert_eq!(artifact.main_stat.name, ArtifactStatName::Hp);
    assert_eq!(artifact.main_stat.value_milli, 4_780_000);
    assert_eq!(
        artifact.sub_stat_1,
        Some(ArtifactStat { name: ArtifactStatName::Critical, value_milli: 31 })
    );
    assert_eq!(
        artifact.sub_stat_2,
        Some(ArtifactStat { name: ArtifactStatName::Atk, value_milli: 19_000 })
    );
    assert_eq!(artifact.sub_stat_3, None);
    assert_eq!(
        artifact.sub_stat_4,
        Some(ArtifactStat { name: ArtifactStatName::DefPercentage, value_milli: 58 })
    );
    assert_eq!(artifact.equip, Some("胡桃".to_string()));
}

#[test]
fn scan_result_unknown_wearer_is_dropped() {
    let names = vec!["钟离".to_string()];
    let artifact = GenshinArtifact::from_scan_result(&scan_result(), &names).expect("should convert");
    assert_eq!(artifact.equip, None);
}

#[test]
fn scan_result_without_equipped_marker() {
    let names = vec!["胡桃".to_string()];
    let mut value = scan_result();
    value.equip = "胡桃".to_string();
    let artifact = GenshinArtifact::from_scan_result(&value, &names).expect("should convert");
    assert_eq!(artifact.equip, None);
}

#[test]
fn scan_result_with_unknown_name_fails() {
    let names = Vec::new();
    let mut value = scan_result();
    value.name = "不存在之物".to_string();
    assert_eq!(GenshinArtifact::from_scan_result(&value, &names), Err(()));
}

#[test]
fn scan_result_with_bad_main_stat_fails() {
    let names = Vec::new();
    let mut value = scan_result();
    value.main_stat_value = "abc".to_string();
    assert_eq!(GenshinArtifact::from_scan_result(&value, &names), Err(()));
}
