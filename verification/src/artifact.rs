//! Genshin artifact domain data: the stat, slot and set-name enumerations,
//! the Chinese-localized lookup tables that map on-screen text to them, and
//! the parser that turns a scanned stat line into a stat value.
//!
//! Stat values are held in thousandths (a stat of 46.6% is 466), the same
//! fixed-point resolution the original tooling used to compare stats.

use vstd::prelude::*;
use vstd::string::StringExecFns;
use crate::text::{
    chars_eq, chars_eq_str, chars_of, check_all_digits, contains_char, copy_range, digits_value,
    find_char, pow10, spec_all_digits, spec_digits_value, spec_find_char, ten_pow,
};

verus! {

#[derive(Clone, Copy, Debug, PartialEq, Eq, Hash, Structural)]
pub enum ArtifactStatName {
    HealingBonus,
    CriticalDamage,
    Critical,
    Atk,
    AtkPercentage,
    ElementalMastery,
    Recharge,
    HpPercentage,
    Hp,
    DefPercentage,
    Def,
    ElectroBonus,
    PyroBonus,
    HydroBonus,
    CryoBonus,
    AnemoBonus,
    GeoBonus,
    PhysicalBonus,
    DendroBonus,
}

#[derive(Clone, Copy, Debug, PartialEq, Eq, Hash, Structural)]
pub enum ArtifactSlot {
    Flower,
    Feather,
    Sand,
    Goblet,
    Head,
}

#[derive(Clone, Copy, Debug, PartialEq, Eq, Hash, Structural)]
pub enum ArtifactSetName {
    ArchaicPetra,
    HeartOfDepth,
    BlizzardStrayer,
    RetracingBolide,
    NoblesseOblige,
    GladiatorFinale,
    MaidenBeloved,
    ViridescentVenerer,
    LavaWalker,
    CrimsonWitch,
    ThunderSmoother,
    ThunderingFury,
    BloodstainedChivalry,
    WandererTroupe,
    Scholar,
    Gambler,
    TinyMiracle,
    MartialArtist,
    BraveHeart,
    ResolutionOfSojourner,
    DefenderWill,
    Berserker,
    Instructor,
    Exile,
    Adventurer,
    LuckyDog,
    TravelingDoctor,
    PrayersForWisdom,
    PrayersToSpringtime,
    PrayersForIllumination,
    PrayersForDestiny,
    PaleFlame,
    TenacityOfTheMillelith,
    EmblemOfSeveredFate,
    ShimenawaReminiscence,
    HuskOfOpulentDreams,
    OceanHuedClam,
    VermillionHereafter,
    EchoesOfAnOffering,
    DeepwoodMemories,
    GildedDreams,
    FlowerOfParadiseLost,
    DesertPavilionChronicle,
    NymphsDream,
    VourukashasGlow,
    MarechausseeHunter,
    GoldenTroupe,
    SongOfDaysPast,
    NighttimeWhispersInTheEchoingWoods,
    FragmentOfHarmonicWhimsy,
    UnfinishedReverie,
}

pub open spec fn spec_stat_name_of(s: Seq<char>, is_percentage: bool) -> Option<ArtifactStatName> {
    if s == "治疗加成"@ {
        Some(ArtifactStatName::HealingBonus)
    } else     if s == "暴击伤害"@ {
        Some(ArtifactStatName::CriticalDamage)
    } else     if s == "暴击率"@ {
        Some(ArtifactStatName::Critical)
    } else     if s == "攻击力"@ {
        if is_percentage { Some(ArtifactStatName::AtkPercentage) } else { Some(ArtifactStatName::Atk) }
    } else     if s == "元素精通"@ {
        Some(ArtifactStatName::ElementalMastery)
    } else     if s == "元素充能效率"@ {
        Some(ArtifactStatName::Recharge)
    } else     if s == "生命值"@ {
        if is_percentage { Some(ArtifactStatName::HpPercentage) } else { Some(ArtifactStatName::Hp) }
    } else     if s == "防御力"@ {
        if is_percentage { Some(ArtifactStatName::DefPercentage) } else { Some(ArtifactStatName::Def) }
    } else     if s == "雷元素伤害加成"@ {
        Some(ArtifactStatName::ElectroBonus)
    } else     if s == "火元素伤害加成"@ {
        Some(ArtifactStatName::PyroBonus)
    } else     if s == "水元素伤害加成"@ {
        Some(ArtifactStatName::HydroBonus)
    } else     if s == "冰元素伤害加成"@ {
        Some(ArtifactStatName::CryoBonus)
    } else     if s == "风元素伤害加成"@ {
        Some(ArtifactStatName::AnemoBonus)
    } else     if s == "岩元素伤害加成"@ {
        Some(ArtifactStatName::GeoBonus)
    } else     if s == "草元素伤害加成"@ {
        Some(ArtifactStatName::DendroBonus)
    } else     if s == "物理伤害加成"@ {
        Some(ArtifactStatName::PhysicalBonus)
    } else {
        None
    }
}

fn stat_name_lookup(v: &Vec<char>, is_percentage: bool) -> (r: Option<ArtifactStatName>)
    ensures
        r == spec_stat_name_of(v@, is_percentage),
{
    if chars_eq_str(v, "治疗加成") {
        Some(ArtifactStatName::HealingBonus)
    } else     if chars_eq_str(v, "暴击伤害") {
        Some(ArtifactStatName::CriticalDamage)
    } else     if chars_eq_str(v, "暴击率") {
        Some(ArtifactStatName::Critical)
    } else     if chars_eq_str(v, "攻击力") {
        if is_percentage { Some(ArtifactStatName::AtkPercentage) } else { Some(ArtifactStatName::Atk) }
    } else     if chars_eq_str(v, "元素精通") {
        Some(ArtifactStatName::ElementalMastery)
    } else     if chars_eq_str(v, "元素充能效率") {
        Some(ArtifactStatName::Recharge)
    } else     if chars_eq_str(v, "生命值") {
        if is_percentage { Some(ArtifactStatName::HpPercentage) } else { Some(ArtifactStatName::Hp) }
    } else     if chars_eq_str(v, "防御力") {
        if is_percentage { Some(ArtifactStatName::DefPercentage) } else { Some(ArtifactStatName::Def) }
    } else     if chars_eq_str(v, "雷元素伤害加成") {
        Some(ArtifactStatName::ElectroBonus)
    } else     if chars_eq_str(v, "火元素伤害加成") {
        Some(ArtifactStatName::PyroBonus)
    } else     if chars_eq_str(v, "水元素伤害加成") {
        Some(ArtifactStatName::HydroBonus)
    } else     if chars_eq_str(v, "冰元素伤害加成") {
        Some(ArtifactStatName::CryoBonus)
    } else     if chars_eq_str(v, "风元素伤害加成") {
        Some(ArtifactStatName::AnemoBonus)
    } else     if chars_eq_str(v, "岩元素伤害加成") {
        Some(ArtifactStatName::GeoBonus)
    } else     if chars_eq_str(v, "草元素伤害加成") {
        Some(ArtifactStatName::DendroBonus)
    } else     if chars_eq_str(v, "物理伤害加成") {
        Some(ArtifactStatName::PhysicalBonus)
    } else {
        None
    }
}

pub open spec fn spec_slot_table_a(s: Seq<char>) -> Option<ArtifactSlot> {
    if s == "磐陀裂生之花"@ {
        Some(ArtifactSlot::Flower)
    } else     if s == "嵯峨群峰之翼"@ {
        Some(ArtifactSlot::Feather)
    } else     if s == "星罗圭壁之晷"@ {
        Some(ArtifactSlot::Sand)
    } else     if s == "星罗圭璧之晷"@ {
        Some(ArtifactSlot::Sand)
    } else     if s == "巉岩琢塑之樽"@ {
        Some(ArtifactSlot::Goblet)
    } else     if s == "不动玄石之相"@ {
        Some(ArtifactSlot::Head)
    } else     if s == "历经风雪的思念"@ {
        Some(ArtifactSlot::Flower)
    } else     if s == "摧冰而行的执望"@ {
        Some(ArtifactSlot::Feather)
    } else     if s == "冰雪故园的终期"@ {
        Some(ArtifactSlot::Sand)
    } else     if s == "遍结寒霜的傲骨"@ {
        Some(ArtifactSlot::Goblet)
    } else     if s == "破冰踏雪的回音"@ {
        Some(ArtifactSlot::Head)
    } else     if s == "染血的铁之心"@ {
        Some(ArtifactSlot::Flower)
    } else     if s == "染血的黑之羽"@ {
        Some(ArtifactSlot::Feather)
    } else     if s == "骑士染血之时"@ {
        Some(ArtifactSlot::Sand)
    } else     if s == "染血骑士之杯"@ {
        Some(ArtifactSlot::Goblet)
    } else     if s == "染血的铁假面"@ {
        Some(ArtifactSlot::Head)
    } else     if s == "魔女的炎之花"@ {
        Some(ArtifactSlot::Flower)
    } else     if s == "魔女常燃之羽"@ {
        Some(ArtifactSlot::Feather)
    } else     if s == "魔女破灭之时"@ {
        Some(ArtifactSlot::Sand)
    } else     if s == "魔女的心之火"@ {
        Some(ArtifactSlot::Goblet)
    } else     if s == "焦灼的魔女帽"@ {
        Some(ArtifactSlot::Head)
    } else     if s == "角斗士的留恋"@ {
        Some(ArtifactSlot::Flower)
    } else     if s == "角斗士的归宿"@ {
        Some(ArtifactSlot::Feather)
    } else     if s == "角斗士的希冀"@ {
        Some(ArtifactSlot::Sand)
    } else     if s == "角斗士的酣醉"@ {
        Some(ArtifactSlot::Goblet)
    } else     if s == "角斗士的凯旋"@ {
        Some(ArtifactSlot::Head)
    } else     if s == "饰金胸花"@ {
        Some(ArtifactSlot::Flower)
    } else     if s == "追忆之风"@ {
        Some(ArtifactSlot::Feather)
    } else     if s == "坚铜罗盘"@ {
        Some(ArtifactSlot::Sand)
    } else     if s == "沉波之盏"@ {
        Some(ArtifactSlot::Goblet)
    } else     if s == "酒渍船帽"@ {
        Some(ArtifactSlot::Head)
    } else     if s == "渡火者的决绝"@ {
        Some(ArtifactSlot::Flower)
    } else     if s == "渡火者的解脱"@ {
        Some(ArtifactSlot::Feather)
    } else     if s == "渡火者的煎熬"@ {
        Some(ArtifactSlot::Sand)
    } else     if s == "渡火者的醒悟"@ {
        Some(ArtifactSlot::Goblet)
    } else     if s == "渡火者的智慧"@ {
        Some(ArtifactSlot::Head)
    } else     if s == "远方的少女之心"@ {
        Some(ArtifactSlot::Flower)
    } else     if s == "少女飘摇的思念"@ {
        Some(ArtifactSlot::Feather)
    } else     if s == "少女苦短的良辰"@ {
        Some(ArtifactSlot::Sand)
    } else     if s == "少女片刻的闲暇"@ {
        Some(ArtifactSlot::Goblet)
    } else     if s == "少女易逝的芳颜"@ {
        Some(ArtifactSlot::Head)
    } else     if s == "宗室之花"@ {
        Some(ArtifactSlot::Flower)
    } else     if s == "宗室之翎"@ {
        Some(ArtifactSlot::Feather)
    } else     if s == "宗室时计"@ {
        Some(ArtifactSlot::Sand)
    } else     if s == "宗室银瓮"@ {
        Some(ArtifactSlot::Goblet)
    } else     if s == "宗室面具"@ {
        Some(ArtifactSlot::Head)
    } else     if s == "夏祭之花"@ {
        Some(ArtifactSlot::Flower)
    } else     if s == "夏祭终末"@ {
        Some(ArtifactSlot::Feather)
    } else     if s == "夏祭之刻"@ {
        Some(ArtifactSlot::Sand)
    } else     if s == "夏祭水玉"@ {
        Some(ArtifactSlot::Goblet)
    } else {
        None
    }
}

pub open spec fn spec_slot_table_b(s: Seq<char>) -> Option<ArtifactSlot> {
    if s == "夏祭之面"@ {
        Some(ArtifactSlot::Head)
    } else     if s == "平雷之心"@ {
        Some(ArtifactSlot::Flower)
    } else     if s == "平雷之羽"@ {
        Some(ArtifactSlot::Feather)
    } else     if s == "平雷之刻"@ {
        Some(ArtifactSlot::Sand)
    } else     if s == "平雷之器"@ {
        Some(ArtifactSlot::Goblet)
    } else     if s == "平雷之冠"@ {
        Some(ArtifactSlot::Head)
    } else     if s == "雷鸟的怜悯"@ {
        Some(ArtifactSlot::Flower)
    } else     if s == "雷灾的孑遗"@ {
        Some(ArtifactSlot::Feather)
    } else     if s == "雷霆的时计"@ {
        Some(ArtifactSlot::Sand)
    } else     if s == "降雷的凶兆"@ {
        Some(ArtifactSlot::Goblet)
    } else     if s == "唤雷的头冠"@ {
        Some(ArtifactSlot::Head)
    } else     if s == "野花记忆的绿野"@ {
        Some(ArtifactSlot::Flower)
    } else     if s == "猎人青翠的箭羽"@ {
        Some(ArtifactSlot::Feather)
    } else     if s == "翠绿猎人的笃定"@ {
        Some(ArtifactSlot::Sand)
    } else     if s == "翠绿猎人的容器"@ {
        Some(ArtifactSlot::Goblet)
    } else     if s == "翠绿的猎人之冠"@ {
        Some(ArtifactSlot::Head)
    } else     if s == "乐团的晨光"@ {
        Some(ArtifactSlot::Flower)
    } else     if s == "琴师的箭羽"@ {
        Some(ArtifactSlot::Feather)
    } else     if s == "终幕的时计"@ {
        Some(ArtifactSlot::Sand)
    } else     if s == "终末的时计"@ {
        Some(ArtifactSlot::Sand)
    } else     if s == "吟游者之壶"@ {
        Some(ArtifactSlot::Goblet)
    } else     if s == "指挥的礼帽"@ {
        Some(ArtifactSlot::Head)
    } else     if s == "战狂的蔷薇"@ {
        Some(ArtifactSlot::Flower)
    } else     if s == "战狂的翎羽"@ {
        Some(ArtifactSlot::Feather)
    } else     if s == "战狂的时计"@ {
        Some(ArtifactSlot::Sand)
    } else     if s == "战狂的骨杯"@ {
        Some(ArtifactSlot::Goblet)
    } else     if s == "战狂的鬼面"@ {
        Some(ArtifactSlot::Head)
    } else     if s == "勇士的勋章"@ {
        Some(ArtifactSlot::Flower)
    } else     if s == "勇士的期许"@ {
        Some(ArtifactSlot::Feather)
    } else     if s == "勇士的坚毅"@ {
        Some(ArtifactSlot::Sand)
    } else     if s == "勇士的壮行"@ {
        Some(ArtifactSlot::Goblet)
    } else     if s == "勇士的冠冕"@ {
        Some(ArtifactSlot::Head)
    } else     if s == "守护之花"@ {
        Some(ArtifactSlot::Flower)
    } else     if s == "守护徽印"@ {
        Some(ArtifactSlot::Feather)
    } else     if s == "守护座钟"@ {
        Some(ArtifactSlot::Sand)
    } else     if s == "守护之皿"@ {
        Some(ArtifactSlot::Goblet)
    } else     if s == "守护束带"@ {
        Some(ArtifactSlot::Head)
    } else     if s == "流放者之花"@ {
        Some(ArtifactSlot::Flower)
    } else     if s == "流放者之羽"@ {
        Some(ArtifactSlot::Feather)
    } else     if s == "流放者怀表"@ {
        Some(ArtifactSlot::Sand)
    } else     if s == "流放者之杯"@ {
        Some(ArtifactSlot::Goblet)
    } else     if s == "流放者头冠"@ {
        Some(ArtifactSlot::Head)
    } else     if s == "赌徒的胸花"@ {
        Some(ArtifactSlot::Flower)
    } else     if s == "赌徒的羽饰"@ {
        Some(ArtifactSlot::Feather)
    } else     if s == "赌徒的怀表"@ {
        Some(ArtifactSlot::Sand)
    } else     if s == "赌徒的骰盅"@ {
        Some(ArtifactSlot::Goblet)
    } else     if s == "赌徒的耳环"@ {
        Some(ArtifactSlot::Head)
    } else     if s == "教官的胸花"@ {
        Some(ArtifactSlot::Flower)
    } else     if s == "教官的羽饰"@ {
        Some(ArtifactSlot::Feather)
    } else     if s == "教官的怀表"@ {
        Some(ArtifactSlot::Sand)
    } else {
        None
    }
}

pub open spec fn spec_slot_table_c(s: Seq<char>) -> Option<ArtifactSlot> {
    if s == "教官的茶杯"@ {
        Some(ArtifactSlot::Goblet)
    } else     if s == "教官的帽子"@ {
        Some(ArtifactSlot::Head)
    } else     if s == "武人的红花"@ {
        Some(ArtifactSlot::Flower)
    } else     if s == "武人的羽饰"@ {
        Some(ArtifactSlot::Feather)
    } else     if s == "武人的水漏"@ {
        Some(ArtifactSlot::Sand)
    } else     if s == "武人的酒杯"@ {
        Some(ArtifactSlot::Goblet)
    } else     if s == "武人的头巾"@ {
        Some(ArtifactSlot::Head)
    } else     if s == "祭水礼冠"@ {
        Some(ArtifactSlot::Head)
    } else     if s == "祭火礼冠"@ {
        Some(ArtifactSlot::Head)
    } else     if s == "祭雷礼冠"@ {
        Some(ArtifactSlot::Head)
    } else     if s == "祭冰礼冠"@ {
        Some(ArtifactSlot::Head)
    } else     if s == "故人之心"@ {
        Some(ArtifactSlot::Flower)
    } else     if s == "归乡之羽"@ {
        Some(ArtifactSlot::Feather)
    } else     if s == "逐光之石"@ {
        Some(ArtifactSlot::Sand)
    } else     if s == "异国之盏"@ {
        Some(ArtifactSlot::Goblet)
    } else     if s == "感别之冠"@ {
        Some(ArtifactSlot::Head)
    } else     if s == "学士的书签"@ {
        Some(ArtifactSlot::Flower)
    } else     if s == "学士的羽笔"@ {
        Some(ArtifactSlot::Feather)
    } else     if s == "学士的时钟"@ {
        Some(ArtifactSlot::Sand)
    } else     if s == "学士的墨杯"@ {
        Some(ArtifactSlot::Goblet)
    } else     if s == "学士的镜片"@ {
        Some(ArtifactSlot::Head)
    } else     if s == "奇迹之花"@ {
        Some(ArtifactSlot::Flower)
    } else     if s == "奇迹之羽"@ {
        Some(ArtifactSlot::Feather)
    } else     if s == "奇迹之沙"@ {
        Some(ArtifactSlot::Sand)
    } else     if s == "奇迹之杯"@ {
        Some(ArtifactSlot::Goblet)
    } else     if s == "奇迹耳坠"@ {
        Some(ArtifactSlot::Head)
    } else     if s == "冒险家之花"@ {
        Some(ArtifactSlot::Flower)
    } else     if s == "冒险家尾羽"@ {
        Some(ArtifactSlot::Feather)
    } else     if s == "冒险家怀表"@ {
        Some(ArtifactSlot::Sand)
    } else     if s == "冒险家金杯"@ {
        Some(ArtifactSlot::Goblet)
    } else     if s == "冒险家头带"@ {
        Some(ArtifactSlot::Head)
    } else     if s == "幸运儿绿花"@ {
        Some(ArtifactSlot::Flower)
    } else     if s == "幸运儿鹰羽"@ {
        Some(ArtifactSlot::Feather)
    } else     if s == "幸运儿沙漏"@ {
        Some(ArtifactSlot::Sand)
    } else     if s == "幸运儿之杯"@ {
        Some(ArtifactSlot::Goblet)
    } else     if s == "幸运儿银冠"@ {
        Some(ArtifactSlot::Head)
    } else     if s == "游医的银莲"@ {
        Some(ArtifactSlot::Flower)
    } else     if s == "游医的枭羽"@ {
        Some(ArtifactSlot::Feather)
    } else     if s == "游医的怀钟"@ {
        Some(ArtifactSlot::Sand)
    } else     if s == "游医的药壶"@ {
        Some(ArtifactSlot::Goblet)
    } else     if s == "游医的方巾"@ {
        Some(ArtifactSlot::Head)
    } else     if s == "勋绩之花"@ {
        Some(ArtifactSlot::Flower)
    } else     if s == "昭武翎羽"@ {
        Some(ArtifactSlot::Feather)
    } else     if s == "金铜时晷"@ {
        Some(ArtifactSlot::Sand)
    } else     if s == "盟誓金爵"@ {
        Some(ArtifactSlot::Goblet)
    } else     if s == "将帅兜鍪"@ {
        Some(ArtifactSlot::Head)
    } else     if s == "无垢之花"@ {
        Some(ArtifactSlot::Flower)
    } else     if s == "贤医之羽"@ {
        Some(ArtifactSlot::Feather)
    } else     if s == "停摆之刻"@ {
        Some(ArtifactSlot::Sand)
    } else     if s == "超越之盏"@ {
        Some(ArtifactSlot::Goblet)
    } else {
        None
    }
}

pub open spec fn spec_slot_table_d(s: Seq<char>) -> Option<ArtifactSlot> {
    if s == "嗤笑之面"@ {
        Some(ArtifactSlot::Head)
    } else     if s == "明威之镡"@ {
        Some(ArtifactSlot::Flower)
    } else     if s == "切落之羽"@ {
        Some(ArtifactSlot::Feather)
    } else     if s == "雷云之笼"@ {
        Some(ArtifactSlot::Sand)
    } else     if s == "绯花之壶"@ {
        Some(ArtifactSlot::Goblet)
    } else     if s == "华饰之兜"@ {
        Some(ArtifactSlot::Head)
    } else     if s == "羁缠之花"@ {
        Some(ArtifactSlot::Flower)
    } else     if s == "思忆之矢"@ {
        Some(ArtifactSlot::Feather)
    } else     if s == "朝露之时"@ {
        Some(ArtifactSlot::Sand)
    } else     if s == "祈望之心"@ {
        Some(ArtifactSlot::Goblet)
    } else     if s == "无常之面"@ {
        Some(ArtifactSlot::Head)
    } else     if s == "荣花之期"@ {
        Some(ArtifactSlot::Flower)
    } else     if s == "华馆之羽"@ {
        Some(ArtifactSlot::Feather)
    } else     if s == "众生之谣"@ {
        Some(ArtifactSlot::Sand)
    } else     if s == "梦醒之瓢"@ {
        Some(ArtifactSlot::Goblet)
    } else     if s == "形骸之笠"@ {
        Some(ArtifactSlot::Head)
    } else     if s == "海染之花"@ {
        Some(ArtifactSlot::Flower)
    } else     if s == "渊宫之羽"@ {
        Some(ArtifactSlot::Feather)
    } else     if s == "离别之贝"@ {
        Some(ArtifactSlot::Sand)
    } else     if s == "真珠之笼"@ {
        Some(ArtifactSlot::Goblet)
    } else     if s == "海祇之冠"@ {
        Some(ArtifactSlot::Head)
    } else     if s == "生灵之华"@ {
        Some(ArtifactSlot::Flower)
    } else     if s == "阳辔之遗"@ {
        Some(ArtifactSlot::Sand)
    } else     if s == "潜光片羽"@ {
        Some(ArtifactSlot::Feather)
    } else     if s == "结契之刻"@ {
        Some(ArtifactSlot::Goblet)
    } else     if s == "虺雷之姿"@ {
        Some(ArtifactSlot::Head)
    } else     if s == "魂香之花"@ {
        Some(ArtifactSlot::Flower)
    } else     if s == "祝祀之凭"@ {
        Some(ArtifactSlot::Sand)
    } else     if s == "垂玉之叶"@ {
        Some(ArtifactSlot::Feather)
    } else     if s == "涌泉之盏"@ {
        Some(ArtifactSlot::Goblet)
    } else     if s == "浮溯之珏"@ {
        Some(ArtifactSlot::Head)
    } else     if s == "迷宫的游人"@ {
        Some(ArtifactSlot::Flower)
    } else     if s == "翠蔓的智者"@ {
        Some(ArtifactSlot::Feather)
    } else     if s == "贤智的定期"@ {
        Some(ArtifactSlot::Sand)
    } else     if s == "迷误者之灯"@ {
        Some(ArtifactSlot::Goblet)
    } else     if s == "月桂的宝冠"@ {
        Some(ArtifactSlot::Head)
    } else     if s == "梦中的铁花"@ {
        Some(ArtifactSlot::Flower)
    } else     if s == "裁断的翎羽"@ {
        Some(ArtifactSlot::Feather)
    } else     if s == "沉金的岁月"@ {
        Some(ArtifactSlot::Sand)
    } else     if s == "如蜜的终宴"@ {
        Some(ArtifactSlot::Goblet)
    } else     if s == "沙王的投影"@ {
        Some(ArtifactSlot::Head)
    } else     if s == "月女的华彩"@ {
        Some(ArtifactSlot::Flower)
    } else     if s == "谢落的筵席"@ {
        Some(ArtifactSlot::Feather)
    } else     if s == "凝结的时刻"@ {
        Some(ArtifactSlot::Sand)
    } else     if s == "守秘的魔瓶"@ {
        Some(ArtifactSlot::Goblet)
    } else     if s == "紫晶的花冠"@ {
        Some(ArtifactSlot::Head)
    } else     if s == "众王之都的开端"@ {
        Some(ArtifactSlot::Flower)
    } else     if s == "黄金邦国的结末"@ {
        Some(ArtifactSlot::Feather)
    } else     if s == "失落迷途的机芯"@ {
        Some(ArtifactSlot::Sand)
    } else     if s == "迷醉长梦的守护"@ {
        Some(ArtifactSlot::Goblet)
    } else {
        None
    }
}

pub open spec fn spec_slot_table_e(s: Seq<char>) -> Option<ArtifactSlot> {
    if s == "流沙贵嗣的遗宝"@ {
        Some(ArtifactSlot::Head)
    } else     if s == "旅途中的鲜花"@ {
        Some(ArtifactSlot::Flower)
    } else     if s == "坏巫师的羽杖"@ {
        Some(ArtifactSlot::Feather)
    } else     if s == "水仙的时时刻刻"@ {
        Some(ArtifactSlot::Sand)
    } else     if s == "勇者们的茶会"@ {
        Some(ArtifactSlot::Goblet)
    } else     if s == "恶龙的单片镜"@ {
        Some(ArtifactSlot::Head)
    } else     if s == "灵光源起之蕊"@ {
        Some(ArtifactSlot::Flower)
    } else     if s == "琦色灵彩之羽"@ {
        Some(ArtifactSlot::Feather)
    } else     if s == "久远花落之时"@ {
        Some(ArtifactSlot::Sand)
    } else     if s == "无边酣乐之筵"@ {
        Some(ArtifactSlot::Goblet)
    } else     if s == "灵光明烁之心"@ {
        Some(ArtifactSlot::Head)
    } else     if s == "猎人的胸花"@ {
        Some(ArtifactSlot::Flower)
    } else     if s == "杰作的序曲"@ {
        Some(ArtifactSlot::Feather)
    } else     if s == "裁判的时刻"@ {
        Some(ArtifactSlot::Sand)
    } else     if s == "遗忘的容器"@ {
        Some(ArtifactSlot::Goblet)
    } else     if s == "老兵的容颜"@ {
        Some(ArtifactSlot::Head)
    } else     if s == "黄金乐曲的变奏"@ {
        Some(ArtifactSlot::Flower)
    } else     if s == "黄金飞鸟的落羽"@ {
        Some(ArtifactSlot::Feather)
    } else     if s == "黄金时代的先声"@ {
        Some(ArtifactSlot::Sand)
    } else     if s == "黄金之夜的喧嚣"@ {
        Some(ArtifactSlot::Goblet)
    } else     if s == "黄金剧团的奖赏"@ {
        Some(ArtifactSlot::Head)
    } else     if s == "昔时遗落之誓"@ {
        Some(ArtifactSlot::Flower)
    } else     if s == "昔时浮想之思"@ {
        Some(ArtifactSlot::Feather)
    } else     if s == "昔时回映之音"@ {
        Some(ArtifactSlot::Sand)
    } else     if s == "昔时应许之梦"@ {
        Some(ArtifactSlot::Goblet)
    } else     if s == "昔时传奏之诗"@ {
        Some(ArtifactSlot::Head)
    } else     if s == "无私的妆饰花"@ {
        Some(ArtifactSlot::Flower)
    } else     if s == "诚恳的蘸水笔"@ {
        Some(ArtifactSlot::Feather)
    } else     if s == "忠实的砂时计"@ {
        Some(ArtifactSlot::Sand)
    } else     if s == "慷慨的墨水瓶"@ {
        Some(ArtifactSlot::Goblet)
    } else     if s == "慈爱的淑女帽"@ {
        Some(ArtifactSlot::Head)
    } else     if s == "异想零落的圆舞"@ {
        Some(ArtifactSlot::Head)
    } else     if s == "古海玄幽的夜想"@ {
        Some(ArtifactSlot::Feather)
    } else     if s == "谐律交响的前奏"@ {
        Some(ArtifactSlot::Flower)
    } else     if s == "命途轮转的谐谑"@ {
        Some(ArtifactSlot::Sand)
    } else     if s == "灵露倾洒的狂诗"@ {
        Some(ArtifactSlot::Goblet)
    } else     if s == "失冕的宝冠"@ {
        Some(ArtifactSlot::Head)
    } else     if s == "褪光的翠尾"@ {
        Some(ArtifactSlot::Feather)
    } else     if s == "暗结的明花"@ {
        Some(ArtifactSlot::Flower)
    } else     if s == "举业的识刻"@ {
        Some(ArtifactSlot::Sand)
    } else     if s == "筹谋的共樽"@ {
        Some(ArtifactSlot::Goblet)
    } else {
        None
    }
}

fn slot_table_a(v: &Vec<char>) -> (r: Option<ArtifactSlot>)
    ensures
        r == spec_slot_table_a(v@),
{
    if chars_eq_str(v, "磐陀裂生之花") {
        Some(ArtifactSlot::Flower)
    } else     if chars_eq_str(v, "嵯峨群峰之翼") {
        Some(ArtifactSlot::Feather)
    } else     if chars_eq_str(v, "星罗圭壁之晷") {
        Some(ArtifactSlot::Sand)
    } else     if chars_eq_str(v, "星罗圭璧之晷") {
        Some(ArtifactSlot::Sand)
    } else     if chars_eq_str(v, "巉岩琢塑之樽") {
        Some(ArtifactSlot::Goblet)
    } else     if chars_eq_str(v, "不动玄石之相") {
        Some(ArtifactSlot::Head)
    } else     if chars_eq_str(v, "历经风雪的思念") {
        Some(ArtifactSlot::Flower)
    } else     if chars_eq_str(v, "摧冰而行的执望") {
        Some(ArtifactSlot::Feather)
    } else     if chars_eq_str(v, "冰雪故园的终期") {
        Some(ArtifactSlot::Sand)
    } else     if chars_eq_str(v, "遍结寒霜的傲骨") {
        Some(ArtifactSlot::Goblet)
    } else     if chars_eq_str(v, "破冰踏雪的回音") {
        Some(ArtifactSlot::Head)
    } else     if chars_eq_str(v, "染血的铁之心") {
        Some(ArtifactSlot::Flower)
    } else     if chars_eq_str(v, "染血的黑之羽") {
        Some(ArtifactSlot::Feather)
    } else     if chars_eq_str(v, "骑士染血之时") {
        Some(ArtifactSlot::Sand)
    } else     if chars_eq_str(v, "染血骑士之杯") {
        Some(ArtifactSlot::Goblet)
    } else     if chars_eq_str(v, "染血的铁假面") {
        Some(ArtifactSlot::Head)
    } else     if chars_eq_str(v, "魔女的炎之花") {
        Some(ArtifactSlot::Flower)
    } else     if chars_eq_str(v, "魔女常燃之羽") {
        Some(ArtifactSlot::Feather)
    } else     if chars_eq_str(v, "魔女破灭之时") {
        Some(ArtifactSlot::Sand)
    } else     if chars_eq_str(v, "魔女的心之火") {
        Some(ArtifactSlot::Goblet)
    } else     if chars_eq_str(v, "焦灼的魔女帽") {
        Some(ArtifactSlot::Head)
    } else     if chars_eq_str(v, "角斗士的留恋") {
        Some(ArtifactSlot::Flower)
    } else     if chars_eq_str(v, "角斗士的归宿") {
        Some(ArtifactSlot::Feather)
    } else     if chars_eq_str(v, "角斗士的希冀") {
        Some(ArtifactSlot::Sand)
    } else     if chars_eq_str(v, "角斗士的酣醉") {
        Some(ArtifactSlot::Goblet)
    } else     if chars_eq_str(v, "角斗士的凯旋") {
        Some(ArtifactSlot::Head)
    } else     if chars_eq_str(v, "饰金胸花") {
        Some(ArtifactSlot::Flower)
    } else     if chars_eq_str(v, "追忆之风") {
        Some(ArtifactSlot::Feather)
    } else     if chars_eq_str(v, "坚铜罗盘") {
        Some(ArtifactSlot::Sand)
    } else     if chars_eq_str(v, "沉波之盏") {
        Some(ArtifactSlot::Goblet)
    } else     if chars_eq_str(v, "酒渍船帽") {
        Some(ArtifactSlot::Head)
    } else     if chars_eq_str(v, "渡火者的决绝") {
        Some(ArtifactSlot::Flower)
    } else     if chars_eq_str(v, "渡火者的解脱") {
        Some(ArtifactSlot::Feather)
    } else     if chars_eq_str(v, "渡火者的煎熬") {
        Some(ArtifactSlot::Sand)
    } else     if chars_eq_str(v, "渡火者的醒悟") {
        Some(ArtifactSlot::Goblet)
    } else     if chars_eq_str(v, "渡火者的智慧") {
        Some(ArtifactSlot::Head)
    } else     if chars_eq_str(v, "远方的少女之心") {
        Some(ArtifactSlot::Flower)
    } else     if chars_eq_str(v, "少女飘摇的思念") {
        Some(ArtifactSlot::Feather)
    } else     if chars_eq_str(v, "少女苦短的良辰") {
        Some(ArtifactSlot::Sand)
    } else     if chars_eq_str(v, "少女片刻的闲暇") {
        Some(ArtifactSlot::Goblet)
    } else     if chars_eq_str(v, "少女易逝的芳颜") {
        Some(ArtifactSlot::Head)
    } else     if chars_eq_str(v, "宗室之花") {
        Some(ArtifactSlot::Flower)
    } else     if chars_eq_str(v, "宗室之翎") {
        Some(ArtifactSlot::Feather)
    } else     if chars_eq_str(v, "宗室时计") {
        Some(ArtifactSlot::Sand)
    } else     if chars_eq_str(v, "宗室银瓮") {
        Some(ArtifactSlot::Goblet)
    } else     if chars_eq_str(v, "宗室面具") {
        Some(ArtifactSlot::Head)
    } else     if chars_eq_str(v, "夏祭之花") {
        Some(ArtifactSlot::Flower)
    } else     if chars_eq_str(v, "夏祭终末") {
        Some(ArtifactSlot::Feather)
    } else     if chars_eq_str(v, "夏祭之刻") {
        Some(ArtifactSlot::Sand)
    } else     if chars_eq_str(v, "夏祭水玉") {
        Some(ArtifactSlot::Goblet)
    } else {
        None
    }
}

fn slot_table_b(v: &Vec<char>) -> (r: Option<ArtifactSlot>)
    ensures
        r == spec_slot_table_b(v@),
{
    if chars_eq_str(v, "夏祭之面") {
        Some(ArtifactSlot::Head)
    } else     if chars_eq_str(v, "平雷之心") {
        Some(ArtifactSlot::Flower)
    } else     if chars_eq_str(v, "平雷之羽") {
        Some(ArtifactSlot::Feather)
    } else     if chars_eq_str(v, "平雷之刻") {
        Some(ArtifactSlot::Sand)
    } else     if chars_eq_str(v, "平雷之器") {
        Some(ArtifactSlot::Goblet)
    } else     if chars_eq_str(v, "平雷之冠") {
        Some(ArtifactSlot::Head)
    } else     if chars_eq_str(v, "雷鸟的怜悯") {
        Some(ArtifactSlot::Flower)
    } else     if chars_eq_str(v, "雷灾的孑遗") {
        Some(ArtifactSlot::Feather)
    } else     if chars_eq_str(v, "雷霆的时计") {
        Some(ArtifactSlot::Sand)
    } else     if chars_eq_str(v, "降雷的凶兆") {
        Some(ArtifactSlot::Goblet)
    } else     if chars_eq_str(v, "唤雷的头冠") {
        Some(ArtifactSlot::Head)
    } else     if chars_eq_str(v, "野花记忆的绿野") {
        Some(ArtifactSlot::Flower)
    } else     if chars_eq_str(v, "猎人青翠的箭羽") {
        Some(ArtifactSlot::Feather)
    } else     if chars_eq_str(v, "翠绿猎人的笃定") {
        Some(ArtifactSlot::Sand)
    } else     if chars_eq_str(v, "翠绿猎人的容器") {
        Some(ArtifactSlot::Goblet)
    } else     if chars_eq_str(v, "翠绿的猎人之冠") {
        Some(ArtifactSlot::Head)
    } else     if chars_eq_str(v, "乐团的晨光") {
        Some(ArtifactSlot::Flower)
    } else     if chars_eq_str(v, "琴师的箭羽") {
        Some(ArtifactSlot::Feather)
    } else     if chars_eq_str(v, "终幕的时计") {
        Some(ArtifactSlot::Sand)
    } else     if chars_eq_str(v, "终末的时计") {
        Some(ArtifactSlot::Sand)
    } else     if chars_eq_str(v, "吟游者之壶") {
        Some(ArtifactSlot::Goblet)
    } else     if chars_eq_str(v, "指挥的礼帽") {
        Some(ArtifactSlot::Head)
    } else     if chars_eq_str(v, "战狂的蔷薇") {
        Some(ArtifactSlot::Flower)
    } else     if chars_eq_str(v, "战狂的翎羽") {
        Some(ArtifactSlot::Feather)
    } else     if chars_eq_str(v, "战狂的时计") {
        Some(ArtifactSlot::Sand)
    } else     if chars_eq_str(v, "战狂的骨杯") {
        Some(ArtifactSlot::Goblet)
    } else     if chars_eq_str(v, "战狂的鬼面") {
        Some(ArtifactSlot::Head)
    } else     if chars_eq_str(v, "勇士的勋章") {
        Some(ArtifactSlot::Flower)
    } else     if chars_eq_str(v, "勇士的期许") {
        Some(ArtifactSlot::Feather)
    } else     if chars_eq_str(v, "勇士的坚毅") {
        Some(ArtifactSlot::Sand)
    } else     if chars_eq_str(v, "勇士的壮行") {
        Some(ArtifactSlot::Goblet)
    } else     if chars_eq_str(v, "勇士的冠冕") {
        Some(ArtifactSlot::Head)
    } else     if chars_eq_str(v, "守护之花") {
        Some(ArtifactSlot::Flower)
    } else     if chars_eq_str(v, "守护徽印") {
        Some(ArtifactSlot::Feather)
    } else     if chars_eq_str(v, "守护座钟") {
        Some(ArtifactSlot::Sand)
    } else     if chars_eq_str(v, "守护之皿") {
        Some(ArtifactSlot::Goblet)
    } else     if chars_eq_str(v, "守护束带") {
        Some(ArtifactSlot::Head)
    } else     if chars_eq_str(v, "流放者之花") {
        Some(ArtifactSlot::Flower)
    } else     if chars_eq_str(v, "流放者之羽") {
        Some(ArtifactSlot::Feather)
    } else     if chars_eq_str(v, "流放者怀表") {
        Some(ArtifactSlot::Sand)
    } else     if chars_eq_str(v, "流放者之杯") {
        Some(ArtifactSlot::Goblet)
    } else     if chars_eq_str(v, "流放者头冠") {
        Some(ArtifactSlot::Head)
    } else     if chars_eq_str(v, "赌徒的胸花") {
        Some(ArtifactSlot::Flower)
    } else     if chars_eq_str(v, "赌徒的羽饰") {
        Some(ArtifactSlot::Feather)
    } else     if chars_eq_str(v, "赌徒的怀表") {
        Some(ArtifactSlot::Sand)
    } else     if chars_eq_str(v, "赌徒的骰盅") {
        Some(ArtifactSlot::Goblet)
    } else     if chars_eq_str(v, "赌徒的耳环") {
        Some(ArtifactSlot::Head)
    } else     if chars_eq_str(v, "教官的胸花") {
        Some(ArtifactSlot::Flower)
    } else     if chars_eq_str(v, "教官的羽饰") {
        Some(ArtifactSlot::Feather)
    } else     if chars_eq_str(v, "教官的怀表") {
        Some(ArtifactSlot::Sand)
    } else {
        None
    }
}

fn slot_table_c(v: &Vec<char>) -> (r: Option<ArtifactSlot>)
    ensures
        r == spec_slot_table_c(v@),
{
    if chars_eq_str(v, "教官的茶杯") {
        Some(ArtifactSlot::Goblet)
    } else     if chars_eq_str(v, "教官的帽子") {
        Some(ArtifactSlot::Head)
    } else     if chars_eq_str(v, "武人的红花") {
        Some(ArtifactSlot::Flower)
    } else     if chars_eq_str(v, "武人的羽饰") {
        Some(ArtifactSlot::Feather)
    } else     if chars_eq_str(v, "武人的水漏") {
        Some(ArtifactSlot::Sand)
    } else     if chars_eq_str(v, "武人的酒杯") {
        Some(ArtifactSlot::Goblet)
    } else     if chars_eq_str(v, "武人的头巾") {
        Some(ArtifactSlot::Head)
    } else     if chars_eq_str(v, "祭水礼冠") {
        Some(ArtifactSlot::Head)
    } else     if chars_eq_str(v, "祭火礼冠") {
        Some(ArtifactSlot::Head)
    } else     if chars_eq_str(v, "祭雷礼冠") {
        Some(ArtifactSlot::Head)
    } else     if chars_eq_str(v, "祭冰礼冠") {
        Some(ArtifactSlot::Head)
    } else     if chars_eq_str(v, "故人之心") {
        Some(ArtifactSlot::Flower)
    } else     if chars_eq_str(v, "归乡之羽") {
        Some(ArtifactSlot::Feather)
    } else     if chars_eq_str(v, "逐光之石") {
        Some(ArtifactSlot::Sand)
    } else     if chars_eq_str(v, "异国之盏") {
        Some(ArtifactSlot::Goblet)
    } else     if chars_eq_str(v, "感别之冠") {
        Some(ArtifactSlot::Head)
    } else     if chars_eq_str(v, "学士的书签") {
        Some(ArtifactSlot::Flower)
    } else     if chars_eq_str(v, "学士的羽笔") {
        Some(ArtifactSlot::Feather)
    } else     if chars_eq_str(v, "学士的时钟") {
        Some(ArtifactSlot::Sand)
    } else     if chars_eq_str(v, "学士的墨杯") {
        Some(ArtifactSlot::Goblet)
    } else     if chars_eq_str(v, "学士的镜片") {
        Some(ArtifactSlot::Head)
    } else     if chars_eq_str(v, "奇迹之花") {
        Some(ArtifactSlot::Flower)
    } else     if chars_eq_str(v, "奇迹之羽") {
        Some(ArtifactSlot::Feather)
    } else     if chars_eq_str(v, "奇迹之沙") {
        Some(ArtifactSlot::Sand)
    } else     if chars_eq_str(v, "奇迹之杯") {
        Some(ArtifactSlot::Goblet)
    } else     if chars_eq_str(v, "奇迹耳坠") {
        Some(ArtifactSlot::Head)
    } else     if chars_eq_str(v, "冒险家之花") {
        Some(ArtifactSlot::Flower)
    } else     if chars_eq_str(v, "冒险家尾羽") {
        Some(ArtifactSlot::Feather)
    } else     if chars_eq_str(v, "冒险家怀表") {
        Some(ArtifactSlot::Sand)
    } else     if chars_eq_str(v, "冒险家金杯") {
        Some(ArtifactSlot::Goblet)
    } else     if chars_eq_str(v, "冒险家头带") {
        Some(ArtifactSlot::Head)
    } else     if chars_eq_str(v, "幸运儿绿花") {
        Some(ArtifactSlot::Flower)
    } else     if chars_eq_str(v, "幸运儿鹰羽") {
        Some(ArtifactSlot::Feather)
    } else     if chars_eq_str(v, "幸运儿沙漏") {
        Some(ArtifactSlot::Sand)
    } else     if chars_eq_str(v, "幸运儿之杯") {
        Some(ArtifactSlot::Goblet)
    } else     if chars_eq_str(v, "幸运儿银冠") {
        Some(ArtifactSlot::Head)
    } else     if chars_eq_str(v, "游医的银莲") {
        Some(ArtifactSlot::Flower)
    } else     if chars_eq_str(v, "游医的枭羽") {
        Some(ArtifactSlot::Feather)
    } else     if chars_eq_str(v, "游医的怀钟") {
        Some(ArtifactSlot::Sand)
    } else     if chars_eq_str(v, "游医的药壶") {
        Some(ArtifactSlot::Goblet)
    } else     if chars_eq_str(v, "游医的方巾") {
        Some(ArtifactSlot::Head)
    } else     if chars_eq_str(v, "勋绩之花") {
        Some(ArtifactSlot::Flower)
    } else     if chars_eq_str(v, "昭武翎羽") {
        Some(ArtifactSlot::Feather)
    } else     if chars_eq_str(v, "金铜时晷") {
        Some(ArtifactSlot::Sand)
    } else     if chars_eq_str(v, "盟誓金爵") {
        Some(ArtifactSlot::Goblet)
    } else     if chars_eq_str(v, "将帅兜鍪") {
        Some(ArtifactSlot::Head)
    } else     if chars_eq_str(v, "无垢之花") {
        Some(ArtifactSlot::Flower)
    } else     if chars_eq_str(v, "贤医之羽") {
        Some(ArtifactSlot::Feather)
    } else     if chars_eq_str(v, "停摆之刻") {
        Some(ArtifactSlot::Sand)
    } else     if chars_eq_str(v, "超越之盏") {
        Some(ArtifactSlot::Goblet)
    } else {
        None
    }
}

fn slot_table_d(v: &Vec<char>) -> (r: Option<ArtifactSlot>)
    ensures
        r == spec_slot_table_d(v@),
{
    if chars_eq_str(v, "嗤笑之面") {
        Some(ArtifactSlot::Head)
    } else     if chars_eq_str(v, "明威之镡") {
        Some(ArtifactSlot::Flower)
    } else     if chars_eq_str(v, "切落之羽") {
        Some(ArtifactSlot::Feather)
    } else     if chars_eq_str(v, "雷云之笼") {
        Some(ArtifactSlot::Sand)
    } else     if chars_eq_str(v, "绯花之壶") {
        Some(ArtifactSlot::Goblet)
    } else     if chars_eq_str(v, "华饰之兜") {
        Some(ArtifactSlot::Head)
    } else     if chars_eq_str(v, "羁缠之花") {
        Some(ArtifactSlot::Flower)
    } else     if chars_eq_str(v, "思忆之矢") {
        Some(ArtifactSlot::Feather)
    } else     if chars_eq_str(v, "朝露之时") {
        Some(ArtifactSlot::Sand)
    } else     if chars_eq_str(v, "祈望之心") {
        Some(ArtifactSlot::Goblet)
    } else     if chars_eq_str(v, "无常之面") {
        Some(ArtifactSlot::Head)
    } else     if chars_eq_str(v, "荣花之期") {
        Some(ArtifactSlot::Flower)
    } else     if chars_eq_str(v, "华馆之羽") {
        Some(ArtifactSlot::Feather)
    } else     if chars_eq_str(v, "众生之谣") {
        Some(ArtifactSlot::Sand)
    } else     if chars_eq_str(v, "梦醒之瓢") {
        Some(ArtifactSlot::Goblet)
    } else     if chars_eq_str(v, "形骸之笠") {
        Some(ArtifactSlot::Head)
    } else     if chars_eq_str(v, "海染之花") {
        Some(ArtifactSlot::Flower)
    } else     if chars_eq_str(v, "渊宫之羽") {
        Some(ArtifactSlot::Feather)
    } else     if chars_eq_str(v, "离别之贝") {
        Some(ArtifactSlot::Sand)
    } else     if chars_eq_str(v, "真珠之笼") {
        Some(ArtifactSlot::Goblet)
    } else     if chars_eq_str(v, "海祇之冠") {
        Some(ArtifactSlot::Head)
    } else     if chars_eq_str(v, "生灵之华") {
        Some(ArtifactSlot::Flower)
    } else     if chars_eq_str(v, "阳辔之遗") {
        Some(ArtifactSlot::Sand)
    } else     if chars_eq_str(v, "潜光片羽") {
        Some(ArtifactSlot::Feather)
    } else     if chars_eq_str(v, "结契之刻") {
        Some(ArtifactSlot::Goblet)
    } else     if chars_eq_str(v, "虺雷之姿") {
        Some(ArtifactSlot::Head)
    } else     if chars_eq_str(v, "魂香之花") {
        Some(ArtifactSlot::Flower)
    } else     if chars_eq_str(v, "祝祀之凭") {
        Some(ArtifactSlot::Sand)
    } else     if chars_eq_str(v, "垂玉之叶") {
        Some(ArtifactSlot::Feather)
    } else     if chars_eq_str(v, "涌泉之盏") {
        Some(ArtifactSlot::Goblet)
    } else     if chars_eq_str(v, "浮溯之珏") {
        Some(ArtifactSlot::Head)
    } else     if chars_eq_str(v, "迷宫的游人") {
        Some(ArtifactSlot::Flower)
    } else     if chars_eq_str(v, "翠蔓的智者") {
        Some(ArtifactSlot::Feather)
    } else     if chars_eq_str(v, "贤智的定期") {
        Some(ArtifactSlot::Sand)
    } else     if chars_eq_str(v, "迷误者之灯") {
        Some(ArtifactSlot::Goblet)
    } else     if chars_eq_str(v, "月桂的宝冠") {
        Some(ArtifactSlot::Head)
    } else     if chars_eq_str(v, "梦中的铁花") {
        Some(ArtifactSlot::Flower)
    } else     if chars_eq_str(v, "裁断的翎羽") {
        Some(ArtifactSlot::Feather)
    } else     if chars_eq_str(v, "沉金的岁月") {
        Some(ArtifactSlot::Sand)
    } else     if chars_eq_str(v, "如蜜的终宴") {
        Some(ArtifactSlot::Goblet)
    } else     if chars_eq_str(v, "沙王的投影") {
        Some(ArtifactSlot::Head)
    } else     if chars_eq_str(v, "月女的华彩") {
        Some(ArtifactSlot::Flower)
    } else     if chars_eq_str(v, "谢落的筵席") {
        Some(ArtifactSlot::Feather)
    } else     if chars_eq_str(v, "凝结的时刻") {
        Some(ArtifactSlot::Sand)
    } else     if chars_eq_str(v, "守秘的魔瓶") {
        Some(ArtifactSlot::Goblet)
    } else     if chars_eq_str(v, "紫晶的花冠") {
        Some(ArtifactSlot::Head)
    } else     if chars_eq_str(v, "众王之都的开端") {
        Some(ArtifactSlot::Flower)
    } else     if chars_eq_str(v, "黄金邦国的结末") {
        Some(ArtifactSlot::Feather)
    } else     if chars_eq_str(v, "失落迷途的机芯") {
        Some(ArtifactSlot::Sand)
    } else     if chars_eq_str(v, "迷醉长梦的守护") {
        Some(ArtifactSlot::Goblet)
    } else {
        None
    }
}

fn slot_table_e(v: &Vec<char>) -> (r: Option<ArtifactSlot>)
    ensures
        r == spec_slot_table_e(v@),
{
    if chars_eq_str(v, "流沙贵嗣的遗宝") {
        Some(ArtifactSlot::Head)
    } else     if chars_eq_str(v, "旅途中的鲜花") {
        Some(ArtifactSlot::Flower)
    } else     if chars_eq_str(v, "坏巫师的羽杖") {
        Some(ArtifactSlot::Feather)
    } else     if chars_eq_str(v, "水仙的时时刻刻") {
        Some(ArtifactSlot::Sand)
    } else     if chars_eq_str(v, "勇者们的茶会") {
        Some(ArtifactSlot::Goblet)
    } else     if chars_eq_str(v, "恶龙的单片镜") {
        Some(ArtifactSlot::Head)
    } else     if chars_eq_str(v, "灵光源起之蕊") {
        Some(ArtifactSlot::Flower)
    } else     if chars_eq_str(v, "琦色灵彩之羽") {
        Some(ArtifactSlot::Feather)
    } else     if chars_eq_str(v, "久远花落之时") {
        Some(ArtifactSlot::Sand)
    } else     if chars_eq_str(v, "无边酣乐之筵") {
        Some(ArtifactSlot::Goblet)
    } else     if chars_eq_str(v, "灵光明烁之心") {
        Some(ArtifactSlot::Head)
    } else     if chars_eq_str(v, "猎人的胸花") {
        Some(ArtifactSlot::Flower)
    } else     if chars_eq_str(v, "杰作的序曲") {
        Some(ArtifactSlot::Feather)
    } else     if chars_eq_str(v, "裁判的时刻") {
        Some(ArtifactSlot::Sand)
    } else     if chars_eq_str(v, "遗忘的容器") {
        Some(ArtifactSlot::Goblet)
    } else     if chars_eq_str(v, "老兵的容颜") {
        Some(ArtifactSlot::Head)
    } else     if chars_eq_str(v, "黄金乐曲的变奏") {
        Some(ArtifactSlot::Flower)
    } else     if chars_eq_str(v, "黄金飞鸟的落羽") {
        Some(ArtifactSlot::Feather)
    } else     if chars_eq_str(v, "黄金时代的先声") {
        Some(ArtifactSlot::Sand)
    } else     if chars_eq_str(v, "黄金之夜的喧嚣") {
        Some(ArtifactSlot::Goblet)
    } else     if chars_eq_str(v, "黄金剧团的奖赏") {
        Some(ArtifactSlot::Head)
    } else     if chars_eq_str(v, "昔时遗落之誓") {
        Some(ArtifactSlot::Flower)
    } else     if chars_eq_str(v, "昔时浮想之思") {
        Some(ArtifactSlot::Feather)
    } else     if chars_eq_str(v, "昔时回映之音") {
        Some(ArtifactSlot::Sand)
    } else     if chars_eq_str(v, "昔时应许之梦") {
        Some(ArtifactSlot::Goblet)
    } else     if chars_eq_str(v, "昔时传奏之诗") {
        Some(ArtifactSlot::Head)
    } else     if chars_eq_str(v, "无私的妆饰花") {
        Some(ArtifactSlot::Flower)
    } else     if chars_eq_str(v, "诚恳的蘸水笔") {
        Some(ArtifactSlot::Feather)
    } else     if chars_eq_str(v, "忠实的砂时计") {
        Some(ArtifactSlot::Sand)
    } else     if chars_eq_str(v, "慷慨的墨水瓶") {
        Some(ArtifactSlot::Goblet)
    } else     if chars_eq_str(v, "慈爱的淑女帽") {
        Some(ArtifactSlot::Head)
    } else     if chars_eq_str(v, "异想零落的圆舞") {
        Some(ArtifactSlot::Head)
    } else     if chars_eq_str(v, "古海玄幽的夜想") {
        Some(ArtifactSlot::Feather)
    } else     if chars_eq_str(v, "谐律交响的前奏") {
        Some(ArtifactSlot::Flower)
    } else     if chars_eq_str(v, "命途轮转的谐谑") {
        Some(ArtifactSlot::Sand)
    } else     if chars_eq_str(v, "灵露倾洒的狂诗") {
        Some(ArtifactSlot::Goblet)
    } else     if chars_eq_str(v, "失冕的宝冠") {
        Some(ArtifactSlot::Head)
    } else     if chars_eq_str(v, "褪光的翠尾") {
        Some(ArtifactSlot::Feather)
    } else     if chars_eq_str(v, "暗结的明花") {
        Some(ArtifactSlot::Flower)
    } else     if chars_eq_str(v, "举业的识刻") {
        Some(ArtifactSlot::Sand)
    } else     if chars_eq_str(v, "筹谋的共樽") {
        Some(ArtifactSlot::Goblet)
    } else {
        None
    }
}

pub open spec fn spec_slot_of(s: Seq<char>) -> Option<ArtifactSlot> {
    match spec_slot_table_a(s) {
        Some(v) => Some(v),
        None => match spec_slot_table_b(s) {
            Some(v) => Some(v),
            None => match spec_slot_table_c(s) {
                Some(v) => Some(v),
                None => match spec_slot_table_d(s) {
                    Some(v) => Some(v),
                    None => match spec_slot_table_e(s) {
                        Some(v) => Some(v),
                        None => None,
                    },
                },
            },
        },
    }
}

fn slot_lookup(v: &Vec<char>) -> (r: Option<ArtifactSlot>)
    ensures
        r == spec_slot_of(v@),
{
    match slot_table_a(v) {
        Some(x) => Some(x),
        None => match slot_table_b(v) {
            Some(x) => Some(x),
            None => match slot_table_c(v) {
                Some(x) => Some(x),
                None => match slot_table_d(v) {
                    Some(x) => Some(x),
                    None => match slot_table_e(v) {
                        Some(x) => Some(x),
                        None => None,
                    },
                },
            },
        },
    }
}

pub open spec fn spec_set_name_table_a(s: Seq<char>) -> Option<ArtifactSetName> {
    if s == "磐陀裂生之花"@ {
        Some(ArtifactSetName::ArchaicPetra)
    } else     if s == "嵯峨群峰之翼"@ {
        Some(ArtifactSetName::ArchaicPetra)
    } else     if s == "星罗圭壁之晷"@ {
        Some(ArtifactSetName::ArchaicPetra)
    } else     if s == "星罗圭璧之晷"@ {
        Some(ArtifactSetName::ArchaicPetra)
    } else     if s == "巉岩琢塑之樽"@ {
        Some(ArtifactSetName::ArchaicPetra)
    } else     if s == "不动玄石之相"@ {
        Some(ArtifactSetName::ArchaicPetra)
    } else     if s == "历经风雪的思念"@ {
        Some(ArtifactSetName::BlizzardStrayer)
    } else     if s == "摧冰而行的执望"@ {
        Some(ArtifactSetName::BlizzardStrayer)
    } else     if s == "冰雪故园的终期"@ {
        Some(ArtifactSetName::BlizzardStrayer)
    } else     if s == "遍结寒霜的傲骨"@ {
        Some(ArtifactSetName::BlizzardStrayer)
    } else     if s == "破冰踏雪的回音"@ {
        Some(ArtifactSetName::BlizzardStrayer)
    } else     if s == "染血的铁之心"@ {
        Some(ArtifactSetName::BloodstainedChivalry)
    } else     if s == "染血的黑之羽"@ {
        Some(ArtifactSetName::BloodstainedChivalry)
    } else     if s == "骑士染血之时"@ {
        Some(ArtifactSetName::BloodstainedChivalry)
    } else     if s == "染血骑士之杯"@ {
        Some(ArtifactSetName::BloodstainedChivalry)
    } else     if s == "染血的铁假面"@ {
        Some(ArtifactSetName::BloodstainedChivalry)
    } else     if s == "魔女的炎之花"@ {
        Some(ArtifactSetName::CrimsonWitch)
    } else     if s == "魔女常燃之羽"@ {
        Some(ArtifactSetName::CrimsonWitch)
    } else     if s == "魔女破灭之时"@ {
        Some(ArtifactSetName::CrimsonWitch)
    } else     if s == "魔女的心之火"@ {
        Some(ArtifactSetName::CrimsonWitch)
    } else     if s == "焦灼的魔女帽"@ {
        Some(ArtifactSetName::CrimsonWitch)
    } else     if s == "角斗士的留恋"@ {
        Some(ArtifactSetName::GladiatorFinale)
    } else     if s == "角斗士的归宿"@ {
        Some(ArtifactSetName::GladiatorFinale)
    } else     if s == "角斗士的希冀"@ {
        Some(ArtifactSetName::GladiatorFinale)
    } else     if s == "角斗士的酣醉"@ {
        Some(ArtifactSetName::GladiatorFinale)
    } else     if s == "角斗士的凯旋"@ {
        Some(ArtifactSetName::GladiatorFinale)
    } else     if s == "饰金胸花"@ {
        Some(ArtifactSetName::HeartOfDepth)
    } else     if s == "追忆之风"@ {
        Some(ArtifactSetName::HeartOfDepth)
    } else     if s == "坚铜罗盘"@ {
        Some(ArtifactSetName::HeartOfDepth)
    } else     if s == "沉波之盏"@ {
        Some(ArtifactSetName::HeartOfDepth)
    } else     if s == "酒渍船帽"@ {
        Some(ArtifactSetName::HeartOfDepth)
    } else     if s == "渡火者的决绝"@ {
        Some(ArtifactSetName::LavaWalker)
    } else     if s == "渡火者的解脱"@ {
        Some(ArtifactSetName::LavaWalker)
    } else     if s == "渡火者的煎熬"@ {
        Some(ArtifactSetName::LavaWalker)
    } else     if s == "渡火者的醒悟"@ {
        Some(ArtifactSetName::LavaWalker)
    } else     if s == "渡火者的智慧"@ {
        Some(ArtifactSetName::LavaWalker)
    } else     if s == "远方的少女之心"@ {
        Some(ArtifactSetName::MaidenBeloved)
    } else     if s == "少女飘摇的思念"@ {
        Some(ArtifactSetName::MaidenBeloved)
    } else     if s == "少女苦短的良辰"@ {
        Some(ArtifactSetName::MaidenBeloved)
    } else     if s == "少女片刻的闲暇"@ {
        Some(ArtifactSetName::MaidenBeloved)
    } else     if s == "少女易逝的芳颜"@ {
        Some(ArtifactSetName::MaidenBeloved)
    } else     if s == "宗室之花"@ {
        Some(ArtifactSetName::NoblesseOblige)
    } else     if s == "宗室之翎"@ {
        Some(ArtifactSetName::NoblesseOblige)
    } else     if s == "宗室时计"@ {
        Some(ArtifactSetName::NoblesseOblige)
    } else     if s == "宗室银瓮"@ {
        Some(ArtifactSetName::NoblesseOblige)
    } else     if s == "宗室面具"@ {
        Some(ArtifactSetName::NoblesseOblige)
    } else     if s == "夏祭之花"@ {
        Some(ArtifactSetName::RetracingBolide)
    } else     if s == "夏祭终末"@ {
        Some(ArtifactSetName::RetracingBolide)
    } else     if s == "夏祭之刻"@ {
        Some(ArtifactSetName::RetracingBolide)
    } else     if s == "夏祭水玉"@ {
        Some(ArtifactSetName::RetracingBolide)
    } else {
        None
    }
}

pub open spec fn spec_set_name_table_b(s: Seq<char>) -> Option<ArtifactSetName> {
    if s == "夏祭之面"@ {
        Some(ArtifactSetName::RetracingBolide)
    } else     if s == "平雷之心"@ {
        Some(ArtifactSetName::ThunderSmoother)
    } else     if s == "平雷之羽"@ {
        Some(ArtifactSetName::ThunderSmoother)
    } else     if s == "平雷之刻"@ {
        Some(ArtifactSetName::ThunderSmoother)
    } else     if s == "平雷之器"@ {
        Some(ArtifactSetName::ThunderSmoother)
    } else     if s == "平雷之冠"@ {
        Some(ArtifactSetName::ThunderSmoother)
    } else     if s == "雷鸟的怜悯"@ {
        Some(ArtifactSetName::ThunderingFury)
    } else     if s == "雷灾的孑遗"@ {
        Some(ArtifactSetName::ThunderingFury)
    } else     if s == "雷霆的时计"@ {
        Some(ArtifactSetName::ThunderingFury)
    } else     if s == "降雷的凶兆"@ {
        Some(ArtifactSetName::ThunderingFury)
    } else     if s == "唤雷的头冠"@ {
        Some(ArtifactSetName::ThunderingFury)
    } else     if s == "野花记忆的绿野"@ {
        Some(ArtifactSetName::ViridescentVenerer)
    } else     if s == "猎人青翠的箭羽"@ {
        Some(ArtifactSetName::ViridescentVenerer)
    } else     if s == "翠绿猎人的笃定"@ {
        Some(ArtifactSetName::ViridescentVenerer)
    } else     if s == "翠绿猎人的容器"@ {
        Some(ArtifactSetName::ViridescentVenerer)
    } else     if s == "翠绿的猎人之冠"@ {
        Some(ArtifactSetName::ViridescentVenerer)
    } else     if s == "乐团的晨光"@ {
        Some(ArtifactSetName::WandererTroupe)
    } else     if s == "琴师的箭羽"@ {
        Some(ArtifactSetName::WandererTroupe)
    } else     if s == "终幕的时计"@ {
        Some(ArtifactSetName::WandererTroupe)
    } else     if s == "终末的时计"@ {
        Some(ArtifactSetName::WandererTroupe)
    } else     if s == "吟游者之壶"@ {
        Some(ArtifactSetName::WandererTroupe)
    } else     if s == "指挥的礼帽"@ {
        Some(ArtifactSetName::WandererTroupe)
    } else     if s == "战狂的蔷薇"@ {
        Some(ArtifactSetName::Berserker)
    } else     if s == "战狂的翎羽"@ {
        Some(ArtifactSetName::Berserker)
    } else     if s == "战狂的时计"@ {
        Some(ArtifactSetName::Berserker)
    } else     if s == "战狂的骨杯"@ {
        Some(ArtifactSetName::Berserker)
    } else     if s == "战狂的鬼面"@ {
        Some(ArtifactSetName::Berserker)
    } else     if s == "勇士的勋章"@ {
        Some(ArtifactSetName::BraveHeart)
    } else     if s == "勇士的期许"@ {
        Some(ArtifactSetName::BraveHeart)
    } else     if s == "勇士的坚毅"@ {
        Some(ArtifactSetName::BraveHeart)
    } else     if s == "勇士的壮行"@ {
        Some(ArtifactSetName::BraveHeart)
    } else     if s == "勇士的冠冕"@ {
        Some(ArtifactSetName::BraveHeart)
    } else     if s == "守护之花"@ {
        Some(ArtifactSetName::DefenderWill)
    } else     if s == "守护徽印"@ {
        Some(ArtifactSetName::DefenderWill)
    } else     if s == "守护座钟"@ {
        Some(ArtifactSetName::DefenderWill)
    } else     if s == "守护之皿"@ {
        Some(ArtifactSetName::DefenderWill)
    } else     if s == "守护束带"@ {
        Some(ArtifactSetName::DefenderWill)
    } else     if s == "流放者之花"@ {
        Some(ArtifactSetName::Exile)
    } else     if s == "流放者之羽"@ {
        Some(ArtifactSetName::Exile)
    } else     if s == "流放者怀表"@ {
        Some(ArtifactSetName::Exile)
    } else     if s == "流放者之杯"@ {
        Some(ArtifactSetName::Exile)
    } else     if s == "流放者头冠"@ {
        Some(ArtifactSetName::Exile)
    } else     if s == "赌徒的胸花"@ {
        Some(ArtifactSetName::Gambler)
    } else     if s == "赌徒的羽饰"@ {
        Some(ArtifactSetName::Gambler)
    } else     if s == "赌徒的怀表"@ {
        Some(ArtifactSetName::Gambler)
    } else     if s == "赌徒的骰盅"@ {
        Some(ArtifactSetName::Gambler)
    } else     if s == "赌徒的耳环"@ {
        Some(ArtifactSetName::Gambler)
    } else     if s == "教官的胸花"@ {
        Some(ArtifactSetName::Instructor)
    } else     if s == "教官的羽饰"@ {
        Some(ArtifactSetName::Instructor)
    } else     if s == "教官的怀表"@ {
        Some(ArtifactSetName::Instructor)
    } else {
        None
    }
}

pub open spec fn spec_set_name_table_c(s: Seq<char>) -> Option<ArtifactSetName> {
    if s == "教官的茶杯"@ {
        Some(ArtifactSetName::Instructor)
    } else     if s == "教官的帽子"@ {
        Some(ArtifactSetName::Instructor)
    } else     if s == "武人的红花"@ {
        Some(ArtifactSetName::MartialArtist)
    } else     if s == "武人的羽饰"@ {
        Some(ArtifactSetName::MartialArtist)
    } else     if s == "武人的水漏"@ {
        Some(ArtifactSetName::MartialArtist)
    } else     if s == "武人的酒杯"@ {
        Some(ArtifactSetName::MartialArtist)
    } else     if s == "武人的头巾"@ {
        Some(ArtifactSetName::MartialArtist)
    } else     if s == "祭水礼冠"@ {
        Some(ArtifactSetName::PrayersForDestiny)
    } else     if s == "祭火礼冠"@ {
        Some(ArtifactSetName::PrayersForIllumination)
    } else     if s == "祭雷礼冠"@ {
        Some(ArtifactSetName::PrayersForWisdom)
    } else     if s == "祭冰礼冠"@ {
        Some(ArtifactSetName::PrayersToSpringtime)
    } else     if s == "故人之心"@ {
        Some(ArtifactSetName::ResolutionOfSojourner)
    } else     if s == "归乡之羽"@ {
        Some(ArtifactSetName::ResolutionOfSojourner)
    } else     if s == "逐光之石"@ {
        Some(ArtifactSetName::ResolutionOfSojourner)
    } else     if s == "异国之盏"@ {
        Some(ArtifactSetName::ResolutionOfSojourner)
    } else     if s == "感别之冠"@ {
        Some(ArtifactSetName::ResolutionOfSojourner)
    } else     if s == "学士的书签"@ {
        Some(ArtifactSetName::Scholar)
    } else     if s == "学士的羽笔"@ {
        Some(ArtifactSetName::Scholar)
    } else     if s == "学士的时钟"@ {
        Some(ArtifactSetName::Scholar)
    } else     if s == "学士的墨杯"@ {
        Some(ArtifactSetName::Scholar)
    } else     if s == "学士的镜片"@ {
        Some(ArtifactSetName::Scholar)
    } else     if s == "奇迹之花"@ {
        Some(ArtifactSetName::TinyMiracle)
    } else     if s == "奇迹之羽"@ {
        Some(ArtifactSetName::TinyMiracle)
    } else     if s == "奇迹之沙"@ {
        Some(ArtifactSetName::TinyMiracle)
    } else     if s == "奇迹之杯"@ {
        Some(ArtifactSetName::TinyMiracle)
    } else     if s == "奇迹耳坠"@ {
        Some(ArtifactSetName::TinyMiracle)
    } else     if s == "冒险家之花"@ {
        Some(ArtifactSetName::Adventurer)
    } else     if s == "冒险家尾羽"@ {
        Some(ArtifactSetName::Adventurer)
    } else     if s == "冒险家怀表"@ {
        Some(ArtifactSetName::Adventurer)
    } else     if s == "冒险家金杯"@ {
        Some(ArtifactSetName::Adventurer)
    } else     if s == "冒险家头带"@ {
        Some(ArtifactSetName::Adventurer)
    } else     if s == "幸运儿绿花"@ {
        Some(ArtifactSetName::LuckyDog)
    } else     if s == "幸运儿鹰羽"@ {
        Some(ArtifactSetName::LuckyDog)
    } else     if s == "幸运儿沙漏"@ {
        Some(ArtifactSetName::LuckyDog)
    } else     if s == "幸运儿之杯"@ {
        Some(ArtifactSetName::LuckyDog)
    } else     if s == "幸运儿银冠"@ {
        Some(ArtifactSetName::LuckyDog)
    } else     if s == "游医的银莲"@ {
        Some(ArtifactSetName::TravelingDoctor)
    } else     if s == "游医的枭羽"@ {
        Some(ArtifactSetName::TravelingDoctor)
    } else     if s == "游医的怀钟"@ {
        Some(ArtifactSetName::TravelingDoctor)
    } else     if s == "游医的药壶"@ {
        Some(ArtifactSetName::TravelingDoctor)
    } else     if s == "游医的方巾"@ {
        Some(ArtifactSetName::TravelingDoctor)
    } else     if s == "勋绩之花"@ {
        Some(ArtifactSetName::TenacityOfTheMillelith)
    } else     if s == "昭武翎羽"@ {
        Some(ArtifactSetName::TenacityOfTheMillelith)
    } else     if s == "金铜时晷"@ {
        Some(ArtifactSetName::TenacityOfTheMillelith)
    } else     if s == "盟誓金爵"@ {
        Some(ArtifactSetName::TenacityOfTheMillelith)
    } else     if s == "将帅兜鍪"@ {
        Some(ArtifactSetName::TenacityOfTheMillelith)
    } else     if s == "无垢之花"@ {
        Some(ArtifactSetName::PaleFlame)
    } else     if s == "贤医之羽"@ {
        Some(ArtifactSetName::PaleFlame)
    } else     if s == "停摆之刻"@ {
        Some(ArtifactSetName::PaleFlame)
    } else     if s == "超越之盏"@ {
        Some(ArtifactSetName::PaleFlame)
    } else {
        None
    }
}

pub open spec fn spec_set_name_table_d(s: Seq<char>) -> Option<ArtifactSetName> {
    if s == "嗤笑之面"@ {
        Some(ArtifactSetName::PaleFlame)
    } else     if s == "明威之镡"@ {
        Some(ArtifactSetName::EmblemOfSeveredFate)
    } else     if s == "切落之羽"@ {
        Some(ArtifactSetName::EmblemOfSeveredFate)
    } else     if s == "雷云之笼"@ {
        Some(ArtifactSetName::EmblemOfSeveredFate)
    } else     if s == "绯花之壶"@ {
        Some(ArtifactSetName::EmblemOfSeveredFate)
    } else     if s == "华饰之兜"@ {
        Some(ArtifactSetName::EmblemOfSeveredFate)
    } else     if s == "羁缠之花"@ {
        Some(ArtifactSetName::ShimenawaReminiscence)
    } else     if s == "思忆之矢"@ {
        Some(ArtifactSetName::ShimenawaReminiscence)
    } else     if s == "朝露之时"@ {
        Some(ArtifactSetName::ShimenawaReminiscence)
    } else     if s == "祈望之心"@ {
        Some(ArtifactSetName::ShimenawaReminiscence)
    } else     if s == "无常之面"@ {
        Some(ArtifactSetName::ShimenawaReminiscence)
    } else     if s == "荣花之期"@ {
        Some(ArtifactSetName::HuskOfOpulentDreams)
    } else     if s == "华馆之羽"@ {
        Some(ArtifactSetName::HuskOfOpulentDreams)
    } else     if s == "众生之谣"@ {
        Some(ArtifactSetName::HuskOfOpulentDreams)
    } else     if s == "梦醒之瓢"@ {
        Some(ArtifactSetName::HuskOfOpulentDreams)
    } else     if s == "形骸之笠"@ {
        Some(ArtifactSetName::HuskOfOpulentDreams)
    } else     if s == "海染之花"@ {
        Some(ArtifactSetName::OceanHuedClam)
    } else     if s == "渊宫之羽"@ {
        Some(ArtifactSetName::OceanHuedClam)
    } else     if s == "离别之贝"@ {
        Some(ArtifactSetName::OceanHuedClam)
    } else     if s == "真珠之笼"@ {
        Some(ArtifactSetName::OceanHuedClam)
    } else     if s == "海祇之冠"@ {
        Some(ArtifactSetName::OceanHuedClam)
    } else     if s == "生灵之华"@ || s == "阳辔之遗"@ || s == "潜光片羽"@ || s == "结契之刻"@ || s == "虺雷之姿"@ {
        Some(ArtifactSetName::VermillionHereafter)
    } else     if s == "魂香之花"@ || s == "祝祀之凭"@ || s == "垂玉之叶"@ || s == "涌泉之盏"@ || s == "浮溯之珏"@ {
        Some(ArtifactSetName::EchoesOfAnOffering)
    } else     if s == "迷宫的游人"@ || s == "翠蔓的智者"@ || s == "贤智的定期"@ || s == "迷误者之灯"@ || s == "月桂的宝冠"@ {
        Some(ArtifactSetName::DeepwoodMemories)
    } else     if s == "梦中的铁花"@ || s == "裁断的翎羽"@ || s == "沉金的岁月"@ || s == "如蜜的终宴"@ || s == "沙王的投影"@ {
        Some(ArtifactSetName::GildedDreams)
    } else     if s == "月女的华彩"@ || s == "谢落的筵席"@ || s == "凝结的时刻"@ || s == "守秘的魔瓶"@ || s == "紫晶的花冠"@ {
        Some(ArtifactSetName::FlowerOfParadiseLost)
    } else     if s == "众王之都的开端"@ || s == "黄金邦国的结末"@ || s == "失落迷途的机芯"@ || s == "迷醉长梦的守护"@ || s == "流沙贵嗣的遗宝"@ {
        Some(ArtifactSetName::DesertPavilionChronicle)
    } else     if s == "恶龙的单片镜"@ || s == "坏巫师的羽杖"@ || s == "旅途中的鲜花"@ || s == "水仙的时时刻刻"@ || s == "勇者们的茶会"@ {
        Some(ArtifactSetName::NymphsDream)
    } else     if s == "灵光明烁之心"@ || s == "琦色灵彩之羽"@ || s == "灵光源起之蕊"@ || s == "久远花落之时"@ || s == "无边酣乐之筵"@ {
        Some(ArtifactSetName::VourukashasGlow)
    } else     if s == "猎人的胸花"@ || s == "杰作的序曲"@ || s == "裁判的时刻"@ || s == "遗忘的容器"@ || s == "老兵的容颜"@ {
        Some(ArtifactSetName::MarechausseeHunter)
    } else     if s == "黄金乐曲的变奏"@ || s == "黄金飞鸟的落羽"@ || s == "黄金时代的先声"@ || s == "黄金之夜的喧嚣"@ || s == "黄金剧团的奖赏"@ {
        Some(ArtifactSetName::GoldenTroupe)
    } else     if s == "昔时传奏之诗"@ || s == "昔时浮想之思"@ || s == "昔时遗落之誓"@ || s == "昔时回映之音"@ || s == "昔时应许之梦"@ {
        Some(ArtifactSetName::SongOfDaysPast)
    } else     if s == "慈爱的淑女帽"@ || s == "诚恳的蘸水笔"@ || s == "无私的妆饰花"@ || s == "忠实的砂时计"@ || s == "慷慨的墨水瓶"@ {
        Some(ArtifactSetName::NighttimeWhispersInTheEchoingWoods)
    } else     if s == "异想零落的圆舞"@ || s == "古海玄幽的夜想"@ || s == "谐律交响的前奏"@ || s == "命途轮转的谐谑"@ || s == "灵露倾洒的狂诗"@ {
        Some(ArtifactSetName::FragmentOfHarmonicWhimsy)
    } else     if s == "失冕的宝冠"@ || s == "褪光的翠尾"@ || s == "暗结的明花"@ || s == "举业的识刻"@ || s == "筹谋的共樽"@ {
        Some(ArtifactSetName::UnfinishedReverie)
    } else {
        None
    }
}

fn set_name_table_a(v: &Vec<char>) -> (r: Option<ArtifactSetName>)
    ensures
        r == spec_set_name_table_a(v@),
{
    if chars_eq_str(v, "磐陀裂生之花") {
        Some(ArtifactSetName::ArchaicPetra)
    } else     if chars_eq_str(v, "嵯峨群峰之翼") {
        Some(ArtifactSetName::ArchaicPetra)
    } else     if chars_eq_str(v, "星罗圭壁之晷") {
        Some(ArtifactSetName::ArchaicPetra)
    } else     if chars_eq_str(v, "星罗圭璧之晷") {
        Some(ArtifactSetName::ArchaicPetra)
    } else     if chars_eq_str(v, "巉岩琢塑之樽") {
        Some(ArtifactSetName::ArchaicPetra)
    } else     if chars_eq_str(v, "不动玄石之相") {
        Some(ArtifactSetName::ArchaicPetra)
    } else     if chars_eq_str(v, "历经风雪的思念") {
        Some(ArtifactSetName::BlizzardStrayer)
    } else     if chars_eq_str(v, "摧冰而行的执望") {
        Some(ArtifactSetName::BlizzardStrayer)
    } else     if chars_eq_str(v, "冰雪故园的终期") {
        Some(ArtifactSetName::BlizzardStrayer)
    } else     if chars_eq_str(v, "遍结寒霜的傲骨") {
        Some(ArtifactSetName::BlizzardStrayer)
    } else     if chars_eq_str(v, "破冰踏雪的回音") {
        Some(ArtifactSetName::BlizzardStrayer)
    } else     if chars_eq_str(v, "染血的铁之心") {
        Some(ArtifactSetName::BloodstainedChivalry)
    } else     if chars_eq_str(v, "染血的黑之羽") {
        Some(ArtifactSetName::BloodstainedChivalry)
    } else     if chars_eq_str(v, "骑士染血之时") {
        Some(ArtifactSetName::BloodstainedChivalry)
    } else     if chars_eq_str(v, "染血骑士之杯") {
        Some(ArtifactSetName::BloodstainedChivalry)
    } else     if chars_eq_str(v, "染血的铁假面") {
        Some(ArtifactSetName::BloodstainedChivalry)
    } else     if chars_eq_str(v, "魔女的炎之花") {
        Some(ArtifactSetName::CrimsonWitch)
    } else     if chars_eq_str(v, "魔女常燃之羽") {
        Some(ArtifactSetName::CrimsonWitch)
    } else     if chars_eq_str(v, "魔女破灭之时") {
        Some(ArtifactSetName::CrimsonWitch)
    } else     if chars_eq_str(v, "魔女的心之火") {
        Some(ArtifactSetName::CrimsonWitch)
    } else     if chars_eq_str(v, "焦灼的魔女帽") {
        Some(ArtifactSetName::CrimsonWitch)
    } else     if chars_eq_str(v, "角斗士的留恋") {
        Some(ArtifactSetName::GladiatorFinale)
    } else     if chars_eq_str(v, "角斗士的归宿") {
        Some(ArtifactSetName::GladiatorFinale)
    } else     if chars_eq_str(v, "角斗士的希冀") {
        Some(ArtifactSetName::GladiatorFinale)
    } else     if chars_eq_str(v, "角斗士的酣醉") {
        Some(ArtifactSetName::GladiatorFinale)
    } else     if chars_eq_str(v, "角斗士的凯旋") {
        Some(ArtifactSetName::GladiatorFinale)
    } else     if chars_eq_str(v, "饰金胸花") {
        Some(ArtifactSetName::HeartOfDepth)
    } else     if chars_eq_str(v, "追忆之风") {
        Some(ArtifactSetName::HeartOfDepth)
    } else     if chars_eq_str(v, "坚铜罗盘") {
        Some(ArtifactSetName::HeartOfDepth)
    } else     if chars_eq_str(v, "沉波之盏") {
        Some(ArtifactSetName::HeartOfDepth)
    } else     if chars_eq_str(v, "酒渍船帽") {
        Some(ArtifactSetName::HeartOfDepth)
    } else     if chars_eq_str(v, "渡火者的决绝") {
        Some(ArtifactSetName::LavaWalker)
    } else     if chars_eq_str(v, "渡火者的解脱") {
        Some(ArtifactSetName::LavaWalker)
    } else     if chars_eq_str(v, "渡火者的煎熬") {
        Some(ArtifactSetName::LavaWalker)
    } else     if chars_eq_str(v, "渡火者的醒悟") {
        Some(ArtifactSetName::LavaWalker)
    } else     if chars_eq_str(v, "渡火者的智慧") {
        Some(ArtifactSetName::LavaWalker)
    } else     if chars_eq_str(v, "远方的少女之心") {
        Some(ArtifactSetName::MaidenBeloved)
    } else     if chars_eq_str(v, "少女飘摇的思念") {
        Some(ArtifactSetName::MaidenBeloved)
    } else     if chars_eq_str(v, "少女苦短的良辰") {
        Some(ArtifactSetName::MaidenBeloved)
    } else     if chars_eq_str(v, "少女片刻的闲暇") {
        Some(ArtifactSetName::MaidenBeloved)
    } else     if chars_eq_str(v, "少女易逝的芳颜") {
        Some(ArtifactSetName::MaidenBeloved)
    } else     if chars_eq_str(v, "宗室之花") {
        Some(ArtifactSetName::NoblesseOblige)
    } else     if chars_eq_str(v, "宗室之翎") {
        Some(ArtifactSetName::NoblesseOblige)
    } else     if chars_eq_str(v, "宗室时计") {
        Some(ArtifactSetName::NoblesseOblige)
    } else     if chars_eq_str(v, "宗室银瓮") {
        Some(ArtifactSetName::NoblesseOblige)
    } else     if chars_eq_str(v, "宗室面具") {
        Some(ArtifactSetName::NoblesseOblige)
    } else     if chars_eq_str(v, "夏祭之花") {
        Some(ArtifactSetName::RetracingBolide)
    } else     if chars_eq_str(v, "夏祭终末") {
        Some(ArtifactSetName::RetracingBolide)
    } else     if chars_eq_str(v, "夏祭之刻") {
        Some(ArtifactSetName::RetracingBolide)
    } else     if chars_eq_str(v, "夏祭水玉") {
        Some(ArtifactSetName::RetracingBolide)
    } else {
        None
    }
}

fn set_name_table_b(v: &Vec<char>) -> (r: Option<ArtifactSetName>)
    ensures
        r == spec_set_name_table_b(v@),
{
    if chars_eq_str(v, "夏祭之面") {
        Some(ArtifactSetName::RetracingBolide)
    } else     if chars_eq_str(v, "平雷之心") {
        Some(ArtifactSetName::ThunderSmoother)
    } else     if chars_eq_str(v, "平雷之羽") {
        Some(ArtifactSetName::ThunderSmoother)
    } else     if chars_eq_str(v, "平雷之刻") {
        Some(ArtifactSetName::ThunderSmoother)
    } else     if chars_eq_str(v, "平雷之器") {
        Some(ArtifactSetName::ThunderSmoother)
    } else     if chars_eq_str(v, "平雷之冠") {
        Some(ArtifactSetName::ThunderSmoother)
    } else     if chars_eq_str(v, "雷鸟的怜悯") {
        Some(ArtifactSetName::ThunderingFury)
    } else     if chars_eq_str(v, "雷灾的孑遗") {
        Some(ArtifactSetName::ThunderingFury)
    } else     if chars_eq_str(v, "雷霆的时计") {
        Some(ArtifactSetName::ThunderingFury)
    } else     if chars_eq_str(v, "降雷的凶兆") {
        Some(ArtifactSetName::ThunderingFury)
    } else     if chars_eq_str(v, "唤雷的头冠") {
        Some(ArtifactSetName::ThunderingFury)
    } else     if chars_eq_str(v, "野花记忆的绿野") {
        Some(ArtifactSetName::ViridescentVenerer)
    } else     if chars_eq_str(v, "猎人青翠的箭羽") {
        Some(ArtifactSetName::ViridescentVenerer)
    } else     if chars_eq_str(v, "翠绿猎人的笃定") {
        Some(ArtifactSetName::ViridescentVenerer)
    } else     if chars_eq_str(v, "翠绿猎人的容器") {
        Some(ArtifactSetName::ViridescentVenerer)
    } else     if chars_eq_str(v, "翠绿的猎人之冠") {
        Some(ArtifactSetName::ViridescentVenerer)
    } else     if chars_eq_str(v, "乐团的晨光") {
        Some(ArtifactSetName::WandererTroupe)
    } else     if chars_eq_str(v, "琴师的箭羽") {
        Some(ArtifactSetName::WandererTroupe)
    } else     if chars_eq_str(v, "终幕的时计") {
        Some(ArtifactSetName::WandererTroupe)
    } else     if chars_eq_str(v, "终末的时计") {
        Some(ArtifactSetName::WandererTroupe)
    } else     if chars_eq_str(v, "吟游者之壶") {
        Some(ArtifactSetName::WandererTroupe)
    } else     if chars_eq_str(v, "指挥的礼帽") {
        Some(ArtifactSetName::WandererTroupe)
    } else     if chars_eq_str(v, "战狂的蔷薇") {
        Some(ArtifactSetName::Berserker)
    } else     if chars_eq_str(v, "战狂的翎羽") {
        Some(ArtifactSetName::Berserker)
    } else     if chars_eq_str(v, "战狂的时计") {
        Some(ArtifactSetName::Berserker)
    } else     if chars_eq_str(v, "战狂的骨杯") {
        Some(ArtifactSetName::Berserker)
    } else     if chars_eq_str(v, "战狂的鬼面") {
        Some(ArtifactSetName::Berserker)
    } else     if chars_eq_str(v, "勇士的勋章") {
        Some(ArtifactSetName::BraveHeart)
    } else     if chars_eq_str(v, "勇士的期许") {
        Some(ArtifactSetName::BraveHeart)
    } else     if chars_eq_str(v, "勇士的坚毅") {
        Some(ArtifactSetName::BraveHeart)
    } else     if chars_eq_str(v, "勇士的壮行") {
        Some(ArtifactSetName::BraveHeart)
    } else     if chars_eq_str(v, "勇士的冠冕") {
        Some(ArtifactSetName::BraveHeart)
    } else     if chars_eq_str(v, "守护之花") {
        Some(ArtifactSetName::DefenderWill)
    } else     if chars_eq_str(v, "守护徽印") {
        Some(ArtifactSetName::DefenderWill)
    } else     if chars_eq_str(v, "守护座钟") {
        Some(ArtifactSetName::DefenderWill)
    } else     if chars_eq_str(v, "守护之皿") {
        Some(ArtifactSetName::DefenderWill)
    } else     if chars_eq_str(v, "守护束带") {
        Some(ArtifactSetName::DefenderWill)
    } else     if chars_eq_str(v, "流放者之花") {
        Some(ArtifactSetName::Exile)
    } else     if chars_eq_str(v, "流放者之羽") {
        Some(ArtifactSetName::Exile)
    } else     if chars_eq_str(v, "流放者怀表") {
        Some(ArtifactSetName::Exile)
    } else     if chars_eq_str(v, "流放者之杯") {
        Some(ArtifactSetName::Exile)
    } else     if chars_eq_str(v, "流放者头冠") {
        Some(ArtifactSetName::Exile)
    } else     if chars_eq_str(v, "赌徒的胸花") {
        Some(ArtifactSetName::Gambler)
    } else     if chars_eq_str(v, "赌徒的羽饰") {
        Some(ArtifactSetName::Gambler)
    } else     if chars_eq_str(v, "赌徒的怀表") {
        Some(ArtifactSetName::Gambler)
    } else     if chars_eq_str(v, "赌徒的骰盅") {
        Some(ArtifactSetName::Gambler)
    } else     if chars_eq_str(v, "赌徒的耳环") {
        Some(ArtifactSetName::Gambler)
    } else     if chars_eq_str(v, "教官的胸花") {
        Some(ArtifactSetName::Instructor)
    } else     if chars_eq_str(v, "教官的羽饰") {
        Some(ArtifactSetName::Instructor)
    } else     if chars_eq_str(v, "教官的怀表") {
        Some(ArtifactSetName::Instructor)
    } else {
        None
    }
}

fn set_name_table_c(v: &Vec<char>) -> (r: Option<ArtifactSetName>)
    ensures
        r == spec_set_name_table_c(v@),
{
    if chars_eq_str(v, "教官的茶杯") {
        Some(ArtifactSetName::Instructor)
    } else     if chars_eq_str(v, "教官的帽子") {
        Some(ArtifactSetName::Instructor)
    } else     if chars_eq_str(v, "武人的红花") {
        Some(ArtifactSetName::MartialArtist)
    } else     if chars_eq_str(v, "武人的羽饰") {
        Some(ArtifactSetName::MartialArtist)
    } else     if chars_eq_str(v, "武人的水漏") {
        Some(ArtifactSetName::MartialArtist)
    } else     if chars_eq_str(v, "武人的酒杯") {
        Some(ArtifactSetName::MartialArtist)
    } else     if chars_eq_str(v, "武人的头巾") {
        Some(ArtifactSetName::MartialArtist)
    } else     if chars_eq_str(v, "祭水礼冠") {
        Some(ArtifactSetName::PrayersForDestiny)
    } else     if chars_eq_str(v, "祭火礼冠") {
        Some(ArtifactSetName::PrayersForIllumination)
    } else     if chars_eq_str(v, "祭雷礼冠") {
        Some(ArtifactSetName::PrayersForWisdom)
    } else     if chars_eq_str(v, "祭冰礼冠") {
        Some(ArtifactSetName::PrayersToSpringtime)
    } else     if chars_eq_str(v, "故人之心") {
        Some(ArtifactSetName::ResolutionOfSojourner)
    } else     if chars_eq_str(v, "归乡之羽") {
        Some(ArtifactSetName::ResolutionOfSojourner)
    } else     if chars_eq_str(v, "逐光之石") {
        Some(ArtifactSetName::ResolutionOfSojourner)
    } else     if chars_eq_str(v, "异国之盏") {
        Some(ArtifactSetName::ResolutionOfSojourner)
    } else     if chars_eq_str(v, "感别之冠") {
        Some(ArtifactSetName::ResolutionOfSojourner)
    } else     if chars_eq_str(v, "学士的书签") {
        Some(ArtifactSetName::Scholar)
    } else     if chars_eq_str(v, "学士的羽笔") {
        Some(ArtifactSetName::Scholar)
    } else     if chars_eq_str(v, "学士的时钟") {
        Some(ArtifactSetName::Scholar)
    } else     if chars_eq_str(v, "学士的墨杯") {
        Some(ArtifactSetName::Scholar)
    } else     if chars_eq_str(v, "学士的镜片") {
        Some(ArtifactSetName::Scholar)
    } else     if chars_eq_str(v, "奇迹之花") {
        Some(ArtifactSetName::TinyMiracle)
    } else     if chars_eq_str(v, "奇迹之羽") {
        Some(ArtifactSetName::TinyMiracle)
    } else     if chars_eq_str(v, "奇迹之沙") {
        Some(ArtifactSetName::TinyMiracle)
    } else     if chars_eq_str(v, "奇迹之杯") {
        Some(ArtifactSetName::TinyMiracle)
    } else     if chars_eq_str(v, "奇迹耳坠") {
        Some(ArtifactSetName::TinyMiracle)
    } else     if chars_eq_str(v, "冒险家之花") {
        Some(ArtifactSetName::Adventurer)
    } else     if chars_eq_str(v, "冒险家尾羽") {
        Some(ArtifactSetName::Adventurer)
    } else     if chars_eq_str(v, "冒险家怀表") {
        Some(ArtifactSetName::Adventurer)
    } else     if chars_eq_str(v, "冒险家金杯") {
        Some(ArtifactSetName::Adventurer)
    } else     if chars_eq_str(v, "冒险家头带") {
        Some(ArtifactSetName::Adventurer)
    } else     if chars_eq_str(v, "幸运儿绿花") {
        Some(ArtifactSetName::LuckyDog)
    } else     if chars_eq_str(v, "幸运儿鹰羽") {
        Some(ArtifactSetName::LuckyDog)
    } else     if chars_eq_str(v, "幸运儿沙漏") {
        Some(ArtifactSetName::LuckyDog)
    } else     if chars_eq_str(v, "幸运儿之杯") {
        Some(ArtifactSetName::LuckyDog)
    } else     if chars_eq_str(v, "幸运儿银冠") {
        Some(ArtifactSetName::LuckyDog)
    } else     if chars_eq_str(v, "游医的银莲") {
        Some(ArtifactSetName::TravelingDoctor)
    } else     if chars_eq_str(v, "游医的枭羽") {
        Some(ArtifactSetName::TravelingDoctor)
    } else     if chars_eq_str(v, "游医的怀钟") {
        Some(ArtifactSetName::TravelingDoctor)
    } else     if chars_eq_str(v, "游医的药壶") {
        Some(ArtifactSetName::TravelingDoctor)
    } else     if chars_eq_str(v, "游医的方巾") {
        Some(ArtifactSetName::TravelingDoctor)
    } else     if chars_eq_str(v, "勋绩之花") {
        Some(ArtifactSetName::TenacityOfTheMillelith)
    } else     if chars_eq_str(v, "昭武翎羽") {
        Some(ArtifactSetName::TenacityOfTheMillelith)
    } else     if chars_eq_str(v, "金铜时晷") {
        Some(ArtifactSetName::TenacityOfTheMillelith)
    } else     if chars_eq_str(v, "盟誓金爵") {
        Some(ArtifactSetName::TenacityOfTheMillelith)
    } else     if chars_eq_str(v, "将帅兜鍪") {
        Some(ArtifactSetName::TenacityOfTheMillelith)
    } else     if chars_eq_str(v, "无垢之花") {
        Some(ArtifactSetName::PaleFlame)
    } else     if chars_eq_str(v, "贤医之羽") {
        Some(ArtifactSetName::PaleFlame)
    } else     if chars_eq_str(v, "停摆之刻") {
        Some(ArtifactSetName::PaleFlame)
    } else     if chars_eq_str(v, "超越之盏") {
        Some(ArtifactSetName::PaleFlame)
    } else {
        None
    }
}

fn set_name_table_d(v: &Vec<char>) -> (r: Option<ArtifactSetName>)
    ensures
        r == spec_set_name_table_d(v@),
{
    if chars_eq_str(v, "嗤笑之面") {
        Some(ArtifactSetName::PaleFlame)
    } else     if chars_eq_str(v, "明威之镡") {
        Some(ArtifactSetName::EmblemOfSeveredFate)
    } else     if chars_eq_str(v, "切落之羽") {
        Some(ArtifactSetName::EmblemOfSeveredFate)
    } else     if chars_eq_str(v, "雷云之笼") {
        Some(ArtifactSetName::EmblemOfSeveredFate)
    } else     if chars_eq_str(v, "绯花之壶") {
        Some(ArtifactSetName::EmblemOfSeveredFate)
    } else     if chars_eq_str(v, "华饰之兜") {
        Some(ArtifactSetName::EmblemOfSeveredFate)
    } else     if chars_eq_str(v, "羁缠之花") {
        Some(ArtifactSetName::ShimenawaReminiscence)
    } else     if chars_eq_str(v, "思忆之矢") {
        Some(ArtifactSetName::ShimenawaReminiscence)
    } else     if chars_eq_str(v, "朝露之时") {
        Some(ArtifactSetName::ShimenawaReminiscence)
    } else     if chars_eq_str(v, "祈望之心") {
        Some(ArtifactSetName::ShimenawaReminiscence)
    } else     if chars_eq_str(v, "无常之面") {
        Some(ArtifactSetName::ShimenawaReminiscence)
    } else     if chars_eq_str(v, "荣花之期") {
        Some(ArtifactSetName::HuskOfOpulentDreams)
    } else     if chars_eq_str(v, "华馆之羽") {
        Some(ArtifactSetName::HuskOfOpulentDreams)
    } else     if chars_eq_str(v, "众生之谣") {
        Some(ArtifactSetName::HuskOfOpulentDreams)
    } else     if chars_eq_str(v, "梦醒之瓢") {
        Some(ArtifactSetName::HuskOfOpulentDreams)
    } else     if chars_eq_str(v, "形骸之笠") {
        Some(ArtifactSetName::HuskOfOpulentDreams)
    } else     if chars_eq_str(v, "海染之花") {
        Some(ArtifactSetName::OceanHuedClam)
    } else     if chars_eq_str(v, "渊宫之羽") {
        Some(ArtifactSetName::OceanHuedClam)
    } else     if chars_eq_str(v, "离别之贝") {
        Some(ArtifactSetName::OceanHuedClam)
    } else     if chars_eq_str(v, "真珠之笼") {
        Some(ArtifactSetName::OceanHuedClam)
    } else     if chars_eq_str(v, "海祇之冠") {
        Some(ArtifactSetName::OceanHuedClam)
    } else     if chars_eq_str(v, "生灵之华") || chars_eq_str(v, "阳辔之遗") || chars_eq_str(v, "潜光片羽") || chars_eq_str(v, "结契之刻") || chars_eq_str(v, "虺雷之姿") {
        Some(ArtifactSetName::VermillionHereafter)
    } else     if chars_eq_str(v, "魂香之花") || chars_eq_str(v, "祝祀之凭") || chars_eq_str(v, "垂玉之叶") || chars_eq_str(v, "涌泉之盏") || chars_eq_str(v, "浮溯之珏") {
        Some(ArtifactSetName::EchoesOfAnOffering)
    } else     if chars_eq_str(v, "迷宫的游人") || chars_eq_str(v, "翠蔓的智者") || chars_eq_str(v, "贤智的定期") || chars_eq_str(v, "迷误者之灯") || chars_eq_str(v, "月桂的宝冠") {
        Some(ArtifactSetName::DeepwoodMemories)
    } else     if chars_eq_str(v, "梦中的铁花") || chars_eq_str(v, "裁断的翎羽") || chars_eq_str(v, "沉金的岁月") || chars_eq_str(v, "如蜜的终宴") || chars_eq_str(v, "沙王的投影") {
        Some(ArtifactSetName::GildedDreams)
    } else     if chars_eq_str(v, "月女的华彩") || chars_eq_str(v, "谢落的筵席") || chars_eq_str(v, "凝结的时刻") || chars_eq_str(v, "守秘的魔瓶") || chars_eq_str(v, "紫晶的花冠") {
        Some(ArtifactSetName::FlowerOfParadiseLost)
    } else     if chars_eq_str(v, "众王之都的开端") || chars_eq_str(v, "黄金邦国的结末") || chars_eq_str(v, "失落迷途的机芯") || chars_eq_str(v, "迷醉长梦的守护") || chars_eq_str(v, "流沙贵嗣的遗宝") {
        Some(ArtifactSetName::DesertPavilionChronicle)
    } else     if chars_eq_str(v, "恶龙的单片镜") || chars_eq_str(v, "坏巫师的羽杖") || chars_eq_str(v, "旅途中的鲜花") || chars_eq_str(v, "水仙的时时刻刻") || chars_eq_str(v, "勇者们的茶会") {
        Some(ArtifactSetName::NymphsDream)
    } else     if chars_eq_str(v, "灵光明烁之心") || chars_eq_str(v, "琦色灵彩之羽") || chars_eq_str(v, "灵光源起之蕊") || chars_eq_str(v, "久远花落之时") || chars_eq_str(v, "无边酣乐之筵") {
        Some(ArtifactSetName::VourukashasGlow)
    } else     if chars_eq_str(v, "猎人的胸花") || chars_eq_str(v, "杰作的序曲") || chars_eq_str(v, "裁判的时刻") || chars_eq_str(v, "遗忘的容器") || chars_eq_str(v, "老兵的容颜") {
        Some(ArtifactSetName::MarechausseeHunter)
    } else     if chars_eq_str(v, "黄金乐曲的变奏") || chars_eq_str(v, "黄金飞鸟的落羽") || chars_eq_str(v, "黄金时代的先声") || chars_eq_str(v, "黄金之夜的喧嚣") || chars_eq_str(v, "黄金剧团的奖赏") {
        Some(ArtifactSetName::GoldenTroupe)
    } else     if chars_eq_str(v, "昔时传奏之诗") || chars_eq_str(v, "昔时浮想之思") || chars_eq_str(v, "昔时遗落之誓") || chars_eq_str(v, "昔时回映之音") || chars_eq_str(v, "昔时应许之梦") {
        Some(ArtifactSetName::SongOfDaysPast)
    } else     if chars_eq_str(v, "慈爱的淑女帽") || chars_eq_str(v, "诚恳的蘸水笔") || chars_eq_str(v, "无私的妆饰花") || chars_eq_str(v, "忠实的砂时计") || chars_eq_str(v, "慷慨的墨水瓶") {
        Some(ArtifactSetName::NighttimeWhispersInTheEchoingWoods)
    } else     if chars_eq_str(v, "异想零落的圆舞") || chars_eq_str(v, "古海玄幽的夜想") || chars_eq_str(v, "谐律交响的前奏") || chars_eq_str(v, "命途轮转的谐谑") || chars_eq_str(v, "灵露倾洒的狂诗") {
        Some(ArtifactSetName::FragmentOfHarmonicWhimsy)
    } else     if chars_eq_str(v, "失冕的宝冠") || chars_eq_str(v, "褪光的翠尾") || chars_eq_str(v, "暗结的明花") || chars_eq_str(v, "举业的识刻") || chars_eq_str(v, "筹谋的共樽") {
        Some(ArtifactSetName::UnfinishedReverie)
    } else {
        None
    }
}

pub open spec fn spec_set_name_of(s: Seq<char>) -> Option<ArtifactSetName> {
    match spec_set_name_table_a(s) {
        Some(v) => Some(v),
        None => match spec_set_name_table_b(s) {
            Some(v) => Some(v),
            None => match spec_set_name_table_c(s) {
                Some(v) => Some(v),
                None => match spec_set_name_table_d(s) {
                    Some(v) => Some(v),
                    None => None,
                },
            },
        },
    }
}

fn set_name_lookup(v: &Vec<char>) -> (r: Option<ArtifactSetName>)
    ensures
        r == spec_set_name_of(v@),
{
    match set_name_table_a(v) {
        Some(x) => Some(x),
        None => match set_name_table_b(v) {
            Some(x) => Some(x),
            None => match set_name_table_c(v) {
                Some(x) => Some(x),
                None => match set_name_table_d(v) {
                    Some(x) => Some(x),
                    None => None,
                },
            },
        },
    }
}

/// One artifact stat: which stat, and its value in thousandths.
#[derive(Clone, Copy, Debug, PartialEq, Eq, Hash, Structural)]
pub struct ArtifactStat {
    pub name: ArtifactStatName,
    /// The stat value scaled by 1000: percentages as a fraction of one
    /// (46.6% is 466), flat values in thousandths (4123 is 4123000).
    pub value_milli: i64,
}

impl ArtifactStatName {
    /// The stat named by a Chinese label. Labels that exist in flat and
    /// percentage form are told apart by `is_percentage`.
    pub fn from_zh_cn(name: &str, is_percentage: bool) -> (r: Option<ArtifactStatName>)
        ensures
            r == spec_stat_name_of(name@, is_percentage),
    {
        let v = chars_of(name);
        stat_name_lookup(&v, is_percentage)
    }
}

impl ArtifactSlot {
    /// The slot an artifact occupies, looked up by its localized item name.
    pub fn from_zh_cn(s: &str) -> (r: Option<ArtifactSlot>)
        ensures
            r == spec_slot_of(s@),
    {
        let v = chars_of(s);
        slot_lookup(&v)
    }
}

impl ArtifactSetName {
    /// The set an artifact belongs to, looked up by its localized item name.
    pub fn from_zh_cn(s: &str) -> (r: Option<ArtifactSetName>)
        ensures
            r == spec_set_name_of(s@),
    {
        let v = chars_of(s);
        set_name_lookup(&v)
    }
}

/// A stripped stat-value text keeps only what the number parser reads:
/// thousands separators and the percent mark are removed.
pub open spec fn spec_strip_stat(t: Seq<char>) -> Seq<char> {
    t.filter(|c: char| c != ',' && c != '%')
}

/// The value spelled by a plain decimal numeral (digits with an optional
/// decimal point), scaled by `scale` and truncated to a whole number of
/// scale units. Numerals beyond nine integer digits or six fraction digits
/// are rejected.
pub open spec fn spec_scaled_number(u: Seq<char>, scale: int) -> Option<int> {
    match spec_find_char(u, '.') {
        None => {
            if 1 <= u.len() <= 9 && spec_all_digits(u) {
                Some(spec_digits_value(u) * scale)
            } else {
                None
            }
        },
        Some(i) => {
            let ip = u.subrange(0, i);
            let fp = u.subrange(i + 1, u.len() as int);
            if ip.len() + fp.len() >= 1 && ip.len() <= 9 && fp.len() <= 6 && spec_all_digits(ip)
                && spec_all_digits(fp) {
                Some(spec_digits_value(ip) * scale + spec_digits_value(fp) * scale / ten_pow(
                    fp.len(),
                ))
            } else {
                None
            }
        },
    }
}

/// The stat value in thousandths spelled by the text after the `+`: a
/// percentage (marked anywhere by `%`) is a fraction of one, so its numeral
/// is scaled by 10; a flat value is scaled by 1000. Thousands separators
/// are ignored.
pub open spec fn spec_stat_value_milli(t: Seq<char>) -> Option<int> {
    let scale: int = if t.contains('%') {
        10
    } else {
        1000
    };
    spec_scaled_number(spec_strip_stat(t), scale)
}

/// Remove thousands separators and percent marks.
fn strip_stat_chars(t: &Vec<char>) -> (r: Vec<char>)
    ensures
        r@ == spec_strip_stat(t@),
{
    let mut r: Vec<char> = Vec::new();
    let mut i: usize = 0;
    while i < t.len()
        invariant
            i <= t.len(),
            r@ == spec_strip_stat(t@.subrange(0, i as int)),
        decreases t.len() - i,
    {
        let ghost prev = t@.subrange(0, i as int);
        let ghost next = t@.subrange(0, i + 1);
        let c: char = t[i];
        proof {
            assert(next.drop_last() =~= prev);
            assert(next.last() == c);
            assert(spec_strip_stat(next) == (if c != ',' && c != '%' {
                spec_strip_stat(prev).push(c)
            } else {
                spec_strip_stat(prev)
            })) by {
                reveal_with_fuel(Seq::<char>::filter, 2);
                assert(next.drop_last() == prev);
            }
        }
        if c != ',' && c != '%' {
            r.push(c);
        }
        i = i + 1;
    }
    proof {
        assert(t@.subrange(0, t@.len() as int) =~= t@);
    }
    r
}

/// Parse a stripped numeral into scale units (truncating), or report that
/// the text is not a numeral this parser accepts.
fn parse_scaled_number(u: &Vec<char>, scale: u64) -> (r: Option<i64>)
    requires
        scale == 10 || scale == 1000,
    ensures
        (r matches Some(m) ==> spec_scaled_number(u@, scale as int) == Some(m as int)),
        (r is None ==> spec_scaled_number(u@, scale as int) is None),
{
    match find_char(u, '.') {
        None => {
            if u.len() < 1 || u.len() > 9 {
                return None;
            }
            if !check_all_digits(u, 0, u.len()) {
                proof {
                    assert(u@.subrange(0, u@.len() as int) =~= u@);
                }
                return None;
            }
            proof {
                assert(u@.subrange(0, u@.len() as int) =~= u@);
            }
            let val: u64 = digits_value(u, 0, u.len());
            assert(val * scale < 1_000_000_000_000) by (nonlinear_arith)
                requires
                    val < 1_000_000_000,
                    scale <= 1000,
            ;
            Some((val * scale) as i64)
        },
        Some(dot) => {
            proof {
                crate::text::lemma_find_char(u@, '.');
            }
            let iplen: usize = dot;
            let fplen: usize = u.len() - dot - 1;
            if iplen + fplen < 1 || iplen > 9 || fplen > 6 {
                return None;
            }
            if !check_all_digits(u, 0, dot) {
                return None;
            }
            if !check_all_digits(u, dot + 1, u.len()) {
                return None;
            }
            let ipv: u64 = digits_value(u, 0, dot);
            let fpv: u64 = digits_value(u, dot + 1, u.len());
            let p: u64 = pow10(fplen);
            assert(ipv * scale < 1_000_000_000_000 && fpv * scale < 1_000_000_000_000)
                by (nonlinear_arith)
                requires
                    ipv < 1_000_000_000,
                    fpv < 1_000_000_000,
                    scale <= 1000,
            ;
            Some((ipv * scale + fpv * scale / p) as i64)
        },
    }
}

impl ArtifactStat {
    /// What a raw localized stat line means: the text before the single `+`
    /// names the stat (its percentage flavor decided by a `%` after the
    /// `+`), and the text after it spells the value.
    pub open spec fn spec_from_zh_cn_raw(s: Seq<char>) -> Option<ArtifactStat> {
        match spec_find_char(s, '+') {
            None => None,
            Some(i) => {
                let name = s.subrange(0, i);
                let t = s.subrange(i + 1, s.len() as int);
                if spec_find_char(t, '+') is Some {
                    None
                } else {
                    match spec_stat_name_of(name, t.contains('%')) {
                        None => None,
                        Some(n) => match spec_stat_value_milli(t) {
                            None => None,
                            Some(m) => Some(ArtifactStat { name: n, value_milli: m as i64 }),
                        },
                    }
                }
            },
        }
    }

    /// Parse a raw localized stat line such as a flat stat with thousands
    /// separators or a percentage stat.
    pub fn from_zh_cn_raw(s: &str) -> (r: Option<ArtifactStat>)
        ensures
            r == Self::spec_from_zh_cn_raw(s@),
    {
        let v = chars_of(s);
        let plus: usize = match find_char(&v, '+') {
            None => { return None },
            Some(i) => i,
        };
        proof {
            crate::text::lemma_find_char(v@, '+');
        }
        let name = copy_range(&v, 0, plus);
        let tail = copy_range(&v, plus + 1, v.len());
        if find_char(&tail, '+').is_some() {
            return None;
        }
        let pct: bool = contains_char(&tail, '%');
        let stat_name = match stat_name_lookup(&name, pct) {
            None => { return None },
            Some(n) => n,
        };
        let stripped = strip_stat_chars(&tail);
        let scale: u64 = if pct {
            10
        } else {
            1000
        };
        match parse_scaled_number(&stripped, scale) {
            None => None,
            Some(m) => Some(ArtifactStat { name: stat_name, value_milli: m }),
        }
    }
}

/// What one scanned artifact card shows, as plain OCR text plus the scanned
/// numeric fields.
#[derive(Clone, Debug, PartialEq)]
pub struct GenshinArtifactScanResult {
    /// The localized item name (the lookup key for set and slot).
    pub name: String,
    pub main_stat_name: String,
    pub main_stat_value: String,
    pub sub_stat_1: String,
    pub sub_stat_2: String,
    pub sub_stat_3: String,
    pub sub_stat_4: String,
    pub level: i32,
    pub star: i32,
    pub lock: bool,
    /// The equip line; when the artifact is worn it ends with the
    /// localized "equipped" marker after the wearer's name.
    pub equip: String,
}

/// A fully interpreted artifact.
#[derive(Clone, Debug, PartialEq)]
pub struct GenshinArtifact {
    pub set_name: ArtifactSetName,
    pub slot: ArtifactSlot,
    pub star: i32,
    pub lock: bool,
    pub level: i32,
    pub main_stat: ArtifactStat,
    pub sub_stat_1: Option<ArtifactStat>,
    pub sub_stat_2: Option<ArtifactStat>,
    pub sub_stat_3: Option<ArtifactStat>,
    pub sub_stat_4: Option<ArtifactStat>,
    /// The wearer, when the equip line ends with the "equipped" marker and
    /// the name before it is a known character.
    pub equip: Option<String>,
}

/// Does the equip line end with the localized "equipped" marker?
pub open spec fn spec_ends_with_equipped(e: Seq<char>) -> bool {
    e.len() >= 3 && e.subrange(e.len() - 3, e.len() as int) == "已装备"@
}

/// The wearer's name: the equip line with the three-character marker
/// removed.
pub open spec fn spec_equip_base(e: Seq<char>) -> Seq<char> {
    e.subrange(0, e.len() - 3)
}

/// The wearer spelled by the equip line, when it carries the "equipped"
/// marker and the name before the marker is one of the known character
/// names.
fn equip_name(equip: &String, character_names: &Vec<String>) -> (r: Option<String>)
    ensures
        (r matches Some(e) ==> spec_ends_with_equipped(equip@) && e@ == spec_equip_base(equip@)
            && (exists|i: int|
            0 <= i < character_names@.len() && (#[trigger] character_names@[i])@
                == spec_equip_base(equip@))),
        (r is None ==> !(spec_ends_with_equipped(equip@) && exists|i: int|
            0 <= i < character_names@.len() && (#[trigger] character_names@[i])@
                == spec_equip_base(equip@))),
{
    let ev = chars_of(equip.as_str());
    if ev.len() < 3 {
        return None;
    }
    let suffix = copy_range(&ev, ev.len() - 3, ev.len());
    if !chars_eq_str(&suffix, "已装备") {
        return None;
    }
    let base = copy_range(&ev, 0, ev.len() - 3);
    let mut i: usize = 0;
    while i < character_names.len()
        invariant
            i <= character_names@.len(),
            spec_ends_with_equipped(equip@),
            base@ == spec_equip_base(equip@),
            forall|j: int|
                0 <= j < i ==> (#[trigger] character_names@[j])@ != spec_equip_base(equip@),
        decreases character_names.len() - i,
    {
        let cand = chars_of(character_names[i].as_str());
        if chars_eq(&cand, &base) {
            return Some(character_names[i].clone());
        }
        i = i + 1;
    }
    None
}

impl GenshinArtifact {
    /// Interpret one scanned card: resolve the set and the slot from the
    /// item name, parse the main stat (its name and value arrive as two
    /// separate text fields) and each present sub stat, and resolve the
    /// wearer against the list of known character names. A card whose set,
    /// slot or main stat cannot be read is rejected; unreadable sub stats
    /// and an unrecognized wearer are simply absent.
    pub fn from_scan_result(value: &GenshinArtifactScanResult, character_names: &Vec<String>) -> (r:
        Result<GenshinArtifact, ()>)
        ensures
            (r is Ok <==> spec_set_name_of(value.name@) is Some && spec_slot_of(value.name@)
                is Some && ArtifactStat::spec_from_zh_cn_raw(
                value.main_stat_name@ + "+"@ + value.main_stat_value@,
            ) is Some),
            (r matches Ok(a) ==> {
                &&& Some(a.set_name) == spec_set_name_of(value.name@)
                &&& Some(a.slot) == spec_slot_of(value.name@)
                &&& a.star == value.star
                &&& a.lock == value.lock
                &&& a.level == value.level
                &&& Some(a.main_stat) == ArtifactStat::spec_from_zh_cn_raw(
                    value.main_stat_name@ + "+"@ + value.main_stat_value@,
                )
                &&& a.sub_stat_1 == ArtifactStat::spec_from_zh_cn_raw(value.sub_stat_1@)
                &&& a.sub_stat_2 == ArtifactStat::spec_from_zh_cn_raw(value.sub_stat_2@)
                &&& a.sub_stat_3 == ArtifactStat::spec_from_zh_cn_raw(value.sub_stat_3@)
                &&& a.sub_stat_4 == ArtifactStat::spec_from_zh_cn_raw(value.sub_stat_4@)
                &&& (a.equip matches Some(e) ==> spec_ends_with_equipped(value.equip@) && e@
                    == spec_equip_base(value.equip@) && (exists|i: int|
                    0 <= i < character_names@.len() && (#[trigger] character_names@[i])@
                        == spec_equip_base(value.equip@)))
                &&& (a.equip is None ==> !(spec_ends_with_equipped(value.equip@) && exists|i: int|
                    0 <= i < character_names@.len() && (#[trigger] character_names@[i])@
                        == spec_equip_base(value.equip@)))
            }),
    {
        let set_name = match ArtifactSetName::from_zh_cn(value.name.as_str()) {
            None => { return Err(()) },
            Some(v) => v,
        };
        let slot = match ArtifactSlot::from_zh_cn(value.name.as_str()) {
            None => { return Err(()) },
            Some(v) => v,
        };
        let mut raw: String = value.main_stat_name.clone();
        raw.append("+");
        raw.append(value.main_stat_value.as_str());
        let main_stat = match ArtifactStat::from_zh_cn_raw(raw.as_str()) {
            None => { return Err(()) },
            Some(v) => v,
        };
        let sub1 = ArtifactStat::from_zh_cn_raw(value.sub_stat_1.as_str());
        let sub2 = ArtifactStat::from_zh_cn_raw(value.sub_stat_2.as_str());
        let sub3 = ArtifactStat::from_zh_cn_raw(value.sub_stat_3.as_str());
        let sub4 = ArtifactStat::from_zh_cn_raw(value.sub_stat_4.as_str());
        let equip = equip_name(&value.equip, character_names);
        Ok(GenshinArtifact {
            set_name,
            slot,
            star: value.star,
            lock: value.lock,
            level: value.level,
            main_stat,
            sub_stat_1: sub1,
            sub_stat_2: sub2,
            sub_stat_3: sub3,
            sub_stat_4: sub4,
            equip,
        })
    }
}

} // verus!
