//! Star Rail relic domain data: the stat, slot and set enumerations and the
//! relic record a scan produces.
//!
//! Stat values are held in thousandths (a stat of 4.3% is 43), the same
//! fixed-point resolution used for artifact stats.

use vstd::prelude::*;

verus! {

#[derive(Clone, Copy, Debug, PartialEq, Eq, Hash, Structural)]
pub enum RelicStatName {
    HP,
    HPPercentage,
    ATK,
    ATKPercentage,
    DEFPercentage,
    SPD,
    CRITRate,
    CRITDMG,
    BreakEffect,
    OutgoingHealingBoost,
    EnergyRegenerationRate,
    EffectHitRate,
    PhysicalDMGBoost,
    FireDMGBoost,
    IceDMGBoost,
    LightningDMGBoost,
    WindDMGBoost,
    QuantumDMGBoost,
    ImaginaryDMGBoost,
    DEF,
    EffectRES,
}

#[derive(Clone, Copy, Debug, PartialEq, Eq, Hash, Structural)]
pub enum RelicSetName {
    PasserbyofWanderingCloud,
    MusketeerofWildWheat,
    KnightofPurityPalace,
    HunterofGlacialForest,
    ChampionofStreetwiseBoxing,
    GuardofWutheringSnow,
    FiresmithofLavaForging,
    GeniusofBrilliantStars,
    BandofSizzlingThunder,
    EagleofTwilightLine,
    ThiefofShootingMeteor,
    WastelanderofBanditryDesert,
    LongevousDisciple,
    MessengerTraversingHackerspace,
    TheAshblazingGrandDuke,
    PrisonerinDeepConfinement,
    PioneerDiverofDeadWaters,
    WatchmakerMasterofDreamMachinations,
    SpaceSealingStation,
    FleetoftheAgeless,
    PanCosmicCommercialEnterprise,
    BelobogoftheArchitects,
    CelestialDifferentiator,
    InertSalsotto,
    TaliaKingdomofBanditry,
    SprightlyVonwacq,
    RutilantArena,
    BrokenKeel,
    FirmamentFrontlineGlamoth,
    PenaconyLandoftheDreams,
}

#[derive(Clone, Copy, Debug, PartialEq, Eq, Hash, Structural)]
pub enum RelicSlot {
    Head,
    Hands,
    Body,
    Feet,
    PlanarSphere,
    LinkRope,
}

/// One relic stat: which stat, and its value in thousandths.
#[derive(Clone, Copy, Debug, PartialEq, Eq, Hash, Structural)]
pub struct RelicStat {
    pub name: RelicStatName,
    /// The stat value scaled by 1000.
    pub value_milli: i64,
}

/// A fully interpreted relic.
#[derive(Debug, PartialEq)]
pub struct StarRailRelic {
    pub set_name: RelicSetName,
    pub slot: RelicSlot,
    pub star: i32,
    pub lock: bool,
    pub discard: bool,
    pub level: i32,
    pub main_stat: RelicStat,
    pub sub_stat_1: Option<RelicStat>,
    pub sub_stat_2: Option<RelicStat>,
    pub sub_stat_3: Option<RelicStat>,
    pub sub_stat_4: Option<RelicStat>,
    /// The wearer, if any.
    pub equip: Option<String>,
}

impl Clone for StarRailRelic {
    /// An exact copy, field for field.
    fn clone(&self) -> (res: Self)
        ensures
            res == *self,
    {
        StarRailRelic {
            set_name: self.set_name,
            slot: self.slot,
            star: self.star,
            lock: self.lock,
            discard: self.discard,
            level: self.level,
            main_stat: self.main_stat,
            sub_stat_1: self.sub_stat_1,
            sub_stat_2: self.sub_stat_2,
            sub_stat_3: self.sub_stat_3,
            sub_stat_4: self.sub_stat_4,
            equip: match &self.equip {
                Some(s) => Some(s.clone()),
                None => None,
            },
        }
    }
}

} // verus!
