//! The March7th export layout: relics keyed by the identifiers of that
//! schema and grouped by slot, ready for serialization by a thin writer.

use vstd::prelude::*;
use crate::relic::{RelicSetName, RelicSlot, RelicStat, RelicStatName, StarRailRelic};

verus! {

/// The identifier this RelicStatName exports as.
pub open spec fn spec_march7th_stat_name(n: RelicStatName) -> Seq<char> {
    match n {
        RelicStatName::HP => "hp"@,
        RelicStatName::HPPercentage => "hp_"@,
        RelicStatName::ATK => "atk"@,
        RelicStatName::ATKPercentage => "atk_"@,
        RelicStatName::DEFPercentage => "def_"@,
        RelicStatName::SPD => "spd"@,
        RelicStatName::CRITRate => "critRate"@,
        RelicStatName::CRITDMG => "critDMG"@,
        RelicStatName::BreakEffect => "break"@,
        RelicStatName::OutgoingHealingBoost => "heal"@,
        RelicStatName::EnergyRegenerationRate => "enerRegen"@,
        RelicStatName::EffectHitRate => "eff"@,
        RelicStatName::PhysicalDMGBoost => "physicalDmg"@,
        RelicStatName::FireDMGBoost => "fireDmg"@,
        RelicStatName::IceDMGBoost => "iceDmg"@,
        RelicStatName::LightningDMGBoost => "lightningDmg"@,
        RelicStatName::WindDMGBoost => "windDmg"@,
        RelicStatName::QuantumDMGBoost => "quantumDmg"@,
        RelicStatName::ImaginaryDMGBoost => "imaginaryDmg"@,
        RelicStatName::DEF => "def"@,
        RelicStatName::EffectRES => "effRes"@,
    }
}

impl RelicStatName {
    /// The key this value is written under in the export schema.
    pub fn to_march7th(&self) -> (r: String)
        ensures
            r@ == spec_march7th_stat_name(*self),
    {
        match self {
            RelicStatName::HP => "hp".to_owned(),
            RelicStatName::HPPercentage => "hp_".to_owned(),
            RelicStatName::ATK => "atk".to_owned(),
            RelicStatName::ATKPercentage => "atk_".to_owned(),
            RelicStatName::DEFPercentage => "def_".to_owned(),
            RelicStatName::SPD => "spd".to_owned(),
            RelicStatName::CRITRate => "critRate".to_owned(),
            RelicStatName::CRITDMG => "critDMG".to_owned(),
            RelicStatName::BreakEffect => "break".to_owned(),
            RelicStatName::OutgoingHealingBoost => "heal".to_owned(),
            RelicStatName::EnergyRegenerationRate => "enerRegen".to_owned(),
            RelicStatName::EffectHitRate => "eff".to_owned(),
            RelicStatName::PhysicalDMGBoost => "physicalDmg".to_owned(),
            RelicStatName::FireDMGBoost => "fireDmg".to_owned(),
            RelicStatName::IceDMGBoost => "iceDmg".to_owned(),
            RelicStatName::LightningDMGBoost => "lightningDmg".to_owned(),
            RelicStatName::WindDMGBoost => "windDmg".to_owned(),
            RelicStatName::QuantumDMGBoost => "quantumDmg".to_owned(),
            RelicStatName::ImaginaryDMGBoost => "imaginaryDmg".to_owned(),
            RelicStatName::DEF => "def".to_owned(),
            RelicStatName::EffectRES => "effRes".to_owned(),
        }
    }
}

/// The identifier this RelicSetName exports as.
pub open spec fn spec_march7th_set_name(n: RelicSetName) -> Seq<char> {
    match n {
        RelicSetName::PasserbyofWanderingCloud => "PasserbyofWanderingCloud"@,
        RelicSetName::MusketeerofWildWheat => "MusketeerofWildWheat"@,
        RelicSetName::KnightofPurityPalace => "KnightofPurityPalace"@,
        RelicSetName::HunterofGlacialForest => "HunterofGlacialForest"@,
        RelicSetName::ChampionofStreetwiseBoxing => "ChampionofStreetwiseBoxing"@,
        RelicSetName::GuardofWutheringSnow => "GuardofWutheringSnow"@,
        RelicSetName::FiresmithofLavaForging => "FiresmithofLavaForging"@,
        RelicSetName::GeniusofBrilliantStars => "GeniusofBrilliantStars"@,
        RelicSetName::BandofSizzlingThunder => "BandofSizzlingThunder"@,
        RelicSetName::EagleofTwilightLine => "EagleofTwilightLine"@,
        RelicSetName::ThiefofShootingMeteor => "ThiefofShootingMeteor"@,
        RelicSetName::WastelanderofBanditryDesert => "WastelanderofBanditryDesert"@,
        RelicSetName::LongevousDisciple => "LongevousDisciple"@,
        RelicSetName::MessengerTraversingHackerspace => "MessengerTraversingHackerspace"@,
        RelicSetName::TheAshblazingGrandDuke => "TheAshblazingGrandDuke"@,
        RelicSetName::PrisonerinDeepConfinement => "PrisonerinDeepConfinement"@,
        RelicSetName::PioneerDiverofDeadWaters => "PioneerDiverofDeadWaters"@,
        RelicSetName::WatchmakerMasterofDreamMachinations => "WatchmakerMasterofDreamMachinations"@,
        RelicSetName::SpaceSealingStation => "SpaceSealingStation"@,
        RelicSetName::FleetoftheAgeless => "FleetoftheAgeless"@,
        RelicSetName::PanCosmicCommercialEnterprise => "PanCosmicCommercialEnterprise"@,
        RelicSetName::BelobogoftheArchitects => "BelobogoftheArchitects"@,
        RelicSetName::CelestialDifferentiator => "CelestialDifferentiator"@,
        RelicSetName::InertSalsotto => "InertSalsotto"@,
        RelicSetName::TaliaKingdomofBanditry => "TaliaKingdomofBanditry"@,
        RelicSetName::SprightlyVonwacq => "SprightlyVonwacq"@,
        RelicSetName::RutilantArena => "RutilantArena"@,
        RelicSetName::BrokenKeel => "BrokenKeel"@,
        RelicSetName::FirmamentFrontlineGlamoth => "FirmamentFrontlineGlamoth"@,
        RelicSetName::PenaconyLandoftheDreams => "PenaconyLandoftheDreams"@,
    }
}

impl RelicSetName {
    /// The key this value is written under in the export schema.
    pub fn to_march7th(&self) -> (r: String)
        ensures
            r@ == spec_march7th_set_name(*self),
    {
        match self {
            RelicSetName::PasserbyofWanderingCloud => "PasserbyofWanderingCloud".to_owned(),
            RelicSetName::MusketeerofWildWheat => "MusketeerofWildWheat".to_owned(),
            RelicSetName::KnightofPurityPalace => "KnightofPurityPalace".to_owned(),
            RelicSetName::HunterofGlacialForest => "HunterofGlacialForest".to_owned(),
            RelicSetName::ChampionofStreetwiseBoxing => "ChampionofStreetwiseBoxing".to_owned(),
            RelicSetName::GuardofWutheringSnow => "GuardofWutheringSnow".to_owned(),
            RelicSetName::FiresmithofLavaForging => "FiresmithofLavaForging".to_owned(),
            RelicSetName::GeniusofBrilliantStars => "GeniusofBrilliantStars".to_owned(),
            RelicSetName::BandofSizzlingThunder => "BandofSizzlingThunder".to_owned(),
            RelicSetName::EagleofTwilightLine => "EagleofTwilightLine".to_owned(),
            RelicSetName::ThiefofShootingMeteor => "ThiefofShootingMeteor".to_owned(),
            RelicSetName::WastelanderofBanditryDesert => "WastelanderofBanditryDesert".to_owned(),
            RelicSetName::LongevousDisciple => "LongevousDisciple".to_owned(),
            RelicSetName::MessengerTraversingHackerspace => "MessengerTraversingHackerspace".to_owned(),
            RelicSetName::TheAshblazingGrandDuke => "TheAshblazingGrandDuke".to_owned(),
            RelicSetName::PrisonerinDeepConfinement => "PrisonerinDeepConfinement".to_owned(),
            RelicSetName::PioneerDiverofDeadWaters => "PioneerDiverofDeadWaters".to_owned(),
            RelicSetName::WatchmakerMasterofDreamMachinations => "WatchmakerMasterofDreamMachinations".to_owned(),
            RelicSetName::SpaceSealingStation => "SpaceSealingStation".to_owned(),
            RelicSetName::FleetoftheAgeless => "FleetoftheAgeless".to_owned(),
            RelicSetName::PanCosmicCommercialEnterprise => "PanCosmicCommercialEnterprise".to_owned(),
            RelicSetName::BelobogoftheArchitects => "BelobogoftheArchitects".to_owned(),
            RelicSetName::CelestialDifferentiator => "CelestialDifferentiator".to_owned(),
            RelicSetName::InertSalsotto => "InertSalsotto".to_owned(),
            RelicSetName::TaliaKingdomofBanditry => "TaliaKingdomofBanditry".to_owned(),
            RelicSetName::SprightlyVonwacq => "SprightlyVonwacq".to_owned(),
            RelicSetName::RutilantArena => "RutilantArena".to_owned(),
            RelicSetName::BrokenKeel => "BrokenKeel".to_owned(),
            RelicSetName::FirmamentFrontlineGlamoth => "FirmamentFrontlineGlamoth".to_owned(),
            RelicSetName::PenaconyLandoftheDreams => "PenaconyLandoftheDreams".to_owned(),
        }
    }
}

/// The identifier this RelicSlot exports as.
pub open spec fn spec_march7th_slot(n: RelicSlot) -> Seq<char> {
    match n {
        RelicSlot::Head => "head"@,
        RelicSlot::Hands => "hands"@,
        RelicSlot::Body => "body"@,
        RelicSlot::Feet => "feet"@,
        RelicSlot::PlanarSphere => "planarSphere"@,
        RelicSlot::LinkRope => "linkRope"@,
    }
}

impl RelicSlot {
    /// The key this value is written under in the export schema.
    pub fn to_march7th(&self) -> (r: String)
        ensures
            r@ == spec_march7th_slot(*self),
    {
        match self {
            RelicSlot::Head => "head".to_owned(),
            RelicSlot::Hands => "hands".to_owned(),
            RelicSlot::Body => "body".to_owned(),
            RelicSlot::Feet => "feet".to_owned(),
            RelicSlot::PlanarSphere => "planarSphere".to_owned(),
            RelicSlot::LinkRope => "linkRope".to_owned(),
        }
    }
}

/// The relics of a scan, grouped by the slot key the export schema uses.
/// The order within each group follows the input.
#[derive(Clone, Debug)]
pub struct March7thFormat {
    pub version: String,
    pub head: Vec<StarRailRelic>,
    pub hands: Vec<StarRailRelic>,
    pub body: Vec<StarRailRelic>,
    pub feet: Vec<StarRailRelic>,
    pub sphere: Vec<StarRailRelic>,
    pub rope: Vec<StarRailRelic>,
}

/// The relics of `rs` that sit in slot `s`, in input order.
pub open spec fn spec_slot_group(rs: Seq<StarRailRelic>, s: RelicSlot) -> Seq<StarRailRelic> {
    rs.filter(|r: StarRailRelic| r.slot == s)
}

impl March7thFormat {
    /// Group the scanned relics by slot. Every relic lands in exactly the
    /// group of its slot, keeping its position relative to the other relics
    /// of that slot.
    pub fn new(results: &Vec<StarRailRelic>) -> (f: March7thFormat)
        ensures
            f.version@ == "1"@,
            f.head@ == spec_slot_group(results@, RelicSlot::Head),
            f.hands@ == spec_slot_group(results@, RelicSlot::Hands),
            f.body@ == spec_slot_group(results@, RelicSlot::Body),
            f.feet@ == spec_slot_group(results@, RelicSlot::Feet),
            f.sphere@ == spec_slot_group(results@, RelicSlot::PlanarSphere),
            f.rope@ == spec_slot_group(results@, RelicSlot::LinkRope),
    {
        let mut head: Vec<StarRailRelic> = Vec::new();
        let mut hands: Vec<StarRailRelic> = Vec::new();
        let mut body: Vec<StarRailRelic> = Vec::new();
        let mut feet: Vec<StarRailRelic> = Vec::new();
        let mut sphere: Vec<StarRailRelic> = Vec::new();
        let mut rope: Vec<StarRailRelic> = Vec::new();
        let mut i: usize = 0;
        while i < results.len()
            invariant
                i <= results@.len(),
                head@ == spec_slot_group(results@.subrange(0, i as int), RelicSlot::Head),
                hands@ == spec_slot_group(results@.subrange(0, i as int), RelicSlot::Hands),
                body@ == spec_slot_group(results@.subrange(0, i as int), RelicSlot::Body),
                feet@ == spec_slot_group(results@.subrange(0, i as int), RelicSlot::Feet),
                sphere@ == spec_slot_group(
                    results@.subrange(0, i as int),
                    RelicSlot::PlanarSphere,
                ),
                rope@ == spec_slot_group(results@.subrange(0, i as int), RelicSlot::LinkRope),
            decreases results.len() - i,
        {
            let ghost prev = results@.subrange(0, i as int);
            let ghost next = results@.subrange(0, i + 1);
            proof {
                assert(next.drop_last() =~= prev);
                assert(next.last() == results@[i as int]);
                assert forall|s: RelicSlot|
                    #[trigger] spec_slot_group(next, s) == (if results@[i as int].slot == s {
                        spec_slot_group(prev, s).push(results@[i as int])
                    } else {
                        spec_slot_group(prev, s)
                    }) by {
                    reveal_with_fuel(Seq::<StarRailRelic>::filter, 2);
                    assert(next.drop_last() == prev);
                }
            }
            let relic = results[i].clone();
            match relic.slot {
                RelicSlot::Head => head.push(relic),
                RelicSlot::Hands => hands.push(relic),
                RelicSlot::Body => body.push(relic),
                RelicSlot::Feet => feet.push(relic),
                RelicSlot::PlanarSphere => sphere.push(relic),
                RelicSlot::LinkRope => rope.push(relic),
            }
            i = i + 1;
        }
        proof {
            assert(results@.subrange(0, results@.len() as int) =~= results@);
        }
        March7thFormat { version: "1".to_owned(), head, hands, body, feet, sphere, rope }
    }
}

} // verus!
