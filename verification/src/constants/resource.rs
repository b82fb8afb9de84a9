//! Resources: their kinds, names and integer codes.

use vstd::prelude::*;
use crate::text::{chars_of, mark, spells};

verus! {

/// The resources that are held per account and not per shard, as `INTERSHARD_RESOURCES` lists them.
#[derive(Copy, Clone, Debug, PartialEq, Eq, Hash, Structural)]
pub enum IntershardResourceType {
    /// `"token"`
    SubscriptionToken,
}

impl IntershardResourceType {
    /// The integer that stands for this resource.
    pub open spec fn code(self) -> u16 {
        match self {
            IntershardResourceType::SubscriptionToken => 1001,
        }
    }

    /// The integer that stands for this value.
    pub fn repr(self) -> (r: u16)
        ensures
            r == self.code(),
    {
        match self {
            IntershardResourceType::SubscriptionToken => 1001,
        }
    }

    /// The value that `n` stands for, if there is one.
    pub fn from_repr(n: u16) -> (r: Option<IntershardResourceType>)
        ensures
            match r {
                Some(v) => v.code() == n,
                None => forall|v: IntershardResourceType| v.code() != n,
            },
            forall|v: IntershardResourceType| v.code() == n ==> r == Some(v),
    {
        match n {
            1001 => Some(IntershardResourceType::SubscriptionToken),
            _ => None,
        }
    }

    /// The name of this value as the game spells it.
    pub open spec fn name(self) -> Seq<char> {
        match self {
            IntershardResourceType::SubscriptionToken => "token"@,
        }
    }

    /// The name of this value as the game spells it.
    pub fn as_str(self) -> (r: &'static str)
        ensures
            r@ == self.name(),
    {
        match self {
            IntershardResourceType::SubscriptionToken => "token",
        }
    }

    /// Reads a value from its name, one of the strings in `INTERSHARD_RESOURCES`. A string that
    /// names none gives `None`.
    pub fn deserialize_from_str(s: &str) -> (r: Option<IntershardResourceType>)
        ensures
            match r {
                Some(v) => v.name() == s@,
                None => forall|v: IntershardResourceType| v.name() != s@,
            },
            forall|v: IntershardResourceType| v.name() == s@ ==> r == Some(v),
    {
        let cs = chars_of(s);
        let t: &[char] = cs.as_slice();
        let r = if spells(t, "token") {
            Some(IntershardResourceType::SubscriptionToken)
        } else {
            None
        };
        proof {
            assert forall|v: IntershardResourceType| v.name() == s@ implies r == Some(v) by {
                match r {
                    Some(w) => lemma_intershard_name_injective(v, w),
                    None => {},
                }
            }
        }
        r
    }
}

/// No two resources of an account have one name.
pub proof fn lemma_intershard_name_injective(a: IntershardResourceType, b: IntershardResourceType)
    requires
        a.name() == b.name(),
    ensures
        a == b,
{
}

/// Every kind of resource, as the `RESOURCE_*` constants name them.
#[derive(Copy, Clone, Debug, PartialEq, Eq, Hash, Structural)]
pub enum ResourceType {
    /// `"energy"`
    Energy,
    /// `"power"`
    Power,
    /// `"H"`
    Hydrogen,
    /// `"O"`
    Oxygen,
    /// `"U"`
    Utrium,
    /// `"L"`
    Lemergium,
    /// `"K"`
    Keanium,
    /// `"Z"`
    Zynthium,
    /// `"X"`
    Catalyst,
    /// `"G"`
    Ghodium,
    /// `"OH"`
    Hydroxide,
    /// `"ZK"`
    ZynthiumKeanite,
    /// `"UL"`
    UtriumLemergite,
    /// `"UH"`
    UtriumHydride,
    /// `"UO"`
    UtriumOxide,
    /// `"KH"`
    KeaniumHydride,
    /// `"KO"`
    KeaniumOxide,
    /// `"LH"`
    LemergiumHydride,
    /// `"LO"`
    LemergiumOxide,
    /// `"ZH"`
    ZynthiumHydride,
    /// `"ZO"`
    ZynthiumOxide,
    /// `"GH"`
    GhodiumHydride,
    /// `"GO"`
    GhodiumOxide,
    /// `"UH2O"`
    UtriumAcid,
    /// `"UHO2"`
    UtriumAlkalide,
    /// `"KH2O"`
    KeaniumAcid,
    /// `"KHO2"`
    KeaniumAlkalide,
    /// `"LH2O"`
    LemergiumAcid,
    /// `"LHO2"`
    LemergiumAlkalide,
    /// `"ZH2O"`
    ZynthiumAcid,
    /// `"ZHO2"`
    ZynthiumAlkalide,
    /// `"GH2O"`
    GhodiumAcid,
    /// `"GHO2"`
    GhodiumAlkalide,
    /// `"XUH2O"`
    CatalyzedUtriumAcid,
    /// `"XUHO2"`
    CatalyzedUtriumAlkalide,
    /// `"XKH2O"`
    CatalyzedKeaniumAcid,
    /// `"XKHO2"`
    CatalyzedKeaniumAlkalide,
    /// `"XLH2O"`
    CatalyzedLemergiumAcid,
    /// `"XLHO2"`
    CatalyzedLemergiumAlkalide,
    /// `"XZH2O"`
    CatalyzedZynthiumAcid,
    /// `"XZHO2"`
    CatalyzedZynthiumAlkalide,
    /// `"XGH2O"`
    CatalyzedGhodiumAcid,
    /// `"XGHO2"`
    CatalyzedGhodiumAlkalide,
    /// `"ops"`
    Ops,
    /// `"silicon"`
    Silicon,
    /// `"metal"`
    Metal,
    /// `"biomass"`
    Biomass,
    /// `"mist"`
    Mist,
    /// `"utrium_bar"`
    UtriumBar,
    /// `"lemergium_bar"`
    LemergiumBar,
    /// `"zynthium_bar"`
    ZynthiumBar,
    /// `"keanium_bar"`
    KeaniumBar,
    /// `"ghodium_melt"`
    GhodiumMelt,
    /// `"oxidant"`
    Oxidant,
    /// `"reductant"`
    Reductant,
    /// `"purifier"`
    Purifier,
    /// `"battery"`
    Battery,
    /// `"composite"`
    Composite,
    /// `"crystal"`
    Crystal,
    /// `"liquid"`
    Liquid,
    /// `"wire"`
    Wire,
    /// `"switch"`
    Switch,
    /// `"transistor"`
    Transistor,
    /// `"microchip"`
    Microchip,
    /// `"circuit"`
    Circuit,
    /// `"device"`
    Device,
    /// `"cell"`
    Cell,
    /// `"phlegm"`
    Phlegm,
    /// `"tissue"`
    Tissue,
    /// `"muscle"`
    Muscle,
    /// `"organoid"`
    Organoid,
    /// `"organism"`
    Organism,
    /// `"alloy"`
    Alloy,
    /// `"tube"`
    Tube,
    /// `"fixtures"`
    Fixtures,
    /// `"frame"`
    Frame,
    /// `"hydraulics"`
    Hydraulics,
    /// `"machine"`
    Machine,
    /// `"condensate"`
    Condensate,
    /// `"concentrate"`
    Concentrate,
    /// `"extract"`
    Extract,
    /// `"spirit"`
    Spirit,
    /// `"emanation"`
    Emanation,
    /// `"essence"`
    Essence,
}

impl ResourceType {
    /// The integer that stands for this resource.
    pub open spec fn code(self) -> u16 {
        match self {
            ResourceType::Energy => 1,
            ResourceType::Power => 2,
            ResourceType::Hydrogen => 3,
            ResourceType::Oxygen => 4,
            ResourceType::Utrium => 5,
            ResourceType::Lemergium => 6,
            ResourceType::Keanium => 7,
            ResourceType::Zynthium => 8,
            ResourceType::Catalyst => 9,
            ResourceType::Ghodium => 10,
            ResourceType::Hydroxide => 11,
            ResourceType::ZynthiumKeanite => 12,
            ResourceType::UtriumLemergite => 13,
            ResourceType::UtriumHydride => 14,
            ResourceType::UtriumOxide => 15,
            ResourceType::KeaniumHydride => 16,
            ResourceType::KeaniumOxide => 17,
            ResourceType::LemergiumHydride => 18,
            ResourceType::LemergiumOxide => 19,
            ResourceType::ZynthiumHydride => 20,
            ResourceType::ZynthiumOxide => 21,
            ResourceType::GhodiumHydride => 22,
            ResourceType::GhodiumOxide => 23,
            ResourceType::UtriumAcid => 24,
            ResourceType::UtriumAlkalide => 25,
            ResourceType::KeaniumAcid => 26,
            ResourceType::KeaniumAlkalide => 27,
            ResourceType::LemergiumAcid => 28,
            ResourceType::LemergiumAlkalide => 29,
            ResourceType::ZynthiumAcid => 30,
            ResourceType::ZynthiumAlkalide => 31,
            ResourceType::GhodiumAcid => 32,
            ResourceType::GhodiumAlkalide => 33,
            ResourceType::CatalyzedUtriumAcid => 34,
            ResourceType::CatalyzedUtriumAlkalide => 35,
            ResourceType::CatalyzedKeaniumAcid => 36,
            ResourceType::CatalyzedKeaniumAlkalide => 37,
            ResourceType::CatalyzedLemergiumAcid => 38,
            ResourceType::CatalyzedLemergiumAlkalide => 39,
            ResourceType::CatalyzedZynthiumAcid => 40,
            ResourceType::CatalyzedZynthiumAlkalide => 41,
            ResourceType::CatalyzedGhodiumAcid => 42,
            ResourceType::CatalyzedGhodiumAlkalide => 43,
            ResourceType::Ops => 44,
            ResourceType::Silicon => 45,
            ResourceType::Metal => 46,
            ResourceType::Biomass => 47,
            ResourceType::Mist => 48,
            ResourceType::UtriumBar => 49,
            ResourceType::LemergiumBar => 50,
            ResourceType::ZynthiumBar => 51,
            ResourceType::KeaniumBar => 52,
            ResourceType::GhodiumMelt => 53,
            ResourceType::Oxidant => 54,
            ResourceType::Reductant => 55,
            ResourceType::Purifier => 56,
            ResourceType::Battery => 57,
            ResourceType::Composite => 58,
            ResourceType::Crystal => 59,
            ResourceType::Liquid => 60,
            ResourceType::Wire => 61,
            ResourceType::Switch => 62,
            ResourceType::Transistor => 63,
            ResourceType::Microchip => 64,
            ResourceType::Circuit => 65,
            ResourceType::Device => 66,
            ResourceType::Cell => 67,
            ResourceType::Phlegm => 68,
            ResourceType::Tissue => 69,
            ResourceType::Muscle => 70,
            ResourceType::Organoid => 71,
            ResourceType::Organism => 72,
            ResourceType::Alloy => 73,
            ResourceType::Tube => 74,
            ResourceType::Fixtures => 75,
            ResourceType::Frame => 76,
            ResourceType::Hydraulics => 77,
            ResourceType::Machine => 78,
            ResourceType::Condensate => 79,
            ResourceType::Concentrate => 80,
            ResourceType::Extract => 81,
            ResourceType::Spirit => 82,
            ResourceType::Emanation => 83,
            ResourceType::Essence => 84,
        }
    }

    /// The integer that stands for this value.
    pub fn repr(self) -> (r: u16)
        ensures
            r == self.code(),
    {
        match self {
            ResourceType::Energy => 1,
            ResourceType::Power => 2,
            ResourceType::Hydrogen => 3,
            ResourceType::Oxygen => 4,
            ResourceType::Utrium => 5,
            ResourceType::Lemergium => 6,
            ResourceType::Keanium => 7,
            ResourceType::Zynthium => 8,
            ResourceType::Catalyst => 9,
            ResourceType::Ghodium => 10,
            ResourceType::Hydroxide => 11,
            ResourceType::ZynthiumKeanite => 12,
            ResourceType::UtriumLemergite => 13,
            ResourceType::UtriumHydride => 14,
            ResourceType::UtriumOxide => 15,
            ResourceType::KeaniumHydride => 16,
            ResourceType::KeaniumOxide => 17,
            ResourceType::LemergiumHydride => 18,
            ResourceType::LemergiumOxide => 19,
            ResourceType::ZynthiumHydride => 20,
            ResourceType::ZynthiumOxide => 21,
            ResourceType::GhodiumHydride => 22,
            ResourceType::GhodiumOxide => 23,
            ResourceType::UtriumAcid => 24,
            ResourceType::UtriumAlkalide => 25,
            ResourceType::KeaniumAcid => 26,
            ResourceType::KeaniumAlkalide => 27,
            ResourceType::LemergiumAcid => 28,
            ResourceType::LemergiumAlkalide => 29,
            ResourceType::ZynthiumAcid => 30,
            ResourceType::ZynthiumAlkalide => 31,
            ResourceType::GhodiumAcid => 32,
            ResourceType::GhodiumAlkalide => 33,
            ResourceType::CatalyzedUtriumAcid => 34,
            ResourceType::CatalyzedUtriumAlkalide => 35,
            ResourceType::CatalyzedKeaniumAcid => 36,
            ResourceType::CatalyzedKeaniumAlkalide => 37,
            ResourceType::CatalyzedLemergiumAcid => 38,
            ResourceType::CatalyzedLemergiumAlkalide => 39,
            ResourceType::CatalyzedZynthiumAcid => 40,
            ResourceType::CatalyzedZynthiumAlkalide => 41,
            ResourceType::CatalyzedGhodiumAcid => 42,
            ResourceType::CatalyzedGhodiumAlkalide => 43,
            ResourceType::Ops => 44,
            ResourceType::Silicon => 45,
            ResourceType::Metal => 46,
            ResourceType::Biomass => 47,
            ResourceType::Mist => 48,
            ResourceType::UtriumBar => 49,
            ResourceType::LemergiumBar => 50,
            ResourceType::ZynthiumBar => 51,
            ResourceType::KeaniumBar => 52,
            ResourceType::GhodiumMelt => 53,
            ResourceType::Oxidant => 54,
            ResourceType::Reductant => 55,
            ResourceType::Purifier => 56,
            ResourceType::Battery => 57,
            ResourceType::Composite => 58,
            ResourceType::Crystal => 59,
            ResourceType::Liquid => 60,
            ResourceType::Wire => 61,
            ResourceType::Switch => 62,
            ResourceType::Transistor => 63,
            ResourceType::Microchip => 64,
            ResourceType::Circuit => 65,
            ResourceType::Device => 66,
            ResourceType::Cell => 67,
            ResourceType::Phlegm => 68,
            ResourceType::Tissue => 69,
            ResourceType::Muscle => 70,
            ResourceType::Organoid => 71,
            ResourceType::Organism => 72,
            ResourceType::Alloy => 73,
            ResourceType::Tube => 74,
            ResourceType::Fixtures => 75,
            ResourceType::Frame => 76,
            ResourceType::Hydraulics => 77,
            ResourceType::Machine => 78,
            ResourceType::Condensate => 79,
            ResourceType::Concentrate => 80,
            ResourceType::Extract => 81,
            ResourceType::Spirit => 82,
            ResourceType::Emanation => 83,
            ResourceType::Essence => 84,
        }
    }

    /// The value that `n` stands for, if there is one.
    pub fn from_repr(n: u16) -> (r: Option<ResourceType>)
        ensures
            match r {
                Some(v) => v.code() == n,
                None => forall|v: ResourceType| v.code() != n,
            },
            forall|v: ResourceType| v.code() == n ==> r == Some(v),
    {
        match n {
            1 => Some(ResourceType::Energy),
            2 => Some(ResourceType::Power),
            3 => Some(ResourceType::Hydrogen),
            4 => Some(ResourceType::Oxygen),
            5 => Some(ResourceType::Utrium),
            6 => Some(ResourceType::Lemergium),
            7 => Some(ResourceType::Keanium),
            8 => Some(ResourceType::Zynthium),
            9 => Some(ResourceType::Catalyst),
            10 => Some(ResourceType::Ghodium),
            11 => Some(ResourceType::Hydroxide),
            12 => Some(ResourceType::ZynthiumKeanite),
            13 => Some(ResourceType::UtriumLemergite),
            14 => Some(ResourceType::UtriumHydride),
            15 => Some(ResourceType::UtriumOxide),
            16 => Some(ResourceType::KeaniumHydride),
            17 => Some(ResourceType::KeaniumOxide),
            18 => Some(ResourceType::LemergiumHydride),
            19 => Some(ResourceType::LemergiumOxide),
            20 => Some(ResourceType::ZynthiumHydride),
            21 => Some(ResourceType::ZynthiumOxide),
            22 => Some(ResourceType::GhodiumHydride),
            23 => Some(ResourceType::GhodiumOxide),
            24 => Some(ResourceType::UtriumAcid),
            25 => Some(ResourceType::UtriumAlkalide),
            26 => Some(ResourceType::KeaniumAcid),
            27 => Some(ResourceType::KeaniumAlkalide),
            28 => Some(ResourceType::LemergiumAcid),
            29 => Some(ResourceType::LemergiumAlkalide),
            30 => Some(ResourceType::ZynthiumAcid),
            31 => Some(ResourceType::ZynthiumAlkalide),
            32 => Some(ResourceType::GhodiumAcid),
            33 => Some(ResourceType::GhodiumAlkalide),
            34 => Some(ResourceType::CatalyzedUtriumAcid),
            35 => Some(ResourceType::CatalyzedUtriumAlkalide),
            36 => Some(ResourceType::CatalyzedKeaniumAcid),
            37 => Some(ResourceType::CatalyzedKeaniumAlkalide),
            38 => Some(ResourceType::CatalyzedLemergiumAcid),
            39 => Some(ResourceType::CatalyzedLemergiumAlkalide),
            40 => Some(ResourceType::CatalyzedZynthiumAcid),
            41 => Some(ResourceType::CatalyzedZynthiumAlkalide),
            42 => Some(ResourceType::CatalyzedGhodiumAcid),
            43 => Some(ResourceType::CatalyzedGhodiumAlkalide),
            44 => Some(ResourceType::Ops),
            45 => Some(ResourceType::Silicon),
            46 => Some(ResourceType::Metal),
            47 => Some(ResourceType::Biomass),
            48 => Some(ResourceType::Mist),
            49 => Some(ResourceType::UtriumBar),
            50 => Some(ResourceType::LemergiumBar),
            51 => Some(ResourceType::ZynthiumBar),
            52 => Some(ResourceType::KeaniumBar),
            53 => Some(ResourceType::GhodiumMelt),
            54 => Some(ResourceType::Oxidant),
            55 => Some(ResourceType::Reductant),
            56 => Some(ResourceType::Purifier),
            57 => Some(ResourceType::Battery),
            58 => Some(ResourceType::Composite),
            59 => Some(ResourceType::Crystal),
            60 => Some(ResourceType::Liquid),
            61 => Some(ResourceType::Wire),
            62 => Some(ResourceType::Switch),
            63 => Some(ResourceType::Transistor),
            64 => Some(ResourceType::Microchip),
            65 => Some(ResourceType::Circuit),
            66 => Some(ResourceType::Device),
            67 => Some(ResourceType::Cell),
            68 => Some(ResourceType::Phlegm),
            69 => Some(ResourceType::Tissue),
            70 => Some(ResourceType::Muscle),
            71 => Some(ResourceType::Organoid),
            72 => Some(ResourceType::Organism),
            73 => Some(ResourceType::Alloy),
            74 => Some(ResourceType::Tube),
            75 => Some(ResourceType::Fixtures),
            76 => Some(ResourceType::Frame),
            77 => Some(ResourceType::Hydraulics),
            78 => Some(ResourceType::Machine),
            79 => Some(ResourceType::Condensate),
            80 => Some(ResourceType::Concentrate),
            81 => Some(ResourceType::Extract),
            82 => Some(ResourceType::Spirit),
            83 => Some(ResourceType::Emanation),
            84 => Some(ResourceType::Essence),
            _ => None,
        }
    }

    /// The name of this value as the game spells it.
    pub open spec fn name(self) -> Seq<char> {
        match self {
            ResourceType::Energy => "energy"@,
            ResourceType::Power => "power"@,
            ResourceType::Hydrogen => "H"@,
            ResourceType::Oxygen => "O"@,
            ResourceType::Utrium => "U"@,
            ResourceType::Lemergium => "L"@,
            ResourceType::Keanium => "K"@,
            ResourceType::Zynthium => "Z"@,
            ResourceType::Catalyst => "X"@,
            ResourceType::Ghodium => "G"@,
            ResourceType::Hydroxide => "OH"@,
            ResourceType::ZynthiumKeanite => "ZK"@,
            ResourceType::UtriumLemergite => "UL"@,
            ResourceType::UtriumHydride => "UH"@,
            ResourceType::UtriumOxide => "UO"@,
            ResourceType::KeaniumHydride => "KH"@,
            ResourceType::KeaniumOxide => "KO"@,
            ResourceType::LemergiumHydride => "LH"@,
            ResourceType::LemergiumOxide => "LO"@,
            ResourceType::ZynthiumHydride => "ZH"@,
            ResourceType::ZynthiumOxide => "ZO"@,
            ResourceType::GhodiumHydride => "GH"@,
            ResourceType::GhodiumOxide => "GO"@,
            ResourceType::UtriumAcid => "UH2O"@,
            ResourceType::UtriumAlkalide => "UHO2"@,
            ResourceType::KeaniumAcid => "KH2O"@,
            ResourceType::KeaniumAlkalide => "KHO2"@,
            ResourceType::LemergiumAcid => "LH2O"@,
            ResourceType::LemergiumAlkalide => "LHO2"@,
            ResourceType::ZynthiumAcid => "ZH2O"@,
            ResourceType::ZynthiumAlkalide => "ZHO2"@,
            ResourceType::GhodiumAcid => "GH2O"@,
            ResourceType::GhodiumAlkalide => "GHO2"@,
            ResourceType::CatalyzedUtriumAcid => "XUH2O"@,
            ResourceType::CatalyzedUtriumAlkalide => "XUHO2"@,
            ResourceType::CatalyzedKeaniumAcid => "XKH2O"@,
            ResourceType::CatalyzedKeaniumAlkalide => "XKHO2"@,
            ResourceType::CatalyzedLemergiumAcid => "XLH2O"@,
            ResourceType::CatalyzedLemergiumAlkalide => "XLHO2"@,
            ResourceType::CatalyzedZynthiumAcid => "XZH2O"@,
            ResourceType::CatalyzedZynthiumAlkalide => "XZHO2"@,
            ResourceType::CatalyzedGhodiumAcid => "XGH2O"@,
            ResourceType::CatalyzedGhodiumAlkalide => "XGHO2"@,
            ResourceType::Ops => "ops"@,
            ResourceType::Silicon => "silicon"@,
            ResourceType::Metal => "metal"@,
            ResourceType::Biomass => "biomass"@,
            ResourceType::Mist => "mist"@,
            ResourceType::UtriumBar => "utrium_bar"@,
            ResourceType::LemergiumBar => "lemergium_bar"@,
            ResourceType::ZynthiumBar => "zynthium_bar"@,
            ResourceType::KeaniumBar => "keanium_bar"@,
            ResourceType::GhodiumMelt => "ghodium_melt"@,
            ResourceType::Oxidant => "oxidant"@,
            ResourceType::Reductant => "reductant"@,
            ResourceType::Purifier => "purifier"@,
            ResourceType::Battery => "battery"@,
            ResourceType::Composite => "composite"@,
            ResourceType::Crystal => "crystal"@,
            ResourceType::Liquid => "liquid"@,
            ResourceType::Wire => "wire"@,
            ResourceType::Switch => "switch"@,
            ResourceType::Transistor => "transistor"@,
            ResourceType::Microchip => "microchip"@,
            ResourceType::Circuit => "circuit"@,
            ResourceType::Device => "device"@,
            ResourceType::Cell => "cell"@,
            ResourceType::Phlegm => "phlegm"@,
            ResourceType::Tissue => "tissue"@,
            ResourceType::Muscle => "muscle"@,
            ResourceType::Organoid => "organoid"@,
            ResourceType::Organism => "organism"@,
            ResourceType::Alloy => "alloy"@,
            ResourceType::Tube => "tube"@,
            ResourceType::Fixtures => "fixtures"@,
            ResourceType::Frame => "frame"@,
            ResourceType::Hydraulics => "hydraulics"@,
            ResourceType::Machine => "machine"@,
            ResourceType::Condensate => "condensate"@,
            ResourceType::Concentrate => "concentrate"@,
            ResourceType::Extract => "extract"@,
            ResourceType::Spirit => "spirit"@,
            ResourceType::Emanation => "emanation"@,
            ResourceType::Essence => "essence"@,
        }
    }

    /// The name of this value as the game spells it.
    pub fn as_str(self) -> (r: &'static str)
        ensures
            r@ == self.name(),
    {
        match self {
            ResourceType::Energy => "energy",
            ResourceType::Power => "power",
            ResourceType::Hydrogen => "H",
            ResourceType::Oxygen => "O",
            ResourceType::Utrium => "U",
            ResourceType::Lemergium => "L",
            ResourceType::Keanium => "K",
            ResourceType::Zynthium => "Z",
            ResourceType::Catalyst => "X",
            ResourceType::Ghodium => "G",
            ResourceType::Hydroxide => "OH",
            ResourceType::ZynthiumKeanite => "ZK",
            ResourceType::UtriumLemergite => "UL",
            ResourceType::UtriumHydride => "UH",
            ResourceType::UtriumOxide => "UO",
            ResourceType::KeaniumHydride => "KH",
            ResourceType::KeaniumOxide => "KO",
            ResourceType::LemergiumHydride => "LH",
            ResourceType::LemergiumOxide => "LO",
            ResourceType::ZynthiumHydride => "ZH",
            ResourceType::ZynthiumOxide => "ZO",
            ResourceType::GhodiumHydride => "GH",
            ResourceType::GhodiumOxide => "GO",
            ResourceType::UtriumAcid => "UH2O",
            ResourceType::UtriumAlkalide => "UHO2",
            ResourceType::KeaniumAcid => "KH2O",
            ResourceType::KeaniumAlkalide => "KHO2",
            ResourceType::LemergiumAcid => "LH2O",
            ResourceType::LemergiumAlkalide => "LHO2",
            ResourceType::ZynthiumAcid => "ZH2O",
            ResourceType::ZynthiumAlkalide => "ZHO2",
            ResourceType::GhodiumAcid => "GH2O",
            ResourceType::GhodiumAlkalide => "GHO2",
            ResourceType::CatalyzedUtriumAcid => "XUH2O",
            ResourceType::CatalyzedUtriumAlkalide => "XUHO2",
            ResourceType::CatalyzedKeaniumAcid => "XKH2O",
            ResourceType::CatalyzedKeaniumAlkalide => "XKHO2",
            ResourceType::CatalyzedLemergiumAcid => "XLH2O",
            ResourceType::CatalyzedLemergiumAlkalide => "XLHO2",
            ResourceType::CatalyzedZynthiumAcid => "XZH2O",
            ResourceType::CatalyzedZynthiumAlkalide => "XZHO2",
            ResourceType::CatalyzedGhodiumAcid => "XGH2O",
            ResourceType::CatalyzedGhodiumAlkalide => "XGHO2",
            ResourceType::Ops => "ops",
            ResourceType::Silicon => "silicon",
            ResourceType::Metal => "metal",
            ResourceType::Biomass => "biomass",
            ResourceType::Mist => "mist",
            ResourceType::UtriumBar => "utrium_bar",
            ResourceType::LemergiumBar => "lemergium_bar",
            ResourceType::ZynthiumBar => "zynthium_bar",
            ResourceType::KeaniumBar => "keanium_bar",
            ResourceType::GhodiumMelt => "ghodium_melt",
            ResourceType::Oxidant => "oxidant",
            ResourceType::Reductant => "reductant",
            ResourceType::Purifier => "purifier",
            ResourceType::Battery => "battery",
            ResourceType::Composite => "composite",
            ResourceType::Crystal => "crystal",
            ResourceType::Liquid => "liquid",
            ResourceType::Wire => "wire",
            ResourceType::Switch => "switch",
            ResourceType::Transistor => "transistor",
            ResourceType::Microchip => "microchip",
            ResourceType::Circuit => "circuit",
            ResourceType::Device => "device",
            ResourceType::Cell => "cell",
            ResourceType::Phlegm => "phlegm",
            ResourceType::Tissue => "tissue",
            ResourceType::Muscle => "muscle",
            ResourceType::Organoid => "organoid",
            ResourceType::Organism => "organism",
            ResourceType::Alloy => "alloy",
            ResourceType::Tube => "tube",
            ResourceType::Fixtures => "fixtures",
            ResourceType::Frame => "frame",
            ResourceType::Hydraulics => "hydraulics",
            ResourceType::Machine => "machine",
            ResourceType::Condensate => "condensate",
            ResourceType::Concentrate => "concentrate",
            ResourceType::Extract => "extract",
            ResourceType::Spirit => "spirit",
            ResourceType::Emanation => "emanation",
            ResourceType::Essence => "essence",
        }
    }

    /// Reads a value from its name, one of the strings in `RESOURCES_ALL`. A string that
    /// names none gives `None`.
    pub fn deserialize_from_str(s: &str) -> (r: Option<ResourceType>)
        ensures
            match r {
                Some(v) => v.name() == s@,
                None => forall|v: ResourceType| v.name() != s@,
            },
            forall|v: ResourceType| v.name() == s@ ==> r == Some(v),
    {
        let cs = chars_of(s);
        let t: &[char] = cs.as_slice();
        let r = if spells(t, "energy") {
            Some(ResourceType::Energy)
        } else if spells(t, "power") {
            Some(ResourceType::Power)
        } else if spells(t, "H") {
            Some(ResourceType::Hydrogen)
        } else if spells(t, "O") {
            Some(ResourceType::Oxygen)
        } else if spells(t, "U") {
            Some(ResourceType::Utrium)
        } else if spells(t, "L") {
            Some(ResourceType::Lemergium)
        } else if spells(t, "K") {
            Some(ResourceType::Keanium)
        } else if spells(t, "Z") {
            Some(ResourceType::Zynthium)
        } else if spells(t, "X") {
            Some(ResourceType::Catalyst)
        } else if spells(t, "G") {
            Some(ResourceType::Ghodium)
        } else if spells(t, "OH") {
            Some(ResourceType::Hydroxide)
        } else if spells(t, "ZK") {
            Some(ResourceType::ZynthiumKeanite)
        } else if spells(t, "UL") {
            Some(ResourceType::UtriumLemergite)
        } else if spells(t, "UH") {
            Some(ResourceType::UtriumHydride)
        } else if spells(t, "UO") {
            Some(ResourceType::UtriumOxide)
        } else if spells(t, "KH") {
            Some(ResourceType::KeaniumHydride)
        } else if spells(t, "KO") {
            Some(ResourceType::KeaniumOxide)
        } else if spells(t, "LH") {
            Some(ResourceType::LemergiumHydride)
        } else if spells(t, "LO") {
            Some(ResourceType::LemergiumOxide)
        } else if spells(t, "ZH") {
            Some(ResourceType::ZynthiumHydride)
        } else if spells(t, "ZO") {
            Some(ResourceType::ZynthiumOxide)
        } else if spells(t, "GH") {
            Some(ResourceType::GhodiumHydride)
        } else if spells(t, "GO") {
            Some(ResourceType::GhodiumOxide)
        } else if spells(t, "UH2O") {
            Some(ResourceType::UtriumAcid)
        } else if spells(t, "UHO2") {
            Some(ResourceType::UtriumAlkalide)
        } else if spells(t, "KH2O") {
            Some(ResourceType::KeaniumAcid)
        } else if spells(t, "KHO2") {
            Some(ResourceType::KeaniumAlkalide)
        } else if spells(t, "LH2O") {
            Some(ResourceType::LemergiumAcid)
        } else if spells(t, "LHO2") {
            Some(ResourceType::LemergiumAlkalide)
        } else if spells(t, "ZH2O") {
            Some(ResourceType::ZynthiumAcid)
        } else if spells(t, "ZHO2") {
            Some(ResourceType::ZynthiumAlkalide)
        } else if spells(t, "GH2O") {
            Some(ResourceType::GhodiumAcid)
        } else if spells(t, "GHO2") {
            Some(ResourceType::GhodiumAlkalide)
        } else if spells(t, "XUH2O") {
            Some(ResourceType::CatalyzedUtriumAcid)
        } else if spells(t, "XUHO2") {
            Some(ResourceType::CatalyzedUtriumAlkalide)
        } else if spells(t, "XKH2O") {
            Some(ResourceType::CatalyzedKeaniumAcid)
        } else if spells(t, "XKHO2") {
            Some(ResourceType::CatalyzedKeaniumAlkalide)
        } else if spells(t, "XLH2O") {
            Some(ResourceType::CatalyzedLemergiumAcid)
        } else if spells(t, "XLHO2") {
            Some(ResourceType::CatalyzedLemergiumAlkalide)
        } else if spells(t, "XZH2O") {
            Some(ResourceType::CatalyzedZynthiumAcid)
        } else if spells(t, "XZHO2") {
            Some(ResourceType::CatalyzedZynthiumAlkalide)
        } else if spells(t, "XGH2O") {
            Some(ResourceType::CatalyzedGhodiumAcid)
        } else if spells(t, "XGHO2") {
            Some(ResourceType::CatalyzedGhodiumAlkalide)
        } else if spells(t, "ops") {
            Some(ResourceType::Ops)
        } else if spells(t, "silicon") {
            Some(ResourceType::Silicon)
        } else if spells(t, "metal") {
            Some(ResourceType::Metal)
        } else if spells(t, "biomass") {
            Some(ResourceType::Biomass)
        } else if spells(t, "mist") {
            Some(ResourceType::Mist)
        } else if spells(t, "utrium_bar") {
            Some(ResourceType::UtriumBar)
        } else if spells(t, "lemergium_bar") {
            Some(ResourceType::LemergiumBar)
        } else if spells(t, "zynthium_bar") {
            Some(ResourceType::ZynthiumBar)
        } else if spells(t, "keanium_bar") {
            Some(ResourceType::KeaniumBar)
        } else if spells(t, "ghodium_melt") {
            Some(ResourceType::GhodiumMelt)
        } else if spells(t, "oxidant") {
            Some(ResourceType::Oxidant)
        } else if spells(t, "reductant") {
            Some(ResourceType::Reductant)
        } else if spells(t, "purifier") {
            Some(ResourceType::Purifier)
        } else if spells(t, "battery") {
            Some(ResourceType::Battery)
        } else if spells(t, "composite") {
            Some(ResourceType::Composite)
        } else if spells(t, "crystal") {
            Some(ResourceType::Crystal)
        } else if spells(t, "liquid") {
            Some(ResourceType::Liquid)
        } else if spells(t, "wire") {
            Some(ResourceType::Wire)
        } else if spells(t, "switch") {
            Some(ResourceType::Switch)
        } else if spells(t, "transistor") {
            Some(ResourceType::Transistor)
        } else if spells(t, "microchip") {
            Some(ResourceType::Microchip)
        } else if spells(t, "circuit") {
            Some(ResourceType::Circuit)
        } else if spells(t, "device") {
            Some(ResourceType::Device)
        } else if spells(t, "cell") {
            Some(ResourceType::Cell)
        } else if spells(t, "phlegm") {
            Some(ResourceType::Phlegm)
        } else if spells(t, "tissue") {
            Some(ResourceType::Tissue)
        } else if spells(t, "muscle") {
            Some(ResourceType::Muscle)
        } else if spells(t, "organoid") {
            Some(ResourceType::Organoid)
        } else if spells(t, "organism") {
            Some(ResourceType::Organism)
        } else if spells(t, "alloy") {
            Some(ResourceType::Alloy)
        } else if spells(t, "tube") {
            Some(ResourceType::Tube)
        } else if spells(t, "fixtures") {
            Some(ResourceType::Fixtures)
        } else if spells(t, "frame") {
            Some(ResourceType::Frame)
        } else if spells(t, "hydraulics") {
            Some(ResourceType::Hydraulics)
        } else if spells(t, "machine") {
            Some(ResourceType::Machine)
        } else if spells(t, "condensate") {
            Some(ResourceType::Condensate)
        } else if spells(t, "concentrate") {
            Some(ResourceType::Concentrate)
        } else if spells(t, "extract") {
            Some(ResourceType::Extract)
        } else if spells(t, "spirit") {
            Some(ResourceType::Spirit)
        } else if spells(t, "emanation") {
            Some(ResourceType::Emanation)
        } else if spells(t, "essence") {
            Some(ResourceType::Essence)
        } else {
            None
        };
        proof {
            assert forall|v: ResourceType| v.name() == s@ implies r == Some(v) by {
                match r {
                    Some(w) => lemma_resource_name_injective(v, w),
                    None => {},
                }
            }
        }
        r
    }
}

/// No two resources stand behind one integer.
pub proof fn lemma_resource_code_injective(a: ResourceType, b: ResourceType)
    requires
        a.code() == b.code(),
    ensures
        a == b,
{
}

/// What tells the name of each of the resources from the names of the others.
pub open spec fn resource_mark(v: ResourceType) -> (int, char, char, char, char) {
    match v {
        ResourceType::Energy => (6, 'e', 'n', 'r', 'y'),
        ResourceType::Power => (5, 'p', 'o', 'e', ' '),
        ResourceType::Hydrogen => (1, 'H', ' ', ' ', ' '),
        ResourceType::Oxygen => (1, 'O', ' ', ' ', ' '),
        ResourceType::Utrium => (1, 'U', ' ', ' ', ' '),
        ResourceType::Lemergium => (1, 'L', ' ', ' ', ' '),
        ResourceType::Keanium => (1, 'K', ' ', ' ', ' '),
        ResourceType::Zynthium => (1, 'Z', ' ', ' ', ' '),
        ResourceType::Catalyst => (1, 'X', ' ', ' ', ' '),
        ResourceType::Ghodium => (1, 'G', ' ', ' ', ' '),
        ResourceType::Hydroxide => (2, 'O', 'H', ' ', ' '),
        ResourceType::ZynthiumKeanite => (2, 'Z', 'K', ' ', ' '),
        ResourceType::UtriumLemergite => (2, 'U', 'L', ' ', ' '),
        ResourceType::UtriumHydride => (2, 'U', 'H', ' ', ' '),
        ResourceType::UtriumOxide => (2, 'U', 'O', ' ', ' '),
        ResourceType::KeaniumHydride => (2, 'K', 'H', ' ', ' '),
        ResourceType::KeaniumOxide => (2, 'K', 'O', ' ', ' '),
        ResourceType::LemergiumHydride => (2, 'L', 'H', ' ', ' '),
        ResourceType::LemergiumOxide => (2, 'L', 'O', ' ', ' '),
        ResourceType::ZynthiumHydride => (2, 'Z', 'H', ' ', ' '),
        ResourceType::ZynthiumOxide => (2, 'Z', 'O', ' ', ' '),
        ResourceType::GhodiumHydride => (2, 'G', 'H', ' ', ' '),
        ResourceType::GhodiumOxide => (2, 'G', 'O', ' ', ' '),
        ResourceType::UtriumAcid => (4, 'U', 'H', 'O', ' '),
        ResourceType::UtriumAlkalide => (4, 'U', 'H', '2', ' '),
        ResourceType::KeaniumAcid => (4, 'K', 'H', 'O', ' '),
        ResourceType::KeaniumAlkalide => (4, 'K', 'H', '2', ' '),
        ResourceType::LemergiumAcid => (4, 'L', 'H', 'O', ' '),
        ResourceType::LemergiumAlkalide => (4, 'L', 'H', '2', ' '),
        ResourceType::ZynthiumAcid => (4, 'Z', 'H', 'O', ' '),
        ResourceType::ZynthiumAlkalide => (4, 'Z', 'H', '2', ' '),
        ResourceType::GhodiumAcid => (4, 'G', 'H', 'O', ' '),
        ResourceType::GhodiumAlkalide => (4, 'G', 'H', '2', ' '),
        ResourceType::CatalyzedUtriumAcid => (5, 'X', 'U', '2', ' '),
        ResourceType::CatalyzedUtriumAlkalide => (5, 'X', 'U', 'O', ' '),
        ResourceType::CatalyzedKeaniumAcid => (5, 'X', 'K', '2', ' '),
        ResourceType::CatalyzedKeaniumAlkalide => (5, 'X', 'K', 'O', ' '),
        ResourceType::CatalyzedLemergiumAcid => (5, 'X', 'L', '2', ' '),
        ResourceType::CatalyzedLemergiumAlkalide => (5, 'X', 'L', 'O', ' '),
        ResourceType::CatalyzedZynthiumAcid => (5, 'X', 'Z', '2', ' '),
        ResourceType::CatalyzedZynthiumAlkalide => (5, 'X', 'Z', 'O', ' '),
        ResourceType::CatalyzedGhodiumAcid => (5, 'X', 'G', '2', ' '),
        ResourceType::CatalyzedGhodiumAlkalide => (5, 'X', 'G', 'O', ' '),
        ResourceType::Ops => (3, 'o', 'p', ' ', ' '),
        ResourceType::Silicon => (7, 's', 'i', 'i', 'o'),
        ResourceType::Metal => (5, 'm', 'e', 'a', ' '),
        ResourceType::Biomass => (7, 'b', 'i', 'm', 's'),
        ResourceType::Mist => (4, 'm', 'i', 't', ' '),
        ResourceType::UtriumBar => (10, 'u', 't', 'i', 'm'),
        ResourceType::LemergiumBar => (13, 'l', 'e', 'e', 'g'),
        ResourceType::ZynthiumBar => (12, 'z', 'y', 't', 'i'),
        ResourceType::KeaniumBar => (11, 'k', 'e', 'n', 'u'),
        ResourceType::GhodiumMelt => (12, 'g', 'h', 'd', 'u'),
        ResourceType::Oxidant => (7, 'o', 'x', 'd', 'n'),
        ResourceType::Reductant => (9, 'r', 'e', 'u', 't'),
        ResourceType::Purifier => (8, 'p', 'u', 'i', 'i'),
        ResourceType::Battery => (7, 'b', 'a', 't', 'r'),
        ResourceType::Composite => (9, 'c', 'o', 'p', 's'),
        ResourceType::Crystal => (7, 'c', 'r', 's', 'a'),
        ResourceType::Liquid => (6, 'l', 'i', 'u', 'd'),
        ResourceType::Wire => (4, 'w', 'i', 'e', ' '),
        ResourceType::Switch => (6, 's', 'w', 't', 'h'),
        ResourceType::Transistor => (10, 't', 'r', 'n', 'i'),
        ResourceType::Microchip => (9, 'm', 'i', 'r', 'c'),
        ResourceType::Circuit => (7, 'c', 'i', 'c', 'i'),
        ResourceType::Device => (6, 'd', 'e', 'i', 'e'),
        ResourceType::Cell => (4, 'c', 'e', 'l', ' '),
        ResourceType::Phlegm => (6, 'p', 'h', 'e', 'm'),
        ResourceType::Tissue => (6, 't', 'i', 's', 'e'),
        ResourceType::Muscle => (6, 'm', 'u', 'c', 'e'),
        ResourceType::Organoid => (8, 'o', 'r', 'a', 'o'),
        ResourceType::Organism => (8, 'o', 'r', 'a', 'i'),
        ResourceType::Alloy => (5, 'a', 'l', 'o', ' '),
        ResourceType::Tube => (4, 't', 'u', 'e', ' '),
        ResourceType::Fixtures => (8, 'f', 'i', 't', 'r'),
        ResourceType::Frame => (5, 'f', 'r', 'm', ' '),
        ResourceType::Hydraulics => (10, 'h', 'y', 'r', 'u'),
        ResourceType::Machine => (7, 'm', 'a', 'h', 'n'),
        ResourceType::Condensate => (10, 'c', 'o', 'd', 'n'),
        ResourceType::Concentrate => (11, 'c', 'o', 'c', 'n'),
        ResourceType::Extract => (7, 'e', 'x', 'r', 'c'),
        ResourceType::Spirit => (6, 's', 'p', 'r', 't'),
        ResourceType::Emanation => (9, 'e', 'm', 'n', 't'),
        ResourceType::Essence => (7, 'e', 's', 'e', 'c'),
    }
}

proof fn lemma_resource_marks(v: ResourceType)
    ensures
        mark(v.name()) == resource_mark(v),
{
    reveal_strlit("energy");
    reveal_strlit("power");
    reveal_strlit("H");
    reveal_strlit("O");
    reveal_strlit("U");
    reveal_strlit("L");
    reveal_strlit("K");
    reveal_strlit("Z");
    reveal_strlit("X");
    reveal_strlit("G");
    reveal_strlit("OH");
    reveal_strlit("ZK");
    reveal_strlit("UL");
    reveal_strlit("UH");
    reveal_strlit("UO");
    reveal_strlit("KH");
    reveal_strlit("KO");
    reveal_strlit("LH");
    reveal_strlit("LO");
    reveal_strlit("ZH");
    reveal_strlit("ZO");
    reveal_strlit("GH");
    reveal_strlit("GO");
    reveal_strlit("UH2O");
    reveal_strlit("UHO2");
    reveal_strlit("KH2O");
    reveal_strlit("KHO2");
    reveal_strlit("LH2O");
    reveal_strlit("LHO2");
    reveal_strlit("ZH2O");
    reveal_strlit("ZHO2");
    reveal_strlit("GH2O");
    reveal_strlit("GHO2");
    reveal_strlit("XUH2O");
    reveal_strlit("XUHO2");
    reveal_strlit("XKH2O");
    reveal_strlit("XKHO2");
    reveal_strlit("XLH2O");
    reveal_strlit("XLHO2");
    reveal_strlit("XZH2O");
    reveal_strlit("XZHO2");
    reveal_strlit("XGH2O");
    reveal_strlit("XGHO2");
    reveal_strlit("ops");
    reveal_strlit("silicon");
    reveal_strlit("metal");
    reveal_strlit("biomass");
    reveal_strlit("mist");
    reveal_strlit("utrium_bar");
    reveal_strlit("lemergium_bar");
    reveal_strlit("zynthium_bar");
    reveal_strlit("keanium_bar");
    reveal_strlit("ghodium_melt");
    reveal_strlit("oxidant");
    reveal_strlit("reductant");
    reveal_strlit("purifier");
    reveal_strlit("battery");
    reveal_strlit("composite");
    reveal_strlit("crystal");
    reveal_strlit("liquid");
    reveal_strlit("wire");
    reveal_strlit("switch");
    reveal_strlit("transistor");
    reveal_strlit("microchip");
    reveal_strlit("circuit");
    reveal_strlit("device");
    reveal_strlit("cell");
    reveal_strlit("phlegm");
    reveal_strlit("tissue");
    reveal_strlit("muscle");
    reveal_strlit("organoid");
    reveal_strlit("organism");
    reveal_strlit("alloy");
    reveal_strlit("tube");
    reveal_strlit("fixtures");
    reveal_strlit("frame");
    reveal_strlit("hydraulics");
    reveal_strlit("machine");
    reveal_strlit("condensate");
    reveal_strlit("concentrate");
    reveal_strlit("extract");
    reveal_strlit("spirit");
    reveal_strlit("emanation");
    reveal_strlit("essence");
}

/// No resource of a shard has the name of a resource of an account.
pub proof fn lemma_resource_names_apart(a: ResourceType, b: IntershardResourceType)
    ensures
        a.name() != b.name(),
{
    lemma_resource_marks(a);
    reveal_strlit("token");
}

/// No two resources have one name.
pub proof fn lemma_resource_name_injective(a: ResourceType, b: ResourceType)
    requires
        a.name() == b.name(),
    ensures
        a == b,
{
    lemma_resource_marks(a);
    lemma_resource_marks(b);
}

} // verus!
