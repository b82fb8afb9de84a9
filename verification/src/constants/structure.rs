//! Structures: their kinds, costs, allowances and hit points.

use vstd::prelude::*;
use crate::text::{chars_of, mark, spells};

verus! {

/// The hit points of a spawn when it is built.
pub const SPAWN_HITS: u32 = 5_000;

/// The hit points of an extension when it is built.
pub const EXTENSION_HITS: u32 = 1_000;

/// The hit points of a road when it is built.
pub const ROAD_HITS: u32 = 5_000;

/// The hit points of a wall when it is built.
pub const WALL_HITS: u32 = 1;

/// The hit points of a rampart when it is built.
pub const RAMPART_HITS: u32 = 1;

/// The hit points of a link when it is built.
pub const LINK_HITS: u32 = 1_000;

/// The hit points of a storage when it is built.
pub const STORAGE_HITS: u32 = 10_000;

/// The hit points of a tower when it is built.
pub const TOWER_HITS: u32 = 3_000;

/// The hit points of an observer when it is built.
pub const OBSERVER_HITS: u32 = 500;

/// The hit points of a power bank when it is built.
pub const POWER_BANK_HITS: u32 = 2_000_000;

/// The hit points of a power spawn when it is built.
pub const POWER_SPAWN_HITS: u32 = 5_000;

/// The hit points of a lab when it is built.
pub const LAB_HITS: u32 = 500;

/// The hit points of a container when it is built.
pub const CONTAINER_HITS: u32 = 250_000;

/// The hit points of a nuker when it is built.
pub const NUKER_HITS: u32 = 1_000;

/// The hit points of a factory when it is built.
pub const FACTORY_HITS: u32 = 1_000;

/// The hit points of an invader core when it is built.
pub const INVADER_CORE_HITS: u32 = 100_000;

/// The kinds of structure, as the `STRUCTURE_*` constants name them.
#[derive(Copy, Clone, Debug, PartialEq, Eq, Hash, Structural)]
pub enum StructureType {
    Spawn,
    Extension,
    Road,
    Wall,
    Rampart,
    KeeperLair,
    Portal,
    Controller,
    Link,
    Storage,
    Tower,
    Observer,
    PowerBank,
    PowerSpawn,
    Extractor,
    Lab,
    Terminal,
    Container,
    Nuker,
    Factory,
    InvaderCore,
}

impl StructureType {
    /// The integer that stands for this kind of structure.
    pub open spec fn code(self) -> u8 {
        match self {
            StructureType::Spawn => 0,
            StructureType::Extension => 1,
            StructureType::Road => 2,
            StructureType::Wall => 3,
            StructureType::Rampart => 4,
            StructureType::KeeperLair => 5,
            StructureType::Portal => 6,
            StructureType::Controller => 7,
            StructureType::Link => 8,
            StructureType::Storage => 9,
            StructureType::Tower => 10,
            StructureType::Observer => 11,
            StructureType::PowerBank => 12,
            StructureType::PowerSpawn => 13,
            StructureType::Extractor => 14,
            StructureType::Lab => 15,
            StructureType::Terminal => 16,
            StructureType::Container => 17,
            StructureType::Nuker => 18,
            StructureType::Factory => 19,
            StructureType::InvaderCore => 20,
        }
    }

    /// The integer that stands for this value.
    pub fn repr(self) -> (r: u8)
        ensures
            r == self.code(),
    {
        match self {
            StructureType::Spawn => 0,
            StructureType::Extension => 1,
            StructureType::Road => 2,
            StructureType::Wall => 3,
            StructureType::Rampart => 4,
            StructureType::KeeperLair => 5,
            StructureType::Portal => 6,
            StructureType::Controller => 7,
            StructureType::Link => 8,
            StructureType::Storage => 9,
            StructureType::Tower => 10,
            StructureType::Observer => 11,
            StructureType::PowerBank => 12,
            StructureType::PowerSpawn => 13,
            StructureType::Extractor => 14,
            StructureType::Lab => 15,
            StructureType::Terminal => 16,
            StructureType::Container => 17,
            StructureType::Nuker => 18,
            StructureType::Factory => 19,
            StructureType::InvaderCore => 20,
        }
    }

    /// The value that `n` stands for, if there is one.
    pub fn from_repr(n: u8) -> (r: Option<StructureType>)
        ensures
            match r {
                Some(v) => v.code() == n,
                None => forall|v: StructureType| v.code() != n,
            },
            forall|v: StructureType| v.code() == n ==> r == Some(v),
    {
        match n {
            0 => Some(StructureType::Spawn),
            1 => Some(StructureType::Extension),
            2 => Some(StructureType::Road),
            3 => Some(StructureType::Wall),
            4 => Some(StructureType::Rampart),
            5 => Some(StructureType::KeeperLair),
            6 => Some(StructureType::Portal),
            7 => Some(StructureType::Controller),
            8 => Some(StructureType::Link),
            9 => Some(StructureType::Storage),
            10 => Some(StructureType::Tower),
            11 => Some(StructureType::Observer),
            12 => Some(StructureType::PowerBank),
            13 => Some(StructureType::PowerSpawn),
            14 => Some(StructureType::Extractor),
            15 => Some(StructureType::Lab),
            16 => Some(StructureType::Terminal),
            17 => Some(StructureType::Container),
            18 => Some(StructureType::Nuker),
            19 => Some(StructureType::Factory),
            20 => Some(StructureType::InvaderCore),
            _ => None,
        }
    }

    /// The name of this value as the game spells it.
    pub open spec fn name(self) -> Seq<char> {
        match self {
            StructureType::Spawn => "spawn"@,
            StructureType::Extension => "extension"@,
            StructureType::Road => "road"@,
            StructureType::Wall => "wall"@,
            StructureType::Rampart => "rampart"@,
            StructureType::KeeperLair => "keeperLair"@,
            StructureType::Portal => "portal"@,
            StructureType::Controller => "controller"@,
            StructureType::Link => "link"@,
            StructureType::Storage => "storage"@,
            StructureType::Tower => "tower"@,
            StructureType::Observer => "observer"@,
            StructureType::PowerBank => "powerBank"@,
            StructureType::PowerSpawn => "powerSpawn"@,
            StructureType::Extractor => "extractor"@,
            StructureType::Lab => "lab"@,
            StructureType::Terminal => "terminal"@,
            StructureType::Container => "container"@,
            StructureType::Nuker => "nuker"@,
            StructureType::Factory => "factory"@,
            StructureType::InvaderCore => "invaderCore"@,
        }
    }

    /// The name of this value as the game spells it.
    pub fn as_str(self) -> (r: &'static str)
        ensures
            r@ == self.name(),
    {
        match self {
            StructureType::Spawn => "spawn",
            StructureType::Extension => "extension",
            StructureType::Road => "road",
            StructureType::Wall => "wall",
            StructureType::Rampart => "rampart",
            StructureType::KeeperLair => "keeperLair",
            StructureType::Portal => "portal",
            StructureType::Controller => "controller",
            StructureType::Link => "link",
            StructureType::Storage => "storage",
            StructureType::Tower => "tower",
            StructureType::Observer => "observer",
            StructureType::PowerBank => "powerBank",
            StructureType::PowerSpawn => "powerSpawn",
            StructureType::Extractor => "extractor",
            StructureType::Lab => "lab",
            StructureType::Terminal => "terminal",
            StructureType::Container => "container",
            StructureType::Nuker => "nuker",
            StructureType::Factory => "factory",
            StructureType::InvaderCore => "invaderCore",
        }
    }

    /// Reads a value from its name, one of the `STRUCTURE_*` strings. A string that
    /// names none gives `None`.
    pub fn deserialize_from_str(s: &str) -> (r: Option<StructureType>)
        ensures
            match r {
                Some(v) => v.name() == s@,
                None => forall|v: StructureType| v.name() != s@,
            },
            forall|v: StructureType| v.name() == s@ ==> r == Some(v),
    {
        let cs = chars_of(s);
        let t: &[char] = cs.as_slice();
        let r = if spells(t, "spawn") {
            Some(StructureType::Spawn)
        } else if spells(t, "extension") {
            Some(StructureType::Extension)
        } else if spells(t, "road") {
            Some(StructureType::Road)
        } else if spells(t, "wall") {
            Some(StructureType::Wall)
        } else if spells(t, "rampart") {
            Some(StructureType::Rampart)
        } else if spells(t, "keeperLair") {
            Some(StructureType::KeeperLair)
        } else if spells(t, "portal") {
            Some(StructureType::Portal)
        } else if spells(t, "controller") {
            Some(StructureType::Controller)
        } else if spells(t, "link") {
            Some(StructureType::Link)
        } else if spells(t, "storage") {
            Some(StructureType::Storage)
        } else if spells(t, "tower") {
            Some(StructureType::Tower)
        } else if spells(t, "observer") {
            Some(StructureType::Observer)
        } else if spells(t, "powerBank") {
            Some(StructureType::PowerBank)
        } else if spells(t, "powerSpawn") {
            Some(StructureType::PowerSpawn)
        } else if spells(t, "extractor") {
            Some(StructureType::Extractor)
        } else if spells(t, "lab") {
            Some(StructureType::Lab)
        } else if spells(t, "terminal") {
            Some(StructureType::Terminal)
        } else if spells(t, "container") {
            Some(StructureType::Container)
        } else if spells(t, "nuker") {
            Some(StructureType::Nuker)
        } else if spells(t, "factory") {
            Some(StructureType::Factory)
        } else if spells(t, "invaderCore") {
            Some(StructureType::InvaderCore)
        } else {
            None
        };
        proof {
            assert forall|v: StructureType| v.name() == s@ implies r == Some(v) by {
                match r {
                    Some(w) => lemma_structure_name_injective(v, w),
                    None => {},
                }
            }
        }
        r
    }

    /// What it costs to build a structure of this kind, by the table
    /// `CONSTRUCTION_COST`; `None` for the kinds that nobody can build.
    pub open spec fn cost(self) -> Option<u32> {
        match self {
            StructureType::Spawn => Some(15_000),
            StructureType::Extension => Some(3_000),
            StructureType::Road => Some(300),
            StructureType::Wall => Some(1),
            StructureType::Rampart => Some(1),
            StructureType::Link => Some(5_000),
            StructureType::Storage => Some(30_000),
            StructureType::Tower => Some(5_000),
            StructureType::Observer => Some(8_000),
            StructureType::PowerSpawn => Some(100_000),
            StructureType::Extractor => Some(5_000),
            StructureType::Lab => Some(50_000),
            StructureType::Terminal => Some(100_000),
            StructureType::Container => Some(5_000),
            StructureType::Nuker => Some(100_000),
            StructureType::Factory => Some(100_000),
            StructureType::KeeperLair
            | StructureType::PowerBank
            | StructureType::Portal
            | StructureType::Controller
            | StructureType::InvaderCore => None,
        }
    }

    /// What it costs to build a structure of this kind.
    pub fn construction_cost(self) -> (r: Option<u32>)
        ensures
            r == self.cost(),
    {
        let cost: u32 = match self {
            StructureType::Spawn => 15_000,
            StructureType::Extension => 3_000,
            StructureType::Road => 300,
            StructureType::Wall => 1,
            StructureType::Rampart => 1,
            StructureType::Link => 5_000,
            StructureType::Storage => 30_000,
            StructureType::Tower => 5_000,
            StructureType::Observer => 8_000,
            StructureType::PowerSpawn => 100_000,
            StructureType::Extractor => 5_000,
            StructureType::Lab => 50_000,
            StructureType::Terminal => 100_000,
            StructureType::Container => 5_000,
            StructureType::Nuker => 100_000,
            StructureType::Factory => 100_000,
            StructureType::KeeperLair
            | StructureType::PowerBank
            | StructureType::Portal
            | StructureType::Controller
            | StructureType::InvaderCore => return None,
        };
        Some(cost)
    }

    /// How many structures of this kind a room may hold when its controller
    /// has level `rcl`, by the table `CONTROLLER_STRUCTURES`. A level above 8
    /// counts as level 8.
    pub open spec fn allowance(self, rcl: u32) -> u32 {
        match self {
            StructureType::Spawn => if rcl >= 8 {
                3
            } else if rcl >= 7 {
                2
            } else if rcl >= 1 {
                1
            } else {
                0
            },
            StructureType::Extension => if rcl >= 8 {
                60
            } else if rcl >= 7 {
                50
            } else if rcl >= 6 {
                40
            } else if rcl >= 5 {
                30
            } else if rcl >= 4 {
                20
            } else if rcl >= 3 {
                10
            } else if rcl >= 2 {
                5
            } else {
                0
            },
            StructureType::Road => 2_500,
            StructureType::Wall => if rcl >= 2 {
                2_500
            } else {
                0
            },
            StructureType::Rampart => if rcl >= 2 {
                2_500
            } else {
                0
            },
            StructureType::Link => if rcl >= 8 {
                6
            } else if rcl >= 7 {
                4
            } else if rcl >= 6 {
                3
            } else if rcl >= 5 {
                2
            } else {
                0
            },
            StructureType::Storage => if rcl >= 4 {
                1
            } else {
                0
            },
            StructureType::Tower => if rcl >= 8 {
                6
            } else if rcl >= 7 {
                3
            } else if rcl >= 5 {
                2
            } else if rcl >= 3 {
                1
            } else {
                0
            },
            StructureType::Observer => if rcl >= 8 {
                1
            } else {
                0
            },
            StructureType::PowerSpawn => if rcl >= 8 {
                1
            } else {
                0
            },
            StructureType::Extractor => if rcl >= 6 {
                1
            } else {
                0
            },
            StructureType::Lab => if rcl >= 8 {
                10
            } else if rcl >= 7 {
                6
            } else if rcl >= 6 {
                3
            } else {
                0
            },
            StructureType::Terminal => if rcl >= 6 {
                1
            } else {
                0
            },
            StructureType::Container => 5,
            StructureType::Nuker => if rcl >= 8 {
                1
            } else {
                0
            },
            StructureType::Factory => if rcl >= 7 {
                1
            } else {
                0
            },
            StructureType::KeeperLair
            | StructureType::PowerBank
            | StructureType::Portal
            | StructureType::Controller
            | StructureType::InvaderCore => 0,
        }
    }

    /// How many structures of this kind a room may hold when its controller
    /// has level `current_rcl`.
    pub fn controller_structures(self, current_rcl: u32) -> (r: u32)
        ensures
            r == self.allowance(current_rcl),
    {
        match self {
            StructureType::Spawn => match current_rcl {
                0 => 0,
                1..=6 => 1,
                7 => 2,
                _ => 3,
            },
            StructureType::Extension => match current_rcl {
                0..=1 => 0,
                2 => 5,
                3 => 10,
                4 => 20,
                5 => 30,
                6 => 40,
                7 => 50,
                _ => 60,
            },
            StructureType::Road => 2_500,
            StructureType::Wall => match current_rcl {
                0..=1 => 0,
                _ => 2_500,
            },
            StructureType::Rampart => match current_rcl {
                0..=1 => 0,
                _ => 2_500,
            },
            StructureType::Link => match current_rcl {
                0..=4 => 0,
                5 => 2,
                6 => 3,
                7 => 4,
                _ => 6,
            },
            StructureType::Storage => match current_rcl {
                0..=3 => 0,
                _ => 1,
            },
            StructureType::Tower => match current_rcl {
                0..=2 => 0,
                3..=4 => 1,
                5..=6 => 2,
                7 => 3,
                _ => 6,
            },
            StructureType::Observer => match current_rcl {
                0..=7 => 0,
                _ => 1,
            },
            StructureType::PowerSpawn => match current_rcl {
                0..=7 => 0,
                _ => 1,
            },
            StructureType::Extractor => match current_rcl {
                0..=5 => 0,
                _ => 1,
            },
            StructureType::Lab => match current_rcl {
                0..=5 => 0,
                6 => 3,
                7 => 6,
                _ => 10,
            },
            StructureType::Terminal => match current_rcl {
                0..=5 => 0,
                _ => 1,
            },
            StructureType::Container => 5,
            StructureType::Nuker => match current_rcl {
                0..=7 => 0,
                _ => 1,
            },
            StructureType::Factory => match current_rcl {
                0..=6 => 0,
                _ => 1,
            },
            StructureType::KeeperLair
            | StructureType::PowerBank
            | StructureType::Portal
            | StructureType::Controller
            | StructureType::InvaderCore => 0,
        }
    }

    /// The hit points of a newly built structure of this kind, by the
    /// `*_HITS` constants; `None` for the kinds that cannot be damaged.
    pub open spec fn hits(self) -> Option<u32> {
        match self {
            StructureType::Spawn => Some(SPAWN_HITS),
            StructureType::Extension => Some(EXTENSION_HITS),
            StructureType::Road => Some(ROAD_HITS),
            StructureType::Wall => Some(WALL_HITS),
            StructureType::Rampart => Some(RAMPART_HITS),
            StructureType::Link => Some(LINK_HITS),
            StructureType::Storage => Some(STORAGE_HITS),
            StructureType::Tower => Some(TOWER_HITS),
            StructureType::Observer => Some(OBSERVER_HITS),
            StructureType::PowerBank => Some(POWER_BANK_HITS),
            StructureType::PowerSpawn => Some(POWER_SPAWN_HITS),
            StructureType::Extractor => Some(EXTENSION_HITS),
            StructureType::Lab => Some(LAB_HITS),
            StructureType::Terminal => Some(TOWER_HITS),
            StructureType::Container => Some(CONTAINER_HITS),
            StructureType::Nuker => Some(NUKER_HITS),
            StructureType::Factory => Some(FACTORY_HITS),
            StructureType::InvaderCore => Some(INVADER_CORE_HITS),
            StructureType::KeeperLair | StructureType::Portal | StructureType::Controller => None,
        }
    }

    /// The hit points of a newly built structure of this kind.
    pub fn initial_hits(self) -> (r: Option<u32>)
        ensures
            r == self.hits(),
    {
        let hits: u32 = match self {
            StructureType::Spawn => SPAWN_HITS,
            StructureType::Extension => EXTENSION_HITS,
            StructureType::Road => ROAD_HITS,
            StructureType::Wall => WALL_HITS,
            StructureType::Rampart => RAMPART_HITS,
            StructureType::Link => LINK_HITS,
            StructureType::Storage => STORAGE_HITS,
            StructureType::Tower => TOWER_HITS,
            StructureType::Observer => OBSERVER_HITS,
            StructureType::PowerBank => POWER_BANK_HITS,
            StructureType::PowerSpawn => POWER_SPAWN_HITS,
            StructureType::Extractor => EXTENSION_HITS,
            StructureType::Lab => LAB_HITS,
            StructureType::Terminal => TOWER_HITS,
            StructureType::Container => CONTAINER_HITS,
            StructureType::Nuker => NUKER_HITS,
            StructureType::Factory => FACTORY_HITS,
            StructureType::InvaderCore => INVADER_CORE_HITS,
            StructureType::KeeperLair | StructureType::Portal | StructureType::Controller => return None,
        };
        Some(hits)
    }
}

/// A higher controller level never allows fewer structures of a kind.
pub proof fn lemma_allowance_grows(kind: StructureType, lower: u32, higher: u32)
    requires
        lower <= higher,
    ensures
        kind.allowance(lower) <= kind.allowance(higher),
{
}

/// Every kind that has a construction cost may be built in some room: at
/// controller level 8 its allowance is positive. The kinds without a cost may
/// be built nowhere.
pub proof fn lemma_cost_iff_allowed(kind: StructureType, rcl: u32)
    ensures
        kind.cost() is Some ==> kind.allowance(8) > 0,
        kind.cost() is None ==> kind.allowance(rcl) == 0,
{
}

/// No two kinds of structure stand behind one integer.
pub proof fn lemma_structure_code_injective(a: StructureType, b: StructureType)
    requires
        a.code() == b.code(),
    ensures
        a == b,
{
}

/// What tells the name of each of the kinds of structure from the names of the others.
pub open spec fn structure_mark(v: StructureType) -> (int, char, char, char, char) {
    match v {
        StructureType::Spawn => (5, 's', 'p', 'w', ' '),
        StructureType::Extension => (9, 'e', 'x', 'e', 's'),
        StructureType::Road => (4, 'r', 'o', 'd', ' '),
        StructureType::Wall => (4, 'w', 'a', 'l', ' '),
        StructureType::Rampart => (7, 'r', 'a', 'p', 'r'),
        StructureType::KeeperLair => (10, 'k', 'e', 'p', 'r'),
        StructureType::Portal => (6, 'p', 'o', 't', 'l'),
        StructureType::Controller => (10, 'c', 'o', 't', 'o'),
        StructureType::Link => (4, 'l', 'i', 'k', ' '),
        StructureType::Storage => (7, 's', 't', 'r', 'g'),
        StructureType::Tower => (5, 't', 'o', 'e', ' '),
        StructureType::Observer => (8, 'o', 'b', 'e', 'v'),
        StructureType::PowerBank => (9, 'p', 'o', 'e', 'B'),
        StructureType::PowerSpawn => (10, 'p', 'o', 'e', 'S'),
        StructureType::Extractor => (9, 'e', 'x', 'r', 'c'),
        StructureType::Lab => (3, 'l', 'a', ' ', ' '),
        StructureType::Terminal => (8, 't', 'e', 'm', 'n'),
        StructureType::Container => (9, 'c', 'o', 't', 'i'),
        StructureType::Nuker => (5, 'n', 'u', 'e', ' '),
        StructureType::Factory => (7, 'f', 'a', 't', 'r'),
        StructureType::InvaderCore => (11, 'i', 'n', 'a', 'e'),
    }
}

proof fn lemma_structure_marks(v: StructureType)
    ensures
        mark(v.name()) == structure_mark(v),
{
    reveal_strlit("spawn");
    reveal_strlit("extension");
    reveal_strlit("road");
    reveal_strlit("wall");
    reveal_strlit("rampart");
    reveal_strlit("keeperLair");
    reveal_strlit("portal");
    reveal_strlit("controller");
    reveal_strlit("link");
    reveal_strlit("storage");
    reveal_strlit("tower");
    reveal_strlit("observer");
    reveal_strlit("powerBank");
    reveal_strlit("powerSpawn");
    reveal_strlit("extractor");
    reveal_strlit("lab");
    reveal_strlit("terminal");
    reveal_strlit("container");
    reveal_strlit("nuker");
    reveal_strlit("factory");
    reveal_strlit("invaderCore");
}

/// No two kinds of structure have one name.
pub proof fn lemma_structure_name_injective(a: StructureType, b: StructureType)
    requires
        a.name() == b.name(),
    ensures
        a == b,
{
    lemma_structure_marks(a);
    lemma_structure_marks(b);
}

} // verus!
