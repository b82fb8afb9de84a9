//! Power creeps: their classes, their powers, and the natural effects.

use vstd::prelude::*;
use crate::text::{chars_of, spells};

verus! {

/// The classes of power creep, as the `POWER_CLASS` constants name them.
#[derive(Copy, Clone, Debug, PartialEq, Eq, Hash, Structural)]
pub enum PowerCreepClass {
    /// `"operator"`
    Operator,
}

impl PowerCreepClass {
    /// The integer that stands for this class.
    pub open spec fn code(self) -> u8 {
        match self {
            PowerCreepClass::Operator => 1,
        }
    }

    /// The integer that stands for this value.
    pub fn repr(self) -> (r: u8)
        ensures
            r == self.code(),
    {
        match self {
            PowerCreepClass::Operator => 1,
        }
    }

    /// The value that `n` stands for, if there is one.
    pub fn from_repr(n: u8) -> (r: Option<PowerCreepClass>)
        ensures
            match r {
                Some(v) => v.code() == n,
                None => forall|v: PowerCreepClass| v.code() != n,
            },
            forall|v: PowerCreepClass| v.code() == n ==> r == Some(v),
    {
        match n {
            1 => Some(PowerCreepClass::Operator),
            _ => None,
        }
    }

    /// The name of this value as the game spells it.
    pub open spec fn name(self) -> Seq<char> {
        match self {
            PowerCreepClass::Operator => "operator"@,
        }
    }

    /// The name of this value as the game spells it.
    pub fn as_str(self) -> (r: &'static str)
        ensures
            r@ == self.name(),
    {
        match self {
            PowerCreepClass::Operator => "operator",
        }
    }

    /// Reads a value from its name, one of the `POWER_CLASS` strings. A string that
    /// names none gives `None`.
    pub fn deserialize_from_str(s: &str) -> (r: Option<PowerCreepClass>)
        ensures
            match r {
                Some(v) => v.name() == s@,
                None => forall|v: PowerCreepClass| v.name() != s@,
            },
            forall|v: PowerCreepClass| v.name() == s@ ==> r == Some(v),
    {
        let cs = chars_of(s);
        let t: &[char] = cs.as_slice();
        let r = if spells(t, "operator") {
            Some(PowerCreepClass::Operator)
        } else {
            None
        };
        proof {
            assert forall|v: PowerCreepClass| v.name() == s@ implies r == Some(v) by {
                match r {
                    Some(w) => lemma_class_name_injective(v, w),
                    None => {},
                }
            }
        }
        r
    }
}

/// No two classes of power creep have one name.
pub proof fn lemma_class_name_injective(a: PowerCreepClass, b: PowerCreepClass)
    requires
        a.name() == b.name(),
    ensures
        a == b,
{
}

/// The powers of power creeps, as the `PWR_*` constants name them.
#[derive(Copy, Clone, Debug, PartialEq, Eq, Hash, Structural)]
pub enum PowerType {
    GenerateOps,
    OperateSpawn,
    OperateTower,
    OperateStorage,
    OperateLab,
    OperateExtension,
    OperateObserver,
    OperateTerminal,
    DisruptSpawn,
    DisruptTower,
    Shield,
    RegenSource,
    RegenMineral,
    DisruptTerminal,
    OperatePower,
    Fortify,
    OperateController,
    OperateFactory,
}

impl PowerType {
    /// The integer that stands for this power.
    pub open spec fn code(self) -> u8 {
        match self {
            PowerType::GenerateOps => 1,
            PowerType::OperateSpawn => 2,
            PowerType::OperateTower => 3,
            PowerType::OperateStorage => 4,
            PowerType::OperateLab => 5,
            PowerType::OperateExtension => 6,
            PowerType::OperateObserver => 7,
            PowerType::OperateTerminal => 8,
            PowerType::DisruptSpawn => 9,
            PowerType::DisruptTower => 10,
            PowerType::Shield => 12,
            PowerType::RegenSource => 13,
            PowerType::RegenMineral => 14,
            PowerType::DisruptTerminal => 15,
            PowerType::OperatePower => 16,
            PowerType::Fortify => 17,
            PowerType::OperateController => 18,
            PowerType::OperateFactory => 19,
        }
    }

    /// The integer that stands for this value.
    pub fn repr(self) -> (r: u8)
        ensures
            r == self.code(),
    {
        match self {
            PowerType::GenerateOps => 1,
            PowerType::OperateSpawn => 2,
            PowerType::OperateTower => 3,
            PowerType::OperateStorage => 4,
            PowerType::OperateLab => 5,
            PowerType::OperateExtension => 6,
            PowerType::OperateObserver => 7,
            PowerType::OperateTerminal => 8,
            PowerType::DisruptSpawn => 9,
            PowerType::DisruptTower => 10,
            PowerType::Shield => 12,
            PowerType::RegenSource => 13,
            PowerType::RegenMineral => 14,
            PowerType::DisruptTerminal => 15,
            PowerType::OperatePower => 16,
            PowerType::Fortify => 17,
            PowerType::OperateController => 18,
            PowerType::OperateFactory => 19,
        }
    }

    /// The value that `n` stands for, if there is one.
    pub fn from_repr(n: u8) -> (r: Option<PowerType>)
        ensures
            match r {
                Some(v) => v.code() == n,
                None => forall|v: PowerType| v.code() != n,
            },
            forall|v: PowerType| v.code() == n ==> r == Some(v),
    {
        match n {
            1 => Some(PowerType::GenerateOps),
            2 => Some(PowerType::OperateSpawn),
            3 => Some(PowerType::OperateTower),
            4 => Some(PowerType::OperateStorage),
            5 => Some(PowerType::OperateLab),
            6 => Some(PowerType::OperateExtension),
            7 => Some(PowerType::OperateObserver),
            8 => Some(PowerType::OperateTerminal),
            9 => Some(PowerType::DisruptSpawn),
            10 => Some(PowerType::DisruptTower),
            12 => Some(PowerType::Shield),
            13 => Some(PowerType::RegenSource),
            14 => Some(PowerType::RegenMineral),
            15 => Some(PowerType::DisruptTerminal),
            16 => Some(PowerType::OperatePower),
            17 => Some(PowerType::Fortify),
            18 => Some(PowerType::OperateController),
            19 => Some(PowerType::OperateFactory),
            _ => None,
        }
    }
}

/// The effects that no creep causes, as the `EFFECT_*` constants name them.
#[derive(Copy, Clone, Debug, PartialEq, Eq, Hash, Structural)]
pub enum NaturalEffectType {
    Invulnerability,
    CollapseTimer,
}

impl NaturalEffectType {
    /// The integer that stands for this effect.
    pub open spec fn code(self) -> u16 {
        match self {
            NaturalEffectType::Invulnerability => 1001,
            NaturalEffectType::CollapseTimer => 1002,
        }
    }

    /// The integer that stands for this value.
    pub fn repr(self) -> (r: u16)
        ensures
            r == self.code(),
    {
        match self {
            NaturalEffectType::Invulnerability => 1001,
            NaturalEffectType::CollapseTimer => 1002,
        }
    }

    /// The value that `n` stands for, if there is one.
    pub fn from_repr(n: u16) -> (r: Option<NaturalEffectType>)
        ensures
            match r {
                Some(v) => v.code() == n,
                None => forall|v: NaturalEffectType| v.code() != n,
            },
            forall|v: NaturalEffectType| v.code() == n ==> r == Some(v),
    {
        match n {
            1001 => Some(NaturalEffectType::Invulnerability),
            1002 => Some(NaturalEffectType::CollapseTimer),
            _ => None,
        }
    }
}

} // verus!
