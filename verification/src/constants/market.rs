//! Values that range over two tables at once: what the market trades, and
//! what may lie on a room object as an effect.

use vstd::prelude::*;
use crate::constants::power::{NaturalEffectType, PowerType};
use crate::constants::resource::{
    lemma_intershard_name_injective, lemma_resource_name_injective, lemma_resource_names_apart,
    IntershardResourceType, ResourceType,
};

verus! {

/// What the market trades: a resource of a shard, or one held per account.
#[derive(Copy, Clone, Debug, PartialEq, Eq, Hash, Structural)]
pub enum MarketResourceType {
    Resource(ResourceType),
    IntershardResource(IntershardResourceType),
}

impl MarketResourceType {
    /// The integer that stands for this resource: that of the resource inside.
    pub open spec fn code(self) -> u16 {
        match self {
            MarketResourceType::Resource(ty) => ty.code(),
            MarketResourceType::IntershardResource(ty) => ty.code(),
        }
    }

    /// The name of this resource: that of the resource inside.
    pub open spec fn name(self) -> Seq<char> {
        match self {
            MarketResourceType::Resource(ty) => ty.name(),
            MarketResourceType::IntershardResource(ty) => ty.name(),
        }
    }

    /// The integer that stands for this resource.
    pub fn repr(self) -> (r: u16)
        ensures
            r == self.code(),
    {
        match self {
            MarketResourceType::Resource(ty) => ty.repr(),
            MarketResourceType::IntershardResource(ty) => ty.repr(),
        }
    }

    /// The resource that `n` stands for, if there is one.
    pub fn from_repr(n: u16) -> (r: Option<MarketResourceType>)
        ensures
            match r {
                Some(v) => v.code() == n,
                None => forall|v: MarketResourceType| v.code() != n,
            },
            forall|v: MarketResourceType| v.code() == n ==> r == Some(v),
    {
        match ResourceType::from_repr(n) {
            Some(ty) => Some(MarketResourceType::Resource(ty)),
            None => match IntershardResourceType::from_repr(n) {
                Some(ty) => Some(MarketResourceType::IntershardResource(ty)),
                None => {
                    assert forall|v: MarketResourceType| v.code() != n by {
                        match v {
                            MarketResourceType::Resource(ty) => {
                                assert(ty.code() != n);
                            },
                            MarketResourceType::IntershardResource(ty) => {
                                assert(ty.code() != n);
                            },
                        }
                    }
                    None
                },
            },
        }
    }

    /// The name of this resource as the game spells it.
    pub fn as_str(self) -> (r: &'static str)
        ensures
            r@ == self.name(),
    {
        match self {
            MarketResourceType::Resource(ty) => ty.as_str(),
            MarketResourceType::IntershardResource(ty) => ty.as_str(),
        }
    }

    /// Reads a resource from its name, one of the strings in `RESOURCES_ALL`
    /// or in `INTERSHARD_RESOURCES`. The resources of a shard are tried
    /// first. A string that names none gives `None`.
    pub fn deserialize_from_str(s: &str) -> (r: Option<MarketResourceType>)
        ensures
            match r {
                Some(MarketResourceType::Resource(ty)) => ty.name() == s@,
                Some(MarketResourceType::IntershardResource(ty)) => {
                    &&& ty.name() == s@
                    &&& forall|x: ResourceType| x.name() != s@
                },
                None => forall|v: MarketResourceType| v.name() != s@,
            },
            forall|v: MarketResourceType| v.name() == s@ ==> r == Some(v),
    {
        proof {
            assert forall|a: ResourceType, b: IntershardResourceType| a.name() != b.name() by {
                lemma_resource_names_apart(a, b);
            }
        }
        match ResourceType::deserialize_from_str(s) {
            Some(ty) => Some(MarketResourceType::Resource(ty)),
            None => match IntershardResourceType::deserialize_from_str(s) {
                Some(ty) => Some(MarketResourceType::IntershardResource(ty)),
                None => {
                    assert forall|v: MarketResourceType| v.name() != s@ by {
                        match v {
                            MarketResourceType::Resource(ty) => {
                                assert(ty.name() != s@);
                            },
                            MarketResourceType::IntershardResource(ty) => {
                                assert(ty.name() != s@);
                            },
                        }
                    }
                    None
                },
            },
        }
    }
}

/// What may lie on a room object as an effect: a power that a creep used, or
/// an effect that no creep causes.
#[derive(Copy, Clone, Debug, PartialEq, Eq, Hash, Structural)]
pub enum EffectType {
    PowerEffect(PowerType),
    NaturalEffect(NaturalEffectType),
}

impl EffectType {
    /// The integer that stands for this effect: that of the value inside.
    pub open spec fn code(self) -> u16 {
        match self {
            EffectType::PowerEffect(ty) => ty.code() as u16,
            EffectType::NaturalEffect(ty) => ty.code(),
        }
    }

    /// The integer that stands for this effect.
    pub fn repr(self) -> (r: u16)
        ensures
            r == self.code(),
    {
        match self {
            EffectType::PowerEffect(ty) => ty.repr() as u16,
            EffectType::NaturalEffect(ty) => ty.repr(),
        }
    }

    /// The effect that `n` stands for, if there is one.
    pub fn from_repr(n: u16) -> (r: Option<EffectType>)
        ensures
            match r {
                Some(v) => v.code() == n,
                None => forall|v: EffectType| v.code() != n,
            },
            forall|v: EffectType| v.code() == n ==> r == Some(v),
    {
        let power = if n <= 255 {
            PowerType::from_repr(n as u8)
        } else {
            None
        };
        match power {
            Some(ty) => Some(EffectType::PowerEffect(ty)),
            None => match NaturalEffectType::from_repr(n) {
                Some(ty) => Some(EffectType::NaturalEffect(ty)),
                None => {
                    assert forall|v: EffectType| v.code() != n by {
                        match v {
                            EffectType::PowerEffect(ty) => {
                                assert(ty.code() as u16 != n);
                            },
                            EffectType::NaturalEffect(ty) => {
                                assert(ty.code() != n);
                            },
                        }
                    }
                    None
                },
            },
        }
    }
}

/// No two tradable resources have one name.
pub proof fn lemma_market_name_injective(a: MarketResourceType, b: MarketResourceType)
    requires
        a.name() == b.name(),
    ensures
        a == b,
{
    match (a, b) {
        (MarketResourceType::Resource(x), MarketResourceType::Resource(y)) => {
            lemma_resource_name_injective(x, y);
        },
        (MarketResourceType::IntershardResource(x), MarketResourceType::IntershardResource(y)) => {
            lemma_intershard_name_injective(x, y);
        },
        (MarketResourceType::Resource(x), MarketResourceType::IntershardResource(y)) => {
            lemma_resource_names_apart(x, y);
        },
        (MarketResourceType::IntershardResource(x), MarketResourceType::Resource(y)) => {
            lemma_resource_names_apart(y, x);
        },
    }
}

/// No two tradable resources stand behind one integer.
pub proof fn lemma_market_code_injective(a: MarketResourceType, b: MarketResourceType)
    requires
        a.code() == b.code(),
    ensures
        a == b,
{
}

/// No two effects stand behind one integer.
pub proof fn lemma_effect_code_injective(a: EffectType, b: EffectType)
    requires
        a.code() == b.code(),
    ensures
        a == b,
{
}

} // verus!
