//! What a mineral compound does to the body part it is applied to.

use vstd::prelude::*;
use crate::constants::resource::ResourceType;

verus! {

/// The effect of a compound on a body part, by the action it changes. The
/// number is the factor by which the action's effect is multiplied, counted
/// in tenths: 15 stands for one and a half times, 7 for seven tenths.
#[derive(Copy, Clone, Debug, PartialEq, Eq, Hash, Structural)]
pub enum Boost {
    Harvest(u32),
    BuildAndRepair(u32),
    Dismantle(u32),
    UpgradeController(u32),
    Attack(u32),
    RangedAttack(u32),
    Heal(u32),
    Carry(u32),
    Move(u32),
    Tough(u32),
}

impl Boost {
    /// The factor in tenths, whatever the action.
    pub open spec fn tenths(self) -> u32 {
        match self {
            Boost::Harvest(t)
            | Boost::BuildAndRepair(t)
            | Boost::Dismantle(t)
            | Boost::UpgradeController(t)
            | Boost::Attack(t)
            | Boost::RangedAttack(t)
            | Boost::Heal(t)
            | Boost::Carry(t)
            | Boost::Move(t)
            | Boost::Tough(t) => t,
        }
    }
}

impl ResourceType {
    /// What this resource does to a body part, by the table `BOOSTS`; `None`
    /// for a resource that boosts nothing.
    pub open spec fn boost_of(self) -> Option<Boost> {
        match self {
            ResourceType::UtriumHydride => Some(Boost::Attack(20)),
            ResourceType::UtriumAcid => Some(Boost::Attack(30)),
            ResourceType::CatalyzedUtriumAcid => Some(Boost::Attack(40)),
            ResourceType::UtriumOxide => Some(Boost::Harvest(30)),
            ResourceType::UtriumAlkalide => Some(Boost::Harvest(50)),
            ResourceType::CatalyzedUtriumAlkalide => Some(Boost::Harvest(70)),
            ResourceType::KeaniumHydride => Some(Boost::Carry(20)),
            ResourceType::KeaniumAcid => Some(Boost::Carry(30)),
            ResourceType::CatalyzedKeaniumAcid => Some(Boost::Carry(40)),
            ResourceType::KeaniumOxide => Some(Boost::RangedAttack(20)),
            ResourceType::KeaniumAlkalide => Some(Boost::RangedAttack(40)),
            ResourceType::CatalyzedKeaniumAlkalide => Some(Boost::RangedAttack(40)),
            ResourceType::LemergiumHydride => Some(Boost::BuildAndRepair(15)),
            ResourceType::LemergiumAcid => Some(Boost::BuildAndRepair(18)),
            ResourceType::CatalyzedLemergiumAcid => Some(Boost::BuildAndRepair(20)),
            ResourceType::LemergiumOxide => Some(Boost::Heal(20)),
            ResourceType::LemergiumAlkalide => Some(Boost::Heal(30)),
            ResourceType::CatalyzedLemergiumAlkalide => Some(Boost::Heal(40)),
            ResourceType::ZynthiumHydride => Some(Boost::Dismantle(20)),
            ResourceType::ZynthiumAcid => Some(Boost::Dismantle(30)),
            ResourceType::CatalyzedZynthiumAcid => Some(Boost::Dismantle(40)),
            ResourceType::ZynthiumOxide => Some(Boost::Move(20)),
            ResourceType::ZynthiumAlkalide => Some(Boost::Move(30)),
            ResourceType::CatalyzedZynthiumAlkalide => Some(Boost::Move(40)),
            ResourceType::GhodiumHydride => Some(Boost::UpgradeController(15)),
            ResourceType::GhodiumAcid => Some(Boost::UpgradeController(18)),
            ResourceType::CatalyzedGhodiumAcid => Some(Boost::UpgradeController(20)),
            ResourceType::GhodiumOxide => Some(Boost::Tough(7)),
            ResourceType::GhodiumAlkalide => Some(Boost::Tough(5)),
            ResourceType::CatalyzedGhodiumAlkalide => Some(Boost::Tough(3)),
            _ => None,
        }
    }

    /// What this resource does to a body part.
    pub fn boost(self) -> (r: Option<Boost>)
        ensures
            r == self.boost_of(),
    {
        let boost = match self {
            ResourceType::UtriumHydride => Boost::Attack(20),
            ResourceType::UtriumAcid => Boost::Attack(30),
            ResourceType::CatalyzedUtriumAcid => Boost::Attack(40),
            ResourceType::UtriumOxide => Boost::Harvest(30),
            ResourceType::UtriumAlkalide => Boost::Harvest(50),
            ResourceType::CatalyzedUtriumAlkalide => Boost::Harvest(70),
            ResourceType::KeaniumHydride => Boost::Carry(20),
            ResourceType::KeaniumAcid => Boost::Carry(30),
            ResourceType::CatalyzedKeaniumAcid => Boost::Carry(40),
            ResourceType::KeaniumOxide => Boost::RangedAttack(20),
            ResourceType::KeaniumAlkalide => Boost::RangedAttack(40),
            ResourceType::CatalyzedKeaniumAlkalide => Boost::RangedAttack(40),
            ResourceType::LemergiumHydride => Boost::BuildAndRepair(15),
            ResourceType::LemergiumAcid => Boost::BuildAndRepair(18),
            ResourceType::CatalyzedLemergiumAcid => Boost::BuildAndRepair(20),
            ResourceType::LemergiumOxide => Boost::Heal(20),
            ResourceType::LemergiumAlkalide => Boost::Heal(30),
            ResourceType::CatalyzedLemergiumAlkalide => Boost::Heal(40),
            ResourceType::ZynthiumHydride => Boost::Dismantle(20),
            ResourceType::ZynthiumAcid => Boost::Dismantle(30),
            ResourceType::CatalyzedZynthiumAcid => Boost::Dismantle(40),
            ResourceType::ZynthiumOxide => Boost::Move(20),
            ResourceType::ZynthiumAlkalide => Boost::Move(30),
            ResourceType::CatalyzedZynthiumAlkalide => Boost::Move(40),
            ResourceType::GhodiumHydride => Boost::UpgradeController(15),
            ResourceType::GhodiumAcid => Boost::UpgradeController(18),
            ResourceType::CatalyzedGhodiumAcid => Boost::UpgradeController(20),
            ResourceType::GhodiumOxide => Boost::Tough(7),
            ResourceType::GhodiumAlkalide => Boost::Tough(5),
            ResourceType::CatalyzedGhodiumAlkalide => Boost::Tough(3),
            _ => return None,
        };
        Some(boost)
    }
}

/// A boost that protects multiplies the damage taken by less than one; every
/// other boost multiplies its action by more than one.
pub proof fn lemma_boost_direction(resource: ResourceType)
    ensures
        match resource.boost_of() {
            Some(Boost::Tough(t)) => 0 < t < 10,
            Some(b) => b.tenths() > 10,
            None => true,
        },
{
}

} // verus!
