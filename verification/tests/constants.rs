use screeps_build::constants::{
    Boost, EffectType, IntershardResourceType, MarketResourceType, NaturalEffectType,
    PowerCreepClass, PowerType, ResourceType, StructureType,
};

#[test]
fn construction_cost_follows_the_table() {
    assert_eq!(StructureType::Spawn.construction_cost(), Some(15_000));
    assert_eq!(StructureType::Road.construction_cost(), Some(300));
    assert_eq!(StructureType::Wall.construction_cost(), Some(1));
    assert_eq!(StructureType::Factory.construction_cost(), Some(100_000));
    assert_eq!(StructureType::KeeperLair.construction_cost(), None);
    assert_eq!(StructureType::Controller.construction_cost(), None);
    assert_eq!(StructureType::InvaderCore.construction_cost(), None);
}

#[test]
fn controller_structures_steps_with_the_level() {
    assert_eq!(StructureType::Spawn.controller_structures(0), 0);
    assert_eq!(StructureType::Spawn.controller_structures(1), 1);
    assert_eq!(StructureType::Spawn.controller_structures(6), 1);
    assert_eq!(StructureType::Spawn.controller_structures(7), 2);
    assert_eq!(StructureType::Spawn.controller_structures(8), 3);
    assert_eq!(StructureType::Spawn.controller_structures(100), 3);
    assert_eq!(StructureType::Extension.controller_structures(1), 0);
    assert_eq!(StructureType::Extension.controller_structures(2), 5);
    assert_eq!(StructureType::Extension.controller_structures(5), 30);
    assert_eq!(StructureType::Extension.controller_structures(8), 60);
    assert_eq!(StructureType::Road.controller_structures(0), 2500);
    assert_eq!(StructureType::Wall.controller_structures(1), 0);
    assert_eq!(StructureType::Rampart.controller_structures(2), 2500);
    assert_eq!(StructureType::Link.controller_structures(4), 0);
    assert_eq!(StructureType::Link.controller_structures(5), 2);
    assert_eq!(StructureType::Link.controller_structures(8), 6);
    assert_eq!(StructureType::Storage.controller_structures(3), 0);
    assert_eq!(StructureType::Storage.controller_structures(4), 1);
    assert_eq!(StructureType::Tower.controller_structures(2), 0);
    assert_eq!(StructureType::Tower.controller_structures(4), 1);
    assert_eq!(StructureType::Tower.controller_structures(6), 2);
    assert_eq!(StructureType::Tower.controller_structures(7), 3);
    assert_eq!(StructureType::Tower.controller_structures(9), 6);
    assert_eq!(StructureType::Lab.controller_structures(5), 0);
    assert_eq!(StructureType::Lab.controller_structures(6), 3);
    assert_eq!(StructureType::Lab.controller_structures(7), 6);
    assert_eq!(StructureType::Lab.controller_structures(8), 10);
    assert_eq!(StructureType::Container.controller_structures(0), 5);
    assert_eq!(StructureType::Factory.controller_structures(6), 0);
    assert_eq!(StructureType::Factory.controller_structures(7), 1);
    assert_eq!(StructureType::Nuker.controller_structures(7), 0);
    assert_eq!(StructureType::Nuker.controller_structures(8), 1);
    assert_eq!(StructureType::Portal.controller_structures(8), 0);
}

#[test]
fn controller_structures_never_shrinks() {
    let kinds = [
        StructureType::Spawn,
        StructureType::Extension,
        StructureType::Link,
        StructureType::Tower,
        StructureType::Lab,
        StructureType::Terminal,
        StructureType::PowerBank,
    ];
    for kind in kinds {
        for rcl in 0..10 {
            assert!(kind.controller_structures(rcl) <= kind.controller_structures(rcl + 1));
        }
    }
}

#[test]
fn initial_hits_follows_the_table() {
    assert_eq!(StructureType::Spawn.initial_hits(), Some(5_000));
    assert_eq!(StructureType::Wall.initial_hits(), Some(1));
    assert_eq!(StructureType::PowerBank.initial_hits(), Some(2_000_000));
    assert_eq!(StructureType::Extractor.initial_hits(), Some(1_000));
    assert_eq!(StructureType::Terminal.initial_hits(), Some(3_000));
    assert_eq!(StructureType::InvaderCore.initial_hits(), Some(100_000));
    assert_eq!(StructureType::KeeperLair.initial_hits(), None);
    assert_eq!(StructureType::Portal.initial_hits(), None);
    assert_eq!(StructureType::Controller.initial_hits(), None);
}

#[test]
fn structure_names_are_camel_case() {
    assert_eq!(StructureType::Spawn.as_str(), "spawn");
    assert_eq!(StructureType::KeeperLair.as_str(), "keeperLair");
    assert_eq!(StructureType::InvaderCore.as_str(), "invaderCore");
    assert_eq!(StructureType::deserialize_from_str("powerSpawn"), Some(StructureType::PowerSpawn));
    assert_eq!(StructureType::deserialize_from_str("PowerSpawn"), None);
    assert_eq!(StructureType::deserialize_from_str(""), None);
}

#[test]
fn structure_codes_round_trip() {
    for n in 0..=255u8 {
        match StructureType::from_repr(n) {
            Some(kind) => {
                assert!(n <= 20);
                assert_eq!(kind.repr(), n);
                assert_eq!(StructureType::deserialize_from_str(kind.as_str()), Some(kind));
            }
            None => assert!(n > 20),
        }
    }
    assert_eq!(StructureType::from_repr(0), Some(StructureType::Spawn));
    assert_eq!(StructureType::from_repr(20), Some(StructureType::InvaderCore));
}

#[test]
fn resource_names_and_codes_round_trip() {
    let mut known = 0;
    for n in 0..2000u16 {
        if let Some(resource) = ResourceType::from_repr(n) {
            known += 1;
            assert_eq!(resource.repr(), n);
            assert_eq!(ResourceType::deserialize_from_str(resource.as_str()), Some(resource));
        }
    }
    assert_eq!(known, 84);
    assert_eq!(ResourceType::from_repr(1), Some(ResourceType::Energy));
    assert_eq!(ResourceType::from_repr(84), Some(ResourceType::Essence));
    assert_eq!(ResourceType::from_repr(0), None);
    assert_eq!(ResourceType::from_repr(85), None);
    assert_eq!(ResourceType::Energy.as_str(), "energy");
    assert_eq!(ResourceType::CatalyzedGhodiumAlkalide.as_str(), "XGHO2");
    assert_eq!(ResourceType::deserialize_from_str("XGHO2"), Some(ResourceType::CatalyzedGhodiumAlkalide));
    assert_eq!(ResourceType::deserialize_from_str("utrium_bar"), Some(ResourceType::UtriumBar));
    assert_eq!(ResourceType::deserialize_from_str("token"), None);
    assert_eq!(ResourceType::deserialize_from_str("xgho2"), None);
}

#[test]
fn intershard_resource_is_the_token() {
    assert_eq!(IntershardResourceType::SubscriptionToken.repr(), 1001);
    assert_eq!(IntershardResourceType::SubscriptionToken.as_str(), "token");
    assert_eq!(IntershardResourceType::from_repr(1001), Some(IntershardResourceType::SubscriptionToken));
    assert_eq!(IntershardResourceType::from_repr(1), None);
    assert_eq!(
        IntershardResourceType::deserialize_from_str("token"),
        Some(IntershardResourceType::SubscriptionToken)
    );
    assert_eq!(IntershardResourceType::deserialize_from_str("energy"), None);
}

#[test]
fn market_resource_ranges_over_both_tables() {
    let energy = MarketResourceType::Resource(ResourceType::Energy);
    let token = MarketResourceType::IntershardResource(IntershardResourceType::SubscriptionToken);
    assert_eq!(MarketResourceType::from_repr(1), Some(energy));
    assert_eq!(MarketResourceType::from_repr(1001), Some(token));
    assert_eq!(MarketResourceType::from_repr(0), None);
    assert_eq!(MarketResourceType::from_repr(85), None);
    assert_eq!(MarketResourceType::from_repr(1002), None);
    assert_eq!(energy.repr(), 1);
    assert_eq!(token.repr(), 1001);
    assert_eq!(MarketResourceType::deserialize_from_str("energy"), Some(energy));
    assert_eq!(MarketResourceType::deserialize_from_str("token"), Some(token));
    assert_eq!(MarketResourceType::deserialize_from_str("tokens"), None);
    assert_eq!(token.as_str(), "token");
    for n in 0..1200u16 {
        if let Some(resource) = MarketResourceType::from_repr(n) {
            assert_eq!(resource.repr(), n);
        }
    }
}

#[test]
fn boosts_follow_the_table() {
    assert_eq!(ResourceType::UtriumHydride.boost(), Some(Boost::Attack(20)));
    assert_eq!(ResourceType::CatalyzedUtriumAlkalide.boost(), Some(Boost::Harvest(70)));
    assert_eq!(ResourceType::KeaniumAlkalide.boost(), Some(Boost::RangedAttack(40)));
    assert_eq!(ResourceType::LemergiumHydride.boost(), Some(Boost::BuildAndRepair(15)));
    assert_eq!(ResourceType::GhodiumAcid.boost(), Some(Boost::UpgradeController(18)));
    assert_eq!(ResourceType::GhodiumOxide.boost(), Some(Boost::Tough(7)));
    assert_eq!(ResourceType::CatalyzedGhodiumAlkalide.boost(), Some(Boost::Tough(3)));
    assert_eq!(ResourceType::ZynthiumOxide.boost(), Some(Boost::Move(20)));
    assert_eq!(ResourceType::Energy.boost(), None);
    assert_eq!(ResourceType::Ghodium.boost(), None);
    assert_eq!(ResourceType::Essence.boost(), None);
}

#[test]
fn power_codes_skip_eleven() {
    assert_eq!(PowerType::from_repr(1), Some(PowerType::GenerateOps));
    assert_eq!(PowerType::from_repr(10), Some(PowerType::DisruptTower));
    assert_eq!(PowerType::from_repr(11), None);
    assert_eq!(PowerType::from_repr(12), Some(PowerType::Shield));
    assert_eq!(PowerType::from_repr(19), Some(PowerType::OperateFactory));
    assert_eq!(PowerType::from_repr(0), None);
    assert_eq!(PowerType::from_repr(20), None);
    assert_eq!(PowerType::Shield.repr(), 12);
    assert_eq!(PowerCreepClass::Operator.repr(), 1);
    assert_eq!(PowerCreepClass::Operator.as_str(), "operator");
    assert_eq!(PowerCreepClass::from_repr(1), Some(PowerCreepClass::Operator));
    assert_eq!(PowerCreepClass::from_repr(2), None);
    assert_eq!(PowerCreepClass::deserialize_from_str("operator"), Some(PowerCreepClass::Operator));
    assert_eq!(PowerCreepClass::deserialize_from_str("Operator"), None);
}

#[test]
fn effect_ranges_over_powers_and_natural_effects() {
    assert_eq!(EffectType::from_repr(1), Some(EffectType::PowerEffect(PowerType::GenerateOps)));
    assert_eq!(EffectType::from_repr(19), Some(EffectType::PowerEffect(PowerType::OperateFactory)));
    assert_eq!(EffectType::from_repr(11), None);
    assert_eq!(EffectType::from_repr(0), None);
    assert_eq!(EffectType::from_repr(257), None);
    assert_eq!(
        EffectType::from_repr(1001),
        Some(EffectType::NaturalEffect(NaturalEffectType::Invulnerability))
    );
    assert_eq!(
        EffectType::from_repr(1002),
        Some(EffectType::NaturalEffect(NaturalEffectType::CollapseTimer))
    );
    assert_eq!(EffectType::from_repr(1003), None);
    assert_eq!(EffectType::PowerEffect(PowerType::Fortify).repr(), 17);
    assert_eq!(EffectType::NaturalEffect(NaturalEffectType::CollapseTimer).repr(), 1002);
    assert_eq!(NaturalEffectType::from_repr(1001), Some(NaturalEffectType::Invulnerability));
    assert_eq!(NaturalEffectType::from_repr(1), None);
}
