//! The game's constant tables: kinds of structure, resource and power, with
//! the names and the integers that stand for them.

pub mod boost;
pub mod market;
pub mod power;
pub mod resource;
pub mod structure;

pub use boost::Boost;
pub use market::{EffectType, MarketResourceType};
pub use power::{NaturalEffectType, PowerCreepClass, PowerType};
pub use resource::{IntershardResourceType, ResourceType};
pub use structure::StructureType;
