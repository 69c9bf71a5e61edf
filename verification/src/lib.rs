//! Continental's core simulation logic: agents that run a
//! sense -> evaluate -> select -> act -> replan loop every tick, and the
//! world that brokers houses between them. It does no I/O of its own.
pub mod agent;
pub mod agent_laws;
pub mod career;
pub mod house;
pub mod log_text;
pub mod restaurant;
pub mod workplace;
pub mod world;
pub mod world_laws;

pub use agent::{
    Action, Agent, Urgency, ENERGY_DECAY_PER_TICK, ENERGY_MAX, ENERGY_REST_RELIEF,
    ENERGY_REST_THRESHOLD, FOOD_PRODUCED_PER_TICK, HUNGER_DECAY_PER_TICK, HUNGER_EAT_RELIEF,
    HUNGER_EAT_THRESHOLD, HUNGER_MAX, LOG_CAPACITY,
};
pub use career::{Career, ProductionAction};
pub use house::House;
pub use restaurant::Restaurant;
pub use workplace::Workplace;
pub use world::World;
