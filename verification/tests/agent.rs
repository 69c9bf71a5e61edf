use continental::{
    Action, Agent, Career, House, ProductionAction, Urgency, ENERGY_DECAY_PER_TICK, ENERGY_MAX,
    ENERGY_REST_RELIEF, ENERGY_REST_THRESHOLD, FOOD_PRODUCED_PER_TICK, HUNGER_DECAY_PER_TICK,
    HUNGER_EAT_RELIEF, HUNGER_EAT_THRESHOLD, HUNGER_MAX, LOG_CAPACITY,
};

/// Arbitrary shared starting point for tests that don't care about
/// position at all.
const ORIGIN: (i32, i32) = (0, 0);

#[test]
fn idle_tick_only_applies_decay() {
    let mut agent = Agent::new("Test", ORIGIN);
    let _ = agent.tick(ORIGIN, None);
    assert_eq!(agent.hunger(), HUNGER_DECAY_PER_TICK);
    assert_eq!(agent.energy(), ENERGY_MAX - ENERGY_DECAY_PER_TICK);
}

#[test]
fn eats_when_hunger_crosses_threshold() {
    let mut agent = Agent::new("Test", ORIGIN);
    agent.set_hunger(HUNGER_EAT_THRESHOLD);
    // Already at the restaurant, so Eat fires this tick.
    let _ = agent.tick(ORIGIN, None);
    let expected = HUNGER_EAT_THRESHOLD.saturating_sub(HUNGER_EAT_RELIEF) + HUNGER_DECAY_PER_TICK;
    assert_eq!(agent.hunger(), expected);
}

#[test]
fn eating_never_drops_hunger_below_zero() {
    let mut agent = Agent::new("Test", ORIGIN);
    agent.set_hunger(HUNGER_EAT_RELIEF - 1); // less than a single Eat's relief
    let _ = agent.act(Action::Eat);
    assert_eq!(agent.hunger(), 0);
}

#[test]
fn rests_when_energy_crosses_threshold() {
    let mut agent = Agent::new("Test", ORIGIN);
    agent.claim_house(House::new(ORIGIN)); // house is where the agent stands
    agent.set_energy(ENERGY_MAX - ENERGY_REST_THRESHOLD);
    let _ = agent.tick(ORIGIN, None);
    let expected = (ENERGY_MAX - ENERGY_REST_THRESHOLD + ENERGY_REST_RELIEF).min(ENERGY_MAX)
        - ENERGY_DECAY_PER_TICK;
    assert_eq!(agent.energy(), expected);
}

#[test]
fn resting_never_exceeds_energy_max() {
    let mut agent = Agent::new("Test", ORIGIN);
    agent.set_energy(ENERGY_MAX); // already full
    let _ = agent.act(Action::Rest);
    assert_eq!(agent.energy(), ENERGY_MAX);
}

#[test]
fn idle_when_neither_need_is_due() {
    let agent = Agent::new("Test", ORIGIN);
    let urgency = agent.evaluate(HUNGER_EAT_THRESHOLD - 1, ENERGY_MAX);
    assert_eq!(agent.select(urgency), Action::Idle);
}

#[test]
fn higher_urgency_wins_when_both_needs_are_due() {
    let mut agent = Agent::new("Test", ORIGIN);
    agent.claim_house(House::new(ORIGIN));

    let hunger_more_urgent = Urgency {
        hunger: 90,
        energy: 80,
    };
    assert_eq!(agent.select(hunger_more_urgent), Action::Eat);

    let energy_more_urgent = Urgency {
        hunger: 80,
        energy: 90,
    };
    assert_eq!(agent.select(energy_more_urgent), Action::Rest);
}

#[test]
fn equal_urgency_breaks_the_tie_toward_hunger_deterministically() {
    let mut agent = Agent::new("Test", ORIGIN);
    agent.claim_house(House::new(ORIGIN)); // both needs due requires owning a house
    let tied = Urgency {
        hunger: 75,
        energy: 75,
    };
    assert_eq!(agent.select(tied), Action::Eat);
}

#[test]
fn hunger_never_exceeds_max_even_without_eating() {
    let mut agent = Agent::new("Test", ORIGIN);
    agent.set_hunger(HUNGER_MAX - 1);
    agent.replan();
    assert_eq!(agent.hunger(), HUNGER_MAX);
}

#[test]
fn agents_start_without_a_house() {
    let agent = Agent::new("Test", ORIGIN);
    assert!(agent.home().is_none());
}

#[test]
fn claiming_a_house_grants_ownership() {
    let mut agent = Agent::new("Test", ORIGIN);
    agent.claim_house(House::new(ORIGIN));
    assert!(agent.home().is_some());
}

#[test]
fn resting_is_unavailable_without_a_house() {
    let agent = Agent::new("Test", ORIGIN); // no house claimed
    let urgency = Urgency {
        hunger: 0,
        energy: 90, // would clearly pick Rest if it could
    };
    assert_eq!(agent.select(urgency), Action::Idle);
}

#[test]
fn resting_is_available_once_a_house_is_claimed() {
    let mut agent = Agent::new("Test", ORIGIN);
    agent.claim_house(House::new(ORIGIN));
    let urgency = Urgency {
        hunger: 0,
        energy: 90,
    };
    assert_eq!(agent.select(urgency), Action::Rest);
}

#[test]
fn energy_keeps_draining_when_the_agent_has_no_house_to_rest_in() {
    let mut agent = Agent::new("Test", ORIGIN); // no house claimed
    agent.set_energy(0); // already exhausted, and stuck that way
    let _ = agent.tick(ORIGIN, None);
    assert_eq!(agent.energy(), 0);
}

#[test]
fn agents_start_unemployed() {
    let agent = Agent::new("Test", ORIGIN);
    assert_eq!(agent.career(), Career::Unemployed);
    assert_eq!(agent.available_production_action(), None);
}

#[test]
fn set_career_changes_the_available_production_action() {
    let mut agent = Agent::new("Test", ORIGIN);
    agent.set_career(Career::Farmer);
    assert_eq!(agent.career(), Career::Farmer);
    assert_eq!(
        agent.available_production_action(),
        Some(ProductionAction::Farm)
    );
}

#[test]
fn produces_when_no_survival_need_is_due_and_a_career_is_set() {
    let mut agent = Agent::new("Test", ORIGIN);
    agent.set_career(Career::Farmer);
    let urgency = agent.evaluate(0, ENERGY_MAX); // neither need due
    assert_eq!(
        agent.select(urgency),
        Action::Produce(ProductionAction::Farm)
    );
}

#[test]
fn survival_needs_preempt_production() {
    let mut agent = Agent::new("Test", ORIGIN);
    agent.set_career(Career::Farmer);
    let urgency = agent.evaluate(HUNGER_EAT_THRESHOLD, ENERGY_MAX); // hunger due
    assert_eq!(agent.select(urgency), Action::Eat);
}

#[test]
fn farming_increases_food_stock() {
    let mut agent = Agent::new("Test", ORIGIN);
    let _ = agent.act(Action::Produce(ProductionAction::Farm));
    assert_eq!(agent.food(), FOOD_PRODUCED_PER_TICK);
}

#[test]
fn building_produces_a_house_without_claiming_it() {
    let mut agent = Agent::new("Test", ORIGIN);
    let produced = agent.act(Action::Produce(ProductionAction::Build));
    assert!(produced.is_some());
    assert!(agent.home().is_none()); // act() never self-claims; World does
}

#[test]
fn building_places_the_house_at_the_builders_current_position() {
    let mut agent = Agent::new("Test", (3, 4));
    let produced = agent.act(Action::Produce(ProductionAction::Build));
    assert_eq!(produced.unwrap().position(), (3, 4));
}

#[test]
fn new_agent_has_an_empty_log() {
    let agent = Agent::new("Test", ORIGIN);
    assert_eq!(agent.log().len(), 0);
}

#[test]
fn tick_appends_one_line_to_the_log() {
    let mut agent = Agent::new("Test", ORIGIN);
    let _ = agent.tick(ORIGIN, None);
    assert_eq!(agent.log().len(), 1);
    assert!(agent.log()[0].contains("Idle"));
}

#[test]
fn log_never_grows_past_its_capacity() {
    let mut agent = Agent::new("Test", ORIGIN);
    for _ in 0..(LOG_CAPACITY + 5) {
        let _ = agent.tick(ORIGIN, None);
    }
    assert_eq!(agent.log().len(), LOG_CAPACITY);
}

#[test]
fn move_toward_never_overshoots_the_target_in_one_tick() {
    let mut agent = Agent::new("Test", (0, 0));
    agent.move_toward((5, 1));
    // One cell per tick on each axis, never a teleport straight to it.
    assert_eq!(agent.position(), (1, 1));
}

#[test]
fn move_toward_does_nothing_once_already_at_the_target() {
    let mut agent = Agent::new("Test", (2, 2));
    agent.move_toward((2, 2));
    assert_eq!(agent.position(), (2, 2));
}

#[test]
fn agent_walks_toward_the_restaurant_instead_of_eating_when_not_there_yet() {
    let mut agent = Agent::new("Test", (0, 0));
    agent.set_hunger(HUNGER_EAT_THRESHOLD);
    let hunger_before = agent.hunger();
    let restaurant_position = (5, 0);
    let _ = agent.tick(restaurant_position, None);
    // Moved one cell toward the restaurant instead of eating.
    assert_eq!(agent.position(), (1, 0));
    // Hunger only rose (replan's decay): Eat never actually ran.
    assert_eq!(agent.hunger(), hunger_before + HUNGER_DECAY_PER_TICK);
}

#[test]
fn eating_is_deferred_until_the_agent_reaches_the_restaurant() {
    let mut agent = Agent::new("Test", (0, 0));
    agent.set_hunger(HUNGER_EAT_THRESHOLD);
    let restaurant_position = (1, 0);
    let _ = agent.tick(restaurant_position, None); // ticks 1 cell closer, doesn't eat
    assert_eq!(agent.position(), restaurant_position);
    let hunger_at_restaurant = agent.hunger();
    let _ = agent.tick(restaurant_position, None); // now at the restaurant: eats
    assert!(agent.hunger() < hunger_at_restaurant);
}

#[test]
fn resting_requires_being_at_the_agents_own_house_position() {
    let mut agent = Agent::new("Test", (0, 0));
    agent.claim_house(House::new((3, 0)));
    agent.set_energy(ENERGY_MAX - ENERGY_REST_THRESHOLD); // due
    let energy_before = agent.energy();
    let _ = agent.tick(ORIGIN, None); // restaurant position irrelevant here
    // Walked toward the house instead of resting in place.
    assert_eq!(agent.position(), (1, 0));
    assert_eq!(agent.energy(), energy_before - ENERGY_DECAY_PER_TICK);
}

#[test]
fn agent_walks_toward_its_workplace_instead_of_producing_when_not_there_yet() {
    let mut agent = Agent::new("Test", (0, 0));
    agent.set_career(Career::Farmer);
    let food_before = agent.food();
    let _ = agent.tick(ORIGIN, Some((3, 0)));
    // Moved one cell toward the workplace instead of producing.
    assert_eq!(agent.position(), (1, 0));
    assert_eq!(agent.food(), food_before);
}

#[test]
fn production_is_deferred_until_the_agent_reaches_its_workplace() {
    let mut agent = Agent::new("Test", (0, 0));
    agent.set_career(Career::Farmer);
    let workplace_position = (1, 0);
    let _ = agent.tick(ORIGIN, Some(workplace_position)); // steps closer, doesn't produce
    assert_eq!(agent.position(), workplace_position);
    assert_eq!(agent.food(), 0);
    let _ = agent.tick(ORIGIN, Some(workplace_position)); // now at the workplace: produces
    assert_eq!(agent.food(), FOOD_PRODUCED_PER_TICK);
}

#[test]
fn production_fires_in_place_when_no_matching_workplace_exists() {
    let mut agent = Agent::new("Test", (0, 0));
    agent.set_career(Career::Farmer);
    let _ = agent.tick(ORIGIN, None); // nothing in the world offers Farm
    // Degrades to firing in place.
    assert_eq!(agent.position(), (0, 0));
    assert_eq!(agent.food(), FOOD_PRODUCED_PER_TICK);
}

#[test]
fn a_faster_hunger_decay_rate_reaches_the_eat_threshold_sooner() {
    let mut fast = Agent::new("Fast", ORIGIN);
    fast.set_hunger_decay_rate(HUNGER_DECAY_PER_TICK * 2);
    let mut normal = Agent::new("Normal", ORIGIN);

    let ticks_to_threshold = |agent: &mut Agent| -> u32 {
        let mut ticks = 0;
        while agent.hunger() < HUNGER_EAT_THRESHOLD {
            agent.replan();
            ticks += 1;
        }
        ticks
    };

    assert!(ticks_to_threshold(&mut fast) < ticks_to_threshold(&mut normal));
}
