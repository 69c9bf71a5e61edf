use continental::{Agent, Career, House, ProductionAction, Restaurant, Workplace, World};

/// Arbitrary shared restaurant position for tests that don't care where it is.
const RESTAURANT_POS: (i32, i32) = (0, 0);

fn houseless_builder(name: &'static str) -> Agent {
    let mut agent = Agent::new(name, RESTAURANT_POS);
    agent.set_career(Career::Builder);
    agent
}

#[test]
fn building_deposits_a_house_into_the_shared_pool_not_the_builder() {
    let mut world = World::new(
        vec![houseless_builder("Builder")],
        Restaurant::new(RESTAURANT_POS),
        vec![Workplace::new(RESTAURANT_POS, ProductionAction::Build)],
    );
    world.tick(); // neither need is due yet, so this tick: Produce(Build)
    assert_eq!(world.available_houses().len(), 1);
    assert!(world.agents()[0].home().is_none());
}

#[test]
fn a_built_house_is_claimed_by_a_houseless_agent_on_a_later_tick() {
    let mut world = World::new(
        vec![houseless_builder("Builder")],
        Restaurant::new(RESTAURANT_POS),
        vec![Workplace::new(RESTAURANT_POS, ProductionAction::Build)],
    );
    world.tick(); // builds a house, deposited into the pool
    world.tick(); // this tick: claims from the pool before acting
    assert!(world.agents()[0].home().is_some());
}

#[test]
fn a_scarce_house_goes_to_the_first_houseless_agent_in_order() {
    let mut world = World::new(
        vec![
            Agent::new("A", RESTAURANT_POS),
            Agent::new("B", RESTAURANT_POS),
        ],
        Restaurant::new(RESTAURANT_POS),
        vec![],
    );
    world.add_available_house(House::new(RESTAURANT_POS));
    world.tick();
    assert!(world.agents()[0].home().is_some());
    assert!(world.agents()[1].home().is_none());
}

#[test]
fn an_agent_that_already_owns_a_house_does_not_take_from_the_pool() {
    let mut agent = Agent::new("A", RESTAURANT_POS);
    agent.claim_house(House::new(RESTAURANT_POS));
    let mut world = World::new(vec![agent], Restaurant::new(RESTAURANT_POS), vec![]);
    world.add_available_house(House::new(RESTAURANT_POS));
    world.tick();
    assert_eq!(world.available_houses().len(), 1); // untouched
}

#[test]
fn world_gives_each_agent_the_workplace_matching_its_own_career() {
    let mut farmer = Agent::new("Farmer", (0, 0));
    farmer.set_career(Career::Farmer);
    let mut builder = Agent::new("Builder", (0, 0));
    builder.set_career(Career::Builder);

    // Placed on different axes so each agent's very first step reveals
    // which workplace it's actually heading toward.
    let farm_position = (0, 5);
    let construction_position = (5, 0);
    let mut world = World::new(
        vec![farmer, builder],
        Restaurant::new(RESTAURANT_POS),
        vec![
            Workplace::new(farm_position, ProductionAction::Farm),
            Workplace::new(construction_position, ProductionAction::Build),
        ],
    );

    world.tick(); // neither survival need is due yet: both walk to work
    assert_eq!(world.agents()[0].position(), (0, 1)); // farmer, toward the farm
    assert_eq!(world.agents()[1].position(), (1, 0)); // builder, toward the construction site
}
