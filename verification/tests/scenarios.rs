use continental::{
    Action, Agent, Career, House, ProductionAction, Restaurant, Urgency, Workplace, World,
    ENERGY_MAX, FOOD_PRODUCED_PER_TICK, HUNGER_MAX, LOG_CAPACITY,
};

const ORIGIN: (i32, i32) = (0, 0);

#[test]
fn a_new_agent_is_fed_rested_unemployed_and_named() {
    let agent = Agent::new("Ada", (2, -3));
    assert_eq!(agent.name(), "Ada");
    assert_eq!(agent.hunger(), 0);
    assert_eq!(agent.energy(), ENERGY_MAX);
    assert_eq!(agent.food(), 0);
    assert_eq!(agent.position(), (2, -3));
    assert_eq!(agent.career(), Career::Unemployed);
}

#[test]
fn an_idle_tick_logs_its_decision_and_the_sensed_state() {
    let mut agent = Agent::new("Test", ORIGIN);
    let _ = agent.tick(ORIGIN, None);
    assert_eq!(agent.log(), vec!["Idle -> H0 E100 F0"]);
}

#[test]
fn a_walking_tick_is_logged_as_walking() {
    let mut agent = Agent::new("Test", ORIGIN);
    agent.set_hunger(60);
    let _ = agent.tick((4, 4), None);
    assert_eq!(agent.log(), vec!["Eat (walking) -> H60 E100 F0"]);
    assert_eq!(agent.position(), (1, 1));
}

#[test]
fn production_lines_name_the_production_action() {
    let mut farmer = Agent::new("Farmer", ORIGIN);
    farmer.set_career(Career::Farmer);
    let _ = farmer.tick(ORIGIN, None);
    let _ = farmer.tick(ORIGIN, None);
    assert_eq!(
        farmer.log(),
        vec!["Produce(Farm) -> H0 E100 F0", "Produce(Farm) -> H5 E96 F10"]
    );

    let mut builder = Agent::new("Builder", ORIGIN);
    builder.set_career(Career::Builder);
    let _ = builder.tick(ORIGIN, None);
    assert_eq!(builder.log(), vec!["Produce(Build) -> H0 E100 F0"]);
}

#[test]
fn a_full_log_drops_its_oldest_lines_first() {
    let mut agent = Agent::new("Test", ORIGIN);
    agent.set_hunger_decay_rate(0); // never hungry: every tick is Idle
    for _ in 0..(LOG_CAPACITY + 5) {
        let _ = agent.tick(ORIGIN, None);
    }
    let log = agent.log();
    assert_eq!(log.len(), LOG_CAPACITY);
    // Tick k (from 1) sensed energy 100 - 4 * (k - 1); ticks 1 to 5 fell off.
    assert_eq!(log[0], "Idle -> H0 E80 F0");
    assert_eq!(log[LOG_CAPACITY - 1], "Idle -> H0 E4 F0");
}

#[test]
fn eating_relieves_exactly_the_eat_relief_before_decay() {
    let mut agent = Agent::new("Test", ORIGIN);
    agent.set_hunger(70);
    let _ = agent.tick(ORIGIN, None);
    assert_eq!(agent.hunger(), 35);
}

#[test]
fn resting_restores_exactly_the_rest_relief_before_decay() {
    let mut agent = Agent::new("Test", ORIGIN);
    agent.claim_house(House::new(ORIGIN));
    agent.set_energy(20);
    let _ = agent.tick(ORIGIN, None);
    assert_eq!(agent.energy(), 76);
}

#[test]
fn needs_stay_in_range_over_a_long_run() {
    let mut agent = Agent::new("Test", ORIGIN);
    agent.claim_house(House::new((2, 0)));
    agent.set_hunger_decay_rate(u32::MAX);
    for _ in 0..200 {
        let _ = agent.tick((0, 3), None);
        assert!(agent.hunger() <= HUNGER_MAX);
        assert!(agent.energy() <= ENERGY_MAX);
    }
}

#[test]
fn a_zero_decay_rate_keeps_hunger_where_it_is() {
    let mut agent = Agent::new("Test", ORIGIN);
    agent.set_hunger(30);
    agent.set_hunger_decay_rate(0);
    agent.replan();
    assert_eq!(agent.hunger(), 30);
}

#[test]
fn farming_accumulates_food_every_productive_tick() {
    let mut agent = Agent::new("Test", ORIGIN);
    agent.set_career(Career::Farmer);
    for _ in 0..3 {
        let _ = agent.tick(ORIGIN, None);
    }
    assert_eq!(agent.food(), 3 * FOOD_PRODUCED_PER_TICK);
}

#[test]
fn a_builder_tick_hands_back_a_house_at_its_position() {
    let mut agent = Agent::new("Test", (7, -2));
    agent.set_career(Career::Builder);
    let produced = agent.tick(ORIGIN, None);
    assert_eq!(produced.map(|house| house.position()), Some((7, -2)));
    assert!(agent.home().is_none());
}

#[test]
fn an_idle_or_farming_tick_hands_back_nothing() {
    let mut agent = Agent::new("Test", ORIGIN);
    assert!(agent.tick(ORIGIN, None).is_none());
    agent.set_career(Career::Farmer);
    assert!(agent.tick(ORIGIN, None).is_none());
}

#[test]
fn a_walk_takes_as_many_steps_as_the_larger_axis_distance() {
    let mut agent = Agent::new("Test", ORIGIN);
    let target = (5, -2);
    let mut steps = 0;
    while agent.position() != target {
        agent.move_toward(target);
        steps += 1;
    }
    assert_eq!(steps, 5);
}

#[test]
fn moving_toward_a_far_corner_steps_one_cell_without_overflow() {
    let mut agent = Agent::new("Test", (i32::MIN, i32::MAX));
    agent.move_toward((i32::MAX, i32::MIN));
    assert_eq!(agent.position(), (i32::MIN + 1, i32::MAX - 1));
}

#[test]
fn select_ignores_where_the_agent_stands() {
    let near = Agent::new("Near", ORIGIN);
    let far = Agent::new("Far", (100, -100));
    let urgency = Urgency { hunger: 65, energy: 10 };
    assert_eq!(near.select(urgency), far.select(urgency));
    assert_eq!(near.select(urgency), Action::Eat);
}

#[test]
fn only_eating_lowers_hunger_in_a_tick() {
    let mut agent = Agent::new("Test", ORIGIN);
    agent.set_career(Career::Farmer);
    let mut hunger_before = agent.hunger();
    for _ in 0..40 {
        let _ = agent.tick(ORIGIN, None);
        let last = agent.log().last().map(|line| line.to_string()).unwrap();
        if agent.hunger() < hunger_before {
            assert!(last.starts_with("Eat ->"));
        }
        hunger_before = agent.hunger();
    }
}

#[test]
fn a_house_built_this_tick_is_claimable_only_from_the_next_tick() {
    let mut builder = Agent::new("Builder", ORIGIN);
    builder.set_career(Career::Builder);
    builder.claim_house(House::new((9, 9)));
    let plain = Agent::new("Plain", ORIGIN);
    let mut world = World::new(vec![builder, plain], Restaurant::new(ORIGIN), vec![]);

    world.tick(); // the builder builds; the later houseless agent cannot claim it yet
    assert_eq!(world.available_houses().len(), 1);
    assert!(world.agents()[1].home().is_none());

    world.tick(); // now it can
    assert_eq!(world.agents()[1].home().map(|house| house.position()), Some(ORIGIN));
}

#[test]
fn the_pool_is_claimed_from_its_end_in_agent_order() {
    let agents = vec![
        Agent::new("A", ORIGIN),
        Agent::new("B", ORIGIN),
        Agent::new("C", ORIGIN),
    ];
    let mut world = World::new(agents, Restaurant::new(ORIGIN), vec![]);
    world.add_available_house(House::new((1, 1)));
    world.add_available_house(House::new((2, 2)));
    world.tick();
    assert_eq!(world.agents()[0].home().map(|house| house.position()), Some((2, 2)));
    assert_eq!(world.agents()[1].home().map(|house| house.position()), Some((1, 1)));
    assert!(world.agents()[2].home().is_none());
    assert!(world.available_houses().is_empty());
}

#[test]
fn houses_are_never_lost_or_duplicated() {
    let mut builder = Agent::new("Builder", ORIGIN);
    builder.set_career(Career::Builder);
    let agents = vec![builder, Agent::new("B", ORIGIN), Agent::new("C", ORIGIN)];
    let mut world = World::new(
        agents,
        Restaurant::new(ORIGIN),
        vec![Workplace::new(ORIGIN, ProductionAction::Build)],
    );
    let count = |world: &World| {
        world.agents().iter().filter(|agent| agent.home().is_some()).count()
            + world.available_houses().len()
    };
    for _ in 0..12 {
        let before = count(&world);
        world.tick();
        let built = world.agents()[0]
            .log()
            .last()
            .map(|line| line.starts_with("Produce(Build) ->"))
            .unwrap_or(false);
        assert_eq!(count(&world), before + usize::from(built));
    }
}

#[test]
fn the_world_reports_its_restaurant_and_workplaces() {
    let world = World::new(
        vec![],
        Restaurant::new((4, 4)),
        vec![
            Workplace::new((0, 5), ProductionAction::Farm),
            Workplace::new((5, 0), ProductionAction::Build),
        ],
    );
    assert_eq!(world.restaurant().position(), (4, 4));
    assert_eq!(world.workplaces().len(), 2);
    assert_eq!(world.workplaces()[1].action(), ProductionAction::Build);
    assert!(world.agents().is_empty());
}

#[test]
fn the_first_matching_workplace_wins() {
    let mut farmer = Agent::new("Farmer", ORIGIN);
    farmer.set_career(Career::Farmer);
    let mut world = World::new(
        vec![farmer],
        Restaurant::new(ORIGIN),
        vec![
            Workplace::new((0, -5), ProductionAction::Build),
            Workplace::new((-5, 0), ProductionAction::Farm),
            Workplace::new((5, 0), ProductionAction::Farm),
        ],
    );
    world.tick();
    assert_eq!(world.agents()[0].position(), (-1, 0));
}
