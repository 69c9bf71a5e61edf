//! Laws of a single agent's decision loop, stated over the model that
//! `Agent`'s methods are specified by.
use vstd::prelude::*;
use crate::agent::{
    act_spec, action_text, energy_due, first_firing, hunger_due, log_line_spec, replan_spec,
    required_location_spec, select_spec, step_toward, tick_action, tick_spec, tick_walks, Action,
    AgentModel, Urgency, ENERGY_DECAY_PER_TICK, ENERGY_MAX, ENERGY_REST_RELIEF,
    ENERGY_REST_THRESHOLD, FOOD_PRODUCED_PER_TICK, HUNGER_EAT_RELIEF, HUNGER_EAT_THRESHOLD,
    HUNGER_MAX, LOG_CAPACITY,
};
use crate::career::{Career, ProductionAction};
use crate::log_text::decimal;

verus! {

/// A tick keeps hunger within `0..=HUNGER_MAX`, energy within
/// `0..=ENERGY_MAX`, and the log within `LOG_CAPACITY` lines.
pub proof fn lemma_tick_stays_in_range(
    m: AgentModel,
    restaurant_position: (i32, i32),
    workplace_position: Option<(i32, i32)>,
)
    requires
        m.valid(),
    ensures
        tick_spec(m, restaurant_position, workplace_position).0.valid(),
{
}

/// An agent that owns no house never selects Rest, however exhausted.
pub proof fn lemma_no_rest_without_a_house(m: AgentModel, u: Urgency)
    requires
        m.home is None,
    ensures
        select_spec(m, u) != Action::Rest,
{
    reveal_with_fuel(first_firing, 5);
}

/// When both survival needs are due, the more urgent one wins, and a tie
/// goes to hunger: a direct comparison, never a coin flip.
pub proof fn lemma_higher_urgency_wins_when_both_are_due(m: AgentModel, u: Urgency)
    requires
        hunger_due(u),
        energy_due(m, u),
    ensures
        select_spec(m, u) == (if u.hunger >= u.energy { Action::Eat } else { Action::Rest }),
{
    reveal_with_fuel(first_firing, 5);
}

/// A due survival need always preempts production and idling.
pub proof fn lemma_survival_needs_preempt_production(m: AgentModel, u: Urgency)
    requires
        hunger_due(u) || energy_due(m, u),
    ensures
        select_spec(m, u) == Action::Eat || select_spec(m, u) == Action::Rest,
        !energy_due(m, u) ==> select_spec(m, u) == Action::Eat,
        !hunger_due(u) ==> select_spec(m, u) == Action::Rest,
{
    reveal_with_fuel(first_firing, 5);
}

/// When neither survival need is due, the agent does the job its career
/// allows, or idles if it has none.
pub proof fn lemma_works_when_no_need_is_due(m: AgentModel, u: Urgency)
    requires
        !hunger_due(u),
        !energy_due(m, u),
    ensures
        select_spec(m, u) == (match m.career.production_action_spec() {
            Some(p) => Action::Produce(p),
            None => Action::Idle,
        }),
{
    reveal_with_fuel(first_firing, 5);
}

/// `select` decides on urgency, house ownership and career alone: it never
/// looks at position (or anything else about the agent).
pub proof fn lemma_select_ignores_position(m1: AgentModel, m2: AgentModel, u: Urgency)
    requires
        (m1.home is Some) == (m2.home is Some),
        m1.career == m2.career,
    ensures
        select_spec(m1, u) == select_spec(m2, u),
{
    reveal_with_fuel(first_firing, 5);
}

/// The number of one-cell steps (diagonals allowed) between two cells:
/// the larger of the two axis distances.
pub open spec fn chebyshev(p: (i32, i32), t: (i32, i32)) -> nat {
    let dx = if p.0 >= t.0 { p.0 - t.0 } else { t.0 - p.0 };
    let dy = if p.1 >= t.1 { p.1 - t.1 } else { t.1 - p.1 };
    (if dx >= dy { dx } else { dy }) as nat
}

/// Where an agent walking toward `t` from `p` stands after `n` steps.
pub open spec fn walk(p: (i32, i32), t: (i32, i32), n: nat) -> (i32, i32)
    decreases n,
{
    if n == 0 {
        p
    } else {
        walk(step_toward(p, t), t, (n - 1) as nat)
    }
}

/// One step moves at most one cell on each axis, never overshoots, does
/// nothing at the target, and otherwise brings the target exactly one
/// step closer.
pub proof fn lemma_step_closes_in_by_one(p: (i32, i32), t: (i32, i32))
    ensures
        -1 <= step_toward(p, t).0 - p.0 <= 1,
        -1 <= step_toward(p, t).1 - p.1 <= 1,
        p == t ==> step_toward(p, t) == p,
        p != t ==> chebyshev(step_toward(p, t), t) == chebyshev(p, t) - 1,
{
}

/// Travel takes exactly `max(|dx|, |dy|)` steps: the walker arrives after
/// that many, and not before.
pub proof fn lemma_walk_arrives_after_chebyshev_steps(p: (i32, i32), t: (i32, i32), n: nat)
    ensures
        n < chebyshev(p, t) ==> walk(p, t, n) != t,
        n >= chebyshev(p, t) ==> walk(p, t, n) == t,
        chebyshev(walk(p, t, n), t) == if n >= chebyshev(p, t) { 0 } else { (chebyshev(p, t) - n) as nat },
    decreases n,
{
    lemma_step_closes_in_by_one(p, t);
    if n > 0 {
        lemma_walk_arrives_after_chebyshev_steps(step_toward(p, t), t, (n - 1) as nat);
    }
}

/// A tick moves the agent at most one cell on each axis.
pub proof fn lemma_tick_moves_at_most_one_cell(
    m: AgentModel,
    restaurant_position: (i32, i32),
    workplace_position: Option<(i32, i32)>,
)
    ensures
        -1 <= tick_spec(m, restaurant_position, workplace_position).0.position.0 - m.position.0 <= 1,
        -1 <= tick_spec(m, restaurant_position, workplace_position).0.position.1 - m.position.1 <= 1,
{
    let target = required_location_spec(m, tick_action(m), restaurant_position, workplace_position);
    if target is Some {
        lemma_step_closes_in_by_one(m.position, target.unwrap());
    }
}

/// A tick never changes which house the agent owns: a built house is
/// handed back, never claimed for itself.
pub proof fn lemma_tick_never_claims_a_house(
    m: AgentModel,
    restaurant_position: (i32, i32),
    workplace_position: Option<(i32, i32)>,
)
    ensures
        tick_spec(m, restaurant_position, workplace_position).0.home == m.home,
        tick_spec(m, restaurant_position, workplace_position).0.career == m.career,
        tick_spec(m, restaurant_position, workplace_position).0.name == m.name,
        tick_spec(m, restaurant_position, workplace_position).0.hunger_decay_per_tick == m.hunger_decay_per_tick,
{
}

/// A built house stands where its builder stood, and only Build produces one.
pub proof fn lemma_built_house_stands_at_the_builder(
    m: AgentModel,
    restaurant_position: (i32, i32),
    workplace_position: Option<(i32, i32)>,
)
    ensures
        tick_spec(m, restaurant_position, workplace_position).1 is Some ==> {
            &&& tick_action(m) == Action::Produce(ProductionAction::Build)
            &&& !tick_walks(m, restaurant_position, workplace_position)
            &&& tick_spec(m, restaurant_position, workplace_position).1 == Some(m.position)
        },
{
}

/// Every tick appends exactly one line, the newest last, and the log never
/// grows past `LOG_CAPACITY`: once full, the oldest line falls off.
pub proof fn lemma_tick_logs_one_line(
    m: AgentModel,
    restaurant_position: (i32, i32),
    workplace_position: Option<(i32, i32)>,
)
    requires
        m.log.len() <= LOG_CAPACITY,
    ensures
        ({
            let log = tick_spec(m, restaurant_position, workplace_position).0.log;
            let line = log_line_spec(
                tick_action(m),
                tick_walks(m, restaurant_position, workplace_position),
                m.hunger,
                m.energy,
                m.food,
            );
            &&& log.len() == if m.log.len() < LOG_CAPACITY { m.log.len() + 1 } else { LOG_CAPACITY as nat }
            &&& log.last() == line
            &&& log.drop_last() == if m.log.len() < LOG_CAPACITY { m.log } else { m.log.drop_first() }
        }),
{
    let log = tick_spec(m, restaurant_position, workplace_position).0.log;
    if m.log.len() < LOG_CAPACITY {
        assert(log.drop_last() =~= m.log);
    } else {
        assert(log.drop_last() =~= m.log.drop_first());
    }
}

/// While the agent still has to walk to where its action happens, the
/// action does not run: hunger and energy only decay, food is unchanged
/// and nothing is built.
pub proof fn lemma_walking_defers_the_action(
    m: AgentModel,
    restaurant_position: (i32, i32),
    workplace_position: Option<(i32, i32)>,
)
    requires
        tick_walks(m, restaurant_position, workplace_position),
    ensures
        ({
            let (after, produced) = tick_spec(m, restaurant_position, workplace_position);
            &&& produced is None
            &&& after.food == m.food
            &&& after.hunger == replan_spec(m).hunger
            &&& after.energy == replan_spec(m).energy
            &&& after.position == step_toward(
                m.position,
                required_location_spec(m, tick_action(m), restaurant_position, workplace_position).unwrap(),
            )
        }),
{
}

/// Eat is the only thing that lowers hunger, and Rest the only thing that
/// raises energy: walking, idling, producing and decay only ever push
/// both the other way.
pub proof fn lemma_only_eating_relieves_hunger_and_only_resting_restores_energy(
    m: AgentModel,
    restaurant_position: (i32, i32),
    workplace_position: Option<(i32, i32)>,
)
    requires
        m.valid(),
    ensures
        tick_spec(m, restaurant_position, workplace_position).0.hunger < m.hunger ==> {
            &&& tick_action(m) == Action::Eat
            &&& !tick_walks(m, restaurant_position, workplace_position)
        },
        tick_spec(m, restaurant_position, workplace_position).0.energy > m.energy ==> {
            &&& tick_action(m) == Action::Rest
            &&& !tick_walks(m, restaurant_position, workplace_position)
        },
{
}

/// A faster hunger decay rate never leaves an agent less hungry after
/// replanning than a slower one, from the same state.
pub proof fn lemma_faster_decay_is_never_less_hungry(m: AgentModel, faster: u32)
    requires
        faster >= m.hunger_decay_per_tick,
    ensures
        replan_spec(AgentModel { hunger_decay_per_tick: faster, ..m }).hunger >= replan_spec(m).hunger,
{
}

/// Hunger after decay at the agent's own rate, capped at `HUNGER_MAX`.
pub open spec fn decayed_hunger(hunger: int, rate: int) -> int {
    if hunger + rate >= HUNGER_MAX { HUNGER_MAX as int } else { hunger + rate }
}

/// Energy after a tick's drain, floored at 0.
pub open spec fn drained_energy(energy: int) -> int {
    if energy >= ENERGY_DECAY_PER_TICK { energy - ENERGY_DECAY_PER_TICK } else { 0 }
}

/// Each axis of a step moves by the sign of that axis's own remaining
/// distance, independently of the other axis: a diagonal step whenever
/// both axes still differ.
pub proof fn lemma_step_moves_each_axis_by_its_own_sign(p: (i32, i32), t: (i32, i32))
    ensures
        step_toward(p, t).0 == p.0 + if t.0 > p.0 { 1int } else if t.0 < p.0 { -1int } else { 0int },
        step_toward(p, t).1 == p.1 + if t.1 > p.1 { 1int } else if t.1 < p.1 { -1int } else { 0int },
{
}

/// Eat always happens at the restaurant, whatever house the agent owns: a
/// hungry agent whose energy is not yet due steps one cell closer to the
/// restaurant without eating while it is away from it (its hunger only
/// decays), and eats when it stands there (hunger drops by
/// `HUNGER_EAT_RELIEF`, floored at 0, before decay).
pub proof fn lemma_hungry_agent_eats_at_the_restaurant(
    m: AgentModel,
    restaurant_position: (i32, i32),
    workplace_position: Option<(i32, i32)>,
)
    requires
        m.valid(),
        m.hunger >= HUNGER_EAT_THRESHOLD,
        m.energy > ENERGY_MAX - ENERGY_REST_THRESHOLD,
    ensures
        ({
            let (after, produced) = tick_spec(m, restaurant_position, workplace_position);
            &&& produced is None
            &&& after.food == m.food
            &&& after.home == m.home
            &&& m.position != restaurant_position ==> {
                &&& chebyshev(after.position, restaurant_position) + 1 == chebyshev(m.position, restaurant_position)
                &&& after.hunger == decayed_hunger(m.hunger as int, m.hunger_decay_per_tick as int)
            }
            &&& m.position == restaurant_position ==> {
                &&& after.position == restaurant_position
                &&& after.hunger == decayed_hunger(
                    if m.hunger >= HUNGER_EAT_RELIEF { m.hunger - HUNGER_EAT_RELIEF } else { 0 },
                    m.hunger_decay_per_tick as int,
                )
            }
            &&& after.energy == drained_energy(m.energy as int)
        }),
{
    reveal_with_fuel(first_firing, 5);
    assert(tick_action(m) == Action::Eat);
    lemma_step_closes_in_by_one(m.position, restaurant_position);
}

/// Rest always happens at the agent's own house: a tired agent that owns a
/// house and is not hungry steps one cell closer to its house while away
/// from it, and rests there (energy rises by `ENERGY_REST_RELIEF`, capped,
/// before the drain), logging a line that starts with "Rest".
pub proof fn lemma_tired_agent_rests_at_its_own_house(
    m: AgentModel,
    restaurant_position: (i32, i32),
    workplace_position: Option<(i32, i32)>,
)
    requires
        m.valid(),
        m.hunger < HUNGER_EAT_THRESHOLD,
        m.energy <= ENERGY_MAX - ENERGY_REST_THRESHOLD,
        m.home is Some,
    ensures
        ({
            let (after, produced) = tick_spec(m, restaurant_position, workplace_position);
            let home = m.home.unwrap();
            &&& produced is None
            &&& after.food == m.food
            &&& m.position != home ==> {
                &&& chebyshev(after.position, home) + 1 == chebyshev(m.position, home)
                &&& after.energy == drained_energy(m.energy as int)
            }
            &&& m.position == home ==> {
                &&& after.position == home
                &&& after.energy == drained_energy(
                    if m.energy + ENERGY_REST_RELIEF >= ENERGY_MAX { ENERGY_MAX as int } else { m.energy + ENERGY_REST_RELIEF },
                )
                &&& after.log.last().take(4) == seq!['R', 'e', 's', 't']
            }
        }),
{
    reveal_with_fuel(first_firing, 5);
    assert(tick_action(m) == Action::Rest);
    lemma_step_closes_in_by_one(m.position, m.home.unwrap());
    lemma_action_text_names_the_action();
    let after = tick_spec(m, restaurant_position, workplace_position).0;
    if m.position == m.home.unwrap() {
        let line = log_line_spec(Action::Rest, false, m.hunger, m.energy, m.food);
        assert(after.log.last() == line);
        assert(line.take(4) =~= seq!['R', 'e', 's', 't']);
    }
}

/// A Farm action adds exactly `FOOD_PRODUCED_PER_TICK` to the food stock,
/// which has no cap of its own (only a `u64`'s range), and changes nothing else.
pub proof fn lemma_farming_adds_exactly_the_farm_yield(m: AgentModel)
    requires
        m.food + FOOD_PRODUCED_PER_TICK <= u64::MAX,
    ensures
        act_spec(m, Action::Produce(ProductionAction::Farm)).0.food == m.food + FOOD_PRODUCED_PER_TICK,
        act_spec(m, Action::Produce(ProductionAction::Farm)).0 == (AgentModel {
            food: act_spec(m, Action::Produce(ProductionAction::Farm)).0.food,
            ..m
        }),
        act_spec(m, Action::Produce(ProductionAction::Farm)).1 is None,
{
}

/// A farmer with no need due, standing where it farms (or with no farm in
/// the world), gains exactly `FOOD_PRODUCED_PER_TICK` food in a tick; away
/// from its farm it gains nothing and steps one cell closer.
pub proof fn lemma_farmer_tick_yields_food_at_the_farm(
    m: AgentModel,
    restaurant_position: (i32, i32),
    workplace_position: Option<(i32, i32)>,
)
    requires
        m.valid(),
        m.career == Career::Farmer,
        m.hunger < HUNGER_EAT_THRESHOLD,
        m.energy > ENERGY_MAX - ENERGY_REST_THRESHOLD,
        m.food + FOOD_PRODUCED_PER_TICK <= u64::MAX,
    ensures
        ({
            let (after, produced) = tick_spec(m, restaurant_position, workplace_position);
            &&& produced is None
            &&& (workplace_position is None || workplace_position == Some(m.position)) ==> {
                &&& after.food == m.food + FOOD_PRODUCED_PER_TICK
                &&& after.position == m.position
            }
            &&& (workplace_position matches Some(p) && p != m.position) ==> {
                &&& after.food == m.food
                &&& chebyshev(after.position, workplace_position.unwrap()) + 1
                    == chebyshev(m.position, workplace_position.unwrap())
            }
        }),
{
    reveal_with_fuel(first_firing, 5);
    assert(tick_action(m) == Action::Produce(ProductionAction::Farm));
    if workplace_position is Some {
        lemma_step_closes_in_by_one(m.position, workplace_position.unwrap());
    }
}

/// Each action's log text is its own name, as `Debug` prints it.
pub proof fn lemma_action_text_names_the_action()
    ensures
        action_text(Action::Eat) == seq!['E', 'a', 't'],
        action_text(Action::Rest) == seq!['R', 'e', 's', 't'],
        action_text(Action::Idle) == seq!['I', 'd', 'l', 'e'],
        action_text(Action::Produce(ProductionAction::Farm))
            == seq!['P', 'r', 'o', 'd', 'u', 'c', 'e', '(', 'F', 'a', 'r', 'm', ')'],
        action_text(Action::Produce(ProductionAction::Build))
            == seq!['P', 'r', 'o', 'd', 'u', 'c', 'e', '(', 'B', 'u', 'i', 'l', 'd', ')'],
{
    reveal_strlit("Eat");
    reveal_strlit("Rest");
    reveal_strlit("Idle");
    reveal_strlit("Produce(Farm)");
    reveal_strlit("Produce(Build)");
    assert(action_text(Action::Eat) =~= seq!['E', 'a', 't']);
    assert(action_text(Action::Rest) =~= seq!['R', 'e', 's', 't']);
    assert(action_text(Action::Idle) =~= seq!['I', 'd', 'l', 'e']);
    assert(action_text(Action::Produce(ProductionAction::Farm))
        =~= seq!['P', 'r', 'o', 'd', 'u', 'c', 'e', '(', 'F', 'a', 'r', 'm', ')']);
    assert(action_text(Action::Produce(ProductionAction::Build))
        =~= seq!['P', 'r', 'o', 'd', 'u', 'c', 'e', '(', 'B', 'u', 'i', 'l', 'd', ')']);
}

/// Different actions are logged under different names.
pub proof fn lemma_action_text_is_injective(a: Action, b: Action)
    ensures
        action_text(a) == action_text(b) ==> a == b,
{
    lemma_action_text_names_the_action();
    if action_text(a) == action_text(b) && a != b {
        let ta = action_text(a);
        let tb = action_text(b);
        assert(ta.len() == tb.len());
        assert(ta[0] == tb[0]);
        if ta.len() == 13 {
            assert(ta[8] == tb[8]);
        }
        if ta.len() == 4 {
            assert(ta[0] == tb[0]);
        }
    }
}

/// A tick in which no need is due and the agent has no career only lets
/// needs decay: it stays put, keeps its food, builds nothing, and logs a
/// line that starts with "Idle".
pub proof fn lemma_idle_tick_only_applies_decay(
    m: AgentModel,
    restaurant_position: (i32, i32),
    workplace_position: Option<(i32, i32)>,
)
    requires
        m.valid(),
        m.career == Career::Unemployed,
        m.hunger < HUNGER_EAT_THRESHOLD,
        m.energy > ENERGY_MAX - ENERGY_REST_THRESHOLD,
    ensures
        ({
            let (after, produced) = tick_spec(m, restaurant_position, workplace_position);
            &&& produced is None
            &&& after.position == m.position
            &&& after.food == m.food
            &&& after.home == m.home
            &&& after.hunger == decayed_hunger(m.hunger as int, m.hunger_decay_per_tick as int)
            &&& after.energy == drained_energy(m.energy as int)
            &&& after.log.last().take(4) == seq!['I', 'd', 'l', 'e']
        }),
{
    reveal_with_fuel(first_firing, 5);
    assert(tick_action(m) == Action::Idle);
    lemma_action_text_names_the_action();
    let line = log_line_spec(Action::Idle, false, m.hunger, m.energy, m.food);
    assert(line.take(4) =~= seq!['I', 'd', 'l', 'e']);
}

/// A builder with no need due, standing where it builds (or with no
/// construction site in the world), hands back a new house standing at its
/// own position; away from its site it builds nothing and steps closer.
pub proof fn lemma_builder_tick_builds_a_house_where_it_stands(
    m: AgentModel,
    restaurant_position: (i32, i32),
    workplace_position: Option<(i32, i32)>,
)
    requires
        m.valid(),
        m.career == Career::Builder,
        m.hunger < HUNGER_EAT_THRESHOLD,
        m.energy > ENERGY_MAX - ENERGY_REST_THRESHOLD,
    ensures
        ({
            let (after, produced) = tick_spec(m, restaurant_position, workplace_position);
            &&& after.home == m.home
            &&& (workplace_position is None || workplace_position == Some(m.position)) ==> {
                &&& produced == Some(m.position)
                &&& after.position == m.position
            }
            &&& (workplace_position matches Some(p) && p != m.position) ==> {
                &&& produced is None
                &&& chebyshev(after.position, workplace_position.unwrap()) + 1
                    == chebyshev(m.position, workplace_position.unwrap())
            }
        }),
{
    reveal_with_fuel(first_firing, 5);
    assert(tick_action(m) == Action::Produce(ProductionAction::Build));
    if workplace_position is Some {
        lemma_step_closes_in_by_one(m.position, workplace_position.unwrap());
    }
}

/// A log line reads `<Action>[ (walking)] -> H<hunger> E<energy> F<food>`,
/// with the numbers in decimal.
pub proof fn lemma_log_line_layout(action: Action, walking: bool, hunger: u32, energy: u32, food: u64)
    ensures
        log_line_spec(action, walking, hunger, energy, food) == action_text(action)
            + (if walking { seq![' ', '(', 'w', 'a', 'l', 'k', 'i', 'n', 'g', ')'] } else { Seq::<char>::empty() })
            + seq![' ', '-', '>', ' ', 'H'] + decimal(hunger as nat)
            + seq![' ', 'E'] + decimal(energy as nat)
            + seq![' ', 'F'] + decimal(food as nat),
{
    reveal_strlit(" (walking)");
    reveal_strlit(" -> H");
    reveal_strlit(" E");
    reveal_strlit(" F");
    assert(" (walking)"@ =~= seq![' ', '(', 'w', 'a', 'l', 'k', 'i', 'n', 'g', ')']);
    assert(" -> H"@ =~= seq![' ', '-', '>', ' ', 'H']);
    assert(" E"@ =~= seq![' ', 'E']);
    assert(" F"@ =~= seq![' ', 'F']);
}

} // verus!
