//! Laws of a world tick: how houses move between the pool and the agents,
//! stated over the model that `World::tick` is specified by.
use vstd::prelude::*;
use crate::agent::AgentModel;
use crate::agent::{
    ENERGY_MAX, ENERGY_REST_THRESHOLD, FOOD_PRODUCED_PER_TICK, HUNGER_EAT_RELIEF, HUNGER_EAT_THRESHOLD,
};
use crate::career::Career;
use crate::agent_laws::{
    chebyshev, decayed_hunger, lemma_builder_tick_builds_a_house_where_it_stands,
    lemma_farmer_tick_yields_food_at_the_farm, lemma_hungry_agent_eats_at_the_restaurant,
    lemma_tick_never_claims_a_house,
};
use crate::career::ProductionAction;
use crate::world::{agent_turn, claims, lemma_turns_len, turns, workplace_for, world_tick_spec, WorldModel};

verus! {

/// Agents at or after index `n` have not had their turn yet.
proof fn lemma_turns_untouched(w: WorldModel, n: nat, j: int)
    requires
        n <= j < w.agents.len(),
    ensures
        turns(w, n).agents[j] == w.agents[j],
    decreases n,
{
    if n > 0 {
        lemma_turns_untouched(w, (n - 1) as nat, j);
        lemma_turns_len(w, (n - 1) as nat);
    }
}

/// Once agent `j` has had its turn, later turns leave it alone.
proof fn lemma_turns_settled(w: WorldModel, n: nat, j: int)
    requires
        0 <= j < n <= w.agents.len(),
    ensures
        turns(w, n).agents[j] == turns(w, (j + 1) as nat).agents[j],
    decreases n,
{
    if n > j + 1 {
        lemma_turns_settled(w, (n - 1) as nat, j);
        lemma_turns_len(w, (n - 1) as nat);
    }
}

/// During a tick the pool only ever shrinks, from its end.
proof fn lemma_pool_shrinks(w: WorldModel, m: nat, n: nat)
    requires
        m <= n <= w.agents.len(),
    ensures
        turns(w, n).pool.len() <= turns(w, m).pool.len(),
        turns(w, n).pool == turns(w, m).pool.take(turns(w, n).pool.len() as int),
    decreases n,
{
    if n == m {
        assert(turns(w, n).pool == turns(w, m).pool.take(turns(w, n).pool.len() as int));
    } else {
        lemma_pool_shrinks(w, m, (n - 1) as nat);
        let cur = turns(w, n).pool;
        assert(cur == turns(w, m).pool.take(cur.len() as int));
    }
}

/// Agent `j`'s own turn: what it is after the turn, and the pool it left.
proof fn lemma_own_turn(w: WorldModel, j: int)
    requires
        0 <= j < w.agents.len(),
    ensures
        ({
            let before = turns(w, j as nat);
            let (a, pool, produced) = agent_turn(w, before.pool, w.agents[j]);
            &&& turns(w, (j + 1) as nat).agents[j] == a
            &&& turns(w, (j + 1) as nat).pool == pool
            &&& a.home == if claims(w.agents[j], before.pool) {
                Some(before.pool.last())
            } else {
                w.agents[j].home
            }
        }),
{
    lemma_turns_untouched(w, j as nat, j);
    lemma_turns_len(w, j as nat);
    let before = turns(w, j as nat);
    let a0 = w.agents[j];
    let claimed = if claims(a0, before.pool) { AgentModel { home: Some(before.pool.last()), ..a0 } } else { a0 };
    lemma_tick_never_claims_a_house(
        claimed,
        w.restaurant,
        workplace_for(w.workplaces, claimed.career.production_action_spec()),
    );
}

/// An agent that already owns a house keeps that very house through a
/// tick, and its turn takes nothing from the pool.
pub proof fn lemma_owned_houses_are_kept(w: WorldModel, j: int)
    requires
        0 <= j < w.agents.len(),
        w.agents[j].home is Some,
    ensures
        world_tick_spec(w).agents[j].home == w.agents[j].home,
        turns(w, (j + 1) as nat).pool == turns(w, j as nat).pool,
{
    lemma_own_turn(w, j);
    lemma_turns_settled(w, w.agents.len(), j);
}

/// When every agent already owns a house, nothing leaves the pool: it only
/// gains the houses built this tick.
pub proof fn lemma_no_claims_when_everyone_is_housed(w: WorldModel)
    requires
        forall|j: int| 0 <= j < w.agents.len() ==> (#[trigger] w.agents[j]).home is Some,
    ensures
        world_tick_spec(w).available_houses == w.available_houses + turns(w, w.agents.len()).built,
{
    assert forall|n: nat| n <= w.agents.len() implies #[trigger] turns(w, n).pool == w.available_houses by {
        lemma_pool_unchanged_upto(w, n);
    }
}

proof fn lemma_pool_unchanged_upto(w: WorldModel, n: nat)
    requires
        n <= w.agents.len(),
        forall|j: int| 0 <= j < w.agents.len() ==> (#[trigger] w.agents[j]).home is Some,
    ensures
        turns(w, n).pool == w.available_houses,
    decreases n,
{
    if n > 0 {
        lemma_pool_unchanged_upto(w, (n - 1) as nat);
        lemma_own_turn(w, n - 1);
    }
}

/// Scarce houses go to houseless agents in index order: if a later
/// houseless agent got a house this tick, every earlier houseless agent
/// got one too. Never randomness.
pub proof fn lemma_houses_go_to_earlier_agents_first(w: WorldModel, i: int, j: int)
    requires
        0 <= i < j < w.agents.len(),
        w.agents[i].home is None,
        w.agents[j].home is None,
        world_tick_spec(w).agents[j].home is Some,
    ensures
        world_tick_spec(w).agents[i].home is Some,
{
    let n = w.agents.len();
    lemma_turns_settled(w, n, j);
    lemma_turns_settled(w, n, i);
    lemma_own_turn(w, j);
    lemma_own_turn(w, i);
    lemma_pool_shrinks(w, i as nat, j as nat);
}

/// The pool after a tick is what was left of the old pool once houseless
/// agents claimed from its end, followed by the houses built this tick:
/// a tick's own Build output is not claimable until the next tick.
pub proof fn lemma_pool_after_a_tick(w: WorldModel)
    ensures
        world_tick_spec(w).available_houses == w.available_houses.take(
            turns(w, w.agents.len()).pool.len() as int,
        ) + turns(w, w.agents.len()).built,
        turns(w, w.agents.len()).pool.len() <= w.available_houses.len(),
{
    lemma_pool_shrinks(w, 0, w.agents.len());
}

/// A house claimed this tick comes from the pool as it stood before the
/// tick, from the part the tick used up: never from this tick's own output.
pub proof fn lemma_claimed_houses_come_from_the_old_pool(w: WorldModel, j: int)
    requires
        0 <= j < w.agents.len(),
        w.agents[j].home is None,
        world_tick_spec(w).agents[j].home is Some,
    ensures
        exists|k: int|
            turns(w, w.agents.len()).pool.len() <= k < w.available_houses.len()
                && world_tick_spec(w).agents[j].home == Some(#[trigger] w.available_houses[k]),
{
    let n = w.agents.len();
    lemma_turns_settled(w, n, j);
    lemma_own_turn(w, j);
    lemma_pool_shrinks(w, 0, j as nat);
    lemma_pool_shrinks(w, (j + 1) as nat, n);
    let before = turns(w, j as nat).pool;
    let k = before.len() - 1;
    assert(before[k] == w.available_houses[k]);
}

/// The number of agents that own a house.
pub open spec fn housed_count(agents: Seq<AgentModel>) -> nat
    decreases agents.len(),
{
    if agents.len() == 0 {
        0
    } else {
        housed_count(agents.drop_last()) + if agents.last().home is Some { 1nat } else { 0nat }
    }
}

proof fn lemma_housed_count_update(agents: Seq<AgentModel>, i: int, a: AgentModel)
    requires
        0 <= i < agents.len(),
    ensures
        housed_count(agents.update(i, a)) + (if agents[i].home is Some { 1int } else { 0int })
            == housed_count(agents) + (if a.home is Some { 1int } else { 0int }),
    decreases agents.len(),
{
    let updated = agents.update(i, a);
    if i == agents.len() - 1 {
        assert(updated.drop_last() =~= agents.drop_last());
    } else {
        lemma_housed_count_update(agents.drop_last(), i, a);
        assert(updated.drop_last() =~= agents.drop_last().update(i, a));
    }
}

proof fn lemma_houses_conserved_upto(w: WorldModel, n: nat)
    requires
        n <= w.agents.len(),
    ensures
        housed_count(turns(w, n).agents) + turns(w, n).pool.len()
            == housed_count(w.agents) + w.available_houses.len(),
    decreases n,
{
    if n > 0 {
        lemma_houses_conserved_upto(w, (n - 1) as nat);
        lemma_turns_len(w, (n - 1) as nat);
        let p = turns(w, (n - 1) as nat);
        let a0 = p.agents[n - 1];
        let claimed = if claims(a0, p.pool) { AgentModel { home: Some(p.pool.last()), ..a0 } } else { a0 };
        lemma_tick_never_claims_a_house(
            claimed,
            w.restaurant,
            workplace_for(w.workplaces, claimed.career.production_action_spec()),
        );
        let (a, pool, produced) = agent_turn(w, p.pool, a0);
        lemma_housed_count_update(p.agents, n - 1, a);
    }
}

/// No house is ever lost or duplicated: after a tick, the houses owned plus
/// the houses in the pool are exactly those before it plus the ones built.
pub proof fn lemma_houses_are_conserved(w: WorldModel)
    ensures
        housed_count(world_tick_spec(w).agents) + world_tick_spec(w).available_houses.len()
            == housed_count(w.agents) + w.available_houses.len() + turns(w, w.agents.len()).built.len(),
{
    lemma_houses_conserved_upto(w, w.agents.len());
}

/// The position handed to an agent is that of the first workplace offering
/// its career's production action; none if no workplace offers it (or the
/// agent has no career).
pub proof fn lemma_workplace_matches_the_career(
    workplaces: Seq<((i32, i32), ProductionAction)>,
    action: Option<ProductionAction>,
)
    ensures
        match workplace_for(workplaces, action) {
            Some(position) => exists|k: int|
                0 <= k < workplaces.len() && #[trigger] workplaces[k] == (position, action.unwrap())
                    && action == Some(workplaces[k].1)
                    && forall|i: int| 0 <= i < k ==> action != Some(#[trigger] workplaces[i].1),
            None => forall|i: int| 0 <= i < workplaces.len() ==> action != Some(#[trigger] workplaces[i].1),
        },
    decreases workplaces.len(),
{
    if workplaces.len() > 0 {
        let rest = workplaces.drop_first();
        lemma_workplace_matches_the_career(rest, action);
        if action == Some(workplaces[0].1) {
            assert(workplaces[0] == (workplaces[0].0, action.unwrap()));
        } else {
            match workplace_for(rest, action) {
                Some(position) => {
                    let k = choose|k: int|
                        0 <= k < rest.len() && #[trigger] rest[k] == (position, action.unwrap())
                            && action == Some(rest[k].1)
                            && forall|i: int| 0 <= i < k ==> action != Some(#[trigger] rest[i].1);
                    assert(workplaces[k + 1] == rest[k]);
                    assert forall|i: int| 0 <= i < k + 1 implies action != Some(#[trigger] workplaces[i].1) by {
                        if i > 0 {
                            assert(workplaces[i] == rest[i - 1]);
                        }
                    }
                },
                None => {
                    assert forall|i: int| 0 <= i < workplaces.len() implies action != Some(#[trigger] workplaces[i].1) by {
                        if i > 0 {
                            assert(workplaces[i] == rest[i - 1]);
                        }
                    }
                },
            }
        }
    }
}

/// Every agent senses the world's one shared restaurant: in a world tick, a
/// hungry agent whose energy is not yet due walks one cell closer to the
/// world's restaurant while away from it (hunger only decays), and eats
/// when it stands there, whatever house it owns or claims.
pub proof fn lemma_world_agents_eat_at_the_world_restaurant(w: WorldModel, j: int)
    requires
        0 <= j < w.agents.len(),
        w.agents[j].valid(),
        w.agents[j].hunger >= HUNGER_EAT_THRESHOLD,
        w.agents[j].energy > ENERGY_MAX - ENERGY_REST_THRESHOLD,
    ensures
        ({
            let before = w.agents[j];
            let after = world_tick_spec(w).agents[j];
            &&& before.position != w.restaurant ==> {
                &&& chebyshev(after.position, w.restaurant) + 1 == chebyshev(before.position, w.restaurant)
                &&& after.hunger == decayed_hunger(before.hunger as int, before.hunger_decay_per_tick as int)
            }
            &&& before.position == w.restaurant ==> {
                &&& after.position == w.restaurant
                &&& after.hunger == decayed_hunger(
                    if before.hunger >= HUNGER_EAT_RELIEF { before.hunger - HUNGER_EAT_RELIEF } else { 0 },
                    before.hunger_decay_per_tick as int,
                )
            }
        }),
{
    let n = w.agents.len();
    lemma_turns_settled(w, n, j);
    lemma_own_turn(w, j);
    let pool = turns(w, j as nat).pool;
    let a0 = w.agents[j];
    let claimed = if claims(a0, pool) { AgentModel { home: Some(pool.last()), ..a0 } } else { a0 };
    lemma_hungry_agent_eats_at_the_restaurant(
        claimed,
        w.restaurant,
        workplace_for(w.workplaces, claimed.career.production_action_spec()),
    );
}

/// The workplace handed to an agent is the first one offering its action.
proof fn lemma_first_offering_is_handed_out(workplaces: Seq<((i32, i32), ProductionAction)>, action: ProductionAction, k: int)
    requires
        0 <= k < workplaces.len(),
        workplaces[k].1 == action,
        forall|i: int| 0 <= i < k ==> (#[trigger] workplaces[i]).1 != action,
    ensures
        workplace_for(workplaces, Some(action)) == Some(workplaces[k].0),
    decreases k,
{
    if k > 0 {
        let rest = workplaces.drop_first();
        assert(rest[k - 1] == workplaces[k]);
        assert forall|i: int| 0 <= i < k - 1 implies (#[trigger] rest[i]).1 != action by {
            assert(rest[i] == workplaces[i + 1]);
        }
        assert(workplaces[0].1 != action);
        lemma_first_offering_is_handed_out(rest, action, k - 1);
    }
}

/// With no workplace offering the action, none is handed out.
proof fn lemma_no_offering_none_handed_out(workplaces: Seq<((i32, i32), ProductionAction)>, action: ProductionAction)
    requires
        forall|i: int| 0 <= i < workplaces.len() ==> (#[trigger] workplaces[i]).1 != action,
    ensures
        workplace_for(workplaces, Some(action)) is None,
    decreases workplaces.len(),
{
    if workplaces.len() > 0 {
        let rest = workplaces.drop_first();
        assert forall|i: int| 0 <= i < rest.len() implies (#[trigger] rest[i]).1 != action by {
            assert(rest[i] == workplaces[i + 1]);
        }
        assert(workplaces[0].1 != action);
        lemma_no_offering_none_handed_out(rest, action);
    }
}

/// In a world tick, a farmer with no need due heads for the first farm in
/// the world's workplaces: away from it, it steps one cell closer and
/// gains no food; standing on it, it gains exactly `FOOD_PRODUCED_PER_TICK`.
pub proof fn lemma_world_farmers_farm_at_the_first_farm(w: WorldModel, j: int, k: int)
    requires
        0 <= j < w.agents.len(),
        w.agents[j].valid(),
        w.agents[j].career == Career::Farmer,
        w.agents[j].hunger < HUNGER_EAT_THRESHOLD,
        w.agents[j].energy > ENERGY_MAX - ENERGY_REST_THRESHOLD,
        w.agents[j].food + FOOD_PRODUCED_PER_TICK <= u64::MAX,
        0 <= k < w.workplaces.len(),
        w.workplaces[k].1 == ProductionAction::Farm,
        forall|i: int| 0 <= i < k ==> (#[trigger] w.workplaces[i]).1 != ProductionAction::Farm,
    ensures
        ({
            let before = w.agents[j];
            let after = world_tick_spec(w).agents[j];
            let farm = w.workplaces[k].0;
            &&& before.position != farm ==> {
                &&& chebyshev(after.position, farm) + 1 == chebyshev(before.position, farm)
                &&& after.food == before.food
            }
            &&& before.position == farm ==> {
                &&& after.position == farm
                &&& after.food == before.food + FOOD_PRODUCED_PER_TICK
            }
        }),
{
    let n = w.agents.len();
    lemma_turns_settled(w, n, j);
    lemma_own_turn(w, j);
    lemma_first_offering_is_handed_out(w.workplaces, ProductionAction::Farm, k);
    let pool = turns(w, j as nat).pool;
    let a0 = w.agents[j];
    let claimed = if claims(a0, pool) { AgentModel { home: Some(pool.last()), ..a0 } } else { a0 };
    lemma_farmer_tick_yields_food_at_the_farm(claimed, w.restaurant, Some(w.workplaces[k].0));
}

/// In a world tick, a farmer with no need due and no farm anywhere in the
/// world farms where it stands.
pub proof fn lemma_world_farmers_without_a_farm_farm_in_place(w: WorldModel, j: int)
    requires
        0 <= j < w.agents.len(),
        w.agents[j].valid(),
        w.agents[j].career == Career::Farmer,
        w.agents[j].hunger < HUNGER_EAT_THRESHOLD,
        w.agents[j].energy > ENERGY_MAX - ENERGY_REST_THRESHOLD,
        w.agents[j].food + FOOD_PRODUCED_PER_TICK <= u64::MAX,
        forall|i: int| 0 <= i < w.workplaces.len() ==> (#[trigger] w.workplaces[i]).1 != ProductionAction::Farm,
    ensures
        world_tick_spec(w).agents[j].position == w.agents[j].position,
        world_tick_spec(w).agents[j].food == w.agents[j].food + FOOD_PRODUCED_PER_TICK,
{
    let n = w.agents.len();
    lemma_turns_settled(w, n, j);
    lemma_own_turn(w, j);
    lemma_no_offering_none_handed_out(w.workplaces, ProductionAction::Farm);
    let pool = turns(w, j as nat).pool;
    let a0 = w.agents[j];
    let claimed = if claims(a0, pool) { AgentModel { home: Some(pool.last()), ..a0 } } else { a0 };
    lemma_farmer_tick_yields_food_at_the_farm(claimed, w.restaurant, None);
}

/// The houses built during a tick only ever accumulate.
proof fn lemma_built_grows(w: WorldModel, m: nat, n: nat)
    requires
        m <= n <= w.agents.len(),
    ensures
        turns(w, n).built.len() >= turns(w, m).built.len(),
        turns(w, n).built.subrange(0, turns(w, m).built.len() as int) == turns(w, m).built,
    decreases n,
{
    if n == m {
        assert(turns(w, n).built.subrange(0, turns(w, m).built.len() as int) =~= turns(w, m).built);
    } else {
        lemma_built_grows(w, m, (n - 1) as nat);
        let prev = turns(w, (n - 1) as nat).built;
        let cur = turns(w, n).built;
        assert(cur.subrange(0, prev.len() as int) =~= prev);
        assert(cur.subrange(0, turns(w, m).built.len() as int) =~= prev.subrange(0, turns(w, m).built.len() as int));
    }
}

/// A house a builder builds during a tick joins the pool by the end of
/// it: a builder that owns a house, has no need due and stands where it
/// builds (or the world has no construction site) leaves a house at its
/// own position in the pool.
pub proof fn lemma_world_builders_fill_the_pool(w: WorldModel, j: int)
    requires
        0 <= j < w.agents.len(),
        w.agents[j].valid(),
        w.agents[j].home is Some,
        w.agents[j].career == Career::Builder,
        w.agents[j].hunger < HUNGER_EAT_THRESHOLD,
        w.agents[j].energy > ENERGY_MAX - ENERGY_REST_THRESHOLD,
        workplace_for(w.workplaces, Some(ProductionAction::Build)) is None
            || workplace_for(w.workplaces, Some(ProductionAction::Build)) == Some(w.agents[j].position),
    ensures
        world_tick_spec(w).available_houses.contains(w.agents[j].position),
{
    let n = w.agents.len();
    lemma_turns_untouched(w, j as nat, j);
    lemma_turns_len(w, j as nat);
    let p = turns(w, j as nat);
    let a0 = w.agents[j];
    assert(!claims(a0, p.pool));
    lemma_builder_tick_builds_a_house_where_it_stands(
        a0,
        w.restaurant,
        workplace_for(w.workplaces, Some(ProductionAction::Build)),
    );
    let built = turns(w, (j + 1) as nat).built;
    assert(built.last() == a0.position);
    lemma_built_grows(w, (j + 1) as nat, n);
    let all_built = turns(w, n).built;
    assert(all_built[built.len() - 1] == built[built.len() - 1]);
    let pool_after = world_tick_spec(w).available_houses;
    let final_pool = turns(w, n).pool;
    assert(pool_after[final_pool.len() + built.len() - 1] == a0.position);
}

} // verus!
