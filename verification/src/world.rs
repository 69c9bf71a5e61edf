//! `World`: orchestrates multiple agents and brokers the one shared,
//! contested resource, houses.
//!
//! A `House` always has exactly one owner at any moment: either it sits in
//! `World::available_houses`, or it has been moved into some agent's home.
//! `World` is the single neutral party that moves houses between those two
//! places. It also holds the one shared `Restaurant` and every `Workplace`;
//! each agent is handed the position of the workplace matching its own
//! career.
use vstd::prelude::*;
use crate::agent::{Agent, AgentModel, tick_spec};
use crate::career::ProductionAction;
use crate::house::House;
use crate::restaurant::Restaurant;
use crate::workplace::Workplace;

verus! {

pub struct World {
    agents: Vec<Agent>,
    /// Houses built but not yet claimed by any agent. When there are more
    /// houseless agents than houses here in a tick, some agent goes
    /// without, decided by agent order.
    available_houses: Vec<House>,
    /// The shared place every agent eats at.
    restaurant: Restaurant,
    /// Where each production action happens.
    workplaces: Vec<Workplace>,
}

/// The mathematical state of a world.
pub struct WorldModel {
    pub agents: Seq<AgentModel>,
    /// Positions of the houses waiting in the pool, in pool order (the last
    /// one is claimed first).
    pub available_houses: Seq<(i32, i32)>,
    pub restaurant: (i32, i32),
    pub workplaces: Seq<((i32, i32), ProductionAction)>,
}

impl View for World {
    type V = WorldModel;

    closed spec fn view(&self) -> WorldModel {
        WorldModel {
            agents: self.agents@.map_values(|a: Agent| a@),
            available_houses: self.available_houses@.map_values(|h: House| h@),
            restaurant: self.restaurant@,
            workplaces: self.workplaces@.map_values(|w: Workplace| w@),
        }
    }
}

/// The position of the first workplace offering `action`, if any.
pub open spec fn workplace_for(
    workplaces: Seq<((i32, i32), ProductionAction)>,
    action: Option<ProductionAction>,
) -> Option<(i32, i32)>
    decreases workplaces.len(),
{
    if workplaces.len() == 0 {
        None
    } else if action == Some(workplaces[0].1) {
        Some(workplaces[0].0)
    } else {
        workplace_for(workplaces.drop_first(), action)
    }
}

/// Where a world tick stands after some agents have had their turn: the
/// agents, the pool they claim from, and the houses built so far this tick
/// (in agent order), which join the pool only once every agent has had
/// its turn.
pub struct TickProgress {
    pub agents: Seq<AgentModel>,
    pub pool: Seq<(i32, i32)>,
    pub built: Seq<(i32, i32)>,
}

/// Whether an agent claims a house from `pool` at the start of its turn:
/// it has none and one is waiting.
pub open spec fn claims(a: AgentModel, pool: Seq<(i32, i32)>) -> bool {
    a.home is None && pool.len() > 0
}

/// One agent's turn: claim a house from the pool if houseless and one is
/// waiting (the last one in the pool), then tick with the shared
/// restaurant's position and the position of the workplace matching the
/// agent's career. Returns the agent after its turn, the pool, and the
/// house it built, if any.
pub open spec fn agent_turn(w: WorldModel, pool: Seq<(i32, i32)>, a: AgentModel) -> (AgentModel, Seq<(i32, i32)>, Option<(i32, i32)>) {
    let claimed = if claims(a, pool) { AgentModel { home: Some(pool.last()), ..a } } else { a };
    let pool_after = if claims(a, pool) { pool.drop_last() } else { pool };
    let workplace_position = workplace_for(w.workplaces, claimed.career.production_action_spec());
    let (ticked, produced) = tick_spec(claimed, w.restaurant, workplace_position);
    (ticked, pool_after, produced)
}

/// The tick after the first `n` agents, in index order, have had their turn.
pub open spec fn turns(w: WorldModel, n: nat) -> TickProgress
    decreases n,
{
    if n == 0 {
        TickProgress { agents: w.agents, pool: w.available_houses, built: Seq::empty() }
    } else {
        let p = turns(w, (n - 1) as nat);
        let (a, pool, produced) = agent_turn(w, p.pool, p.agents[n - 1]);
        TickProgress {
            agents: p.agents.update(n - 1, a),
            pool,
            built: match produced {
                Some(h) => p.built.push(h),
                None => p.built,
            },
        }
    }
}

/// A whole world tick: every agent takes its turn in index order, then the
/// houses built this tick join the end of the pool.
pub open spec fn world_tick_spec(w: WorldModel) -> WorldModel {
    let p = turns(w, w.agents.len());
    WorldModel { agents: p.agents, available_houses: p.pool + p.built, ..w }
}

/// Taking turns never changes how many agents there are.
pub proof fn lemma_turns_len(w: WorldModel, n: nat)
    requires
        n <= w.agents.len(),
    ensures
        turns(w, n).agents.len() == w.agents.len(),
    decreases n,
{
    if n > 0 {
        lemma_turns_len(w, (n - 1) as nat);
    }
}

/// The position of the first workplace in `workplaces` that offers `action`.
fn workplace_position_for(workplaces: &Vec<Workplace>, action: Option<ProductionAction>) -> (position: Option<(i32, i32)>)
    ensures
        position == workplace_for(workplaces@.map_values(|w: Workplace| w@), action),
{
    let ghost all = workplaces@.map_values(|w: Workplace| w@);
    let mut i: usize = 0;
    assert(all.subrange(0, all.len() as int) =~= all);
    while i < workplaces.len()
        invariant
            i <= workplaces@.len(),
            all == workplaces@.map_values(|w: Workplace| w@),
            workplace_for(all, action) == workplace_for(all.subrange(i as int, all.len() as int), action),
        decreases workplaces@.len() - i,
    {
        let offered = workplaces[i].action();
        let matches = match action {
            Some(a) => a == offered,
            None => false,
        };
        let ghost rest = all.subrange(i as int, all.len() as int);
        assert(rest[0] == all[i as int]);
        if matches {
            return Some(workplaces[i].position());
        }
        assert(rest.drop_first() =~= all.subrange(i + 1, all.len() as int));
        i = i + 1;
    }
    None
}

impl World {
    pub fn new(agents: Vec<Agent>, restaurant: Restaurant, workplaces: Vec<Workplace>) -> (world: World)
        ensures
            world@ == (WorldModel {
                agents: agents@.map_values(|a: Agent| a@),
                available_houses: Seq::empty(),
                restaurant: restaurant@,
                workplaces: workplaces@.map_values(|w: Workplace| w@),
            }),
    {
        let world = World { agents, available_houses: Vec::new(), restaurant, workplaces };
        assert(world@.available_houses =~= Seq::<(i32, i32)>::empty());
        world
    }

    pub fn agents(&self) -> (agents: &[Agent])
        ensures
            agents@.map_values(|a: Agent| a@) == self@.agents,
    {
        self.agents.as_slice()
    }

    pub fn restaurant(&self) -> (restaurant: &Restaurant)
        ensures
            restaurant@ == self@.restaurant,
    {
        &self.restaurant
    }

    /// Houses built (or added) but not yet claimed, in pool order: the last
    /// one is the next to be claimed.
    pub fn available_houses(&self) -> (houses: &[House])
        ensures
            houses@.map_values(|h: House| h@) == self@.available_houses,
    {
        self.available_houses.as_slice()
    }

    /// Puts `house` at the end of the pool of unclaimed houses, so it is the
    /// next one a houseless agent claims.
    pub fn add_available_house(&mut self, house: House)
        ensures
            final(self)@ == (WorldModel {
                available_houses: old(self)@.available_houses.push(house@),
                ..old(self)@
            }),
    {
        let ghost before = self.available_houses@;
        self.available_houses.push(house);
        assert(self.available_houses@.map_values(|h: House| h@) =~= before.map_values(|h: House| h@).push(house@));
    }

    pub fn workplaces(&self) -> (workplaces: &[Workplace])
        ensures
            workplaces@.map_values(|w: Workplace| w@) == self@.workplaces,
    {
        self.workplaces.as_slice()
    }

    /// Advances every agent by one tick, in a fixed order (index 0 first).
    /// That order is the entire contention rule: before acting, a houseless
    /// agent claims a house from the pool if one is waiting; when houses
    /// are scarcer than the demand, earlier agents get them. A tick's own
    /// Build output is only added to the pool after every agent has had
    /// its turn, so it is claimable from the next tick on.
    pub fn tick(&mut self)
        ensures
            final(self)@ == world_tick_spec(old(self)@),
    {
        let ghost w0 = self@;
        let n = self.agents.len();
        let mut built: Vec<House> = Vec::new();
        let mut i: usize = 0;
        proof {
            assert(built@.map_values(|h: House| h@) =~= Seq::<(i32, i32)>::empty());
        }
        while i < n
            invariant
                i <= n,
                n == w0.agents.len(),
                self.agents@.len() == n,
                self@.agents == turns(w0, i as nat).agents,
                self@.available_houses == turns(w0, i as nat).pool,
                built@.map_values(|h: House| h@) == turns(w0, i as nat).built,
                self@.restaurant == w0.restaurant,
                self@.workplaces == w0.workplaces,
            decreases n - i,
        {
            proof {
                lemma_turns_len(w0, i as nat);
                lemma_turns_len(w0, (i + 1) as nat);
            }
            if self.agents[i].home().is_none() {
                match self.available_houses.pop() {
                    Some(house) => {
                        self.agents[i].claim_house(house);
                    },
                    None => {},
                }
            }
            let action = self.agents[i].available_production_action();
            let workplace_position = workplace_position_for(&self.workplaces, action);
            let restaurant_position = self.restaurant.position();
            let produced = self.agents[i].tick(restaurant_position, workplace_position);
            match produced {
                Some(house) => {
                    built.push(house);
                },
                None => {},
            }
            proof {
                let next = turns(w0, (i + 1) as nat);
                assert(self@.agents =~= next.agents);
                assert(self@.available_houses =~= next.pool);
                assert(built@.map_values(|h: House| h@) =~= next.built);
            }
            i = i + 1;
        }
        self.available_houses.append(&mut built);
        proof {
            assert(self@.available_houses =~= turns(w0, n as nat).pool + turns(w0, n as nat).built);
            assert(self@.agents == turns(w0, n as nat).agents);
        }
    }
}

} // verus!
