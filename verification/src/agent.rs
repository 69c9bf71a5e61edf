//! `Agent` and the standing decision-loop convention: every tick runs
//! sense -> evaluate -> select -> act -> replan. Needs are plain numbers
//! that decay over time; priority between them is decided by comparing
//! those numbers, never by randomness.
//!
//! `select` picks the winning action via an ordered list of
//! condition-action rules. `tick` checks where the selected action has to
//! happen and, if the agent is not there yet, moves one cell toward it
//! instead of acting. A built house is handed back to the caller, never
//! kept. Every tick records one line to a bounded log.
use vstd::prelude::*;
use std::collections::VecDeque;
use crate::career::{Career, ProductionAction};
use crate::house::House;
use crate::log_text::{append_decimal, decimal};

verus! {

/// How many recent tick log lines an agent keeps; older lines fall off as
/// new ones arrive.
pub const LOG_CAPACITY: usize = 20;

/// How much hunger accumulates per tick, by default, if the agent doesn't eat.
pub const HUNGER_DECAY_PER_TICK: u32 = 5;

/// Hunger level at or above which eating becomes the priority.
pub const HUNGER_EAT_THRESHOLD: u32 = 60;

/// How much a single Eat action reduces hunger by.
pub const HUNGER_EAT_RELIEF: u32 = 40;

/// Hunger is clamped to `0..=HUNGER_MAX`; 0 = fully fed, 100 = starving.
pub const HUNGER_MAX: u32 = 100;

/// How much energy drains per tick.
pub const ENERGY_DECAY_PER_TICK: u32 = 4;

/// Energy urgency (`ENERGY_MAX - energy`) at or above which resting becomes
/// the priority, i.e. energy at or below 30.
pub const ENERGY_REST_THRESHOLD: u32 = 70;

/// How much a single Rest action restores energy by.
pub const ENERGY_REST_RELIEF: u32 = 60;

/// Energy is clamped to `0..=ENERGY_MAX`; 0 = exhausted, 100 = fully rested.
pub const ENERGY_MAX: u32 = 100;

/// How much a single Farm action adds to the agent's food stock. Food is a
/// stockpile, not a 0-100 need, so it is not clamped (beyond what a `u64`
/// can hold).
pub const FOOD_PRODUCED_PER_TICK: u64 = 10;

/// What an agent decides to do in one tick.
#[derive(Debug, Clone, Copy, PartialEq, Eq, Structural)]
pub enum Action {
    Eat,
    Rest,
    /// Do the job this agent's career allows.
    Produce(ProductionAction),
    Idle,
}

/// Per-need urgency, both on the same 0-100 "higher = more urgent" scale
/// so they can be compared directly in `select`. Hunger's urgency is the
/// raw hunger value; energy's is `ENERGY_MAX - energy`.
#[derive(Debug, Clone, Copy, PartialEq, Eq)]
pub struct Urgency {
    pub hunger: u32,
    pub energy: u32,
}

/// The condition-action rules of `select`, in the order they are tried.
#[derive(Debug, Clone, Copy, PartialEq, Eq, Structural)]
pub enum Rule {
    /// Both survival needs due at once: higher urgency wins, hunger on a tie.
    BothDue,
    /// Hunger alone is due.
    HungerDue,
    /// Energy alone is due, and there's a house to rest in.
    EnergyDue,
    /// Neither survival need is pressing: do the job, if there is one.
    Work,
}

/// The mathematical state of an agent.
pub struct AgentModel {
    pub name: Seq<char>,
    pub hunger: u32,
    pub energy: u32,
    pub hunger_decay_per_tick: u32,
    pub position: (i32, i32),
    /// The position of the house the agent owns, if any.
    pub home: Option<(i32, i32)>,
    pub career: Career,
    pub food: u64,
    /// Recent tick lines, oldest first.
    pub log: Seq<Seq<char>>,
}

/// Whether hunger has crossed its threshold.
pub open spec fn hunger_due(u: Urgency) -> bool {
    u.hunger >= HUNGER_EAT_THRESHOLD
}

/// Whether energy has crossed its threshold and the agent has a house to
/// rest in.
pub open spec fn energy_due(m: AgentModel, u: Urgency) -> bool {
    u.energy >= ENERGY_REST_THRESHOLD && m.home is Some
}

/// What a rule proposes for an agent at given urgencies, if its condition holds.
pub open spec fn rule_fires(rule: Rule, m: AgentModel, u: Urgency) -> Option<Action> {
    match rule {
        Rule::BothDue => if hunger_due(u) && energy_due(m, u) {
            Some(if u.hunger >= u.energy { Action::Eat } else { Action::Rest })
        } else {
            None
        },
        Rule::HungerDue => if hunger_due(u) { Some(Action::Eat) } else { None },
        Rule::EnergyDue => if energy_due(m, u) { Some(Action::Rest) } else { None },
        Rule::Work => match m.career.production_action_spec() {
            Some(p) => Some(Action::Produce(p)),
            None => None,
        },
    }
}

/// The rule list, in priority order.
pub open spec fn rule_order() -> Seq<Rule> {
    seq![Rule::BothDue, Rule::HungerDue, Rule::EnergyDue, Rule::Work]
}

/// The action of the first rule in `rules` (from index `i` on) whose
/// condition holds, or Idle if none does.
pub open spec fn first_firing(m: AgentModel, u: Urgency, i: nat) -> Action
    decreases rule_order().len() - i,
{
    if i >= rule_order().len() {
        Action::Idle
    } else {
        match rule_fires(rule_order()[i as int], m, u) {
            Some(a) => a,
            None => first_firing(m, u, i + 1),
        }
    }
}

/// select: the first rule whose condition holds fires.
pub open spec fn select_spec(m: AgentModel, u: Urgency) -> Action {
    first_firing(m, u, 0)
}

/// evaluate: urgency of each need, on one "higher = more urgent" scale.
pub open spec fn evaluate_spec(hunger: u32, energy: u32) -> Urgency {
    Urgency { hunger, energy: (ENERGY_MAX - energy) as u32 }
}

/// Where `action` requires the agent to be before it can execute, if anywhere.
pub open spec fn required_location_spec(
    m: AgentModel,
    action: Action,
    restaurant_position: (i32, i32),
    workplace_position: Option<(i32, i32)>,
) -> Option<(i32, i32)> {
    match action {
        Action::Eat => Some(restaurant_position),
        Action::Rest => m.home,
        Action::Produce(_) => workplace_position,
        Action::Idle => None,
    }
}

/// The sign of `d`: -1, 0 or 1.
pub open spec fn signum(d: int) -> int {
    if d > 0 {
        1
    } else if d < 0 {
        -1
    } else {
        0
    }
}

/// One step of at most one cell toward `target`: each axis moves by the
/// sign of the remaining distance on that axis.
pub open spec fn step_toward(position: (i32, i32), target: (i32, i32)) -> (i32, i32) {
    (
        (position.0 + signum(target.0 - position.0)) as i32,
        (position.1 + signum(target.1 - position.1)) as i32,
    )
}

/// act: the selected action's effect on the agent's own state, and the
/// house it produced, if any. A produced house is never claimed here.
pub open spec fn act_spec(m: AgentModel, action: Action) -> (AgentModel, Option<(i32, i32)>) {
    match action {
        Action::Eat => (
            AgentModel {
                hunger: if m.hunger >= HUNGER_EAT_RELIEF { (m.hunger - HUNGER_EAT_RELIEF) as u32 } else { 0 },
                ..m
            },
            None,
        ),
        Action::Rest => (
            AgentModel {
                energy: if m.energy + ENERGY_REST_RELIEF >= ENERGY_MAX { ENERGY_MAX } else { (m.energy + ENERGY_REST_RELIEF) as u32 },
                ..m
            },
            None,
        ),
        Action::Produce(ProductionAction::Farm) => (
            AgentModel {
                food: if m.food + FOOD_PRODUCED_PER_TICK > u64::MAX { u64::MAX } else { (m.food + FOOD_PRODUCED_PER_TICK) as u64 },
                ..m
            },
            None,
        ),
        Action::Produce(ProductionAction::Build) => (m, Some(m.position)),
        Action::Idle => (m, None),
    }
}

/// replan: needs progress (hunger rises at the agent's own rate, energy
/// drains), clamped to their ranges.
pub open spec fn replan_spec(m: AgentModel) -> AgentModel {
    AgentModel {
        hunger: if m.hunger + m.hunger_decay_per_tick >= HUNGER_MAX { HUNGER_MAX } else { (m.hunger + m.hunger_decay_per_tick) as u32 },
        energy: if m.energy >= ENERGY_DECAY_PER_TICK { (m.energy - ENERGY_DECAY_PER_TICK) as u32 } else { 0 },
        ..m
    }
}

/// The text `Debug` gives an action.
pub open spec fn action_text(action: Action) -> Seq<char> {
    match action {
        Action::Eat => "Eat"@,
        Action::Rest => "Rest"@,
        Action::Produce(ProductionAction::Farm) => "Produce(Farm)"@,
        Action::Produce(ProductionAction::Build) => "Produce(Build)"@,
        Action::Idle => "Idle"@,
    }
}

/// One log line: the decision (and whether it was walked toward rather
/// than done), then the sensed hunger and energy and the food held before
/// acting.
pub open spec fn log_line_spec(action: Action, walking: bool, hunger: u32, energy: u32, food: u64) -> Seq<char> {
    action_text(action) + (if walking { " (walking)"@ } else { Seq::empty() }) + " -> H"@
        + decimal(hunger as nat) + " E"@ + decimal(energy as nat) + " F"@ + decimal(food as nat)
}

/// The log after appending `line`, dropping the oldest line first once
/// `LOG_CAPACITY` is reached.
pub open spec fn push_log_spec(log: Seq<Seq<char>>, line: Seq<char>) -> Seq<Seq<char>> {
    if log.len() >= LOG_CAPACITY {
        log.drop_first().push(line)
    } else {
        log.push(line)
    }
}

/// The action a tick selects for `m`.
pub open spec fn tick_action(m: AgentModel) -> Action {
    select_spec(m, evaluate_spec(m.hunger, m.energy))
}

/// Whether the action a tick selects has to be walked toward first.
pub open spec fn tick_walks(m: AgentModel, restaurant_position: (i32, i32), workplace_position: Option<(i32, i32)>) -> bool {
    match required_location_spec(m, tick_action(m), restaurant_position, workplace_position) {
        Some(target) => target != m.position,
        None => false,
    }
}

/// One full sense -> evaluate -> select -> act -> replan cycle: the agent
/// after it, and the house it produced, if any.
pub open spec fn tick_spec(
    m: AgentModel,
    restaurant_position: (i32, i32),
    workplace_position: Option<(i32, i32)>,
) -> (AgentModel, Option<(i32, i32)>) {
    let action = tick_action(m);
    let walking = tick_walks(m, restaurant_position, workplace_position);
    let (acted, produced) = if walking {
        let target = required_location_spec(m, action, restaurant_position, workplace_position).unwrap();
        (AgentModel { position: step_toward(m.position, target), ..m }, None)
    } else {
        act_spec(m, action)
    };
    let logged = AgentModel {
        log: push_log_spec(acted.log, log_line_spec(action, walking, m.hunger, m.energy, m.food)),
        ..acted
    };
    (replan_spec(logged), produced)
}

impl AgentModel {
    /// The ranges an agent's state always stays in.
    pub open spec fn valid(self) -> bool {
        &&& self.hunger <= HUNGER_MAX
        &&& self.energy <= ENERGY_MAX
        &&& self.log.len() <= LOG_CAPACITY
    }
}

pub struct Agent {
    name: &'static str,
    hunger: u32,
    energy: u32,
    /// How much hunger accumulates per tick for this agent; defaults to
    /// `HUNGER_DECAY_PER_TICK`, overridable via `set_hunger_decay_rate`.
    hunger_decay_per_tick: u32,
    /// Current grid position. Moves at most one cell per tick.
    position: (i32, i32),
    /// The house this agent owns, if any. Agents start without one.
    home: Option<House>,
    career: Career,
    /// Food stockpiled by Farm actions.
    food: u64,
    /// The last `LOG_CAPACITY` ticks' lines, oldest first.
    log: VecDeque<String>,
}

impl View for Agent {
    type V = AgentModel;

    closed spec fn view(&self) -> AgentModel {
        AgentModel {
            name: self.name@,
            hunger: self.hunger,
            energy: self.energy,
            hunger_decay_per_tick: self.hunger_decay_per_tick,
            position: self.position,
            home: match self.home {
                Some(house) => Some(house@),
                None => None,
            },
            career: self.career,
            food: self.food,
            log: self.log@.map_values(|line: String| line@),
        }
    }
}

impl Rule {
    /// What this rule proposes for `agent` at `urgency`, if its condition holds.
    pub fn fire(self, agent: &Agent, urgency: &Urgency) -> (proposal: Option<Action>)
        ensures
            proposal == rule_fires(self, agent@, *urgency),
    {
        match self {
            Rule::BothDue => {
                if agent.hunger_due(urgency) && agent.energy_due(urgency) {
                    Some(if urgency.hunger >= urgency.energy { Action::Eat } else { Action::Rest })
                } else {
                    None
                }
            },
            Rule::HungerDue => {
                if agent.hunger_due(urgency) {
                    Some(Action::Eat)
                } else {
                    None
                }
            },
            Rule::EnergyDue => {
                if agent.energy_due(urgency) {
                    Some(Action::Rest)
                } else {
                    None
                }
            },
            Rule::Work => match agent.available_production_action() {
                Some(p) => Some(Action::Produce(p)),
                None => None,
            },
        }
    }
}

impl Agent {
    #[verifier::type_invariant]
    spec fn within_ranges(self) -> bool {
        self@.valid()
    }

    pub fn new(name: &'static str, position: (i32, i32)) -> (agent: Agent)
        ensures
            agent@ == (AgentModel {
                name: name@,
                hunger: 0,
                energy: ENERGY_MAX,
                hunger_decay_per_tick: HUNGER_DECAY_PER_TICK,
                position,
                home: None,
                career: Career::Unemployed,
                food: 0,
                log: Seq::empty(),
            }),
    {
        let agent = Agent {
            name,
            hunger: 0,
            energy: ENERGY_MAX,
            hunger_decay_per_tick: HUNGER_DECAY_PER_TICK,
            position,
            home: None,
            career: Career::Unemployed,
            food: 0,
            log: VecDeque::new(),
        };
        proof {
            assert(agent@.log =~= Seq::<Seq<char>>::empty());
        }
        agent
    }

    pub fn name(&self) -> (name: &str)
        ensures
            name@ == self@.name,
    {
        self.name
    }

    pub fn hunger(&self) -> (hunger: u32)
        ensures
            hunger == self@.hunger,
            hunger <= HUNGER_MAX,
    {
        proof {
            use_type_invariant(self);
        }
        self.hunger
    }

    pub fn energy(&self) -> (energy: u32)
        ensures
            energy == self@.energy,
            energy <= ENERGY_MAX,
    {
        proof {
            use_type_invariant(self);
        }
        self.energy
    }

    pub fn position(&self) -> (position: (i32, i32))
        ensures
            position == self@.position,
    {
        self.position
    }

    /// Recent tick history, oldest first: at most `LOG_CAPACITY` lines, each
    /// the state that led to a decision and the decision itself.
    pub fn log(&self) -> (lines: Vec<&str>)
        ensures
            lines@.len() == self@.log.len(),
            lines@.len() <= LOG_CAPACITY,
            forall|i: int| 0 <= i < lines@.len() ==> (#[trigger] lines@[i])@ == self@.log[i],
    {
        proof {
            use_type_invariant(self);
        }
        let mut lines: Vec<&str> = Vec::new();
        let mut i: usize = 0;
        while i < self.log.len()
            invariant
                i <= self.log@.len(),
                lines@.len() == i,
                forall|j: int| 0 <= j < i ==> (#[trigger] lines@[j])@ == self@.log[j],
            decreases self.log@.len() - i,
        {
            lines.push(self.log[i].as_str());
            i = i + 1;
        }
        lines
    }

    pub fn food(&self) -> (food: u64)
        ensures
            food == self@.food,
    {
        self.food
    }

    pub fn home(&self) -> (home: Option<&House>)
        ensures
            match home {
                Some(house) => self@.home == Some(house@),
                None => self@.home is None,
            },
    {
        match &self.home {
            Some(house) => Some(house),
            None => None,
        }
    }

    /// Grants this agent ownership of `house`; the house moves onto the agent.
    pub fn claim_house(&mut self, house: House)
        ensures
            final(self)@ == (AgentModel { home: Some(house@), ..old(self)@ }),
    {
        proof {
            use_type_invariant(&*self);
        }
        self.home = Some(house);
    }

    pub fn career(&self) -> (career: Career)
        ensures
            career == self@.career,
    {
        self.career
    }

    pub fn set_career(&mut self, career: Career)
        ensures
            final(self)@ == (AgentModel { career, ..old(self)@ }),
    {
        proof {
            use_type_invariant(&*self);
        }
        self.career = career;
    }

    /// Overrides this agent's individual hunger decay rate. A higher rate
    /// means this agent crosses `HUNGER_EAT_THRESHOLD` sooner.
    pub fn set_hunger_decay_rate(&mut self, rate: u32)
        ensures
            final(self)@ == (AgentModel { hunger_decay_per_tick: rate, ..old(self)@ }),
    {
        proof {
            use_type_invariant(&*self);
        }
        self.hunger_decay_per_tick = rate;
    }

    /// Sets hunger directly, as when starting a scenario from a given state.
    pub fn set_hunger(&mut self, hunger: u32)
        requires
            hunger <= HUNGER_MAX,
        ensures
            final(self)@ == (AgentModel { hunger, ..old(self)@ }),
    {
        proof {
            use_type_invariant(&*self);
        }
        self.hunger = hunger;
    }

    /// Sets energy directly, as when starting a scenario from a given state.
    pub fn set_energy(&mut self, energy: u32)
        requires
            energy <= ENERGY_MAX,
        ensures
            final(self)@ == (AgentModel { energy, ..old(self)@ }),
    {
        proof {
            use_type_invariant(&*self);
        }
        self.energy = energy;
    }

    /// Which production action this agent's career currently gates access to.
    pub fn available_production_action(&self) -> (action: Option<ProductionAction>)
        ensures
            action == self@.career.production_action_spec(),
    {
        self.career.production_action()
    }

    /// sense: the raw hunger and energy values.
    fn sense(&self) -> (sensed: (u32, u32))
        ensures
            sensed == (self@.hunger, self@.energy),
            sensed.1 <= ENERGY_MAX,
    {
        proof {
            use_type_invariant(self);
        }
        (self.hunger, self.energy)
    }

    /// evaluate: per-need urgency scores that are directly comparable.
    pub fn evaluate(&self, hunger: u32, energy: u32) -> (urgency: Urgency)
        requires
            energy <= ENERGY_MAX,
        ensures
            urgency == evaluate_spec(hunger, energy),
    {
        Urgency { hunger, energy: ENERGY_MAX - energy }
    }

    /// Whether hunger has crossed its threshold.
    fn hunger_due(&self, urgency: &Urgency) -> (due: bool)
        ensures
            due == hunger_due(*urgency),
    {
        urgency.hunger >= HUNGER_EAT_THRESHOLD
    }

    /// Whether energy has crossed its threshold and the agent owns a house
    /// to rest in.
    fn energy_due(&self, urgency: &Urgency) -> (due: bool)
        ensures
            due == energy_due(self@, *urgency),
    {
        urgency.energy >= ENERGY_REST_THRESHOLD && self.home.is_some()
    }

    /// select: tries the rules in order; the first whose condition holds
    /// fires, and later rules are never evaluated. Idle if none fires.
    pub fn select(&self, urgency: Urgency) -> (action: Action)
        ensures
            action == select_spec(self@, urgency),
            action == Action::Rest ==> self@.home is Some,
    {
        let rules: [Rule; 4] = [Rule::BothDue, Rule::HungerDue, Rule::EnergyDue, Rule::Work];
        assert(rules@ =~= rule_order());
        let mut i: usize = 0;
        while i < 4
            invariant
                i <= 4,
                rules@ == rule_order(),
                first_firing(self@, urgency, 0) == first_firing(self@, urgency, i as nat),
            decreases 4 - i,
        {
            match rules[i].fire(self, &urgency) {
                Some(action) => {
                    return action;
                },
                None => {},
            }
            i = i + 1;
        }
        Action::Idle
    }

    /// Where `action` requires this agent to physically be before it can
    /// execute, if anywhere: Eat needs the shared restaurant, Rest the
    /// agent's own house, Produce the sensed workplace (none if the world
    /// offers none, in which case Produce fires in place). Idle needs nowhere.
    fn required_location(
        &self,
        action: Action,
        restaurant_position: (i32, i32),
        workplace_position: Option<(i32, i32)>,
    ) -> (location: Option<(i32, i32)>)
        ensures
            location == required_location_spec(self@, action, restaurant_position, workplace_position),
    {
        match action {
            Action::Eat => Some(restaurant_position),
            Action::Rest => match &self.home {
                Some(house) => Some(house.position()),
                None => None,
            },
            Action::Produce(_) => workplace_position,
            Action::Idle => None,
        }
    }

    /// Moves this agent at most one grid cell toward `target`: each axis
    /// steps by the sign of the remaining distance on that axis.
    pub fn move_toward(&mut self, target: (i32, i32))
        ensures
            final(self)@ == (AgentModel { position: step_toward(old(self)@.position, target), ..old(self)@ }),
    {
        proof {
            use_type_invariant(&*self);
        }
        let (x, y) = self.position;
        let (tx, ty) = target;
        let nx = if tx > x {
            x + 1
        } else if tx < x {
            x - 1
        } else {
            x
        };
        let ny = if ty > y {
            y + 1
        } else if ty < y {
            y - 1
        } else {
            y
        };
        self.position = (nx, ny);
    }

    /// act: applies the selected action's effect on this agent's own state
    /// and hands back a built house, which it never claims for itself.
    pub fn act(&mut self, action: Action) -> (produced: Option<House>)
        ensures
            final(self)@ == act_spec(old(self)@, action).0,
            match produced {
                Some(house) => act_spec(old(self)@, action).1 == Some(house@),
                None => act_spec(old(self)@, action).1 is None,
            },
    {
        proof {
            use_type_invariant(&*self);
        }
        match action {
            Action::Eat => {
                self.hunger = if self.hunger >= HUNGER_EAT_RELIEF { self.hunger - HUNGER_EAT_RELIEF } else { 0 };
                None
            },
            Action::Rest => {
                self.energy = if self.energy >= ENERGY_MAX - ENERGY_REST_RELIEF {
                    ENERGY_MAX
                } else {
                    self.energy + ENERGY_REST_RELIEF
                };
                None
            },
            Action::Produce(ProductionAction::Farm) => {
                self.food = if self.food > u64::MAX - FOOD_PRODUCED_PER_TICK {
                    u64::MAX
                } else {
                    self.food + FOOD_PRODUCED_PER_TICK
                };
                None
            },
            Action::Produce(ProductionAction::Build) => Some(House::new(self.position)),
            Action::Idle => None,
        }
    }

    /// replan: hunger rises at this agent's own rate and energy drains,
    /// each clamped to its range.
    pub fn replan(&mut self)
        ensures
            final(self)@ == replan_spec(old(self)@),
    {
        proof {
            use_type_invariant(&*self);
        }
        self.hunger = if self.hunger_decay_per_tick >= HUNGER_MAX - self.hunger {
            HUNGER_MAX
        } else {
            self.hunger + self.hunger_decay_per_tick
        };
        self.energy = if self.energy >= ENERGY_DECAY_PER_TICK { self.energy - ENERGY_DECAY_PER_TICK } else { 0 };
    }

    /// Runs one full sense -> evaluate -> select -> act -> replan cycle.
    /// `restaurant_position` and `workplace_position` are sensed world state;
    /// `workplace_position` is `None` when nothing in the world offers this
    /// agent's production action. If the selected action requires being
    /// somewhere this agent isn't yet, this tick moves one cell closer
    /// instead of acting. Returns a house if this tick's action produced
    /// one; the agent never keeps it.
    pub fn tick(
        &mut self,
        restaurant_position: (i32, i32),
        workplace_position: Option<(i32, i32)>,
    ) -> (produced: Option<House>)
        ensures
            final(self)@ == tick_spec(old(self)@, restaurant_position, workplace_position).0,
            match produced {
                Some(house) => tick_spec(old(self)@, restaurant_position, workplace_position).1 == Some(house@),
                None => tick_spec(old(self)@, restaurant_position, workplace_position).1 is None,
            },
    {
        let (sensed_hunger, sensed_energy) = self.sense();
        let food_before = self.food;
        let urgency = self.evaluate(sensed_hunger, sensed_energy);
        let action = self.select(urgency);
        let required = self.required_location(action, restaurant_position, workplace_position);
        let (produced_house, walking) = match required {
            Some(target) => {
                if target.0 != self.position.0 || target.1 != self.position.1 {
                    self.move_toward(target);
                    (None, true)
                } else {
                    (self.act(action), false)
                }
            },
            None => (self.act(action), false),
        };
        let line = log_line(action, walking, sensed_hunger, sensed_energy, food_before);
        self.push_log(line);
        self.replan();
        produced_house
    }

    /// Appends one line to the log, dropping the oldest line first once
    /// `LOG_CAPACITY` is reached.
    fn push_log(&mut self, line: String)
        ensures
            final(self)@ == (AgentModel { log: push_log_spec(old(self)@.log, line@), ..old(self)@ }),
    {
        proof {
            use_type_invariant(&*self);
        }
        let mut log: VecDeque<String> = VecDeque::new();
        std::mem::swap(&mut log, &mut self.log);
        let ghost old_log = log@;
        if log.len() >= LOG_CAPACITY {
            log.pop_front();
        }
        log.push_back(line);
        proof {
            let old_lines = old_log.map_values(|l: String| l@);
            if old_log.len() >= LOG_CAPACITY {
                assert(log@.map_values(|l: String| l@) =~= old_lines.drop_first().push(line@));
            } else {
                assert(log@.map_values(|l: String| l@) =~= old_lines.push(line@));
            }
        }
        self.log = log;
    }
}

/// The text `Debug` gives `action`.
fn action_str(action: Action) -> (text: &'static str)
    ensures
        text@ == action_text(action),
{
    match action {
        Action::Eat => "Eat",
        Action::Rest => "Rest",
        Action::Produce(ProductionAction::Farm) => "Produce(Farm)",
        Action::Produce(ProductionAction::Build) => "Produce(Build)",
        Action::Idle => "Idle",
    }
}

/// Builds one log line: see `log_line_spec`.
fn log_line(action: Action, walking: bool, hunger: u32, energy: u32, food: u64) -> (line: String)
    ensures
        line@ == log_line_spec(action, walking, hunger, energy, food),
{
    let mut line = String::new();
    line.append(action_str(action));
    if walking {
        line.append(" (walking)");
    }
    line.append(" -> H");
    append_decimal(&mut line, hunger as u64);
    line.append(" E");
    append_decimal(&mut line, energy as u64);
    line.append(" F");
    append_decimal(&mut line, food);
    proof {
        assert(line@ =~= log_line_spec(action, walking, hunger, energy, food));
    }
    line
}

} // verus!
