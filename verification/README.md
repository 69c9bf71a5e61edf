# Continental

An agent-based colony simulation whose decision logic is verified with Verus.
Every agent runs `sense -> evaluate -> select -> act -> replan` each tick;
needs are whole numbers on a 0-100 scale and priorities are decided by
comparing them, never by randomness.

Layout:

- `src/career.rs`, `src/house.rs`, `src/restaurant.rs`, `src/workplace.rs`:
  the small world objects and the career gate for production.
- `src/agent.rs`: the agent, its mathematical model (`AgentModel`) and the
  spec of one tick; every method is proved against it.
- `src/log_text.rs`: verified decimal rendering for the tick log.
- `src/world.rs`: the world tick, which brokers houses between agents.
- `src/agent_laws.rs`, `src/world_laws.rs`: proved laws of the decision
  loop and of house brokering.
- `tests/`: scenario tests.
- `app/main.rs`: a macroquad window that draws the world; it adds no
  decision logic.
