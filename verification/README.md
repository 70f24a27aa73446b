# serpe_orchestrator

Ground-control orchestrator for a swarm of MAVLink agents (drones).

* `src/` is the verified library (Verus): session bookkeeping
  (`orchestrator::domain::state`), MAVLink system-id allocation
  (`orchestrator::misc::system_id_table`), per-connection message handling and
  registration decisions (`orchestrator::communication`), heartbeat answers
  (`orchestrator::heartbeat`), the tick counter, diagnostic helpers, and the
  plain form of the Serpe dialect's messages (`dialects`). `channel` declares
  the tokio channel endpoints and the two non-blocking channel calls that the
  verified code trusts.
* `app/` is the server around it: configuration loading, the ECS world and
  schedule (bevy_ecs), the TCP/MAVLink endpoint (mavio), the diagnostic HTTP
  interface (axum), and everything that computes with floating point
  (perimeter grid, waypoints, tick rate, uptime).
* `tests/` exercises the library.
