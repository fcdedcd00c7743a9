# zeroclaw_cluster

The rules by which ZeroClaw nodes form a cluster, as a library verified with Verus:

- `cluster::node`, `cluster::message`: node ids, what nodes know of each other, and
  what they say to each other;
- `cluster::election`: the election of a coordinator;
- `cluster::discovery`: announcements over UDP and the nodes found by them;
- `cluster::ws_transport`, `cluster::peers`: the handshake on a WebSocket, the
  messages after it, and the peers it leaves behind;
- `cluster`: a node as a member of the cluster, and the steps of running one;
- `gateway::cluster_ws`: who may join through the gateway, and how it answers;
- `outside`: the calls into `uuid`, `hostname` and std that are trusted.

The library holds no socket, lock or task. Each loop is a step function from a state
and an event to the next state and an action; `app/` performs the actions, with tokio,
tungstenite and axum, and turns messages into JSON and back.

Where a function reads the clock or draws a random number, a second one beside it
(`.._at`, `.._with`) takes the value instead, and says exactly what comes of it.
