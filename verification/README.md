# grpc_demo

The request handling of a small gRPC demo (a voting service, a greeting
service and a route guide) and the requests its client sends, written in
Verus and proved against their contracts.

- `src/messages.rs`: the message types.
- `src/voting.rs`, `src/greet.rs`: the voting and greeting services and the
  client's requests for them.
- `src/geometry.rs`, `src/route_guide.rs`, `src/features_db.rs`: the route
  guide's place database, lookups, listings and route recording.
- `src/route_chat.rs`: the route chat, which files notes by latitude.
- `src/client.rs`: the client's random routes and fixed requests.
- `app/main.rs`: the async handlers around the library (tonic, tokio) and a
  driver that runs the client's exchanges against them; the distance between
  two points, which needs floating point, is computed there.
