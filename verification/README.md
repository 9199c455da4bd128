# web_bff

The backend-for-frontend of a code-collaboration site: it answers the web
client's requests by calling the auth, users, projects and metrics services and
shaping their replies.

`src/` is the library, verified with Verus:

- `routes.rs`, `lib.rs`: the routing table. Every table is unambiguous (no two
  routes answer the same method on the same path); `router()` is the table of
  the whole service.
- `status.rs`: how an upstream failure becomes the status of an answer.
- `keyed.rs`: ids asked for each once, and lookups of users by id.
- `auth/`, `index/`, `users/`, `projects/`: one module per endpoint. Each
  endpoint is a series of steps; a step takes what the last upstream call
  answered and decides the next call or the answer. The landing page ranks
  projects and users by score with a stable ordering, proved.

`app/` is the program: the axum server, the upstream clients, the JSON forms of
the bodies, and the queue that reports page views to the metrics service. It
runs the library's steps, making the calls they ask for.
