# games_service

A game-subscription web service. The library (`src/`) holds its logic,
verified with Verus:

- `enums`: platforms, roles and subscription tiers, their stored names, and
  the laws that reading a name back gives the same value.
- `utils`: text helpers, random references (`generate_uuid`) and password
  hashing (SHA-256 in lowercase hex).
- `auth`: token claims, their JSON text, HS256 signing and checking, and
  expiry.
- `models`: what is stored for games, copies and customers, and how stored
  rows read back.
- `routes`: which reply answers which outcome of a request.

`app/` is the Rocket server around it: the PostgreSQL pool, table setup, the
queries, JSON bodies, and the routes.
