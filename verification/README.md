# kite_a

KiteA is a web panel for the Shoes proxy: accounts with admin and user roles,
proxy nodes, settings, and a Shoes child process started from a configuration
generated out of the enabled nodes.

- `src/` is the verified library (Verus):
  - `text` – whitespace trimming, decimal rendering and parsing of ports, the
    `Bearer ` header rule;
  - `config` – nodes and the generated Shoes configuration;
  - `auth` – accounts, bcrypt passwords, token claims, access rules;
  - `nodes` – creating and editing nodes;
  - `process` – the Shoes process as a state machine;
  - `panel` – settings, first-run check and proxy control decisions;
  - `api` – the answers (status code and JSON envelope);
  - `system` – fresh random ids and the current time, each of which may be
    unavailable;
  - `outside` – the trusted calls into bcrypt, getrandom, uuid, chrono, the system
    clock and once_cell.
- `app/main.rs` is the server: HTTP (actix-web), SQLite (sqlx), JWT encoding
  (jsonwebtoken), file writing and process spawning.
- `tests/` runs the library on concrete values.
