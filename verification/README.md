# rpg_server

The server of a turn-based RPG: accounts, characters, game records and live
game sessions streamed over Server-Sent Events.

## Layout

- `src/` is the library, verified with Verus:
  - `models/`: users, characters, the game record with its combatants'
    state, and the card-based combat model (combatants, action cards, decks,
    heroes, card enemies, status effects);
  - `enemys/`: the enemies of the running game and the cycles they follow;
  - `game/runner.rs`: the combat engine, from the turn order to the events a
    turn emits; `game/laws.rs`: what holds across its operations (HP stays in
    range, the turn counter moves forward, the game ends exactly on the
    player's death, events are numbered in order, each enemy's cycle);
  - `routes/`, `middleware/`, `config.rs`, `error.rs`: what each request
    decides, the `Authorization` header, the configuration and the errors;
  - `providers.rs`: the calls into `rand`, `uuid` and `bcrypt`, whose
    contracts are trusted.
- `app/` is the program around it: the Axum router and handlers, the MongoDB
  repository, the Tokio tasks that run a session (the game loop and its
  inactivity watcher) and the serialised forms of the library's types.
- `tests/` exercises the library on concrete values.
