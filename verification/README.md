# starrydex

The state, decisions and display text of a Pokédex browser, verified with Verus.

- `src/app.rs`: the application state, the messages, and `StarryDex::update`,
  which maps a state and a message to the next state and the outside work to do.
- `src/views.rs`: what the landing, settings and Pokémon pages show, as plain values.
- `src/text.rs`: substring search, case conversion and name capitalisation.
- `src/pokemon.rs`: the Pokémon data as plain values.
- `src/laws.rs`: properties across messages (toggling, searching, downloads).
- `app/`: the window, the network client and the file system around the library.
