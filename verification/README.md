# arena_programs

Verified game logic of two on-chain arena games, written in Verus.

* **Chainstrike** (`src/chainstrike`): a fixed 28 x 28 arena with walls and
  two recharge chests. Players choose to spend 1 to 5 energy, which they
  must have, and walk that many cells unless something stops them; they
  may explode, draining every other player in the nine
  cells around them.
* **Kamikaze Joe** (`src/kamikazejoe`): arenas computed from a seed, tickets
  paid into a vault on joining, kills that refill the exploder, a winner when
  nobody else has energy left, and a prize of 90% of the tickets.

`src/arena.rs` holds what both games share (players, game states, the blast
of an explosion); `src/address.rs` holds 32-byte addresses and the derivation
of program addresses. Every instruction is a function from the accounts it
reads to the accounts it writes and what to transfer; its contract states the
result and every error, in the order the checks are made. A failed
instruction changes nothing, as a failed transaction leaves its accounts as
they were. The `properties` modules prove what holds across instructions.

`app/` is the Anchor program around the library: account layouts, the
instruction entry points, transfers and the call to the scoring program.
