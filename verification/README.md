# yatzy

A Kniffel (Yatzy) game engine for physical GoDice, verified with Verus.

- `src/models` — scorecard, categories, dice, players, settings and the
  other values of the game, each with a mathematical model (`View` or
  closed spec accessors) and exact contracts.
- `src/rules` — scoring, validation and cross-out advice.
- `src/strategy` — exact probabilities (fractions over enumerated
  outcomes), expected values and the computer opponent, with proofs that
  its category and hold recommendations are optimal.
- `src/services` — the roll detector (a state machine fed with dice
  events; timers are run by the caller), the event bridge, LED planning,
  reconnection bookkeeping. Pending reconnections are kept in one entry
  per dice slot (five slots, keyed by slot number) rather than in a hash
  map: the slot is the key, every slot has its place, and the type
  invariant says that the request kept in a slot names that slot. Listing
  the pending requests walks the slots in order, so the list has a fixed
  order, where walking a hash map would give an unspecified one.
- `src/ui` — roll button labels, status messages and the decisions taken
  when game events arrive.
- `app` — the runtime around the library: settings files (serde, tokio,
  dirs), broadcast channels and timers for the roll detector, awaited
  reconnection attempts, floating-point display of probabilities and
  error messages.
