# phase-engine

A verified core of a rules engine for trading card games, with the server logic around it. The
library under `src/` is written in Verus: its functions state what they compute, and the verifier
proves it. What the system clock shows is not known beforehand; what is made of a reading is stated
where the reading is an argument.

- `types/` holds the vocabulary: actions with their stable order, abilities and effects, cards,
  prompts and the state of a game.
- `order/` is the theory behind the stable order of actions.
- `game/` is the engine: zones, replacement effects, life auctions, promised gifts, repeated
  payments for modes, planeswalking, the Vanguard variant, and the replies to players' actions.
- `parser/` reads Oracle text, the rules text that is printed on cards.
- `database/` builds the subtype vocabulary and the abilities that follow from a printed card.
- `server/` runs live sessions and their turn clock.

`tests/` runs the library on concrete games and texts. `app/` is the timer task that uses the
library in a server; it sleeps, locks, sends and stores, and decides nothing.

Comments cite the Comprehensive Rules as "CR" with a rule number.
