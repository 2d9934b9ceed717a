# launchpad

Settlement logic of a token launchpad, verified with Verus: what happens when a bonding
curve pool reaches its target and moves to Meteora, and how the treasury that is set
aside then buys the token back.

- `src/state/`: the contents of the accounts, and what a buyback does to its state.
- `src/instructions/`: the two instructions. Each is a sequence of steps; a step takes the
  phase reached so far and the event that answers the last action, and gives the next
  phase and the next action.
- `src/cpi.rs`, `src/events.rs`: what a step asks of other programs, and what is announced.
- `src/fees.rs`: shares in basis points.
- `src/pubkey.rs`: addresses, and the calls that derive program addresses.
- `src/laws/`: what is proved of whole buybacks, of one buyback after another, and of
  migrations.
- `app/`: the on-chain side, which reads the accounts and carries out the actions.
