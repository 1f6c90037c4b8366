# Escrow contract

Milestone-based escrow with on-chain reputation for the Stellar network, written in Rust and
verified with Verus.

A client locks funds for a freelancer, splits them into milestones, and releases them as work is
approved. Escrows can also pay on a schedule, carry a lock time or a timelock, be disputed and
resolved by an arbiter, the admin or a signed oracle payload, and be cancelled at the price of a
slash. Each escrow prepays rent for the entries it occupies.

## Layout

- `src/` is the verified library. A request works on an `Env`: the entries of the contract, the
  time, and what the request asks of the host (authorizations, token transfers, events, signature
  checks). `Ledger` is the model of an `Env`. For each entry point a `..._refusal` says when and
  with which error the request is refused, and a `..._done` says what the ledger is afterwards.
- `src/laws/` holds what is true of the library as a whole: that every request keeps the counters
  and sums of an escrow in step with its milestones (`keeping`, `requests`), that the contract's
  holdings match its books (`books`), that the lists by status, by participant and by
  requester are exact (`listing`), whose approvals release a milestone (`approvals`), who and what
  is held back when (`guards`), payments and shares (`payments`), reputation (`standing`) and rent
  (`upkeep`).
- `app/` is the contract on the Soroban host: it reads entries into an `Env`, lets the library
  decide, and performs what the library asks for.
- `tests/` runs the library on concrete cases.
