# BetterWheel

An assistant for the options wheel strategy: it ranks the next trades (cash-secured
puts, put spreads, covered calls, rolls, short-dated index structures), guards every
order behind a preview, arm and execute gate, and keeps the books in between.

The logic is a library verified with [Verus](https://github.com/verus-lang/verus); the
program around it is ordinary Rust.

## Layout

- `src/` — the verified library.
  - `engine/` — the strategy: selection, management, ranking, structures and payoffs.
  - `positions.rs`, `data.rs`, `live.rs` — from broker rows to the inputs of the engine.
  - `tui/` — the front end's state: actions, keys, orders, rolls, unattended structures,
    order events, and the text of the panels.
  - `ibkr/` — what passes to and from the broker, over the gateway and the web API.
  - `config.rs`, `store/` — configuration and stored rows.
  - `desktop.rs`, `probe.rs` — what the window draws, what the probes choose.
  - `dates.rs`, `fixed.rs`, `decimal.rs`, `text.rs`, `lists.rs` — the ground it stands on.
- `tests/` — tests of the library on concrete values.
- `app/` — the program: the gateway and web clients, the database, the event loop, the
  drawing, and Black-Scholes pricing.

## Amounts

Prices, strikes, money, deltas and fractions are whole numbers of millionths; totals have
128 bits; annualized yields are in billionths. Where a result does not fit the unit it is
rounded as the contracts say; an amount that does not fit 64 bits is not read. Days are
numbered from the first day of the year 1.

## Trust

The calendar and its notations come from `chrono`, the broker's message codes and balance
tags from `ibapi`, the reading of JSON from `serde_json`, the signing of client assertions
from `jsonwebtoken`. The functions that call them are marked `external_body`, and their doc
comments say what is claimed of each call.
