# medieval_market

An agent-based simulation of a medieval marketplace, built around a verified
core written in Verus.

- `src/` is the verified library: the goods and their recipes, the roles and
  the starting population, the price-time priority order book and the market
  of one book per good, the agents' production plans and the choice of goods
  they trade, and the role statistics. Every function there carries a
  contract that Verus proves.
- `app/` is the program around it: command line, the tick loop, everything
  that computes with fractional gold, prices and quantities, terminal output
  and the PNG charts.

Prices and quantities reach the order book as order keys, the bit patterns
of nonnegative `f32` values, whose unsigned order is their numeric order; the
book ranks and matches on the keys, and the program does the arithmetic.
Recipe and consumption quantities are kept in thousandths of a unit.
