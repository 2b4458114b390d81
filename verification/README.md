# simpler_economy

The simulation kernel of a market-oriented strategy game (goods, processes,
pops, households, firms and markets), split in two:

- `src/` is the verified library: the kernel's integer-valued rules, each with
  a proved contract. Items and products, the world map's cities and
  regions, religions and their desire tables, the ordering of process inputs
  and of wage baskets, the selection of a process's factors, requirements and
  optional inputs, the trade priority of a market's goods, a pop's desire
  importance, and random list indices. The laws that tie these together are
  public proof functions beside them.
- `app/` holds the parts whose quantities are floating point (amounts, rates,
  prices, shares): goods, wants, households, sentiment, workforce pay, process
  execution, market history and pop financials. They call into the library for
  the rules above.

`tests/` exercises the library on concrete values.
