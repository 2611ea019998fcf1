# searcher

A classroom simulator of sandwich MEV on a constant-product (Uniswap-V2-style)
pool.

* `src/` is the verified library: the sample grids of the parameter sweeps,
  the transaction order of a sandwich bundle (including the revert-and-unwind
  case), the attacker's fixed / optimal / abstain decision under a gas hurdle,
  and the encoding of the tables' yes/no columns.
* `app/` is the command-line program (`simulate`, `trace`, `sweep`). It holds
  the pool arithmetic, which is floating point, and drives it with the
  library's decisions.
* `tests/` exercises the library.
