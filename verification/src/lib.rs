//! Verified core of the sandwich-MEV classroom simulator.
//!
//! The simulator's money arithmetic (reserves, swap outputs, prices, gas) is
//! floating point and lives with the command-line program. What this library
//! holds are the decisions that arithmetic is driven by:
//!
//! * [`grid`]: how many sample points a parameter sweep takes and where they sit;
//! * [`bundle`]: the order of the three transactions of a sandwich, and how a
//!   victim that fails its `minOut` check changes it;
//! * [`attack`]: whether the attacker trades a fixed size, the optimiser's size,
//!   or abstains because gas would eat the profit;
//! * [`report`]: how yes/no columns are written to the sweep tables.

pub mod attack;
pub mod bundle;
pub mod grid;
pub mod report;
