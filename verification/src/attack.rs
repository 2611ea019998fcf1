//! Which front-run size the attacker trades.
//!
//! A user may fix the front-run size; the simulator then reports that attack's
//! outcome, profitable or not. Without a fixed size the optimiser's best
//! sandwich is taken, but gas is treated as a hurdle: if the optimum's gross
//! profit does not exceed the bundle's gas cost, the attacker abstains and
//! trades nothing.

use vstd::prelude::*;

verus! {

/// The attacker's decision for one scenario.
#[derive(Debug, Clone, Copy, PartialEq, Eq, Structural)]
pub enum AttackChoice {
    /// Trade the size the user fixed.
    Fixed,
    /// Trade the optimiser's profit-maximising size.
    Optimal,
    /// Trade nothing (a front-run of size zero).
    Abstain,
}

pub open spec fn attack_choice_spec(fixed_size_given: bool, optimum_beats_gas: bool) -> AttackChoice {
    if fixed_size_given {
        AttackChoice::Fixed
    } else if optimum_beats_gas {
        AttackChoice::Optimal
    } else {
        AttackChoice::Abstain
    }
}

/// Decides the front-run size: a fixed size always wins; otherwise the
/// optimum is taken when its gross profit is strictly above the gas cost
/// (`optimum_beats_gas`), and the attacker abstains when it is not.
pub fn choose_attack(fixed_size_given: bool, optimum_beats_gas: bool) -> (c: AttackChoice)
    ensures
        c == attack_choice_spec(fixed_size_given, optimum_beats_gas),
{
    if fixed_size_given {
        AttackChoice::Fixed
    } else if optimum_beats_gas {
        AttackChoice::Optimal
    } else {
        AttackChoice::Abstain
    }
}

} // verus!
