//! The transaction order of a sandwich bundle.
//!
//! A sandwich is three transactions against one pool: the attacker's
//! front-run (X into Y), the victim's swap (X into Y), and the attacker's
//! back-run (the front-run's Y back into X). The victim's swap carries a
//! `minOut` guard; if the front-run pushed its output below `minOut`, the
//! victim's transaction reverts and leaves the pool untouched, and the
//! attacker unwinds the failed front-run instead of backrunning.

use vstd::prelude::*;

verus! {

/// Who sends a transaction of the bundle.
#[derive(Debug, Clone, Copy, PartialEq, Eq, Structural)]
pub enum Actor {
    Attacker,
    Victim,
}

impl Actor {
    pub open spec fn label_spec(self) -> Seq<char> {
        match self {
            Actor::Attacker => "attacker"@,
            Actor::Victim => "victim"@,
        }
    }

    /// The actor's name in the trace table.
    pub fn label(&self) -> (s: &'static str)
        ensures
            s@ == self.label_spec(),
    {
        match self {
            Actor::Attacker => "attacker",
            Actor::Victim => "victim",
        }
    }
}

/// Which token a swap pays into the pool.
#[derive(Debug, Clone, Copy, PartialEq, Eq, Structural)]
pub enum Direction {
    /// Pay X, receive Y.
    XForY,
    /// Pay Y, receive X.
    YForX,
}

impl Direction {
    pub open spec fn token_in_spec(self) -> Seq<char> {
        match self {
            Direction::XForY => "X"@,
            Direction::YForX => "Y"@,
        }
    }

    pub open spec fn token_out_spec(self) -> Seq<char> {
        match self {
            Direction::XForY => "Y"@,
            Direction::YForX => "X"@,
        }
    }

    /// The unit of the amount paid in.
    pub fn token_in(&self) -> (s: &'static str)
        ensures
            s@ == self.token_in_spec(),
    {
        match self {
            Direction::XForY => "X",
            Direction::YForX => "Y",
        }
    }

    /// The unit of the amount received.
    pub fn token_out(&self) -> (s: &'static str)
        ensures
            s@ == self.token_out_spec(),
    {
        match self {
            Direction::XForY => "Y",
            Direction::YForX => "X",
        }
    }
}

/// Where the input amount of a step comes from.
#[derive(Debug, Clone, Copy, PartialEq, Eq, Structural)]
pub enum AmountIn {
    /// The attacker's chosen front-run size (in X).
    AttackerSize,
    /// The victim's trade size (in X).
    VictimSize,
    /// The Y that the front-run received.
    FrontRunOutput,
}

/// One transaction of a sandwich bundle.
#[derive(Debug, Clone, Copy, PartialEq, Eq, Structural)]
pub enum Step {
    /// The attacker buys Y ahead of the victim, moving the price against it.
    FrontRun,
    /// The victim's swap executes, its output still at or above `minOut`.
    VictimSwap,
    /// The victim's swap fails its `minOut` guard and reverts.
    VictimRevert,
    /// The attacker sells the front-run's Y after the victim, taking the spread.
    BackRun,
    /// The attacker sells the front-run's Y after a reverted victim.
    Unwind,
}

impl Step {
    pub open spec fn actor_spec(self) -> Actor {
        match self {
            Step::VictimSwap | Step::VictimRevert => Actor::Victim,
            _ => Actor::Attacker,
        }
    }

    pub open spec fn direction_spec(self) -> Direction {
        match self {
            Step::BackRun | Step::Unwind => Direction::YForX,
            _ => Direction::XForY,
        }
    }

    pub open spec fn amount_in_spec(self) -> AmountIn {
        match self {
            Step::FrontRun => AmountIn::AttackerSize,
            Step::VictimSwap | Step::VictimRevert => AmountIn::VictimSize,
            _ => AmountIn::FrontRunOutput,
        }
    }

    pub open spec fn moves_pool_spec(self) -> bool {
        !(self is VictimRevert)
    }

    pub open spec fn action_label_spec(self) -> Seq<char> {
        match self {
            Step::FrontRun => "front-run X->Y"@,
            Step::VictimSwap | Step::VictimRevert => "X->Y"@,
            Step::BackRun => "back-run Y->X"@,
            Step::Unwind => "unwind Y->X"@,
        }
    }

    pub open spec fn note_spec(self) -> Seq<char> {
        match self {
            Step::FrontRun => "pushes price against victim"@,
            Step::VictimSwap => "executes near slippage bound"@,
            Step::VictimRevert => "reverts: below min_out"@,
            Step::BackRun => "realizes price-impact profit"@,
            Step::Unwind => "closes position after failed sandwich"@,
        }
    }

    /// The action column of the trace table.
    pub fn action_label(&self) -> (s: &'static str)
        ensures
            s@ == self.action_label_spec(),
    {
        match self {
            Step::FrontRun => "front-run X->Y",
            Step::VictimSwap | Step::VictimRevert => "X->Y",
            Step::BackRun => "back-run Y->X",
            Step::Unwind => "unwind Y->X",
        }
    }

    /// The note column of the trace table: what the step does to the sandwich.
    pub fn note(&self) -> (s: &'static str)
        ensures
            s@ == self.note_spec(),
    {
        match self {
            Step::FrontRun => "pushes price against victim",
            Step::VictimSwap => "executes near slippage bound",
            Step::VictimRevert => "reverts: below min_out",
            Step::BackRun => "realizes price-impact profit",
            Step::Unwind => "closes position after failed sandwich",
        }
    }

    /// Who sends this transaction.
    pub fn actor(&self) -> (a: Actor)
        ensures
            a == self.actor_spec(),
    {
        match self {
            Step::VictimSwap | Step::VictimRevert => Actor::Victim,
            _ => Actor::Attacker,
        }
    }

    /// Which token this transaction pays in (for a reverted victim swap: the
    /// token it tried to pay).
    pub fn direction(&self) -> (d: Direction)
        ensures
            d == self.direction_spec(),
    {
        match self {
            Step::BackRun | Step::Unwind => Direction::YForX,
            _ => Direction::XForY,
        }
    }

    /// Which amount this transaction pays in.
    pub fn amount_in(&self) -> (src: AmountIn)
        ensures
            src == self.amount_in_spec(),
    {
        match self {
            Step::FrontRun => AmountIn::AttackerSize,
            Step::VictimSwap | Step::VictimRevert => AmountIn::VictimSize,
            _ => AmountIn::FrontRunOutput,
        }
    }

    /// Whether this transaction changes the pool's reserves: every step does
    /// but a reverted victim swap.
    pub fn moves_pool(&self) -> (b: bool)
        ensures
            b == self.moves_pool_spec(),
    {
        match self {
            Step::VictimRevert => false,
            _ => true,
        }
    }
}

/// The bundle's transactions in order, given whether the victim's swap,
/// quoted against the pool after the front-run, still meets its `minOut`.
pub open spec fn sandwich_plan(victim_meets_min_out: bool) -> Seq<Step> {
    if victim_meets_min_out {
        seq![Step::FrontRun, Step::VictimSwap, Step::BackRun]
    } else {
        seq![Step::FrontRun, Step::VictimRevert, Step::Unwind]
    }
}

/// The bundle's transactions in order: front-run, then the victim's swap
/// (executed when `victim_meets_min_out`, reverted otherwise), then the
/// attacker's exit (back-run after an executed victim, unwind after a
/// reverted one).
pub fn sandwich_steps(victim_meets_min_out: bool) -> (steps: Vec<Step>)
    ensures
        steps@ == sandwich_plan(victim_meets_min_out),
{
    let mut steps: Vec<Step> = Vec::new();
    steps.push(Step::FrontRun);
    if victim_meets_min_out {
        steps.push(Step::VictimSwap);
        steps.push(Step::BackRun);
    } else {
        steps.push(Step::VictimRevert);
        steps.push(Step::Unwind);
    }
    proof {
        assert(steps@ =~= sandwich_plan(victim_meets_min_out));
    }
    steps
}

/// Whatever the victim's guard decides, the attacker's position is opened and
/// closed within the bundle: the first transaction is the attacker paying its
/// chosen X size for Y, the last is the attacker paying exactly that Y back
/// for X, and the victim's transaction sits between them.
pub proof fn lemma_attacker_always_exits(victim_meets_min_out: bool)
    ensures
        ({
            let plan = sandwich_plan(victim_meets_min_out);
            &&& plan.len() == 3
            &&& plan[0].actor_spec() == Actor::Attacker
            &&& plan[0].direction_spec() == Direction::XForY
            &&& plan[0].amount_in_spec() == AmountIn::AttackerSize
            &&& plan[1].actor_spec() == Actor::Victim
            &&& plan[1].amount_in_spec() == AmountIn::VictimSize
            &&& plan[2].actor_spec() == Actor::Attacker
            &&& plan[2].direction_spec() == Direction::YForX
            &&& plan[2].amount_in_spec() == AmountIn::FrontRunOutput
        }),
{
}

/// The victim's swap changes the pool exactly when it meets its `minOut`;
/// once it falls below, the victim does not execute and the attacker must
/// unwind the failed front-run rather than back-run.
pub proof fn lemma_revert_forces_unwind(victim_meets_min_out: bool)
    ensures
        sandwich_plan(victim_meets_min_out)[1].moves_pool_spec() == victim_meets_min_out,
        (sandwich_plan(victim_meets_min_out)[2] == Step::Unwind) == !victim_meets_min_out,
        (sandwich_plan(victim_meets_min_out)[2] == Step::BackRun) == victim_meets_min_out,
        sandwich_plan(victim_meets_min_out)[0].moves_pool_spec(),
        sandwich_plan(victim_meets_min_out)[2].moves_pool_spec(),
{
}

} // verus!
