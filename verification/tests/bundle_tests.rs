use searcher::bundle::{sandwich_steps, Actor, AmountIn, Direction, Step};

#[test]
fn profitable_sandwich_order() {
    assert_eq!(
        sandwich_steps(true),
        vec![Step::FrontRun, Step::VictimSwap, Step::BackRun]
    );
}

#[test]
fn oversized_front_run_reverts_victim_and_unwinds() {
    assert_eq!(
        sandwich_steps(false),
        vec![Step::FrontRun, Step::VictimRevert, Step::Unwind]
    );
}

#[test]
fn step_actors() {
    assert_eq!(Step::FrontRun.actor(), Actor::Attacker);
    assert_eq!(Step::VictimSwap.actor(), Actor::Victim);
    assert_eq!(Step::VictimRevert.actor(), Actor::Victim);
    assert_eq!(Step::BackRun.actor(), Actor::Attacker);
    assert_eq!(Step::Unwind.actor(), Actor::Attacker);
}

#[test]
fn step_directions() {
    assert_eq!(Step::FrontRun.direction(), Direction::XForY);
    assert_eq!(Step::VictimSwap.direction(), Direction::XForY);
    assert_eq!(Step::VictimRevert.direction(), Direction::XForY);
    assert_eq!(Step::BackRun.direction(), Direction::YForX);
    assert_eq!(Step::Unwind.direction(), Direction::YForX);
}

#[test]
fn step_amounts() {
    assert_eq!(Step::FrontRun.amount_in(), AmountIn::AttackerSize);
    assert_eq!(Step::VictimSwap.amount_in(), AmountIn::VictimSize);
    assert_eq!(Step::VictimRevert.amount_in(), AmountIn::VictimSize);
    assert_eq!(Step::BackRun.amount_in(), AmountIn::FrontRunOutput);
    assert_eq!(Step::Unwind.amount_in(), AmountIn::FrontRunOutput);
}

#[test]
fn only_reverted_victim_leaves_pool_untouched() {
    assert!(Step::FrontRun.moves_pool());
    assert!(Step::VictimSwap.moves_pool());
    assert!(!Step::VictimRevert.moves_pool());
    assert!(Step::BackRun.moves_pool());
    assert!(Step::Unwind.moves_pool());
}

#[test]
fn attacker_always_exits_with_front_run_output() {
    for ok in [true, false] {
        let steps = sandwich_steps(ok);
        assert_eq!(steps.len(), 3);
        assert_eq!(steps[0].actor(), Actor::Attacker);
        assert_eq!(steps[2].actor(), Actor::Attacker);
        assert_eq!(steps[2].direction(), Direction::YForX);
        assert_eq!(steps[2].amount_in(), AmountIn::FrontRunOutput);
        assert_eq!(steps[1].moves_pool(), ok);
    }
}

#[test]
fn trace_labels() {
    assert_eq!(Actor::Attacker.label(), "attacker");
    assert_eq!(Actor::Victim.label(), "victim");
    assert_eq!(Step::FrontRun.action_label(), "front-run X->Y");
    assert_eq!(Step::VictimSwap.action_label(), "X->Y");
    assert_eq!(Step::VictimRevert.action_label(), "X->Y");
    assert_eq!(Step::BackRun.action_label(), "back-run Y->X");
    assert_eq!(Step::Unwind.action_label(), "unwind Y->X");
    assert_eq!(Step::FrontRun.note(), "pushes price against victim");
    assert_eq!(Step::VictimSwap.note(), "executes near slippage bound");
    assert_eq!(Step::VictimRevert.note(), "reverts: below min_out");
    assert_eq!(Step::BackRun.note(), "realizes price-impact profit");
    assert_eq!(Step::Unwind.note(), "closes position after failed sandwich");
}

#[test]
fn token_units() {
    assert_eq!(Direction::XForY.token_in(), "X");
    assert_eq!(Direction::XForY.token_out(), "Y");
    assert_eq!(Direction::YForX.token_in(), "Y");
    assert_eq!(Direction::YForX.token_out(), "X");
}
