use vstd::prelude::*;

verus! {

/// Number of actions the car accepts: push left, coast, push right.
pub const NUM_ACTIONS: usize = 3;

/// Number of steps after which a client gives up on an episode.
pub const EPISODE_STEP_LIMIT: u64 = 1000;

/// Where a mountain-car game stands, apart from the car's position and
/// velocity: still running after `step` moves, or finished after `step` moves
/// because the car reached the goal.
#[derive(Debug, Clone, Copy, PartialEq, Eq, Structural)]
pub enum Phase {
    Running { step: u64 },
    Finished { step: u64 },
}

/// The phase that follows `phase` when the server handles one move, where
/// `at_goal` tells whether the car stood at the goal when the move came in.
pub open spec fn next_phase(phase: Phase, at_goal: bool) -> Phase {
    match phase {
        Phase::Running { step } => if at_goal {
            Phase::Finished { step }
        } else {
            Phase::Running { step: (step + 1) as u64 }
        },
        Phase::Finished { step } => Phase::Finished { step },
    }
}

impl Phase {
    /// The number of moves made so far.
    pub open spec fn steps(self) -> u64 {
        match self {
            Phase::Running { step } => step,
            Phase::Finished { step } => step,
        }
    }

    /// A new game: running, no move made yet.
    pub fn start() -> (phase: Phase)
        ensures
            phase == (Phase::Running { step: 0 }),
    {
        Phase::Running { step: 0 }
    }

    /// Whether the game still accepts moves.
    pub fn is_running(&self) -> (running: bool)
        ensures
            running <==> *self is Running,
    {
        match self {
            Phase::Running { .. } => true,
            Phase::Finished { .. } => false,
        }
    }

    /// The number of moves made so far.
    pub fn step_count(&self) -> (n: u64)
        ensures
            n == self.steps(),
            *self matches Phase::Running { step } ==> n == step,
            *self matches Phase::Finished { step } ==> n == step,
    {
        match self {
            Phase::Running { step } => *step,
            Phase::Finished { step } => *step,
        }
    }

    /// Handles one move: a car that already stood at the goal finishes the
    /// game with the moves made so far; otherwise the move is counted. A
    /// finished game does not change.
    pub fn advance(self, at_goal: bool) -> (next: Phase)
        requires
            self is Running && !at_goal ==> self.steps() < u64::MAX,
        ensures
            next == next_phase(self, at_goal),
            self matches Phase::Running { step } ==> next == if at_goal {
                Phase::Finished { step }
            } else {
                Phase::Running { step: (step + 1) as u64 }
            },
            self is Finished ==> next == self,
    {
        match self {
            Phase::Running { step } => if at_goal {
                Phase::Finished { step }
            } else {
                Phase::Running { step: step + 1 }
            },
            Phase::Finished { step } => Phase::Finished { step },
        }
    }
}

/// The direction of the force that action `a` applies to the car: -1 for
/// action 0, 0 for action 1, +1 for action 2.
pub fn action_direction(a: usize) -> (d: i8)
    requires
        a < NUM_ACTIONS,
    ensures
        d == a - 1,
{
    if a == 0 {
        -1
    } else if a == 1 {
        0
    } else {
        1
    }
}

/// A game reports the number of moves it carries: `s` for a running game
/// after `s` moves, and `s` for a game that finished after `s` moves.
pub proof fn lemma_steps_reported(s: u64)
    ensures
        (Phase::Running { step: s }).steps() == s,
        (Phase::Finished { step: s }).steps() == s,
{
}

/// A game that is running and not at the goal counts exactly one more move.
pub proof fn lemma_move_counts_one_step(step: u64)
    requires
        step < u64::MAX,
    ensures
        next_phase(Phase::Running { step }, false) == (Phase::Running { step: (step + 1) as u64 }),
{
}

/// When the car reaches the goal the game finishes and reports the number of
/// moves it took; from then on further moves change nothing.
pub proof fn lemma_finished_is_final(phase: Phase, at_goal: bool, later: bool)
    requires
        phase is Running,
        at_goal,
    ensures
        next_phase(phase, at_goal) == (Phase::Finished { step: phase.steps() }),
        next_phase(next_phase(phase, at_goal), later) == next_phase(phase, at_goal),
{
}

/// The phase after the server handled one move for each entry of `at_goal`,
/// in order, starting from `phase`.
pub open spec fn phase_after(phase: Phase, at_goal: Seq<bool>) -> Phase
    decreases at_goal.len(),
{
    if at_goal.len() == 0 {
        phase
    } else {
        next_phase(phase_after(phase, at_goal.drop_last()), at_goal.last())
    }
}

/// A new game in which the car has not reached the goal after `n` moves
/// reports `n` steps and still runs; so a client that stops at a reported
/// step count stops after exactly that many moves.
pub proof fn lemma_steps_count_moves(at_goal: Seq<bool>)
    requires
        at_goal.len() < u64::MAX,
        forall|i: int| 0 <= i < at_goal.len() ==> !#[trigger] at_goal[i],
    ensures
        phase_after(Phase::Running { step: 0 }, at_goal) == (Phase::Running {
            step: at_goal.len() as u64,
        }),
    decreases at_goal.len(),
{
    if at_goal.len() > 0 {
        let rest = at_goal.drop_last();
        assert forall|i: int| 0 <= i < rest.len() implies !#[trigger] rest[i] by {
            assert(rest[i] == at_goal[i]);
        }
        lemma_steps_count_moves(rest);
        assert(!at_goal[at_goal.len() - 1]);
    }
}

} // verus!
