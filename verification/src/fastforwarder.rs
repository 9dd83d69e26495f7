//! The fastforwarder: a scratch emulator that is reset to the committed
//! savestate and reruns the inputs that have been confirmed since, followed
//! by the local inputs that are still speculative. This module holds what
//! the fastforwarder's traps work on and what its driver decides between
//! two frames.

use crate::desync::Desync;
use crate::input::{option_view, seq_view, Input, InputView, Pair};
use std::collections::VecDeque;
use vstd::prelude::*;

verus! {

/// Where a fastforward stands.
#[derive(Clone, Copy, Debug, PartialEq, Eq, Structural)]
pub enum Phase {
    /// Nothing has been saved yet and the commit is still ahead.
    Idle,
    /// The game is at the tick of the commit and the state is not saved yet.
    Committing,
    /// The committed state is saved; the dirty state is still ahead.
    Running,
    /// Both states are saved while inputs remain to be consumed.
    DirtySaved,
    /// Both states are saved and nothing is left to consume.
    Done,
    /// The inputs ran out before both states were saved.
    Exhausted,
    /// A trap found the ticks inconsistent.
    Error,
}

/// What the fastforwarder's traps share with its driver.
pub struct State {
    local_is_second: bool,
    input_pairs: VecDeque<Pair<Input, Input>>,
    current_tick: u32,
    commit_time: u32,
    dirty_time: u32,
    committed_state: Option<Vec<u8>>,
    dirty_state: Option<Vec<u8>>,
    exhausted: bool,
    error: Option<Desync>,
}

/// Mathematical model of a [`State`].
pub struct StateView {
    /// Whether the local player is the second player of the round.
    pub local_is_second: bool,
    /// The pairs that are still to be fed to the game, oldest first.
    pub input_pairs: Seq<Pair<InputView, InputView>>,
    /// The tick that the fastforwarder counts, for games that keep none.
    pub current_tick: u32,
    /// The tick at which the committed state is to be saved.
    pub commit_time: u32,
    /// The tick at which the dirty state is to be saved.
    pub dirty_time: u32,
    pub committed_state: Option<Seq<u8>>,
    pub dirty_state: Option<Seq<u8>>,
    /// Whether the game asked for an input when none was left.
    pub exhausted: bool,
    pub error: Option<Desync>,
}

impl StateView {
    /// Index of the local player, 0 or 1.
    pub open spec fn local_player_index(self) -> u8 {
        if self.local_is_second {
            1
        } else {
            0
        }
    }

    /// Index of the remote player, 0 or 1.
    pub open spec fn remote_player_index(self) -> u8 {
        if self.local_is_second {
            0
        } else {
            1
        }
    }

    /// Where the fastforward stands.
    pub open spec fn phase(self) -> Phase {
        if self.error is Some {
            Phase::Error
        } else if self.committed_state is Some && self.dirty_state is Some {
            if self.input_pairs.len() == 0 {
                Phase::Done
            } else {
                Phase::DirtySaved
            }
        } else if self.exhausted {
            Phase::Exhausted
        } else if self.committed_state is Some {
            Phase::Running
        } else if self.current_tick == self.commit_time {
            Phase::Committing
        } else {
            Phase::Idle
        }
    }
}

/// What the driver does after a frame of the scratch emulator.
#[derive(Debug)]
pub enum Progress {
    /// Run another frame.
    Continue,
    /// The fastforward failed: the round aborts with this desync.
    Failed(Desync),
    /// Both states are saved. The committed state anchors the next
    /// fastforward; the dirty state goes back into the primary emulator.
    Finished { committed_state: Vec<u8>, dirty_state: Vec<u8> },
}

/// Mathematical model of a [`Progress`].
pub enum ProgressView {
    Continue,
    Failed(Desync),
    Finished { committed_state: Seq<u8>, dirty_state: Seq<u8> },
}

impl View for Progress {
    type V = ProgressView;

    open spec fn view(&self) -> ProgressView {
        match self {
            Progress::Continue => ProgressView::Continue,
            Progress::Failed(err) => ProgressView::Failed(*err),
            Progress::Finished { committed_state, dirty_state } => ProgressView::Finished {
                committed_state: committed_state@,
                dirty_state: dirty_state@,
            },
        }
    }
}

/// What the driver finds after a frame: an error first, then both states,
/// then exhaustion.
pub open spec fn poll_spec(state: StateView) -> (StateView, ProgressView) {
    match state.error {
        Some(err) => (StateView { error: None, ..state }, ProgressView::Failed(err)),
        None => match (state.committed_state, state.dirty_state) {
            (Some(committed_state), Some(dirty_state)) => (
                StateView { committed_state: None, dirty_state: None, ..state },
                ProgressView::Finished { committed_state, dirty_state },
            ),
            _ => if state.exhausted {
                (state, ProgressView::Failed(Desync::InputsExhausted))
            } else {
                (state, ProgressView::Continue)
            },
        },
    }
}

impl View for State {
    type V = StateView;

    closed spec fn view(&self) -> StateView {
        StateView {
            local_is_second: self.local_is_second,
            input_pairs: seq_view(self.input_pairs@),
            current_tick: self.current_tick,
            commit_time: self.commit_time,
            dirty_time: self.dirty_time,
            committed_state: option_view(self.committed_state),
            dirty_state: option_view(self.dirty_state),
            exhausted: self.exhausted,
            error: self.error,
        }
    }
}

impl State {
    /// A fastforward that starts at `current_tick` with `input_pairs` to
    /// feed, saves the committed state at `commit_time` and the dirty state
    /// at `dirty_time`.
    pub fn new(
        local_player_index: u8,
        input_pairs: VecDeque<Pair<Input, Input>>,
        current_tick: u32,
        commit_time: u32,
        dirty_time: u32,
    ) -> (state: State)
        ensures
            state@ == (StateView {
                local_is_second: local_player_index != 0,
                input_pairs: seq_view(input_pairs@),
                current_tick,
                commit_time,
                dirty_time,
                committed_state: None,
                dirty_state: None,
                exhausted: false,
                error: None,
            }),
    {
        State {
            local_is_second: local_player_index != 0,
            input_pairs,
            current_tick,
            commit_time,
            dirty_time,
            committed_state: None,
            dirty_state: None,
            exhausted: false,
            error: None,
        }
    }

    pub fn local_player_index(&self) -> (index: u8)
        ensures
            index == self@.local_player_index(),
    {
        if self.local_is_second {
            1
        } else {
            0
        }
    }

    pub fn remote_player_index(&self) -> (index: u8)
        ensures
            index == self@.remote_player_index(),
            index + self@.local_player_index() == 1,
    {
        if self.local_is_second {
            0
        } else {
            1
        }
    }

    pub fn commit_time(&self) -> (tick: u32)
        ensures
            tick == self@.commit_time,
    {
        self.commit_time
    }

    pub fn dirty_time(&self) -> (tick: u32)
        ensures
            tick == self@.dirty_time,
    {
        self.dirty_time
    }

    pub fn current_tick(&self) -> (tick: u32)
        ensures
            tick == self@.current_tick,
    {
        self.current_tick
    }

    /// Counts one more tick; the count wraps around at 2^32.
    pub fn increment_current_tick(&mut self)
        ensures
            final(self)@ == (StateView {
                current_tick: if old(self)@.current_tick == u32::MAX {
                    0
                } else {
                    (old(self)@.current_tick + 1) as u32
                },
                ..old(self)@
            }),
    {
        self.current_tick = self.current_tick.wrapping_add(1);
    }

    pub fn set_committed_state(&mut self, state: Vec<u8>)
        ensures
            final(self)@ == (StateView { committed_state: Some(state@), ..old(self)@ }),
    {
        self.committed_state = Some(state);
    }

    pub fn set_dirty_state(&mut self, state: Vec<u8>)
        ensures
            final(self)@ == (StateView { dirty_state: Some(state@), ..old(self)@ }),
    {
        self.dirty_state = Some(state);
    }

    /// Number of pairs that are still to be fed to the game.
    pub fn inputs_pairs_left(&self) -> (left: usize)
        ensures
            left == self@.input_pairs.len(),
    {
        self.input_pairs.len()
    }

    /// A copy of the pair that the game is to be fed next, if any is left.
    pub fn peek_input_pair(&self) -> (pair: Option<Pair<Input, Input>>)
        ensures
            option_view(pair) == if self@.input_pairs.len() > 0 {
                Some(self@.input_pairs[0])
            } else {
                None
            },
    {
        if self.input_pairs.len() > 0 {
            Some(self.input_pairs[0].duplicate())
        } else {
            None
        }
    }

    /// Takes the pair that the game is to be fed next, if any is left.
    pub fn pop_input_pair(&mut self) -> (pair: Option<Pair<Input, Input>>)
        ensures
            old(self)@.input_pairs.len() > 0 ==> option_view(pair) == Some(old(self)@.input_pairs[0])
                && final(self)@ == (StateView {
                input_pairs: old(self)@.input_pairs.drop_first(),
                ..old(self)@
            }),
            old(self)@.input_pairs.len() == 0 ==> pair is None && final(self)@ == old(self)@,
    {
        let pair = self.input_pairs.pop_front();
        proof {
            if old(self).input_pairs@.len() > 0 {
                assert(seq_view(self.input_pairs@) =~= seq_view(
                    old(self).input_pairs@,
                ).drop_first());
            }
        }
        pair
    }

    /// Where the fastforward stands.
    pub fn phase(&self) -> (phase: Phase)
        ensures
            phase == self@.phase(),
    {
        if self.error.is_some() {
            Phase::Error
        } else if self.committed_state.is_some() && self.dirty_state.is_some() {
            if self.input_pairs.len() == 0 {
                Phase::Done
            } else {
                Phase::DirtySaved
            }
        } else if self.exhausted {
            Phase::Exhausted
        } else if self.committed_state.is_some() {
            Phase::Running
        } else if self.current_tick == self.commit_time {
            Phase::Committing
        } else {
            Phase::Idle
        }
    }

    /// Records that the game asked for an input when none was left.
    pub fn on_inputs_exhausted(&mut self)
        ensures
            final(self)@ == (StateView { exhausted: true, ..old(self)@ }),
    {
        self.exhausted = true;
    }

    pub fn set_error(&mut self, err: Desync)
        ensures
            final(self)@ == (StateView { error: Some(err), ..old(self)@ }),
    {
        self.error = Some(err);
    }

    /// Decides, after a frame of the scratch emulator, how the fastforward
    /// goes on. An error that a trap left comes first; a fastforward whose
    /// inputs ran out before both states were saved fails.
    pub fn poll(&mut self) -> (progress: Progress)
        ensures
            (final(self)@, progress@) == poll_spec(old(self)@),
    {
        if let Some(err) = self.error.take() {
            return Progress::Failed(err);
        }
        if self.committed_state.is_some() && self.dirty_state.is_some() {
            let committed_state = self.committed_state.take().unwrap();
            let dirty_state = self.dirty_state.take().unwrap();
            return Progress::Finished { committed_state, dirty_state };
        }
        if self.exhausted {
            Progress::Failed(Desync::InputsExhausted)
        } else {
            Progress::Continue
        }
    }
}

/// The state that a game reaches from `state` when it is fed `pairs` in
/// order, for a game that goes from one tick to the next by `step`.
pub open spec fn run<S>(
    step: spec_fn(S, Pair<InputView, InputView>) -> S,
    state: S,
    pairs: Seq<Pair<InputView, InputView>>,
) -> S
    decreases pairs.len(),
{
    if pairs.len() == 0 {
        state
    } else {
        step(run(step, state, pairs.drop_last()), pairs.last())
    }
}

/// Feeding a game one run of pairs and then another is feeding it both.
pub proof fn lemma_run_append<S>(
    step: spec_fn(S, Pair<InputView, InputView>) -> S,
    state: S,
    first: Seq<Pair<InputView, InputView>>,
    second: Seq<Pair<InputView, InputView>>,
)
    ensures
        run(step, run(step, state, first), second) == run(step, state, first + second),
    decreases second.len(),
{
    if second.len() == 0 {
        assert(first + second =~= first);
    } else {
        lemma_run_append(step, state, first, second.drop_last());
        assert((first + second).drop_last() =~= first + second.drop_last());
        assert((first + second).last() == second.last());
    }
}

/// A fastforward reaches what the game itself reached: for a game whose
/// next state depends on its state and on the pair it is fed alone, the
/// state committed after `commit` pairs, fed the pairs from there up to
/// `tick`, is the state of a game that was fed all pairs up to `tick`.
pub proof fn lemma_fastforward_reaches_straight_run<S>(
    step: spec_fn(S, Pair<InputView, InputView>) -> S,
    start: S,
    pairs: Seq<Pair<InputView, InputView>>,
    commit: int,
    tick: int,
)
    requires
        0 <= commit <= tick <= pairs.len(),
    ensures
        run(step, run(step, start, pairs.take(commit)), pairs.subrange(commit, tick)) == run(
            step,
            start,
            pairs.take(tick),
        ),
{
    lemma_run_append(step, start, pairs.take(commit), pairs.subrange(commit, tick));
    assert(pairs.take(commit) + pairs.subrange(commit, tick) =~= pairs.take(tick));
}

} // verus!
