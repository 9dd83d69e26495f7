//! The replayer: an emulator that is fed the inputs of an archived match.
//! This module holds what the replayer's traps work on.

use crate::desync::Desync;
use crate::input::{seq_view, Input, InputView, Pair};
use std::collections::VecDeque;
use vstd::prelude::*;

verus! {

/// How a round ended for the local player.
#[derive(Clone, Copy, Debug, PartialEq, Eq, Structural)]
pub enum BattleResult {
    Draw,
    Loss,
    Win,
}

/// What the replayer's traps share with whoever runs the emulator.
pub struct State {
    local_is_second: bool,
    input_pairs: VecDeque<Pair<Input, Input>>,
    current_tick: u32,
    error: Option<Desync>,
    round_result: Option<BattleResult>,
    exhausted: bool,
    round_ended: bool,
}

/// Mathematical model of a [`State`].
pub struct StateView {
    /// Whether the local player is the second player of the round.
    pub local_is_second: bool,
    /// The pairs that are still to be fed to the game, oldest first.
    pub input_pairs: Seq<Pair<InputView, InputView>>,
    /// The tick that the replayer counts, for games that keep none.
    pub current_tick: u32,
    pub error: Option<Desync>,
    pub round_result: Option<BattleResult>,
    /// Whether the game asked for an input when none was left.
    pub exhausted: bool,
    /// Whether the game reached the end of the round.
    pub round_ended: bool,
}

impl StateView {
    /// Index of the local player, 0 or 1.
    pub open spec fn local_player_index(self) -> u8 {
        if self.local_is_second {
            1
        } else {
            0
        }
    }

    /// Whether the replay is over. The end of the round always ends it.
    /// Running out of inputs ends a replay that was archived before its
    /// round was over, or that is taken to be so; a complete one goes on
    /// until the game itself ends the round.
    pub open spec fn is_done(self, is_complete: bool, assume_incomplete: bool) -> bool {
        self.round_ended || (self.exhausted && (!is_complete || assume_incomplete))
    }
}

impl View for State {
    type V = StateView;

    closed spec fn view(&self) -> StateView {
        StateView {
            local_is_second: self.local_is_second,
            input_pairs: seq_view(self.input_pairs@),
            current_tick: self.current_tick,
            error: self.error,
            round_result: self.round_result,
            exhausted: self.exhausted,
            round_ended: self.round_ended,
        }
    }
}

impl State {
    /// A replayer that is to feed `input_pairs` to the game of the player
    /// with the given index.
    pub fn new(local_player_index: u8, input_pairs: VecDeque<Pair<Input, Input>>) -> (state: State)
        ensures
            state@ == (StateView {
                local_is_second: local_player_index != 0,
                input_pairs: seq_view(input_pairs@),
                current_tick: 0,
                error: None,
                round_result: None,
                exhausted: false,
                round_ended: false,
            }),
    {
        State {
            local_is_second: local_player_index != 0,
            input_pairs,
            current_tick: 0,
            error: None,
            round_result: None,
            exhausted: false,
            round_ended: false,
        }
    }

    pub fn local_player_index(&self) -> (index: u8)
        ensures
            index == self@.local_player_index(),
            index <= 1,
    {
        if self.local_is_second {
            1
        } else {
            0
        }
    }

    pub fn remote_player_index(&self) -> (index: u8)
        ensures
            index + self@.local_player_index() == 1,
    {
        if self.local_is_second {
            0
        } else {
            1
        }
    }

    pub fn current_tick(&self) -> (tick: u32)
        ensures
            tick == self@.current_tick,
    {
        self.current_tick
    }

    /// Counts one more tick; the count wraps around at 2^32.
    pub fn increment_current_tick(&mut self)
        ensures
            final(self)@ == (StateView {
                current_tick: crate::input::tick_after(old(self)@.current_tick, 1),
                ..old(self)@
            }),
    {
        self.current_tick = self.current_tick.wrapping_add(1);
    }

    /// Number of pairs that are still to be fed to the game.
    pub fn inputs_pairs_left(&self) -> (left: usize)
        ensures
            left == self@.input_pairs.len(),
    {
        self.input_pairs.len()
    }

    /// A copy of the pair that the game is to be fed next, if any is left.
    pub fn peek_input_pair(&self) -> (pair: Option<Pair<Input, Input>>)
        ensures
            crate::input::option_view(pair) == if self@.input_pairs.len() > 0 {
                Some(self@.input_pairs[0])
            } else {
                None
            },
    {
        if self.input_pairs.len() > 0 {
            Some(self.input_pairs[0].duplicate())
        } else {
            None
        }
    }

    /// Takes the pair that the game is to be fed next, if any is left.
    pub fn pop_input_pair(&mut self) -> (pair: Option<Pair<Input, Input>>)
        ensures
            old(self)@.input_pairs.len() > 0 ==> crate::input::option_view(pair) == Some(
                old(self)@.input_pairs[0],
            ) && final(self)@ == (StateView {
                input_pairs: old(self)@.input_pairs.drop_first(),
                ..old(self)@
            }),
            old(self)@.input_pairs.len() == 0 ==> pair is None && final(self)@ == old(self)@,
    {
        let pair = self.input_pairs.pop_front();
        proof {
            if old(self).input_pairs@.len() > 0 {
                assert(seq_view(self.input_pairs@) =~= seq_view(
                    old(self).input_pairs@,
                ).drop_first());
            }
        }
        pair
    }

    /// Records that the game asked for an input when none was left.
    pub fn on_inputs_exhausted(&mut self)
        ensures
            final(self)@ == (StateView { exhausted: true, ..old(self)@ }),
    {
        self.exhausted = true;
    }

    /// Records that the game reached the end of the round.
    pub fn on_round_ended(&mut self)
        ensures
            final(self)@ == (StateView { round_ended: true, ..old(self)@ }),
    {
        self.round_ended = true;
    }

    pub fn set_round_result(&mut self, result: BattleResult)
        ensures
            final(self)@ == (StateView { round_result: Some(result), ..old(self)@ }),
    {
        self.round_result = Some(result);
    }

    pub fn round_result(&self) -> (result: Option<BattleResult>)
        ensures
            result == self@.round_result,
    {
        self.round_result
    }

    pub fn set_error(&mut self, err: Desync)
        ensures
            final(self)@ == (StateView { error: Some(err), ..old(self)@ }),
    {
        self.error = Some(err);
    }

    pub fn take_error(&mut self) -> (err: Option<Desync>)
        ensures
            err == old(self)@.error,
            final(self)@ == (StateView { error: None, ..old(self)@ }),
    {
        self.error.take()
    }

    /// Whether the replay is over, for a replay whose header says whether
    /// it is complete and a viewer who may take it to be incomplete.
    pub fn is_done(&self, is_complete: bool, assume_incomplete: bool) -> (done: bool)
        ensures
            done == self@.is_done(is_complete, assume_incomplete),
    {
        self.round_ended || (self.exhausted && (!is_complete || assume_incomplete))
    }
}

} // verus!
