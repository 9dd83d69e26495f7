//! The shadow: a second emulator on the local host that plays the opponent's
//! game. This module holds what the shadow's traps share with whoever drives
//! the shadow's emulator, and the decisions that the driver makes between
//! two runs of the emulator.

use crate::desync::Desync;
use crate::input::{option_view, Pair};
use rand_pcg::Mcg128Xsl64;
use vstd::prelude::*;

verus! {

/// What the local side hands to the shadow for one tick.
#[derive(Debug)]
pub struct LocalInput {
    pub tick: u32,
    pub rx: Vec<u8>,
}

/// Mathematical model of a [`LocalInput`].
pub struct LocalInputView {
    pub tick: u32,
    pub rx: Seq<u8>,
}

impl View for LocalInput {
    type V = LocalInputView;

    open spec fn view(&self) -> LocalInputView {
        LocalInputView { tick: self.tick, rx: self.rx@ }
    }
}

impl Clone for LocalInput {
    fn clone(&self) -> (copy: LocalInput)
        ensures
            copy@ == self@,
    {
        LocalInput { tick: self.tick, rx: self.rx.clone() }
    }
}

/// What the shadow's own side contributes to one tick.
#[derive(Debug)]
pub struct RemoteInput {
    pub tick: u32,
    pub joyflags: u16,
    pub rx: Vec<u8>,
}

/// Mathematical model of a [`RemoteInput`].
pub struct RemoteInputView {
    pub tick: u32,
    pub joyflags: u16,
    pub rx: Seq<u8>,
}

impl View for RemoteInput {
    type V = RemoteInputView;

    open spec fn view(&self) -> RemoteInputView {
        RemoteInputView { tick: self.tick, joyflags: self.joyflags, rx: self.rx@ }
    }
}

impl Clone for RemoteInput {
    fn clone(&self) -> (copy: RemoteInput)
        ensures
            copy@ == self@,
    {
        RemoteInput { tick: self.tick, joyflags: self.joyflags, rx: self.rx.clone() }
    }
}

/// The packet that the shadow's game put on the link at a tick.
#[derive(Debug)]
pub struct Output {
    pub tick: u32,
    pub tx: Vec<u8>,
}

/// Mathematical model of an [`Output`].
pub struct OutputView {
    pub tick: u32,
    pub tx: Seq<u8>,
}

impl View for Output {
    type V = OutputView;

    open spec fn view(&self) -> OutputView {
        OutputView { tick: self.tick, tx: self.tx@ }
    }
}

/// The pair that the shadow works on: the local side's packet and the
/// shadow's own buttons and packet.
pub type ShadowPair = Pair<LocalInput, RemoteInput>;

/// Mathematical model of a [`ShadowPair`].
pub type ShadowPairView = Pair<LocalInputView, RemoteInputView>;

/// One round as the shadow sees it.
pub struct Round {
    local_is_second: bool,
    is_accepting_input: bool,
    current_tick: u32,
    committed_state: Option<Vec<u8>>,
    first_state_committed: bool,
    input: Option<ShadowPair>,
    pending_input: Option<ShadowPair>,
    output: Option<Output>,
    input_injected: bool,
}

/// Mathematical model of a [`Round`].
pub struct RoundView {
    /// Whether the local player is the second player of this round.
    pub local_is_second: bool,
    pub is_accepting_input: bool,
    /// The tick that the round itself counts, for games that keep none.
    pub current_tick: u32,
    /// The savestate that the driver is to load next.
    pub committed_state: Option<Seq<u8>>,
    /// Whether a savestate has been committed since the round began.
    pub first_state_committed: bool,
    /// The pair that the read-joyflags trap is to consume next.
    pub input: Option<ShadowPairView>,
    /// The pair that was consumed and still awaits the copy-input trap.
    pub pending_input: Option<ShadowPairView>,
    pub output: Option<OutputView>,
    /// Whether the copy-input trap has written the packets of a pair since
    /// a savestate was last asked for.
    pub input_injected: bool,
}

impl RoundView {
    /// Index of the local player, 0 or 1.
    pub open spec fn local_player_index(self) -> u8 {
        if self.local_is_second {
            1
        } else {
            0
        }
    }

    /// Index of the player that the shadow plays, 0 or 1.
    pub open spec fn remote_player_index(self) -> u8 {
        if self.local_is_second {
            0
        } else {
            1
        }
    }
}

/// The round that begins after a round that the local side won or lost.
pub open spec fn fresh_round(won_last_round: bool) -> RoundView {
    RoundView {
        local_is_second: !won_last_round,
        is_accepting_input: false,
        current_tick: 0,
        committed_state: None,
        first_state_committed: false,
        input: None,
        pending_input: None,
        output: None,
        input_injected: false,
    }
}

impl View for Round {
    type V = RoundView;

    closed spec fn view(&self) -> RoundView {
        RoundView {
            local_is_second: self.local_is_second,
            is_accepting_input: self.is_accepting_input,
            current_tick: self.current_tick,
            committed_state: option_view(self.committed_state),
            first_state_committed: self.first_state_committed,
            input: option_view(self.input),
            pending_input: option_view(self.pending_input),
            output: option_view(self.output),
            input_injected: self.input_injected,
        }
    }
}

impl Round {
    /// A round in which the local player is the first player exactly if the
    /// local side won the round before.
    pub fn new(won_last_round: bool) -> (round: Round)
        ensures
            round@ == fresh_round(won_last_round),
    {
        Round {
            local_is_second: !won_last_round,
            is_accepting_input: false,
            current_tick: 0,
            committed_state: None,
            first_state_committed: false,
            input: None,
            pending_input: None,
            output: None,
            input_injected: false,
        }
    }

    pub fn local_player_index(&self) -> (index: u8)
        ensures
            index == self@.local_player_index(),
    {
        if self.local_is_second {
            1
        } else {
            0
        }
    }

    pub fn remote_player_index(&self) -> (index: u8)
        ensures
            index == self@.remote_player_index(),
            index + self@.local_player_index() == 1,
    {
        if self.local_is_second {
            0
        } else {
            1
        }
    }

    pub fn start_accepting_input(&mut self)
        ensures
            final(self)@ == (RoundView { is_accepting_input: true, ..old(self)@ }),
    {
        self.is_accepting_input = true;
    }

    pub fn is_accepting_input(&self) -> (accepting: bool)
        ensures
            accepting == self@.is_accepting_input,
    {
        self.is_accepting_input
    }

    pub fn current_tick(&self) -> (tick: u32)
        ensures
            tick == self@.current_tick,
    {
        self.current_tick
    }

    /// Counts one more tick; the count wraps around at 2^32.
    pub fn increment_current_tick(&mut self)
        ensures
            final(self)@ == (RoundView {
                current_tick: if old(self)@.current_tick == u32::MAX {
                    0
                } else {
                    (old(self)@.current_tick + 1) as u32
                },
                ..old(self)@
            }),
    {
        self.current_tick = self.current_tick.wrapping_add(1);
    }

    /// Stores a savestate for the driver to load, and records that the round
    /// has had its first commit.
    pub fn set_committed_state(&mut self, state: Vec<u8>)
        ensures
            final(self)@ == (RoundView {
                committed_state: Some(state@),
                first_state_committed: true,
                ..old(self)@
            }),
    {
        self.committed_state = Some(state);
        self.first_state_committed = true;
    }

    pub fn has_first_committed_state(&self) -> (committed: bool)
        ensures
            committed == self@.first_state_committed,
    {
        self.first_state_committed
    }

    pub fn take_committed_state(&mut self) -> (state: Option<Vec<u8>>)
        ensures
            final(self)@ == (RoundView { committed_state: None, ..old(self)@ }),
            option_view(state) == old(self)@.committed_state,
    {
        self.committed_state.take()
    }

    /// A copy of the savestate that the driver is to load next, if any.
    pub fn peek_committed_state(&self) -> (state: Option<Vec<u8>>)
        ensures
            option_view(state) == self@.committed_state,
    {
        match &self.committed_state {
            Some(bytes) => Some(bytes.clone()),
            None => None,
        }
    }

    pub fn set_input(&mut self, input: ShadowPair)
        ensures
            final(self)@ == (RoundView { input: Some(input@), ..old(self)@ }),
    {
        self.input = Some(input);
    }

    pub fn take_input(&mut self) -> (input: Option<ShadowPair>)
        ensures
            final(self)@ == (RoundView { input: None, ..old(self)@ }),
            option_view(input) == old(self)@.input,
    {
        self.input.take()
    }

    pub fn peek_input(&self) -> (input: &Option<ShadowPair>)
        ensures
            option_view(*input) == self@.input,
    {
        &self.input
    }

    pub fn set_pending_input(&mut self, input: ShadowPair)
        ensures
            final(self)@ == (RoundView { pending_input: Some(input@), ..old(self)@ }),
    {
        self.pending_input = Some(input);
    }

    pub fn peek_pending_input(&self) -> (input: &Option<ShadowPair>)
        ensures
            option_view(*input) == self@.pending_input,
    {
        &self.pending_input
    }

    pub fn take_output(&mut self) -> (output: Option<Output>)
        ensures
            final(self)@ == (RoundView { output: None, ..old(self)@ }),
            option_view(output) == old(self)@.output,
    {
        self.output.take()
    }

    pub fn set_output(&mut self, output: Output)
        ensures
            final(self)@ == (RoundView { output: Some(output@), ..old(self)@ }),
    {
        self.output = Some(output);
    }

    pub fn has_output(&self) -> (has: bool)
        ensures
            has == self@.output is Some,
    {
        self.output.is_some()
    }

    pub fn set_input_injected(&mut self)
        ensures
            final(self)@ == (RoundView { input_injected: true, ..old(self)@ }),
    {
        self.input_injected = true;
    }

    /// Says whether packets were written since a savestate was last asked
    /// for, and forgets it.
    pub fn take_input_injected(&mut self) -> (injected: bool)
        ensures
            injected == old(self)@.input_injected,
            final(self)@ == (RoundView { input_injected: false, ..old(self)@ }),
    {
        let injected = self.input_injected;
        self.input_injected = false;
        injected
    }
}

/// The round in progress, if any, and who won the round before it.
pub struct RoundState {
    pub round: Option<Round>,
    pub won_last_round: bool,
}

/// Mathematical model of a [`RoundState`].
pub struct RoundStateView {
    pub round: Option<RoundView>,
    pub won_last_round: bool,
}

impl View for RoundState {
    type V = RoundStateView;

    open spec fn view(&self) -> RoundStateView {
        RoundStateView { round: option_view(self.round), won_last_round: self.won_last_round }
    }
}

/// What the shadow's traps share with the driver of the shadow's emulator.
pub struct State {
    match_type: u16,
    is_offerer: bool,
    round_state: RoundState,
    rng: Mcg128Xsl64,
    error: Option<Desync>,
    applied_state: Option<Vec<u8>>,
}

/// Mathematical model of a [`State`]. The random source is left out: nothing
/// can be said of what it will yield.
pub struct StateView {
    pub match_type: u16,
    pub is_offerer: bool,
    pub round_state: RoundStateView,
    pub error: Option<Desync>,
    /// The savestate that was taken when the last round ended.
    pub applied_state: Option<Seq<u8>>,
}

impl View for State {
    type V = StateView;

    closed spec fn view(&self) -> StateView {
        StateView {
            match_type: self.match_type,
            is_offerer: self.is_offerer,
            round_state: self.round_state@,
            error: self.error,
            applied_state: option_view(self.applied_state),
        }
    }
}

impl State {
    pub fn new(match_type: u16, is_offerer: bool, rng: Mcg128Xsl64, won_last_round: bool) -> (state:
        State)
        ensures
            state@ == (StateView {
                match_type,
                is_offerer,
                round_state: RoundStateView { round: None, won_last_round },
                error: None,
                applied_state: None,
            }),
            state.random_source() == rng,
    {
        State {
            match_type,
            is_offerer,
            round_state: RoundState { round: None, won_last_round },
            rng,
            error: None,
            applied_state: None,
        }
    }

    pub fn match_type(&self) -> (match_type: u16)
        ensures
            match_type == self@.match_type,
    {
        self.match_type
    }

    pub fn is_offerer(&self) -> (is_offerer: bool)
        ensures
            is_offerer == self@.is_offerer,
    {
        self.is_offerer
    }

    /// The random source that the state holds. It is no part of the model:
    /// nothing can be said of what it will yield.
    pub closed spec fn random_source(&self) -> Mcg128Xsl64 {
        self.rng
    }

    /// The random source that the match shares with the other side, to draw
    /// from. What the caller leaves of it is what the state holds afterwards;
    /// nothing else changes.
    pub fn lock_rng(&mut self) -> (rng: &mut Mcg128Xsl64)
        ensures
            *rng == old(self).random_source(),
            final(self).random_source() == *final(rng),
            final(self)@ == old(self)@,
    {
        &mut self.rng
    }

    /// The round state, to read.
    pub fn round_state(&self) -> (round_state: &RoundState)
        ensures
            (*round_state)@ == self@.round_state,
    {
        &self.round_state
    }

    /// The round state, to read and to change.
    pub fn lock_round_state(&mut self) -> (round_state: &mut RoundState)
        ensures
            (*round_state)@ == old(self)@.round_state,
            final(self)@ == (StateView { round_state: (*final(round_state))@, ..old(self)@ }),
    {
        &mut self.round_state
    }

    /// Begins a round. The local player is the first player exactly if the
    /// local side won the round before.
    pub fn start_round(&mut self)
        ensures
            final(self)@ == (StateView {
                round_state: RoundStateView {
                    round: Some(fresh_round(old(self)@.round_state.won_last_round)),
                    ..old(self)@.round_state
                },
                ..old(self)@
            }),
    {
        let round = Round::new(self.round_state.won_last_round);
        self.round_state.round = Some(round);
    }

    pub fn end_round(&mut self)
        ensures
            final(self)@ == (StateView {
                round_state: RoundStateView { round: None, ..old(self)@.round_state },
                ..old(self)@
            }),
    {
        self.round_state.round = None;
    }

    pub fn set_won_last_round(&mut self, did_win: bool)
        ensures
            final(self)@ == (StateView {
                round_state: RoundStateView { won_last_round: did_win, ..old(self)@.round_state },
                ..old(self)@
            }),
    {
        self.round_state.won_last_round = did_win;
    }

    pub fn set_error(&mut self, err: Desync)
        ensures
            final(self)@ == (StateView { error: Some(err), ..old(self)@ }),
    {
        self.error = Some(err);
    }

    /// Stores the savestate that was taken when the round ended.
    pub fn set_applied_state(&mut self, state: Vec<u8>)
        ensures
            final(self)@ == (StateView { applied_state: Some(state@), ..old(self)@ }),
    {
        self.applied_state = Some(state);
    }

    pub fn take_applied_state(&mut self) -> (state: Option<Vec<u8>>)
        ensures
            option_view(state) == old(self)@.applied_state,
            final(self)@ == (StateView { applied_state: None, ..old(self)@ }),
    {
        self.applied_state.take()
    }

    pub fn take_error(&mut self) -> (err: Option<Desync>)
        ensures
            err == old(self)@.error,
            final(self)@ == (StateView { error: None, ..old(self)@ }),
    {
        self.error.take()
    }
}

/// What the driver does after a run of the emulator while it advances the
/// shadow to the first committed state of a round.
#[derive(Debug)]
pub enum FirstCommit {
    /// Nothing was committed yet: run the emulator again.
    Continue,
    /// A trap reported a desync: the advance fails with it.
    Failed(Desync),
    /// The round has its first committed state: load it into the emulator;
    /// the advance is over and yields this state.
    Committed(Vec<u8>),
}

/// Mathematical model of a [`FirstCommit`].
pub enum FirstCommitView {
    Continue,
    Failed(Desync),
    Committed(Seq<u8>),
}

impl View for FirstCommit {
    type V = FirstCommitView;

    open spec fn view(&self) -> FirstCommitView {
        match self {
            FirstCommit::Continue => FirstCommitView::Continue,
            FirstCommit::Failed(err) => FirstCommitView::Failed(*err),
            FirstCommit::Committed(state) => FirstCommitView::Committed(state@),
        }
    }
}

/// What the driver does after a run of the emulator while it advances the
/// shadow to the end of the round.
#[derive(Clone, Copy, Debug, PartialEq, Eq, Structural)]
pub enum RoundEnd {
    /// The round is still on: run the emulator again.
    Continue,
    /// A trap reported a desync: the advance fails with it.
    Failed(Desync),
    /// The round is over.
    Ended,
}

/// What the driver does after a run of the emulator while the shadow
/// applies an input.
#[derive(Debug)]
pub enum Applied {
    /// Nothing was committed yet: run the emulator again.
    Continue,
    /// A trap reported a desync, or the round is gone: applying fails.
    Failed(Desync),
    /// Load `state` into the emulator. With a `tx`, applying is over and
    /// yields it; without one, run the emulator again.
    Load { state: Vec<u8>, tx: Option<Vec<u8>> },
}

/// Mathematical model of an [`Applied`].
pub enum AppliedView {
    Continue,
    Failed(Desync),
    Load { state: Seq<u8>, tx: Option<Seq<u8>> },
}

impl View for Applied {
    type V = AppliedView;

    open spec fn view(&self) -> AppliedView {
        match self {
            Applied::Continue => AppliedView::Continue,
            Applied::Failed(err) => AppliedView::Failed(*err),
            Applied::Load { state, tx } => AppliedView::Load { state: state@, tx: option_view(*tx) },
        }
    }
}

/// The shadow without its emulator: the state that its traps work on, and
/// the packet that an input being applied will yield.
pub struct Shadow {
    state: State,
    applying: Option<Vec<u8>>,
}

/// Mathematical model of a [`Shadow`].
pub struct ShadowView {
    pub state: StateView,
    /// The packet that the input being applied yields once it is applied.
    pub applying: Option<Seq<u8>>,
}

impl View for Shadow {
    type V = ShadowView;

    closed spec fn view(&self) -> ShadowView {
        ShadowView { state: self.state@, applying: option_view(self.applying) }
    }
}

/// The state of the shadow in which `round` replaces the round in progress.
pub open spec fn with_round(shadow: ShadowView, round: RoundView) -> ShadowView {
    ShadowView {
        state: StateView {
            round_state: RoundStateView { round: Some(round), ..shadow.state.round_state },
            ..shadow.state
        },
        ..shadow
    }
}

/// The state of the shadow once the error that a trap left is taken.
pub open spec fn without_error(shadow: ShadowView) -> ShadowView {
    ShadowView { state: StateView { error: None, ..shadow.state }, ..shadow }
}

/// What applying an input does to the shadow and what it answers.
pub open spec fn apply_input_spec(
    shadow: ShadowView,
    current_tick: u32,
    joyflags: u16,
    rx: Seq<u8>,
) -> (ShadowView, Result<(), Desync>) {
    match shadow.state.round_state.round {
        None => (shadow, Err(Desync::NoShadowRound)),
        Some(round) => match round.output {
            None => (shadow, Err(Desync::NoShadowOutput)),
            Some(output) => {
                let taken = RoundView { output: None, ..round };
                if output.tick != current_tick {
                    (
                        with_round(shadow, taken),
                        Err(
                            Desync::ShadowOutputTick {
                                output_tick: output.tick,
                                in_battle_tick: current_tick,
                            },
                        ),
                    )
                } else {
                    let input = Pair {
                        local: LocalInputView { tick: current_tick, rx },
                        remote: RemoteInputView { tick: current_tick, joyflags, rx: output.tx },
                    };
                    (
                        ShadowView {
                            applying: Some(output.tx),
                            ..with_round(shadow, RoundView { input: Some(input), ..taken })
                        },
                        Ok(()),
                    )
                }
            },
        },
    }
}

/// What the driver finds after a run of the emulator while an input is
/// being applied, and the state that the shadow is left in.
pub open spec fn continue_apply_input_spec(shadow: ShadowView) -> (ShadowView, AppliedView) {
    match shadow.state.error {
        Some(err) => (without_error(shadow), AppliedView::Failed(err)),
        None => match shadow.state.round_state.round {
            None => (shadow, AppliedView::Failed(Desync::NoShadowRound)),
            Some(round) => match round.committed_state {
                None => (shadow, AppliedView::Continue),
                Some(state) => {
                    let taken = with_round(shadow, RoundView { committed_state: None, ..round });
                    if round.output is Some {
                        (
                            ShadowView { applying: None, ..taken },
                            AppliedView::Load { state, tx: shadow.applying },
                        )
                    } else {
                        (taken, AppliedView::Load { state, tx: None })
                    }
                },
            },
        },
    }
}

impl Shadow {
    /// A shadow for a match, outside any round. Loading the opponent's game
    /// into an emulator and installing the traps is the driver's part.
    pub fn new(match_type: u16, is_offerer: bool, won_last_round: bool, rng: Mcg128Xsl64) -> (shadow:
        Shadow)
        ensures
            shadow@ == (ShadowView {
                state: StateView {
                    match_type,
                    is_offerer,
                    round_state: RoundStateView { round: None, won_last_round },
                    error: None,
                    applied_state: None,
                },
                applying: None,
            }),
    {
        Shadow { state: State::new(match_type, is_offerer, rng, won_last_round), applying: None }
    }

    /// The state that the shadow's traps work on.
    pub fn state(&mut self) -> (state: &mut State)
        ensures
            (*state)@ == old(self)@.state,
            final(self)@ == (ShadowView { state: (*final(state))@, ..old(self)@ }),
    {
        &mut self.state
    }

    /// Decides, after one run of the emulator, how the advance to the round's
    /// first committed state goes on. An error that a trap left comes first;
    /// the committed state stays where it is for the next input to find.
    pub fn advance_until_first_committed_state(&mut self) -> (found: FirstCommit)
        ensures
            final(self)@ == without_error(old(self)@),
            found@ == match old(self)@.state.error {
                Some(err) => FirstCommitView::Failed(err),
                None => match old(self)@.state.round_state.round {
                    None => FirstCommitView::Continue,
                    Some(round) => match round.committed_state {
                        None => FirstCommitView::Continue,
                        Some(state) => FirstCommitView::Committed(state),
                    },
                },
            },
    {
        if let Some(err) = self.state.take_error() {
            return FirstCommit::Failed(err);
        }
        let round_state = self.state.lock_round_state();
        match &round_state.round {
            None => FirstCommit::Continue,
            Some(round) => match round.peek_committed_state() {
                None => FirstCommit::Continue,
                Some(state) => FirstCommit::Committed(state),
            },
        }
    }

    /// Decides, after one run of the emulator, how the advance to the end of
    /// the round goes on. An error that a trap left comes first.
    pub fn advance_until_round_end(&mut self) -> (found: RoundEnd)
        ensures
            final(self)@ == without_error(old(self)@),
            found == match old(self)@.state.error {
                Some(err) => RoundEnd::Failed(err),
                None => if old(self)@.state.round_state.round is None {
                    RoundEnd::Ended
                } else {
                    RoundEnd::Continue
                },
            },
    {
        if let Some(err) = self.state.take_error() {
            return RoundEnd::Failed(err);
        }
        let round_state = self.state.lock_round_state();
        if round_state.round.is_none() {
            RoundEnd::Ended
        } else {
            RoundEnd::Continue
        }
    }

    /// Hands the shadow the local side's packet and the buttons for
    /// `current_tick`. The shadow's last output must be of that tick; its
    /// packet becomes the packet of the shadow's own side in the pair that
    /// the read-joyflags trap will consume, and is what applying yields in
    /// the end. The output is used up even where its tick is wrong.
    pub fn apply_input(&mut self, current_tick: u32, joyflags: u16, rx: &[u8]) -> (begun: Result<
        (),
        Desync,
    >)
        ensures
            (final(self)@, begun) == apply_input_spec(old(self)@, current_tick, joyflags, rx@),
    {
        let round_state = self.state.lock_round_state();
        match &mut round_state.round {
            None => Err(Desync::NoShadowRound),
            Some(round) => {
                let output = match round.take_output() {
                    Some(output) => output,
                    None => {
                        return Err(Desync::NoShadowOutput);
                    },
                };
                if output.tick != current_tick {
                    return Err(
                        Desync::ShadowOutputTick {
                            output_tick: output.tick,
                            in_battle_tick: current_tick,
                        },
                    );
                }
                let tx = output.tx;
                round.set_input(
                    Pair {
                        local: LocalInput { tick: current_tick, rx: vstd::slice::slice_to_vec(rx) },
                        remote: RemoteInput { tick: current_tick, joyflags, rx: tx.clone() },
                    },
                );
                self.applying = Some(tx);
                Ok(())
            },
        }
    }

    /// Decides, after one run of the emulator, how applying an input goes
    /// on. An error that a trap left comes first. A committed state is
    /// taken and handed over to be loaded; applying is over once the traps
    /// have also left a new output.
    pub fn continue_apply_input(&mut self) -> (found: Applied)
        ensures
            (final(self)@, found@) == continue_apply_input_spec(old(self)@),
    {
        if let Some(err) = self.state.take_error() {
            return Applied::Failed(err);
        }
        let round_state = self.state.lock_round_state();
        match &mut round_state.round {
            None => Applied::Failed(Desync::NoShadowRound),
            Some(round) => match round.take_committed_state() {
                None => Applied::Continue,
                Some(state) => {
                    if round.has_output() {
                        let tx = self.applying.take();
                        Applied::Load { state, tx }
                    } else {
                        Applied::Load { state, tx: None }
                    }
                },
            },
        }
    }
}

} // verus!
