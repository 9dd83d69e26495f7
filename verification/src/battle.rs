//! The primary side of a match: the round that the player's own game is in,
//! with its lockstep queues, its window of delayed inputs, and the plan of
//! each fastforward.

use crate::desync::{Desync, Phase};
use crate::fastforwarder;
use crate::input::{option_view, seq_view, tick_after, Input, InputView, Pair};
use crate::shadow::{Output, OutputView};
use rand_pcg::Mcg128Xsl64;
use std::collections::VecDeque;
use vstd::prelude::*;

verus! {

/// A pair of inputs as the primary side holds it.
pub type InputPair = Pair<Input, Input>;

/// Mathematical model of an [`InputPair`].
pub type InputPairView = Pair<InputView, InputView>;

/// One round of the match as the primary side sees it.
pub struct Round {
    local_is_second: bool,
    current_tick: u32,
    input_delay: u32,
    max_queue_length: usize,
    local_queue: VecDeque<Input>,
    remote_queue: VecDeque<Input>,
    last_committed_remote_input: Input,
    committed_state: Option<Vec<u8>>,
    committed_tick: u32,
    shadow_committed_state: Option<Vec<u8>>,
    last_input: Option<InputPair>,
    tx_queue: VecDeque<Output>,
}

/// Mathematical model of a [`Round`].
pub struct RoundView {
    /// Whether the local player is the second player of this round.
    pub local_is_second: bool,
    /// The tick that the round itself counts, for games that keep none.
    pub current_tick: u32,
    /// Number of ticks by which local input is scheduled ahead.
    pub input_delay: u32,
    /// Most inputs that either queue holds.
    pub max_queue_length: usize,
    /// Local inputs that are not paired yet, oldest first.
    pub local_queue: Seq<InputView>,
    /// Remote inputs that are not paired yet, oldest first.
    pub remote_queue: Seq<InputView>,
    /// The last remote input that was paired; it predicts the next.
    pub last_committed_remote_input: InputView,
    /// The savestate that every fastforward starts from.
    pub committed_state: Option<Seq<u8>>,
    /// The tick at which the committed state was saved.
    pub committed_tick: u32,
    /// The shadow's first committed state.
    pub shadow_committed_state: Option<Seq<u8>>,
    /// The pair whose packets the game copies next.
    pub last_input: Option<InputPairView>,
    /// The packets that the game has put on the link, each with the tick
    /// that it is meant for, oldest first.
    pub tx_queue: Seq<OutputView>,
}

impl RoundView {
    /// Index of the local player, 0 or 1.
    pub open spec fn local_player_index(self) -> u8 {
        if self.local_is_second {
            1
        } else {
            0
        }
    }

    /// Index of the remote player, 0 or 1.
    pub open spec fn remote_player_index(self) -> u8 {
        if self.local_is_second {
            0
        } else {
            1
        }
    }

    /// Number of pairs that can be confirmed now: a local input is due once
    /// it is older than the window of delay, and needs a remote input.
    pub open spec fn confirmable(self) -> int {
        let due = if self.local_queue.len() > self.input_delay {
            self.local_queue.len() - self.input_delay
        } else {
            0
        };
        if due < self.remote_queue.len() {
            due
        } else {
            self.remote_queue.len() as int
        }
    }

    /// Number of local inputs that are due, confirmed or not.
    pub open spec fn due(self) -> int {
        if self.local_queue.len() > self.input_delay {
            self.local_queue.len() - self.input_delay
        } else {
            0
        }
    }
}

/// The round that begins after a round that the local side won or lost.
pub open spec fn fresh_round(
    won_last_round: bool,
    input_delay: u32,
    max_queue_length: usize,
    placeholder_rx: Seq<u8>,
) -> RoundView {
    RoundView {
        local_is_second: !won_last_round,
        current_tick: 0,
        input_delay,
        max_queue_length,
        local_queue: Seq::empty(),
        remote_queue: Seq::empty(),
        last_committed_remote_input: InputView {
            local_tick: 0,
            remote_tick: 0,
            joyflags: 0,
            rx: placeholder_rx,
        },
        committed_state: None,
        committed_tick: 0,
        shadow_committed_state: None,
        last_input: None,
        tx_queue: Seq::empty(),
    }
}

/// The placeholders that fill the window of delay from `current_tick` on:
/// one for each tick of the window, with no buttons held.
pub open spec fn delay_window(current_tick: u32, input_delay: u32, placeholder_rx: Seq<u8>) -> Seq<
    InputView,
> {
    Seq::new(
        input_delay as nat,
        |i: int|
            InputView {
                local_tick: tick_after(current_tick, i as nat),
                remote_tick: 0,
                joyflags: 0,
                rx: placeholder_rx,
            },
    )
}

/// The first `count` local and remote inputs, paired in order.
pub open spec fn zipped(local: Seq<InputView>, remote: Seq<InputView>, count: int) -> Seq<
    InputPairView,
> {
    Seq::new(count as nat, |i: int| Pair { local: local[i], remote: remote[i] })
}

/// Whether the two inputs of each of the first `count` pairs were scheduled
/// for the same tick.
pub open spec fn ticks_agree(local: Seq<InputView>, remote: Seq<InputView>, count: int) -> bool {
    forall|i: int| 0 <= i < count ==> local[i].local_tick == remote[i].local_tick
}

/// The remote input that is predicted to go with a local input: the buttons
/// and the packet of the last remote input that was confirmed.
pub open spec fn predicted(local: InputView, last_remote: InputView) -> InputView {
    InputView {
        local_tick: local.local_tick,
        remote_tick: local.remote_tick,
        joyflags: last_remote.joyflags,
        rx: last_remote.rx,
    }
}

/// Local inputs paired with the remote inputs predicted for them.
pub open spec fn speculated(local: Seq<InputView>, last_remote: InputView) -> Seq<InputPairView> {
    Seq::new(local.len(), |i: int| Pair { local: local[i], remote: predicted(local[i], last_remote) })
}

/// What a fastforward is to do: the savestate to start from and the state
/// of the fastforwarder's traps, together with the pairs that it confirms.
pub struct Plan {
    /// The savestate to reset the scratch emulator to.
    pub committed_state: Vec<u8>,
    /// The pairs that are confirmed by this fastforward, oldest first.
    pub confirmed: Vec<InputPair>,
    /// The last pair that the fastforward feeds: the one whose packets the
    /// player's own game copies next.
    pub last_input: InputPair,
    /// What the fastforwarder's traps are to work on.
    pub state: fastforwarder::State,
}

/// Mathematical model of a [`Plan`].
pub struct PlanView {
    pub committed_state: Seq<u8>,
    pub confirmed: Seq<InputPairView>,
    pub last_input: InputPairView,
    pub state: fastforwarder::StateView,
}

impl View for Plan {
    type V = PlanView;

    open spec fn view(&self) -> PlanView {
        PlanView {
            committed_state: self.committed_state@,
            confirmed: seq_view(self.confirmed@),
            last_input: self.last_input@,
            state: self.state@,
        }
    }
}

/// The desync that planning a fastforward finds, if any: the round must
/// have a committed state, the pairs to confirm must agree on their ticks,
/// and something must be there to feed.
pub open spec fn plan_failure(round: RoundView) -> Option<Desync> {
    let count = round.confirmable();
    if round.committed_state is None || round.due() == 0 {
        Some(Desync::InputsExhausted)
    } else if !ticks_agree(round.local_queue, round.remote_queue, count) {
        let i = choose|i: int|
            0 <= i < count && round.local_queue[i].local_tick != round.remote_queue[i].local_tick
                && forall|j: int|
                0 <= j < i ==> round.local_queue[j].local_tick == round.remote_queue[j].local_tick;
        Some(
            Desync::LocalRemoteTick {
                phase: Phase::ReadJoyflags,
                in_battle_tick: round.current_tick,
                local_tick: round.local_queue[i].local_tick,
                remote_tick: round.remote_queue[i].local_tick,
            },
        )
    } else {
        None
    }
}

/// The round after a fastforward was planned: the confirmed inputs have
/// left both queues, and the last of the remote ones predicts the next.
/// The committed state stays until the fastforward brings a newer one.
pub open spec fn round_after_plan(round: RoundView) -> RoundView {
    let count = round.confirmable();
    RoundView {
        local_queue: round.local_queue.skip(count),
        remote_queue: round.remote_queue.skip(count),
        last_committed_remote_input: if count > 0 {
            round.remote_queue[count - 1]
        } else {
            round.last_committed_remote_input
        },
        ..round
    }
}

/// The plan of a fastforward: the confirmed pairs are fed first, then the
/// local inputs that are due and not confirmed, each with the remote input
/// predicted for it. The committed state is saved once the confirmed pairs
/// are through, the dirty state at the last pair.
pub open spec fn plan_spec(round: RoundView) -> PlanView {
    let count = round.confirmable();
    let after = round_after_plan(round);
    let confirmed = zipped(round.local_queue, round.remote_queue, count);
    let left = round.local_queue.subrange(count, round.due());
    let all = confirmed + speculated(left, after.last_committed_remote_input);
    PlanView {
        committed_state: round.committed_state->0,
        confirmed,
        last_input: all.last(),
        state: fastforwarder::StateView {
            local_is_second: round.local_is_second,
            input_pairs: all,
            current_tick: round.committed_tick,
            commit_time: tick_after(round.committed_tick, count as nat),
            dirty_time: tick_after(round.committed_tick, (all.len() - 1) as nat),
            committed_state: None,
            dirty_state: None,
            exhausted: false,
            error: None,
        },
    }
}

impl View for Round {
    type V = RoundView;

    closed spec fn view(&self) -> RoundView {
        RoundView {
            local_is_second: self.local_is_second,
            current_tick: self.current_tick,
            input_delay: self.input_delay,
            max_queue_length: self.max_queue_length,
            local_queue: seq_view(self.local_queue@),
            remote_queue: seq_view(self.remote_queue@),
            last_committed_remote_input: self.last_committed_remote_input@,
            committed_state: option_view(self.committed_state),
            committed_tick: self.committed_tick,
            shadow_committed_state: option_view(self.shadow_committed_state),
            last_input: option_view(self.last_input),
            tx_queue: seq_view(self.tx_queue@),
        }
    }
}

impl Round {
    /// A round in which the local player is the first player exactly if the
    /// local side won the round before. Until a remote input is confirmed,
    /// the remote side is predicted to hold no buttons and to send
    /// `placeholder_rx`.
    pub fn new(
        won_last_round: bool,
        input_delay: u32,
        max_queue_length: usize,
        placeholder_rx: Vec<u8>,
    ) -> (round: Round)
        ensures
            round@ == fresh_round(won_last_round, input_delay, max_queue_length, placeholder_rx@),
    {
        let round = Round {
            local_is_second: !won_last_round,
            current_tick: 0,
            input_delay,
            max_queue_length,
            local_queue: VecDeque::new(),
            remote_queue: VecDeque::new(),
            last_committed_remote_input: Input {
                local_tick: 0,
                remote_tick: 0,
                joyflags: 0,
                rx: placeholder_rx,
            },
            committed_state: None,
            committed_tick: 0,
            shadow_committed_state: None,
            last_input: None,
            tx_queue: VecDeque::new(),
        };
        assert(seq_view(round.tx_queue@) =~= Seq::<OutputView>::empty());
        assert(seq_view(round.local_queue@) =~= Seq::<InputView>::empty());
        assert(seq_view(round.remote_queue@) =~= Seq::<InputView>::empty());
        round
    }

    pub fn local_player_index(&self) -> (index: u8)
        ensures
            index == self@.local_player_index(),
    {
        if self.local_is_second {
            1
        } else {
            0
        }
    }

    pub fn remote_player_index(&self) -> (index: u8)
        ensures
            index == self@.remote_player_index(),
            index + self@.local_player_index() == 1,
    {
        if self.local_is_second {
            0
        } else {
            1
        }
    }

    pub fn current_tick(&self) -> (tick: u32)
        ensures
            tick == self@.current_tick,
    {
        self.current_tick
    }

    /// Tells the round which tick the game is at.
    pub fn set_current_tick(&mut self, tick: u32)
        ensures
            final(self)@ == (RoundView { current_tick: tick, ..old(self)@ }),
    {
        self.current_tick = tick;
    }

    /// Counts one more tick; the count wraps around at 2^32.
    pub fn increment_current_tick(&mut self)
        ensures
            final(self)@ == (RoundView {
                current_tick: tick_after(old(self)@.current_tick, 1),
                ..old(self)@
            }),
    {
        self.current_tick = self.current_tick.wrapping_add(1);
    }

    pub fn input_delay(&self) -> (delay: u32)
        ensures
            delay == self@.input_delay,
    {
        self.input_delay
    }

    pub fn has_committed_state(&self) -> (committed: bool)
        ensures
            committed == self@.committed_state is Some,
    {
        self.committed_state.is_some()
    }

    /// Anchors the round: stores the state of the player's own game at
    /// `current_tick` together with the shadow's first committed state.
    pub fn set_first_committed_state(
        &mut self,
        current_tick: u32,
        local_state: Vec<u8>,
        remote_state: Vec<u8>,
    )
        ensures
            final(self)@ == (RoundView {
                committed_state: Some(local_state@),
                committed_tick: current_tick,
                shadow_committed_state: Some(remote_state@),
                ..old(self)@
            }),
    {
        self.committed_state = Some(local_state);
        self.committed_tick = current_tick;
        self.shadow_committed_state = Some(remote_state);
    }

    /// Queues a packet that the game has put on the link for `tick`.
    pub fn queue_tx(&mut self, tick: u32, tx: Vec<u8>)
        ensures
            final(self)@ == (RoundView {
                tx_queue: old(self)@.tx_queue.push(OutputView { tick, tx: tx@ }),
                ..old(self)@
            }),
    {
        let ghost before_queue = seq_view(self.tx_queue@);
        let output = Output { tick, tx };
        self.tx_queue.push_back(output);
        assert(seq_view(self.tx_queue@) =~= before_queue.push(output@));
    }

    /// Takes the oldest packet that is queued, if any.
    pub fn take_queued_tx(&mut self) -> (output: Option<Output>)
        ensures
            old(self)@.tx_queue.len() > 0 ==> option_view(output) == Some(old(self)@.tx_queue[0])
                && final(self)@ == (RoundView {
                tx_queue: old(self)@.tx_queue.drop_first(),
                ..old(self)@
            }),
            old(self)@.tx_queue.len() == 0 ==> output is None && final(self)@ == old(self)@,
    {
        let ghost before_queue = seq_view(self.tx_queue@);
        let output = self.tx_queue.pop_front();
        proof {
            if before_queue.len() > 0 {
                assert(seq_view(self.tx_queue@) =~= before_queue.drop_first());
            }
        }
        output
    }

    /// Takes the pair whose packets the game is about to copy.
    pub fn take_last_input(&mut self) -> (pair: Option<InputPair>)
        ensures
            option_view(pair) == old(self)@.last_input,
            final(self)@ == (RoundView { last_input: None, ..old(self)@ }),
    {
        self.last_input.take()
    }

    /// Fills the window of delay: queues one placeholder for each tick from
    /// `current_tick` on, so that the other side has something to pair its
    /// first inputs with. Returns the placeholders, which go to the other
    /// side as they are. Nothing is queued where the queue cannot hold
    /// them all.
    pub fn fill_input_delay(&mut self, current_tick: u32, placeholder_rx: &Vec<u8>) -> (sent: Result<
        Vec<Input>,
        Desync,
    >)
        ensures
            match sent {
                Ok(inputs) => {
                    &&& old(self)@.local_queue.len() + old(self)@.input_delay <= old(
                        self,
                    )@.max_queue_length
                    &&& seq_view(inputs@) == delay_window(
                        current_tick,
                        old(self)@.input_delay,
                        placeholder_rx@,
                    )
                    &&& final(self)@ == (RoundView {
                        local_queue: old(self)@.local_queue + seq_view(inputs@),
                        ..old(self)@
                    })
                },
                Err(err) => {
                    &&& old(self)@.local_queue.len() + old(self)@.input_delay > old(
                        self,
                    )@.max_queue_length
                    &&& err == Desync::LocalQueueFull
                    &&& final(self)@ == old(self)@
                },
            },
    {
        let length: usize = self.local_queue.len();
        if length > self.max_queue_length || self.input_delay as usize > self.max_queue_length
            - length {
            return Err(Desync::LocalQueueFull);
        }
        let mut inputs: Vec<Input> = Vec::new();
        let mut i: u32 = 0;
        let ghost window = delay_window(current_tick, self.input_delay, placeholder_rx@);
        while i < self.input_delay
            invariant
                i <= self.input_delay,
                window == delay_window(current_tick, self.input_delay, placeholder_rx@),
                seq_view(inputs@) == window.take(i as int),
                self@ == (RoundView {
                    local_queue: old(self)@.local_queue + window.take(i as int),
                    ..old(self)@
                }),
            decreases self.input_delay - i,
        {
            let input = Input {
                local_tick: current_tick.wrapping_add(i),
                remote_tick: 0,
                joyflags: 0,
                rx: placeholder_rx.clone(),
            };
            let ghost before_queue = seq_view(self.local_queue@);
            let ghost before_inputs = seq_view(inputs@);
            inputs.push(input.clone());
            self.local_queue.push_back(input);
            proof {
                assert(input@ == window[i as int]);
                assert(seq_view(inputs@) =~= before_inputs.push(input@));
                assert(seq_view(self.local_queue@) =~= before_queue.push(input@));
                assert(window.take(i as int + 1) =~= window.take(i as int).push(window[i as int]));
                assert(old(self)@.local_queue + window.take(i as int + 1) =~= (old(
                    self,
                )@.local_queue + window.take(i as int)).push(input@));
            }
            i = i + 1;
        }
        proof {
            assert(window.take(self.input_delay as int) =~= window);
        }
        Ok(inputs)
    }

    /// Queues the local input of the tick that the game is at. It is
    /// scheduled ahead by the delay, and says which remote input was last
    /// confirmed. Returns a copy to send to the other side. Nothing is
    /// queued where the queue is full.
    pub fn add_local_input(&mut self, current_tick: u32, joyflags: u16, rx: Vec<u8>) -> (sent: Result<
        Input,
        Desync,
    >)
        ensures
            match sent {
                Ok(input) => {
                    &&& old(self)@.local_queue.len() < old(self)@.max_queue_length
                    &&& input@ == (InputView {
                        local_tick: tick_after(current_tick, old(self)@.input_delay as nat),
                        remote_tick: old(self)@.last_committed_remote_input.local_tick,
                        joyflags,
                        rx: rx@,
                    })
                    &&& final(self)@ == (RoundView {
                        local_queue: old(self)@.local_queue.push(input@),
                        ..old(self)@
                    })
                },
                Err(err) => {
                    &&& old(self)@.local_queue.len() >= old(self)@.max_queue_length
                    &&& err == Desync::LocalQueueFull
                    &&& final(self)@ == old(self)@
                },
            },
    {
        if self.local_queue.len() >= self.max_queue_length {
            return Err(Desync::LocalQueueFull);
        }
        let input = Input {
            local_tick: current_tick.wrapping_add(self.input_delay),
            remote_tick: self.last_committed_remote_input.local_tick,
            joyflags,
            rx,
        };
        let copy = input.clone();
        let ghost before_queue = seq_view(self.local_queue@);
        self.local_queue.push_back(input);
        assert(seq_view(self.local_queue@) =~= before_queue.push(input@));
        Ok(copy)
    }

    /// Queues an input that came from the other side. Nothing is queued
    /// where the queue is full.
    pub fn add_remote_input(&mut self, input: Input) -> (queued: bool)
        ensures
            queued == (old(self)@.remote_queue.len() < old(self)@.max_queue_length),
            final(self)@ == if queued {
                RoundView { remote_queue: old(self)@.remote_queue.push(input@), ..old(self)@ }
            } else {
                old(self)@
            },
    {
        if self.remote_queue.len() >= self.max_queue_length {
            return false;
        }
        let ghost before_queue = seq_view(self.remote_queue@);
        self.remote_queue.push_back(input);
        assert(seq_view(self.remote_queue@) =~= before_queue.push(input@));
        true
    }

    /// Plans a fastforward from what the queues hold. The plan gets a copy
    /// of the committed state to start from. The inputs that can be
    /// confirmed leave both queues; where the two inputs of one of them were
    /// scheduled for different ticks, the plan fails with the first such
    /// pair and the round is left as it was. So it is where the round has no
    /// committed state or no local input is due.
    pub fn plan_fastforward(&mut self) -> (planned: Result<Plan, Desync>)
        ensures
            match planned {
                Ok(plan) => {
                    &&& plan_failure(old(self)@) is None
                    &&& plan@ == plan_spec(old(self)@)
                    &&& final(self)@ == round_after_plan(old(self)@)
                    &&& ticks_agree(
                        old(self)@.local_queue,
                        old(self)@.remote_queue,
                        plan@.confirmed.len() as int,
                    )
                },
                Err(err) => {
                    &&& plan_failure(old(self)@) == Some(err)
                    &&& final(self)@ == old(self)@
                },
            },
    {
        let local_length: usize = self.local_queue.len();
        let remote_length: usize = self.remote_queue.len();
        let due: usize = if local_length > self.input_delay as usize {
            local_length - self.input_delay as usize
        } else {
            0
        };
        let committed_state = match &self.committed_state {
            Some(committed_state) => committed_state.clone(),
            None => {
                return Err(Desync::InputsExhausted);
            },
        };
        if due == 0 {
            return Err(Desync::InputsExhausted);
        }
        let count: usize = if due < remote_length {
            due
        } else {
            remote_length
        };
        let ghost before = self@;
        assert(count == before.confirmable() && due == before.due());
        let mut i: usize = 0;
        while i < count
            invariant
                i <= count,
                count <= self.local_queue@.len(),
                count <= self.remote_queue@.len(),
                self@ == before,
                before == old(self)@,
                count == before.confirmable(),
                due == before.due(),
                before.committed_state is Some,
                due > 0,
                ticks_agree(before.local_queue, before.remote_queue, i as int),
            decreases count - i,
        {
            let local_tick: u32 = self.local_queue[i].local_tick;
            let remote_tick: u32 = self.remote_queue[i].local_tick;
            if local_tick != remote_tick {
                proof {
                    let found = i as int;
                    assert(before.local_queue[found].local_tick != before.remote_queue[found].local_tick);
                    assert(!ticks_agree(before.local_queue, before.remote_queue, count as int));
                    let chosen = choose|k: int|
                        0 <= k < count && before.local_queue[k].local_tick
                            != before.remote_queue[k].local_tick && forall|j: int|
                            0 <= j < k ==> before.local_queue[j].local_tick
                                == before.remote_queue[j].local_tick;
                    assert(0 <= chosen < count && before.local_queue[chosen].local_tick
                        != before.remote_queue[chosen].local_tick && forall|j: int|
                        0 <= j < chosen ==> before.local_queue[j].local_tick
                            == before.remote_queue[j].local_tick);
                    assert(chosen == found);
                }
                return Err(
                    Desync::LocalRemoteTick {
                        phase: Phase::ReadJoyflags,
                        in_battle_tick: self.current_tick,
                        local_tick,
                        remote_tick,
                    },
                );
            }
            i = i + 1;
        }
        let mut confirmed: Vec<InputPair> = Vec::new();
        let mut all: VecDeque<InputPair> = VecDeque::new();
        let ghost zip = zipped(before.local_queue, before.remote_queue, count as int);
        let mut taken: usize = 0;
        assert(seq_view(confirmed@) =~= zip.take(0));
        assert(seq_view(all@) =~= zip.take(0));
        assert(before.local_queue.skip(0) =~= before.local_queue);
        assert(before.remote_queue.skip(0) =~= before.remote_queue);
        while taken < count
            invariant
                taken <= count,
                count <= before.local_queue.len(),
                count <= before.remote_queue.len(),
                zip == zipped(before.local_queue, before.remote_queue, count as int),
                seq_view(confirmed@) == zip.take(taken as int),
                seq_view(all@) == zip.take(taken as int),
                self@ == (RoundView {
                    local_queue: before.local_queue.skip(taken as int),
                    remote_queue: before.remote_queue.skip(taken as int),
                    last_committed_remote_input: if taken > 0 {
                        before.remote_queue[taken - 1]
                    } else {
                        before.last_committed_remote_input
                    },
                    ..before
                }),
            decreases count - taken,
        {
            let ghost local_before = seq_view(self.local_queue@);
            let ghost remote_before = seq_view(self.remote_queue@);
            let ghost confirmed_before = seq_view(confirmed@);
            let ghost all_before = seq_view(all@);
            proof {
                assert(local_before == before.local_queue.skip(taken as int));
                assert(remote_before == before.remote_queue.skip(taken as int));
                assert(self.local_queue@.len() == local_before.len());
                assert(self.remote_queue@.len() == remote_before.len());
                assert(local_before[0] == self.local_queue@[0]@);
                assert(remote_before[0] == self.remote_queue@[0]@);
            }
            let local = self.local_queue.pop_front().unwrap();
            let remote = self.remote_queue.pop_front().unwrap();
            self.last_committed_remote_input = remote.clone();
            let pair = Pair { local, remote };
            confirmed.push(pair.duplicate());
            all.push_back(pair);
            proof {
                assert(pair@ == zip[taken as int]);
                assert(seq_view(self.local_queue@) =~= local_before.drop_first());
                assert(seq_view(self.remote_queue@) =~= remote_before.drop_first());
                assert(before.local_queue.skip(taken as int).drop_first()
                    =~= before.local_queue.skip(taken as int + 1));
                assert(before.remote_queue.skip(taken as int).drop_first()
                    =~= before.remote_queue.skip(taken as int + 1));
                assert(seq_view(confirmed@) =~= confirmed_before.push(pair@));
                assert(seq_view(all@) =~= all_before.push(pair@));
                assert(zip.take(taken as int + 1) =~= zip.take(taken as int).push(zip[taken as int]));
            }
            taken = taken + 1;
        }
        let ghost after = round_after_plan(before);
        let ghost left = before.local_queue.subrange(count as int, due as int);
        let ghost guessed = speculated(left, after.last_committed_remote_input);
        proof {
            assert(zip.take(count as int) =~= zip);
            assert(seq_view(all@) =~= zip + guessed.take(0));
            assert(self.local_queue@.len() == seq_view(self.local_queue@).len());
        }
        let mut j: usize = 0;
        while j < due - count
            invariant
                j <= due - count,
                count <= due,
                due <= before.local_queue.len(),
                due - count <= self.local_queue@.len(),
                left == before.local_queue.subrange(count as int, due as int),
                guessed == speculated(left, after.last_committed_remote_input),
                after == round_after_plan(before),
                count == before.confirmable(),
                seq_view(all@) == zip + guessed.take(j as int),
                self@ == after,
            decreases due - count - j,
        {
            proof {
                assert(self.local_queue@.len() == seq_view(self.local_queue@).len());
            }
            let local = self.local_queue[j].clone();
            let remote = Input {
                local_tick: local.local_tick,
                remote_tick: local.remote_tick,
                joyflags: self.last_committed_remote_input.joyflags,
                rx: self.last_committed_remote_input.rx.clone(),
            };
            let pair = Pair { local, remote };
            let ghost all_before = seq_view(all@);
            proof {
                assert(seq_view(self.local_queue@)[j as int] == self.local_queue@[j as int]@);
                assert(after.local_queue[j as int] == left[j as int]);
                assert(pair@ == guessed[j as int]);
            }
            all.push_back(pair);
            proof {
                assert(seq_view(all@) =~= all_before.push(pair@));
                assert(guessed.take(j as int + 1) =~= guessed.take(j as int).push(
                    guessed[j as int],
                ));
                assert(zip + guessed.take(j as int + 1) =~= (zip + guessed.take(j as int)).push(
                    pair@,
                ));
            }
            j = j + 1;
        }
        proof {
            assert(guessed.take((due - count) as int) =~= guessed);
        }
        let total: usize = all.len();
        assert(total == due);
        assert(seq_view(all@).last() == all@[total - 1]@);
        let last_input = all[total - 1].duplicate();
        let commit_time: u32 = (((self.committed_tick as u128) + (count as u128))
            % 0x1_0000_0000u128) as u32;
        let dirty_time: u32 = (((self.committed_tick as u128) + ((total - 1) as u128))
            % 0x1_0000_0000u128) as u32;
        let state = fastforwarder::State::new(
            self.local_player_index(),
            all,
            self.committed_tick,
            commit_time,
            dirty_time,
        );
        Ok(Plan { committed_state, confirmed, last_input, state })
    }

    /// Takes in what a fastforward brought: the committed state that the
    /// next fastforward starts from, the tick it was saved at, and the last
    /// pair that was fed, whose packets the game copies next.
    pub fn finish_fastforward(
        &mut self,
        commit_time: u32,
        committed_state: Vec<u8>,
        last_input: InputPair,
    )
        ensures
            final(self)@ == (RoundView {
                committed_state: Some(committed_state@),
                committed_tick: commit_time,
                last_input: Some(last_input@),
                ..old(self)@
            }),
    {
        self.committed_state = Some(committed_state);
        self.committed_tick = commit_time;
        self.last_input = Some(last_input);
    }
}

/// Every pair that a plan feeds to the game agrees on its tick: the
/// confirmed pairs because the plan would have failed otherwise, the
/// speculated ones because the remote input is predicted for the tick of
/// the local one.
pub proof fn lemma_planned_pairs_agree(round: RoundView)
    requires
        plan_failure(round) is None,
    ensures
        forall|i: int|
            0 <= i < plan_spec(round).confirmed.len() ==> (#[trigger] plan_spec(
                round,
            ).confirmed[i]).local.local_tick == plan_spec(round).confirmed[i].remote.local_tick,
        forall|i: int|
            0 <= i < plan_spec(round).state.input_pairs.len() ==> (#[trigger] plan_spec(
                round,
            ).state.input_pairs[i]).local.local_tick == plan_spec(
                round,
            ).state.input_pairs[i].remote.local_tick,
{
    let count = round.confirmable();
    assert(ticks_agree(round.local_queue, round.remote_queue, count));
}

/// The round in progress, if any, and who won the round before it.
pub struct RoundState {
    pub round: Option<Round>,
    pub won_last_round: bool,
}

/// Mathematical model of a [`RoundState`].
pub struct RoundStateView {
    pub round: Option<RoundView>,
    pub won_last_round: bool,
}

impl View for RoundState {
    type V = RoundStateView;

    open spec fn view(&self) -> RoundStateView {
        RoundStateView { round: option_view(self.round), won_last_round: self.won_last_round }
    }
}

impl RoundState {
    pub fn set_won_last_round(&mut self, did_win: bool)
        ensures
            final(self)@ == (RoundStateView { won_last_round: did_win, ..old(self)@ }),
    {
        self.won_last_round = did_win;
    }

    /// Begins a round. The local player is the first player exactly if the
    /// local side won the round before.
    pub fn start_round(&mut self, input_delay: u32, max_queue_length: usize, placeholder_rx: Vec<u8>)
        ensures
            final(self)@ == (RoundStateView {
                round: Some(
                    fresh_round(
                        old(self)@.won_last_round,
                        input_delay,
                        max_queue_length,
                        placeholder_rx@,
                    ),
                ),
                ..old(self)@
            }),
    {
        let round = Round::new(self.won_last_round, input_delay, max_queue_length, placeholder_rx);
        self.round = Some(round);
    }

    pub fn end_round(&mut self)
        ensures
            final(self)@ == (RoundStateView { round: None, ..old(self)@ }),
    {
        self.round = None;
    }
}

/// A match as the primary side holds it.
pub struct Match {
    match_type: u16,
    is_offerer: bool,
    rng: Mcg128Xsl64,
    round_state: RoundState,
}

/// Mathematical model of a [`Match`]. The random source is left out:
/// nothing can be said of what it will yield.
pub struct MatchView {
    pub match_type: u16,
    /// Whether the local side created the lobby.
    pub is_offerer: bool,
    pub round_state: RoundStateView,
}

impl View for Match {
    type V = MatchView;

    closed spec fn view(&self) -> MatchView {
        MatchView {
            match_type: self.match_type,
            is_offerer: self.is_offerer,
            round_state: self.round_state@,
        }
    }
}

/// The match in which `round` replaces the round in progress.
pub open spec fn match_with_round(match_: MatchView, round: RoundView) -> MatchView {
    MatchView {
        round_state: RoundStateView { round: Some(round), ..match_.round_state },
        ..match_
    }
}

impl Match {
    /// A match outside any round, as if the local side had lost the round
    /// before: its player is the second player of the first round.
    pub fn new(match_type: u16, is_offerer: bool, rng: Mcg128Xsl64) -> (match_: Match)
        ensures
            match_@ == (MatchView {
                match_type,
                is_offerer,
                round_state: RoundStateView { round: None, won_last_round: false },
            }),
            match_.random_source() == rng,
    {
        Match {
            match_type,
            is_offerer,
            rng,
            round_state: RoundState { round: None, won_last_round: false },
        }
    }

    pub fn match_type(&self) -> (match_type: u16)
        ensures
            match_type == self@.match_type,
    {
        self.match_type
    }

    pub fn is_offerer(&self) -> (is_offerer: bool)
        ensures
            is_offerer == self@.is_offerer,
    {
        self.is_offerer
    }

    /// The random source that the match holds. It is no part of the model:
    /// nothing can be said of what it will yield.
    pub closed spec fn random_source(&self) -> Mcg128Xsl64 {
        self.rng
    }

    /// The random source that the match shares with the other side, to draw
    /// from. What the caller leaves of it is what the match holds afterwards;
    /// nothing else changes.
    pub fn lock_rng(&mut self) -> (rng: &mut Mcg128Xsl64)
        ensures
            *rng == old(self).random_source(),
            final(self).random_source() == *final(rng),
            final(self)@ == old(self)@,
    {
        &mut self.rng
    }

    /// The round state, to read.
    pub fn round_state(&self) -> (round_state: &RoundState)
        ensures
            (*round_state)@ == self@.round_state,
    {
        &self.round_state
    }

    /// The round state, to read and to change.
    pub fn lock_round_state(&mut self) -> (round_state: &mut RoundState)
        ensures
            (*round_state)@ == old(self)@.round_state,
            final(self)@ == (MatchView { round_state: (*final(round_state))@, ..old(self)@ }),
    {
        &mut self.round_state
    }
}

} // verus!
