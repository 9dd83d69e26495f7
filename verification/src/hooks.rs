//! The trap runtime. The emulator stops at chosen program counters and asks
//! what to do there. What is to be done is decided here, from what the
//! emulator shows at the trap and from the state of the match, and comes
//! back as a list of effects for the emulator's owner to carry out in order.
//! Each supported game family has its own catalogue of traps.

pub mod bn3;
pub mod bn6;
pub mod primary;

use crate::battle::Match;
use crate::desync::{check_ticks, Desync, Phase};
use crate::fastforwarder;
use crate::input::{joypad_word, joypad_word_spec, Pair};
use crate::replayer;
use crate::shadow;
use crate::shadow::{Output, OutputView, RemoteInput, RemoteInputView, RoundView};
use vstd::prelude::*;

verus! {

/// The behaviours that a trap can have. A catalogue ties each of its program
/// counters to one of them.
#[derive(Clone, Copy, Debug, PartialEq, Eq, Structural)]
pub enum Hook {
    /// Skip the logo on the start screen.
    SkipLogo,
    /// Continue a saved game from the title menu.
    ContinueFromTitleMenu,
    /// Open the comm menu from the overworld.
    OpenCommMenuFromOverworld,
    /// The comm menu is set up: seed both random streams, start the battle.
    CommMenuInit,
    /// The game tells how the round stands for the player.
    RoundOutcome,
    /// The round is over.
    RoundEnd,
    /// A round has begun.
    RoundStart,
    /// The battle asks whether the player is the second player.
    BattleIsP2,
    /// The link asks whether the player is the second player.
    LinkIsP2,
    /// The game reports the state of its copy of the input data.
    CopyDataInputState,
    /// The comm menu tried to handle link cable input itself.
    UnhandledLinkCableInput,
    /// The comm menu sets up a battle: choose settings and background.
    CommMenuInitBattle,
    /// The comm menu is done with the battle.
    CommMenuEndBattle,
    /// The comm menu calls its link cable handler during a battle: skip it.
    SkipLinkCableInputCall,
    /// The game reads the joypad.
    MainReadJoyflags,
    /// The game copies the packets it received.
    CopyInputData,
    /// The game calls its send-and-receive routine while it handles input.
    SendAndReceive,
    /// The comm menu calls its send-and-receive routine.
    CommMenuSendAndReceive,
    /// The game is done handling the input of a tick.
    HandleInputPostCall,
    /// The game is about to set up its serial link: skip it.
    SkipSioInit,
    /// A step of the game's main loop is about to begin.
    Prestep,
    /// A step of the game's main loop is over.
    Poststep,
}

/// The places that a savestate can be asked for.
#[derive(Clone, Copy, Debug, PartialEq, Eq, Structural)]
pub enum StateSlot {
    /// The shadow round's committed state.
    ShadowCommitted,
    /// The shadow's state at the end of a round.
    ShadowApplied,
    /// The fastforwarder's committed state.
    FastforwardCommitted,
    /// The fastforwarder's dirty state.
    FastforwardDirty,
}

/// One thing for the emulator's owner to do. The effects of a trap are
/// carried out in the order in which they are listed.
#[derive(Debug)]
pub enum Effect {
    SkipLogo,
    ContinueFromTitleMenu,
    OpenCommMenuFromOverworld,
    /// Start the battle from the comm menu, with a match type where the game
    /// takes one.
    StartBattleFromCommMenu { match_type: Option<u16> },
    SetRng1State(u32),
    SetRng2State(u32),
    SetLinkBattleSettingsAndBackground(u16),
    /// Write `packet` into the slot of received packets of a player.
    SetRxPacket { player_index: u32, packet: Vec<u8> },
    /// Write a general purpose register.
    SetGpr { register: u8, value: i32 },
    SetPc(u32),
    SetThumbPc(u32),
    /// Save the emulator's state as it is now and store it in the slot.
    SaveState(StateSlot),
    /// Write `bytes` into the game's memory from `address` on.
    WriteRange { address: u32, bytes: Vec<u8> },
    /// Begin a round of the match.
    StartRound,
    /// End the round of the match, then advance the shadow to the end of
    /// its round.
    EndRound,
    EndMatch,
    AbortMatch,
    /// Save the emulator's state, advance the shadow to its first committed
    /// state and store both as the round's first committed state, taken at
    /// this tick.
    CommitFirstState { current_tick: u32 },
    /// Fill the window of delayed inputs, counted from this tick.
    FillInputDelay { current_tick: u32 },
    /// Add the local input of this tick, pair what is confirmed, and
    /// fastforward.
    AddLocalInputAndFastforward { current_tick: u32, joyflags: u16, tx: Vec<u8> },
}

/// Mathematical model of an [`Effect`].
pub enum EffectView {
    SkipLogo,
    ContinueFromTitleMenu,
    OpenCommMenuFromOverworld,
    StartBattleFromCommMenu { match_type: Option<u16> },
    SetRng1State(u32),
    SetRng2State(u32),
    SetLinkBattleSettingsAndBackground(u16),
    SetRxPacket { player_index: u32, packet: Seq<u8> },
    SetGpr { register: u8, value: i32 },
    SetPc(u32),
    SetThumbPc(u32),
    SaveState(StateSlot),
    WriteRange { address: u32, bytes: Seq<u8> },
    StartRound,
    EndRound,
    EndMatch,
    AbortMatch,
    CommitFirstState { current_tick: u32 },
    FillInputDelay { current_tick: u32 },
    AddLocalInputAndFastforward { current_tick: u32, joyflags: u16, tx: Seq<u8> },
}

impl View for Effect {
    type V = EffectView;

    open spec fn view(&self) -> EffectView {
        match self {
            Effect::SkipLogo => EffectView::SkipLogo,
            Effect::ContinueFromTitleMenu => EffectView::ContinueFromTitleMenu,
            Effect::OpenCommMenuFromOverworld => EffectView::OpenCommMenuFromOverworld,
            Effect::StartBattleFromCommMenu { match_type } => EffectView::StartBattleFromCommMenu {
                match_type: *match_type,
            },
            Effect::SetRng1State(state) => EffectView::SetRng1State(*state),
            Effect::SetRng2State(state) => EffectView::SetRng2State(*state),
            Effect::SetLinkBattleSettingsAndBackground(word) => {
                EffectView::SetLinkBattleSettingsAndBackground(*word)
            },
            Effect::SetRxPacket { player_index, packet } => EffectView::SetRxPacket {
                player_index: *player_index,
                packet: packet@,
            },
            Effect::SetGpr { register, value } => EffectView::SetGpr {
                register: *register,
                value: *value,
            },
            Effect::SetPc(pc) => EffectView::SetPc(*pc),
            Effect::SetThumbPc(pc) => EffectView::SetThumbPc(*pc),
            Effect::SaveState(slot) => EffectView::SaveState(*slot),
            Effect::WriteRange { address, bytes } => EffectView::WriteRange {
                address: *address,
                bytes: bytes@,
            },
            Effect::StartRound => EffectView::StartRound,
            Effect::EndRound => EffectView::EndRound,
            Effect::EndMatch => EffectView::EndMatch,
            Effect::AbortMatch => EffectView::AbortMatch,
            Effect::CommitFirstState { current_tick } => EffectView::CommitFirstState {
                current_tick: *current_tick,
            },
            Effect::FillInputDelay { current_tick } => EffectView::FillInputDelay {
                current_tick: *current_tick,
            },
            Effect::AddLocalInputAndFastforward { current_tick, joyflags, tx } => {
                EffectView::AddLocalInputAndFastforward {
                    current_tick: *current_tick,
                    joyflags: *joyflags,
                    tx: tx@,
                }
            },
        }
    }
}

/// The models of a list of effects, in order.
pub open spec fn effects_view(effects: Seq<Effect>) -> Seq<EffectView> {
    effects.map_values(|effect: Effect| effect@)
}

/// What the emulator shows at a trap.
#[derive(Debug)]
pub struct TrapContext {
    /// General purpose register 0.
    pub r0: i32,
    /// General purpose register 15.
    pub r15: i32,
    /// The program counter in thumb mode.
    pub thumb_pc: u32,
    /// The tick that the game itself counts, where it counts one.
    pub current_tick: u32,
    /// Whether the game is linked to its opponent.
    pub is_linking: bool,
    /// The buttons that the local player holds.
    pub joyflags: u32,
    /// The packet that the game has put on the link.
    pub tx_packet: Vec<u8>,
}

/// Mathematical model of a [`TrapContext`].
pub struct TrapContextView {
    pub r0: i32,
    pub r15: i32,
    pub thumb_pc: u32,
    pub current_tick: u32,
    pub is_linking: bool,
    pub joyflags: u32,
    pub tx_packet: Seq<u8>,
}

impl View for TrapContext {
    type V = TrapContextView;

    open spec fn view(&self) -> TrapContextView {
        TrapContextView {
            r0: self.r0,
            r15: self.r15,
            thumb_pc: self.thumb_pc,
            current_tick: self.current_tick,
            is_linking: self.is_linking,
            joyflags: self.joyflags,
            tx_packet: self.tx_packet@,
        }
    }
}

/// A program counter moved on by `by`, modulo 2^32.
pub open spec fn pc_after(pc: u32, by: u32) -> u32 {
    ((pc + by) % 0x1_0000_0000) as u32
}

/// The effects that skip a call of four bytes in thumb mode and answer it
/// with 3 in register 0.
pub open spec fn skip_call_spec(thumb_pc: u32) -> Seq<EffectView> {
    seq![
        EffectView::SetThumbPc(pc_after(thumb_pc, 4)),
        EffectView::SetGpr { register: 0, value: 3 },
    ]
}

/// The effects that write the packets of a pair: the local side's packet
/// into the local player's slot, then the other into the remote player's.
pub open spec fn write_packets_spec(
    local_player_index: u8,
    local_rx: Seq<u8>,
    remote_rx: Seq<u8>,
) -> Seq<EffectView> {
    seq![
        EffectView::SetRxPacket { player_index: local_player_index as u32, packet: local_rx },
        EffectView::SetRxPacket {
            player_index: (1 - local_player_index) as u32,
            packet: remote_rx,
        },
    ]
}

/// The effect that answers the question whether the player is the second
/// player.
pub open spec fn answer_is_p2_spec(player_index: u8) -> Seq<EffectView> {
    seq![EffectView::SetGpr { register: 0, value: player_index as i32 }]
}

/// The effect that hands `joyflags` to the game in register 4.
pub open spec fn inject_joyflags_spec(joyflags: u16) -> Seq<EffectView> {
    seq![EffectView::SetGpr { register: 4, value: joypad_word_spec(joyflags) as i32 }]
}

/// What a trap does that helps an emulator reach a battle by itself: the
/// logo is skipped, the saved game is continued, the comm menu is opened.
/// No other trap does anything here.
pub open spec fn common_trap_spec(hook: Hook) -> Seq<EffectView> {
    match hook {
        Hook::SkipLogo => seq![EffectView::SkipLogo],
        Hook::ContinueFromTitleMenu => seq![EffectView::ContinueFromTitleMenu],
        Hook::OpenCommMenuFromOverworld => seq![EffectView::OpenCommMenuFromOverworld],
        _ => Seq::empty(),
    }
}

/// A trap that helps an emulator reach a battle by itself.
pub fn common_trap(hook: Hook) -> (effects: Vec<Effect>)
    ensures
        effects_view(effects@) == common_trap_spec(hook),
{
    match hook {
        Hook::SkipLogo => one_effect(Effect::SkipLogo),
        Hook::ContinueFromTitleMenu => one_effect(Effect::ContinueFromTitleMenu),
        Hook::OpenCommMenuFromOverworld => one_effect(Effect::OpenCommMenuFromOverworld),
        _ => no_effects(),
    }
}

/// Skips a call of four bytes in thumb mode and answers it with 3.
pub fn skip_call(thumb_pc: u32) -> (effects: Vec<Effect>)
    ensures
        effects_view(effects@) == skip_call_spec(thumb_pc),
{
    let mut effects: Vec<Effect> = Vec::new();
    effects.push(Effect::SetThumbPc(thumb_pc.wrapping_add(4)));
    effects.push(Effect::SetGpr { register: 0, value: 3 });
    assert(effects_view(effects@) =~= skip_call_spec(thumb_pc));
    effects
}

/// Appends to `effects` the writes of the packets of a pair.
pub(crate) fn push_write_packets(
    effects: &mut Vec<Effect>,
    local_player_index: u8,
    local_rx: &Vec<u8>,
    remote_rx: &Vec<u8>,
)
    requires
        local_player_index <= 1,
    ensures
        effects_view(final(effects)@) == effects_view(old(effects)@) + write_packets_spec(
            local_player_index,
            local_rx@,
            remote_rx@,
        ),
{
    let ghost before = effects_view(effects@);
    effects.push(
        Effect::SetRxPacket { player_index: local_player_index as u32, packet: local_rx.clone() },
    );
    effects.push(
        Effect::SetRxPacket {
            player_index: (1 - local_player_index) as u32,
            packet: remote_rx.clone(),
        },
    );
    assert(effects_view(effects@) =~= before + write_packets_spec(
        local_player_index,
        local_rx@,
        remote_rx@,
    ));
}

/// Appends one effect to `effects`.
pub fn push_effect(effects: &mut Vec<Effect>, effect: Effect)
    ensures
        effects_view(final(effects)@) == effects_view(old(effects)@).push(effect@),
{
    let ghost before = effects_view(effects@);
    effects.push(effect);
    assert(effects_view(effects@) =~= before.push(effect@));
}

/// A list of one effect.
pub fn one_effect(effect: Effect) -> (effects: Vec<Effect>)
    ensures
        effects_view(effects@) == seq![effect@],
{
    let mut effects: Vec<Effect> = Vec::new();
    effects.push(effect);
    assert(effects_view(effects@) =~= seq![effect@]);
    effects
}

/// The effects of `first`, then those of `second`.
pub fn join_effects(first: Vec<Effect>, second: Vec<Effect>) -> (effects: Vec<Effect>)
    ensures
        effects_view(effects@) == effects_view(first@) + effects_view(second@),
{
    let mut effects = first;
    let mut rest = second;
    effects.append(&mut rest);
    assert(effects_view(effects@) =~= effects_view(first@) + effects_view(second@));
    effects
}

/// A list of no effects.
pub fn no_effects() -> (effects: Vec<Effect>)
    ensures
        effects_view(effects@) == Seq::<EffectView>::empty(),
{
    let effects: Vec<Effect> = Vec::new();
    assert(effects_view(effects@) =~= Seq::<EffectView>::empty());
    effects
}

/// What the shadow's read-joyflags trap does to a round at `current_tick`
/// when the game has `tx` on the link: the round it leaves, the desync it
/// found, and its effects.
///
/// A round without a first committed state gets one, and an output for the
/// tick. Later, the pair that was handed in is consumed: its ticks must be
/// the game's, the shadow's own packet in it becomes `tx`, and the shadow's
/// own buttons go to the game. Where packets were written since the last
/// savestate, another is asked for, together with an output for the tick.
pub open spec fn shadow_read_joyflags_spec(round: RoundView, current_tick: u32, tx: Seq<u8>) -> (
    RoundView,
    Option<Desync>,
    Seq<EffectView>,
) {
    if !round.first_state_committed {
        (
            RoundView { output: Some(OutputView { tick: current_tick, tx }), ..round },
            None,
            seq![EffectView::SaveState(StateSlot::ShadowCommitted)],
        )
    } else {
        let taken = RoundView { input: None, ..round };
        match round.input {
            Some(ip) => match crate::desync::tick_check_spec(
                Phase::ReadJoyflags,
                ip.local.tick,
                ip.remote.tick,
                current_tick,
            ) {
                Some(err) => (taken, Some(err), Seq::<EffectView>::empty()),
                None => shadow_commit_if_injected_spec(
                    RoundView {
                        pending_input: Some(
                            Pair {
                                local: ip.local,
                                remote: RemoteInputView { rx: tx, ..ip.remote },
                            },
                        ),
                        ..taken
                    },
                    current_tick,
                    tx,
                    inject_joyflags_spec(ip.remote.joyflags),
                ),
            },
            None => shadow_commit_if_injected_spec(
                taken,
                current_tick,
                tx,
                Seq::<EffectView>::empty(),
            ),
        }
    }
}

/// The end of the shadow's read-joyflags trap: where packets were written
/// since the last savestate, ask for another and emit an output.
pub open spec fn shadow_commit_if_injected_spec(
    round: RoundView,
    current_tick: u32,
    tx: Seq<u8>,
    effects: Seq<EffectView>,
) -> (RoundView, Option<Desync>, Seq<EffectView>) {
    if round.input_injected {
        (
            RoundView {
                input_injected: false,
                output: Some(OutputView { tick: current_tick, tx }),
                ..round
            },
            None,
            effects.push(EffectView::SaveState(StateSlot::ShadowCommitted)),
        )
    } else {
        (round, None, effects)
    }
}

/// What the shadow's copy-input trap does to a round at `current_tick`.
///
/// Without a consumed pair nothing happens, and neither does it where the
/// game is exactly one tick past the pair. Otherwise the pair's ticks must
/// be the game's; then both packets are written and the round remembers it.
pub open spec fn shadow_copy_input_data_spec(round: RoundView, current_tick: u32) -> (
    RoundView,
    Option<Desync>,
    Seq<EffectView>,
) {
    match round.pending_input {
        None => (round, None, Seq::<EffectView>::empty()),
        Some(ip) => if ip.local.tick + 1 == current_tick {
            (round, None, Seq::<EffectView>::empty())
        } else {
            match crate::desync::tick_check_spec(
                Phase::CopyInputData,
                ip.local.tick,
                ip.remote.tick,
                current_tick,
            ) {
                Some(err) => (round, Some(err), Seq::<EffectView>::empty()),
                None => (
                    RoundView { input_injected: true, ..round },
                    None,
                    write_packets_spec(round.local_player_index(), ip.local.rx, ip.remote.rx),
                ),
            }
        },
    }
}

/// The state of the shadow after a trap worked on its round.
pub open spec fn shadow_after_trap(
    state: shadow::StateView,
    round: RoundView,
    err: Option<Desync>,
) -> shadow::StateView {
    shadow::StateView {
        round_state: shadow::RoundStateView { round: Some(round), ..state.round_state },
        error: if err is Some {
            err
        } else {
            state.error
        },
        ..state
    }
}

/// The shadow's read-joyflags trap on a round.
pub fn shadow_read_joyflags(round: &mut shadow::Round, current_tick: u32, tx: &Vec<u8>) -> (done: (
    Option<Desync>,
    Vec<Effect>,
))
    ensures
        (final(round)@, done.0, effects_view(done.1@)) == shadow_read_joyflags_spec(
            old(round)@,
            current_tick,
            tx@,
        ),
{
    let mut effects = no_effects();
    if !round.has_first_committed_state() {
        round.set_output(Output { tick: current_tick, tx: tx.clone() });
        push_effect(&mut effects, Effect::SaveState(StateSlot::ShadowCommitted));
        assert(effects_view(effects@) =~= seq![
            EffectView::SaveState(StateSlot::ShadowCommitted),
        ]);
        return (None, effects);
    }
    if let Some(ip) = round.take_input() {
        if let Some(err) = check_ticks(
            Phase::ReadJoyflags,
            ip.local.tick,
            ip.remote.tick,
            current_tick,
        ) {
            return (Some(err), effects);
        }
        let joyflags: u16 = ip.remote.joyflags;
        round.set_pending_input(
            Pair {
                local: ip.local,
                remote: RemoteInput { tick: ip.remote.tick, joyflags, rx: tx.clone() },
            },
        );
        push_effect(&mut effects, Effect::SetGpr { register: 4, value: joypad_word(joyflags) as i32 });
        assert(effects_view(effects@) =~= inject_joyflags_spec(joyflags));
    }
    if round.take_input_injected() {
        round.set_output(Output { tick: current_tick, tx: tx.clone() });
        push_effect(&mut effects, Effect::SaveState(StateSlot::ShadowCommitted));
    }
    (None, effects)
}

/// The shadow's copy-input trap on a round.
pub fn shadow_copy_input_data(round: &mut shadow::Round, current_tick: u32) -> (done: (
    Option<Desync>,
    Vec<Effect>,
))
    ensures
        (final(round)@, done.0, effects_view(done.1@)) == shadow_copy_input_data_spec(
            old(round)@,
            current_tick,
        ),
{
    let mut effects = no_effects();
    let local_player_index: u8 = round.local_player_index();
    match round.peek_pending_input() {
        None => {
            return (None, effects);
        },
        Some(ip) => {
            if ip.local.tick < u32::MAX && ip.local.tick + 1 == current_tick {
                return (None, effects);
            }
            if let Some(err) = check_ticks(
                Phase::CopyInputData,
                ip.local.tick,
                ip.remote.tick,
                current_tick,
            ) {
                return (Some(err), effects);
            }
            push_write_packets(&mut effects, local_player_index, &ip.local.rx, &ip.remote.rx);
            assert(effects_view(effects@) =~= write_packets_spec(
                local_player_index,
                ip.local.rx@,
                ip.remote.rx@,
            ));
        },
    }
    round.set_input_injected();
    (None, effects)
}

/// What the fastforwarder's read-joyflags trap does at `current_tick`.
///
/// At the tick of the commit a savestate is asked for first. Then the next
/// pair is looked at: with none left the fastforward is exhausted; its
/// ticks must be the game's; the local buttons go to the game; and at the
/// tick of the dirty state a savestate is asked for last.
pub open spec fn fastforwarder_read_joyflags_spec(
    state: fastforwarder::StateView,
    current_tick: u32,
) -> (fastforwarder::StateView, Seq<EffectView>) {
    let committing = if current_tick == state.commit_time {
        seq![EffectView::SaveState(StateSlot::FastforwardCommitted)]
    } else {
        Seq::<EffectView>::empty()
    };
    if state.input_pairs.len() == 0 {
        (fastforwarder::StateView { exhausted: true, ..state }, committing)
    } else {
        let ip = state.input_pairs[0];
        match crate::desync::tick_check_spec(
            Phase::ReadJoyflags,
            ip.local.local_tick,
            ip.remote.local_tick,
            current_tick,
        ) {
            Some(err) => (fastforwarder::StateView { error: Some(err), ..state }, committing),
            None => (
                state,
                committing + inject_joyflags_spec(ip.local.joyflags) + if current_tick
                    == state.dirty_time {
                    seq![EffectView::SaveState(StateSlot::FastforwardDirty)]
                } else {
                    Seq::<EffectView>::empty()
                },
            ),
        }
    }
}

/// What the fastforwarder's copy-input trap does at `current_tick`: the
/// next pair is taken; its ticks must be the game's; both packets are
/// written.
pub open spec fn fastforwarder_copy_input_data_spec(
    state: fastforwarder::StateView,
    current_tick: u32,
) -> (fastforwarder::StateView, Seq<EffectView>) {
    if state.input_pairs.len() == 0 {
        (state, Seq::<EffectView>::empty())
    } else {
        let ip = state.input_pairs[0];
        let popped = fastforwarder::StateView {
            input_pairs: state.input_pairs.drop_first(),
            ..state
        };
        match crate::desync::tick_check_spec(
            Phase::CopyInputData,
            ip.local.local_tick,
            ip.remote.local_tick,
            current_tick,
        ) {
            Some(err) => (
                fastforwarder::StateView { error: Some(err), ..popped },
                Seq::<EffectView>::empty(),
            ),
            None => (
                popped,
                write_packets_spec(state.local_player_index(), ip.local.rx, ip.remote.rx),
            ),
        }
    }
}

/// The fastforwarder's read-joyflags trap.
pub fn fastforwarder_read_joyflags(state: &mut fastforwarder::State, current_tick: u32) -> (effects:
    Vec<Effect>)
    ensures
        (final(state)@, effects_view(effects@)) == fastforwarder_read_joyflags_spec(
            old(state)@,
            current_tick,
        ),
{
    let mut effects = no_effects();
    if current_tick == state.commit_time() {
        push_effect(&mut effects, Effect::SaveState(StateSlot::FastforwardCommitted));
        assert(effects_view(effects@) =~= seq![
            EffectView::SaveState(StateSlot::FastforwardCommitted),
        ]);
    }
    let ghost committing = effects_view(effects@);
    let ip = match state.peek_input_pair() {
        Some(ip) => ip,
        None => {
            state.on_inputs_exhausted();
            return effects;
        },
    };
    if let Some(err) = check_ticks(
        Phase::ReadJoyflags,
        ip.local.local_tick,
        ip.remote.local_tick,
        current_tick,
    ) {
        state.set_error(err);
        return effects;
    }
    push_effect(
        &mut effects,
        Effect::SetGpr { register: 4, value: joypad_word(ip.local.joyflags) as i32 },
    );
    assert(effects_view(effects@) =~= committing + inject_joyflags_spec(ip.local.joyflags));
    if current_tick == state.dirty_time() {
        push_effect(&mut effects, Effect::SaveState(StateSlot::FastforwardDirty));
        assert(effects_view(effects@) =~= committing + inject_joyflags_spec(ip.local.joyflags)
            + seq![EffectView::SaveState(StateSlot::FastforwardDirty)]);
    } else {
        assert(effects_view(effects@) =~= committing + inject_joyflags_spec(ip.local.joyflags)
            + Seq::<EffectView>::empty());
    }
    effects
}

/// The fastforwarder's copy-input trap.
pub fn fastforwarder_copy_input_data(state: &mut fastforwarder::State, current_tick: u32) -> (effects:
    Vec<Effect>)
    ensures
        (final(state)@, effects_view(effects@)) == fastforwarder_copy_input_data_spec(
            old(state)@,
            current_tick,
        ),
{
    let mut effects = no_effects();
    let ip = match state.pop_input_pair() {
        Some(ip) => ip,
        None => {
            return effects;
        },
    };
    if let Some(err) = check_ticks(
        Phase::CopyInputData,
        ip.local.local_tick,
        ip.remote.local_tick,
        current_tick,
    ) {
        state.set_error(err);
        return effects;
    }
    push_write_packets(&mut effects, state.local_player_index(), &ip.local.rx, &ip.remote.rx);
    assert(effects_view(effects@) =~= write_packets_spec(
        state@.local_player_index(),
        ip.local.rx@,
        ip.remote.rx@,
    ));
    effects
}

/// What the replayer's read-joyflags trap does at `current_tick`: the next
/// pair is looked at; with none left the replay is exhausted; its ticks
/// must be the game's; the local buttons go to the game.
pub open spec fn replayer_read_joyflags_spec(state: replayer::StateView, current_tick: u32) -> (
    replayer::StateView,
    Seq<EffectView>,
) {
    if state.input_pairs.len() == 0 {
        (replayer::StateView { exhausted: true, ..state }, Seq::<EffectView>::empty())
    } else {
        let ip = state.input_pairs[0];
        match crate::desync::tick_check_spec(
            Phase::ReadJoyflags,
            ip.local.local_tick,
            ip.remote.local_tick,
            current_tick,
        ) {
            Some(err) => (
                replayer::StateView { error: Some(err), ..state },
                Seq::<EffectView>::empty(),
            ),
            None => (state, inject_joyflags_spec(ip.local.joyflags)),
        }
    }
}

/// What the replayer's copy-input trap does at `current_tick`: the next
/// pair is taken; its ticks must be the game's; both packets are written.
pub open spec fn replayer_copy_input_data_spec(state: replayer::StateView, current_tick: u32) -> (
    replayer::StateView,
    Seq<EffectView>,
) {
    if state.input_pairs.len() == 0 {
        (state, Seq::<EffectView>::empty())
    } else {
        let ip = state.input_pairs[0];
        let popped = replayer::StateView { input_pairs: state.input_pairs.drop_first(), ..state };
        match crate::desync::tick_check_spec(
            Phase::CopyInputData,
            ip.local.local_tick,
            ip.remote.local_tick,
            current_tick,
        ) {
            Some(err) => (
                replayer::StateView { error: Some(err), ..popped },
                Seq::<EffectView>::empty(),
            ),
            None => (
                popped,
                write_packets_spec(state.local_player_index(), ip.local.rx, ip.remote.rx),
            ),
        }
    }
}

/// What the end of the round does to a replayer: 1 in register 0 says that
/// the player has won, 2 that the player has lost, anything else that
/// nobody has; and the round is over.
pub open spec fn replayer_round_end_spec(state: replayer::StateView, r0: i32) -> replayer::StateView {
    replayer::StateView {
        round_result: Some(
            if r0 == 1 {
                replayer::BattleResult::Win
            } else if r0 == 2 {
                replayer::BattleResult::Loss
            } else {
                replayer::BattleResult::Draw
            },
        ),
        round_ended: true,
        ..state
    }
}

/// The replayer's read-joyflags trap.
pub fn replayer_read_joyflags(state: &mut replayer::State, current_tick: u32) -> (effects: Vec<
    Effect,
>)
    ensures
        (final(state)@, effects_view(effects@)) == replayer_read_joyflags_spec(
            old(state)@,
            current_tick,
        ),
{
    let mut effects = no_effects();
    let ip = match state.peek_input_pair() {
        Some(ip) => ip,
        None => {
            state.on_inputs_exhausted();
            return effects;
        },
    };
    if let Some(err) = check_ticks(
        Phase::ReadJoyflags,
        ip.local.local_tick,
        ip.remote.local_tick,
        current_tick,
    ) {
        state.set_error(err);
        return effects;
    }
    push_effect(
        &mut effects,
        Effect::SetGpr { register: 4, value: joypad_word(ip.local.joyflags) as i32 },
    );
    assert(effects_view(effects@) =~= inject_joyflags_spec(ip.local.joyflags));
    effects
}

/// The replayer's copy-input trap.
pub fn replayer_copy_input_data(state: &mut replayer::State, current_tick: u32) -> (effects: Vec<
    Effect,
>)
    ensures
        (final(state)@, effects_view(effects@)) == replayer_copy_input_data_spec(
            old(state)@,
            current_tick,
        ),
{
    let mut effects = no_effects();
    let ip = match state.pop_input_pair() {
        Some(ip) => ip,
        None => {
            return effects;
        },
    };
    if let Some(err) = check_ticks(
        Phase::CopyInputData,
        ip.local.local_tick,
        ip.remote.local_tick,
        current_tick,
    ) {
        state.set_error(err);
        return effects;
    }
    push_write_packets(&mut effects, state.local_player_index(), &ip.local.rx, &ip.remote.rx);
    assert(effects_view(effects@) =~= write_packets_spec(
        state@.local_player_index(),
        ip.local.rx@,
        ip.remote.rx@,
    ));
    effects
}

/// The trap at which a replayed round ends.
pub fn replayer_round_end(state: &mut replayer::State, r0: i32)
    ensures
        final(state)@ == replayer_round_end_spec(old(state)@, r0),
{
    let result = if r0 == 1 {
        replayer::BattleResult::Win
    } else if r0 == 2 {
        replayer::BattleResult::Loss
    } else {
        replayer::BattleResult::Draw
    };
    state.set_round_result(result);
    state.on_round_ended();
}

/// The game families that have a trap catalogue.
#[derive(Clone, Copy, Debug, PartialEq, Eq, Structural)]
pub enum Family {
    BN3,
    BN6,
}

/// The family of the game with the given title, if it has a catalogue.
pub open spec fn family_of_spec(title: Seq<char>) -> Option<Family> {
    if title == "MEGAMAN6_FXX"@ || title == "MEGAMAN6_GXX"@ || title == "ROCKEXE6_RXX"@ || title
        == "ROCKEXE6_GXX"@ {
        Some(Family::BN6)
    } else if title == "MEGA_EXE3_BLA3XE"@ {
        Some(Family::BN3)
    } else {
        None
    }
}

/// Looks up the family of a game by the title in its header.
pub fn family_of(title: &str) -> (family: Option<Family>)
    ensures
        family == family_of_spec(title@),
{
    if str_eq(title, "MEGAMAN6_FXX") || str_eq(title, "MEGAMAN6_GXX") || str_eq(
        title,
        "ROCKEXE6_RXX",
    ) || str_eq(title, "ROCKEXE6_GXX") {
        Some(Family::BN6)
    } else if str_eq(title, "MEGA_EXE3_BLA3XE") {
        Some(Family::BN3)
    } else {
        None
    }
}

/// Compares two strings.
fn str_eq(left: &str, right: &str) -> (same: bool)
    ensures
        same == (left@ == right@),
{
    let a: String = left.to_owned();
    let b: String = right.to_owned();
    a == b
}

/// What a game family offers: its catalogues of traps, one for each kind of
/// emulator, what each trap decides, and what else depends on the game.
pub trait Hooks {
    /// Traps for every emulator that is to reach a battle by itself.
    fn common_traps(&self) -> Vec<(u32, Hook)>;

    /// Traps for the player's own game.
    fn primary_traps(&self) -> Vec<(u32, Hook)>;

    /// Traps for the shadow.
    fn shadow_traps(&self) -> Vec<(u32, Hook)>;

    /// Traps for the fastforwarder.
    fn fastforwarder_traps(&self) -> Vec<(u32, Hook)>;

    /// Traps for the replayer.
    fn replayer_traps(&self) -> Vec<(u32, Hook)>;

    /// What a trap for reaching a battle does.
    fn handle_common_trap(&self, hook: Hook) -> Vec<Effect>;

    /// What a trap of the player's own game does.
    fn handle_primary_trap(&self, hook: Hook, ctx: &TrapContext, match_: &mut Option<Match>) -> Vec<
        Effect,
    >;

    /// What a trap of the shadow does.
    fn handle_shadow_trap(&self, hook: Hook, ctx: &TrapContext, state: &mut shadow::State) -> Vec<
        Effect,
    >;

    /// What a trap of the fastforwarder does.
    fn handle_fastforwarder_trap(
        &self,
        hook: Hook,
        ctx: &TrapContext,
        state: &mut fastforwarder::State,
    ) -> Vec<Effect>;

    /// What a trap of the replayer does.
    fn handle_replayer_trap(
        &self,
        hook: Hook,
        ctx: &TrapContext,
        state: &mut replayer::State,
    ) -> Vec<Effect>;

    /// The packet that stands for one that has not come yet.
    fn placeholder_rx(&self) -> Vec<u8>;

    /// How to put a scratch emulator where a fastforward begins.
    fn prepare_for_fastforward(&self) -> Effect;

    /// How to show `name` as the opponent's name.
    fn replace_opponent_name(&self, name: &str) -> Vec<Effect>;
}

/// A pair that the fastforwarder consumes without finding fault agrees on
/// its tick: both of its inputs were scheduled for the tick that the game
/// is at, when the joypad is read and when the packets are copied.
pub proof fn lemma_consumed_pairs_agree(state: fastforwarder::StateView, current_tick: u32)
    requires
        state.error is None,
        state.input_pairs.len() > 0,
    ensures
        fastforwarder_read_joyflags_spec(state, current_tick).0.error is None ==> {
            &&& state.input_pairs[0].local.local_tick == state.input_pairs[0].remote.local_tick
            &&& state.input_pairs[0].local.local_tick == current_tick
        },
        fastforwarder_copy_input_data_spec(state, current_tick).0.error is None ==> {
            &&& state.input_pairs[0].local.local_tick == state.input_pairs[0].remote.local_tick
            &&& state.input_pairs[0].local.local_tick == current_tick
        },
{
}

/// The slots of received packets after effects were carried out in order.
/// Only the writes of packets touch the slots.
pub open spec fn slots_after(slots: Map<u32, Seq<u8>>, effects: Seq<EffectView>) -> Map<
    u32,
    Seq<u8>,
>
    decreases effects.len(),
{
    if effects.len() == 0 {
        slots
    } else {
        let before = slots_after(slots, effects.drop_last());
        match effects.last() {
            EffectView::SetRxPacket { player_index, packet } => before.insert(player_index, packet),
            _ => before,
        }
    }
}

/// The shadow on one side feeds its game what the other side's own game is
/// fed. Take a pair as the shadow holds it and the same pair as the other
/// side holds it, with the sides swapped, and let the local player of the
/// one be the remote player of the other. Then both games are asked the
/// same buttons, find the same packets in the same slots, and get the same
/// answer to the question which player they are.
pub proof fn lemma_shadow_mirrors_primary(
    round: RoundView,
    other: fastforwarder::StateView,
    current_tick: u32,
    slots: Map<u32, Seq<u8>>,
)
    requires
        round.first_state_committed,
        round.input is Some,
        other.input_pairs.len() > 0,
        other.local_is_second != round.local_is_second,
        round.input->0.local.tick == current_tick,
        round.input->0.remote.tick == current_tick,
        other.input_pairs[0].local.local_tick == current_tick,
        other.input_pairs[0].remote.local_tick == current_tick,
        other.input_pairs[0].local.joyflags == round.input->0.remote.joyflags,
        other.input_pairs[0].remote.rx == round.input->0.local.rx,
    ensures
        ({
            let tx = other.input_pairs[0].local.rx;
            let (read, _, read_effects) = shadow_read_joyflags_spec(round, current_tick, tx);
            let (_, _, copy_effects) = shadow_copy_input_data_spec(read, current_tick);
            let (_, other_read_effects) = fastforwarder_read_joyflags_spec(other, current_tick);
            let (_, other_copy_effects) = fastforwarder_copy_input_data_spec(other, current_tick);
            &&& read_effects.len() > 0
            &&& read_effects[0] == inject_joyflags_spec(round.input->0.remote.joyflags)[0]
            &&& other_read_effects.contains(read_effects[0])
            &&& slots_after(slots, copy_effects) == slots_after(slots, other_copy_effects)
            &&& answer_is_p2_spec(round.remote_player_index()) == answer_is_p2_spec(
                other.local_player_index(),
            )
        }),
{
    let tx = other.input_pairs[0].local.rx;
    let ip = round.input->0;
    let (read, _, read_effects) = shadow_read_joyflags_spec(round, current_tick, tx);
    let (_, _, copy_effects) = shadow_copy_input_data_spec(read, current_tick);
    let (_, other_copy_effects) = fastforwarder_copy_input_data_spec(other, current_tick);
    let (_, other_read_effects) = fastforwarder_read_joyflags_spec(other, current_tick);
    let at = if current_tick == other.commit_time {
        1int
    } else {
        0int
    };
    assert(other_read_effects[at] == inject_joyflags_spec(ip.remote.joyflags)[0]);
    let local = round.local_player_index() as u32;
    let remote = round.remote_player_index() as u32;
    assert(copy_effects == write_packets_spec(round.local_player_index(), ip.local.rx, tx));
    assert(other_copy_effects == write_packets_spec(
        other.local_player_index(),
        tx,
        ip.local.rx,
    ));
    reveal_with_fuel(slots_after, 3);
    assert(copy_effects.drop_last().drop_last() =~= Seq::<EffectView>::empty());
    assert(other_copy_effects.drop_last().drop_last() =~= Seq::<EffectView>::empty());
    assert(slots_after(slots, copy_effects) =~= slots.insert(local, ip.local.rx).insert(remote, tx));
    assert(slots_after(slots, other_copy_effects) =~= slots.insert(remote, tx).insert(
        local,
        ip.local.rx,
    ));
    assert(slots.insert(local, ip.local.rx).insert(remote, tx) =~= slots.insert(remote, tx).insert(
        local,
        ip.local.rx,
    ));
}

} // verus!
