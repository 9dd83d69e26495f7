//! The trap catalogue of the third game of the series. This game counts no
//! ticks of its own: the round, the fastforwarder and the replayer count
//! them, one at each trap that follows the handling of a tick's input.

use crate::battle::{match_with_round, Match, MatchView, RoundView};
use crate::fastforwarder;
use crate::hooks::primary::{
    draw_seeds, is_p2, is_p2_spec, read_joyflags, read_joyflags_spec, round_of, seeds_streams,
};
use crate::hooks::{
    answer_is_p2_spec, common_trap, common_trap_spec, effects_view, fastforwarder_copy_input_data,
    fastforwarder_copy_input_data_spec, fastforwarder_read_joyflags,
    fastforwarder_read_joyflags_spec, join_effects, no_effects, one_effect, push_effect,
    replayer_copy_input_data, replayer_copy_input_data_spec, replayer_read_joyflags,
    replayer_read_joyflags_spec, shadow_after_trap, shadow_copy_input_data,
    shadow_copy_input_data_spec, shadow_read_joyflags, shadow_read_joyflags_spec, skip_call,
    skip_call_spec, Effect, EffectView, Hook, Hooks, TrapContext, TrapContextView,
};
use crate::input::{option_view, tick_after};
use crate::replayer;
use crate::shadow;
use crate::shadow::OutputView;
use vstd::prelude::*;

verus! {

/// Where the game is about to set up its serial link.
pub const SIO_INIT_CALL: u32 = 0x0803_e976;

/// Where a step of the game's main loop is over.
pub const MAIN_LOOP_POSTSTEP: u32 = 0x0800_6440;

/// Where a step of the game's main loop is about to begin.
pub const MAIN_LOOP_PRESTEP: u32 = 0x0800_643a;

/// Where the traps of one version of the game lie in its program.
#[derive(Clone, Copy, Debug, PartialEq, Eq, Structural)]
pub struct RomOffsets {
    pub start_screen_jump_table_entry: u32,
    pub start_screen_sram_unmask_ret: u32,
    pub game_load_ret: u32,
    pub comm_menu_init_ret: u32,
    pub round_start_ret: u32,
    pub battle_is_p2_ret: u32,
    pub link_is_p2_ret: u32,
    pub main_read_joyflags: u32,
    pub handle_input_init_send_and_receive_call: u32,
    pub handle_input_update_send_and_receive_call: u32,
    pub handle_input_deinit_send_and_receive_call: u32,
    pub comm_menu_send_and_receive_call: u32,
    pub handle_input_post_call: u32,
}

/// The addresses that the catalogue of one version of the game is built on.
#[derive(Clone, Copy, Debug, PartialEq, Eq, Structural)]
pub struct Offsets {
    pub rom: RomOffsets,
}

/// The catalogue of one version of the game.
#[derive(Clone, Copy, Debug, PartialEq, Eq, Structural)]
pub struct BN3 {
    offsets: Offsets,
}

/// The packet that stands for one that has not come yet.
pub open spec fn placeholder_rx_spec() -> Seq<u8> {
    seq![
        0x01u8, 0x00, 0x00, 0xff, 0x06, 0xff, 0xff, 0xff, 0x00, 0x00, 0x00, 0x00, 0x00, 0x00,
        0x00, 0x00,
    ]
}

/// The traps for every emulator that is to reach a battle by itself.
pub open spec fn common_table(rom: RomOffsets) -> Seq<(u32, Hook)> {
    seq![
        (rom.start_screen_jump_table_entry, Hook::SkipLogo),
        (rom.start_screen_sram_unmask_ret, Hook::ContinueFromTitleMenu),
        (rom.game_load_ret, Hook::OpenCommMenuFromOverworld),
    ]
}

/// The traps of the player's own game, in the order of the catalogue.
pub open spec fn primary_table(rom: RomOffsets) -> Seq<(u32, Hook)> {
    seq![
        (rom.comm_menu_init_ret, Hook::CommMenuInit),
        (rom.round_start_ret, Hook::RoundStart),
        (rom.battle_is_p2_ret, Hook::BattleIsP2),
        (rom.link_is_p2_ret, Hook::LinkIsP2),
        (rom.main_read_joyflags, Hook::MainReadJoyflags),
        (rom.handle_input_init_send_and_receive_call, Hook::SendAndReceive),
        (rom.handle_input_update_send_and_receive_call, Hook::SendAndReceive),
        (rom.handle_input_deinit_send_and_receive_call, Hook::SendAndReceive),
        (rom.comm_menu_send_and_receive_call, Hook::CommMenuSendAndReceive),
        (rom.handle_input_post_call, Hook::HandleInputPostCall),
        (SIO_INIT_CALL, Hook::SkipSioInit),
        (MAIN_LOOP_POSTSTEP, Hook::Poststep),
        (MAIN_LOOP_PRESTEP, Hook::Prestep),
    ]
}

/// The traps of the shadow, in the order of the catalogue.
pub open spec fn shadow_table(rom: RomOffsets) -> Seq<(u32, Hook)> {
    seq![
        (rom.comm_menu_init_ret, Hook::CommMenuInit),
        (rom.round_start_ret, Hook::RoundStart),
        (rom.battle_is_p2_ret, Hook::BattleIsP2),
        (rom.link_is_p2_ret, Hook::LinkIsP2),
        (rom.main_read_joyflags, Hook::MainReadJoyflags),
        (rom.handle_input_init_send_and_receive_call, Hook::SendAndReceive),
        (rom.handle_input_update_send_and_receive_call, Hook::SendAndReceive),
        (rom.handle_input_deinit_send_and_receive_call, Hook::SendAndReceive),
        (rom.comm_menu_send_and_receive_call, Hook::CommMenuSendAndReceive),
        (SIO_INIT_CALL, Hook::SkipSioInit),
    ]
}

/// The traps of the fastforwarder, in the order of the catalogue.
pub open spec fn fastforwarder_table(rom: RomOffsets) -> Seq<(u32, Hook)> {
    seq![
        (rom.battle_is_p2_ret, Hook::BattleIsP2),
        (rom.link_is_p2_ret, Hook::LinkIsP2),
        (rom.main_read_joyflags, Hook::MainReadJoyflags),
        (rom.handle_input_init_send_and_receive_call, Hook::SendAndReceive),
        (rom.handle_input_update_send_and_receive_call, Hook::SendAndReceive),
        (rom.handle_input_deinit_send_and_receive_call, Hook::SendAndReceive),
        (SIO_INIT_CALL, Hook::SkipSioInit),
        (rom.handle_input_post_call, Hook::HandleInputPostCall),
    ]
}

/// The effects that write the placeholder into the slots of both players.
pub open spec fn write_placeholders_spec() -> Seq<EffectView> {
    seq![
        EffectView::SetRxPacket { player_index: 0, packet: placeholder_rx_spec() },
        EffectView::SetRxPacket { player_index: 1, packet: placeholder_rx_spec() },
    ]
}

/// What holds of the trap at which the comm menu is set up, whatever is
/// drawn: both streams are seeded, the private one with the stream of
/// `takes_offerer_stream`; then the battle is started.
pub open spec fn comm_menu_init_holds(takes_offerer_stream: bool, effects: Seq<EffectView>) -> bool {
    &&& effects.len() == 3
    &&& seeds_streams(takes_offerer_stream, effects.subrange(0, 2))
    &&& effects[2] == EffectView::StartBattleFromCommMenu { match_type: None }
}

/// What a trap of the player's own game does, for every trap but the one
/// that draws from the random source.
pub open spec fn primary_trap_spec(hook: Hook, ctx: TrapContextView, match_: Option<MatchView>) -> (
    Option<MatchView>,
    Seq<EffectView>,
) {
    match hook {
        Hook::RoundStart => (
            match_,
            if match_ is Some {
                seq![EffectView::StartRound]
            } else {
                Seq::empty()
            },
        ),
        Hook::BattleIsP2 | Hook::LinkIsP2 => (match_, is_p2_spec(match_)),
        Hook::MainReadJoyflags => (
            match_,
            match round_of(match_) {
                Some(round) => if ctx.is_linking {
                    read_joyflags_spec(
                        round,
                        round.current_tick,
                        ctx.joyflags,
                        ctx.tx_packet,
                        false,
                    )
                } else {
                    Seq::empty()
                },
                None => Seq::empty(),
            },
        ),
        Hook::SendAndReceive => (
            match round_of(match_) {
                Some(round) => Some(
                    match_with_round(
                        match_->0,
                        RoundView {
                            tx_queue: round.tx_queue.push(
                                OutputView {
                                    tick: tick_after(round.current_tick, 1),
                                    tx: ctx.tx_packet,
                                },
                            ),
                            ..round
                        },
                    ),
                ),
                None => match_,
            },
            skip_call_spec(ctx.thumb_pc),
        ),
        Hook::CommMenuSendAndReceive => (match_, write_placeholders_spec()),
        Hook::HandleInputPostCall => (
            match round_of(match_) {
                Some(round) => if round.committed_state is Some {
                    Some(
                        match_with_round(
                            match_->0,
                            RoundView { current_tick: tick_after(round.current_tick, 1), ..round },
                        ),
                    )
                } else {
                    match_
                },
                None => match_,
            },
            Seq::empty(),
        ),
        Hook::SkipSioInit => (match_, skip_call_spec(ctx.thumb_pc)),
        _ => (match_, Seq::empty()),
    }
}

/// What a trap of the shadow does, for every trap but the one that draws
/// from the random source. The shadow plays the other player: it answers
/// with the remote player's index.
pub open spec fn shadow_trap_spec(hook: Hook, ctx: TrapContextView, state: shadow::StateView) -> (
    shadow::StateView,
    Seq<EffectView>,
) {
    let round = state.round_state.round;
    match hook {
        Hook::RoundStart => (
            shadow::StateView {
                round_state: shadow::RoundStateView {
                    round: Some(shadow::fresh_round(state.round_state.won_last_round)),
                    ..state.round_state
                },
                ..state
            },
            Seq::empty(),
        ),
        Hook::BattleIsP2 | Hook::LinkIsP2 => (
            state,
            match round {
                Some(round) => answer_is_p2_spec(round.remote_player_index()),
                None => Seq::empty(),
            },
        ),
        Hook::MainReadJoyflags => match round {
            Some(round) => if ctx.is_linking {
                let (after, err, effects) = shadow_read_joyflags_spec(
                    round,
                    round.current_tick,
                    ctx.tx_packet,
                );
                (shadow_after_trap(state, after, err), effects)
            } else {
                (state, Seq::empty())
            },
            None => (state, Seq::empty()),
        },
        Hook::SendAndReceive => match round {
            Some(round) => {
                let (after, err, effects) = shadow_copy_input_data_spec(round, round.current_tick);
                (shadow_after_trap(state, after, err), skip_call_spec(ctx.thumb_pc) + effects)
            },
            None => (state, skip_call_spec(ctx.thumb_pc)),
        },
        Hook::CommMenuSendAndReceive => (state, write_placeholders_spec()),
        Hook::SkipSioInit => (state, skip_call_spec(ctx.thumb_pc)),
        _ => (state, Seq::empty()),
    }
}

/// What a trap of the fastforwarder does.
pub open spec fn fastforwarder_trap_spec(
    hook: Hook,
    ctx: TrapContextView,
    state: fastforwarder::StateView,
) -> (fastforwarder::StateView, Seq<EffectView>) {
    match hook {
        Hook::BattleIsP2 | Hook::LinkIsP2 => (state, answer_is_p2_spec(state.local_player_index())),
        Hook::MainReadJoyflags => fastforwarder_read_joyflags_spec(state, state.current_tick),
        Hook::SendAndReceive => {
            let (after, effects) = fastforwarder_copy_input_data_spec(state, state.current_tick);
            (after, skip_call_spec(ctx.thumb_pc) + effects)
        },
        Hook::SkipSioInit => (state, skip_call_spec(ctx.thumb_pc)),
        Hook::HandleInputPostCall => (
            fastforwarder::StateView {
                current_tick: tick_after(state.current_tick, 1),
                ..state
            },
            Seq::empty(),
        ),
        _ => (state, Seq::empty()),
    }
}

/// What a trap of the replayer does.
pub open spec fn replayer_trap_spec(hook: Hook, ctx: TrapContextView, state: replayer::StateView) -> (
    replayer::StateView,
    Seq<EffectView>,
) {
    match hook {
        Hook::BattleIsP2 | Hook::LinkIsP2 => (state, answer_is_p2_spec(state.local_player_index())),
        Hook::MainReadJoyflags => replayer_read_joyflags_spec(state, state.current_tick),
        Hook::SendAndReceive => {
            let (after, effects) = replayer_copy_input_data_spec(state, state.current_tick);
            (after, skip_call_spec(ctx.thumb_pc) + effects)
        },
        Hook::SkipSioInit => (state, skip_call_spec(ctx.thumb_pc)),
        Hook::HandleInputPostCall => (
            replayer::StateView { current_tick: tick_after(state.current_tick, 1), ..state },
            Seq::empty(),
        ),
        _ => (state, Seq::empty()),
    }
}

impl BN3 {
    /// The catalogue of the version of the game whose traps lie at
    /// `offsets`.
    pub fn new(offsets: Offsets) -> (hooks: BN3)
        ensures
            hooks.offsets() == offsets,
    {
        BN3 { offsets }
    }

    /// The addresses that the catalogue is built on.
    pub closed spec fn offsets(&self) -> Offsets {
        self.offsets
    }

    /// The effects that write the placeholder into the slots of both
    /// players.
    fn write_placeholders(&self) -> (effects: Vec<Effect>)
        ensures
            effects_view(effects@) == write_placeholders_spec(),
    {
        let mut effects = no_effects();
        push_effect(&mut effects, Effect::SetRxPacket { player_index: 0, packet: self.placeholder_rx() });
        push_effect(&mut effects, Effect::SetRxPacket { player_index: 1, packet: self.placeholder_rx() });
        assert(effects_view(effects@) =~= write_placeholders_spec());
        effects
    }

    /// The trap at which the comm menu is set up.
    fn comm_menu_init(rng: &mut rand_pcg::Mcg128Xsl64, takes_offerer_stream: bool) -> (effects: Vec<
        Effect,
    >)
        ensures
            comm_menu_init_holds(takes_offerer_stream, effects_view(effects@)),
    {
        let seeds = draw_seeds(rng, takes_offerer_stream);
        let ghost seeded = effects_view(seeds@);
        let effects = join_effects(
            seeds,
            one_effect(Effect::StartBattleFromCommMenu { match_type: None }),
        );
        proof {
            assert(seeded.len() == 2);
            assert(effects_view(effects@).subrange(0, 2) =~= seeded);
        }
        effects
    }
}

impl Hooks for BN3 {
    fn common_traps(&self) -> (traps: Vec<(u32, Hook)>)
        ensures
            traps@ == common_table(self.offsets().rom),
    {
        let rom = self.offsets.rom;
        let mut traps: Vec<(u32, Hook)> = Vec::new();
        traps.push((rom.start_screen_jump_table_entry, Hook::SkipLogo));
        traps.push((rom.start_screen_sram_unmask_ret, Hook::ContinueFromTitleMenu));
        traps.push((rom.game_load_ret, Hook::OpenCommMenuFromOverworld));
        assert(traps@ =~= common_table(rom));
        traps
    }

    fn primary_traps(&self) -> (traps: Vec<(u32, Hook)>)
        ensures
            traps@ == primary_table(self.offsets().rom),
    {
        let rom = self.offsets.rom;
        let mut traps: Vec<(u32, Hook)> = Vec::new();
        traps.push((rom.comm_menu_init_ret, Hook::CommMenuInit));
        traps.push((rom.round_start_ret, Hook::RoundStart));
        traps.push((rom.battle_is_p2_ret, Hook::BattleIsP2));
        traps.push((rom.link_is_p2_ret, Hook::LinkIsP2));
        traps.push((rom.main_read_joyflags, Hook::MainReadJoyflags));
        traps.push((rom.handle_input_init_send_and_receive_call, Hook::SendAndReceive));
        traps.push((rom.handle_input_update_send_and_receive_call, Hook::SendAndReceive));
        traps.push((rom.handle_input_deinit_send_and_receive_call, Hook::SendAndReceive));
        traps.push((rom.comm_menu_send_and_receive_call, Hook::CommMenuSendAndReceive));
        traps.push((rom.handle_input_post_call, Hook::HandleInputPostCall));
        traps.push((SIO_INIT_CALL, Hook::SkipSioInit));
        traps.push((MAIN_LOOP_POSTSTEP, Hook::Poststep));
        traps.push((MAIN_LOOP_PRESTEP, Hook::Prestep));
        assert(traps@ =~= primary_table(rom));
        traps
    }

    fn shadow_traps(&self) -> (traps: Vec<(u32, Hook)>)
        ensures
            traps@ == shadow_table(self.offsets().rom),
    {
        let rom = self.offsets.rom;
        let mut traps: Vec<(u32, Hook)> = Vec::new();
        traps.push((rom.comm_menu_init_ret, Hook::CommMenuInit));
        traps.push((rom.round_start_ret, Hook::RoundStart));
        traps.push((rom.battle_is_p2_ret, Hook::BattleIsP2));
        traps.push((rom.link_is_p2_ret, Hook::LinkIsP2));
        traps.push((rom.main_read_joyflags, Hook::MainReadJoyflags));
        traps.push((rom.handle_input_init_send_and_receive_call, Hook::SendAndReceive));
        traps.push((rom.handle_input_update_send_and_receive_call, Hook::SendAndReceive));
        traps.push((rom.handle_input_deinit_send_and_receive_call, Hook::SendAndReceive));
        traps.push((rom.comm_menu_send_and_receive_call, Hook::CommMenuSendAndReceive));
        traps.push((SIO_INIT_CALL, Hook::SkipSioInit));
        assert(traps@ =~= shadow_table(rom));
        traps
    }

    fn fastforwarder_traps(&self) -> (traps: Vec<(u32, Hook)>)
        ensures
            traps@ == fastforwarder_table(self.offsets().rom),
    {
        let rom = self.offsets.rom;
        let mut traps: Vec<(u32, Hook)> = Vec::new();
        traps.push((rom.battle_is_p2_ret, Hook::BattleIsP2));
        traps.push((rom.link_is_p2_ret, Hook::LinkIsP2));
        traps.push((rom.main_read_joyflags, Hook::MainReadJoyflags));
        traps.push((rom.handle_input_init_send_and_receive_call, Hook::SendAndReceive));
        traps.push((rom.handle_input_update_send_and_receive_call, Hook::SendAndReceive));
        traps.push((rom.handle_input_deinit_send_and_receive_call, Hook::SendAndReceive));
        traps.push((SIO_INIT_CALL, Hook::SkipSioInit));
        traps.push((rom.handle_input_post_call, Hook::HandleInputPostCall));
        assert(traps@ =~= fastforwarder_table(rom));
        traps
    }

    /// The replayer has the traps of the fastforwarder.
    fn replayer_traps(&self) -> (traps: Vec<(u32, Hook)>)
        ensures
            traps@ == fastforwarder_table(self.offsets().rom),
    {
        self.fastforwarder_traps()
    }

    fn handle_common_trap(&self, hook: Hook) -> (effects: Vec<Effect>)
        ensures
            effects_view(effects@) == common_trap_spec(hook),
    {
        common_trap(hook)
    }

    /// The trap that draws from the random source says what holds whatever
    /// is drawn; every other trap is pinned down.
    fn handle_primary_trap(&self, hook: Hook, ctx: &TrapContext, match_: &mut Option<Match>) -> (effects:
        Vec<Effect>)
        ensures
            match hook {
                Hook::CommMenuInit => option_view(*final(match_)) == option_view(*old(match_))
                    && match option_view(*old(match_)) {
                    Some(m) => comm_menu_init_holds(m.is_offerer, effects_view(effects@)),
                    None => effects_view(effects@) == Seq::<EffectView>::empty(),
                },
                _ => (option_view(*final(match_)), effects_view(effects@)) == primary_trap_spec(
                    hook,
                    ctx@,
                    option_view(*old(match_)),
                ),
            },
    {
        match hook {
            Hook::CommMenuInit => match match_ {
                Some(m) => {
                    let is_offerer = m.is_offerer();
                    Self::comm_menu_init(m.lock_rng(), is_offerer)
                },
                None => no_effects(),
            },
            Hook::RoundStart => if match_.is_some() {
                one_effect(Effect::StartRound)
            } else {
                no_effects()
            },
            Hook::BattleIsP2 | Hook::LinkIsP2 => is_p2(match_),
            Hook::MainReadJoyflags => match match_ {
                Some(m) => match &m.round_state().round {
                    Some(round) => if ctx.is_linking {
                        read_joyflags(
                            round,
                            round.current_tick(),
                            ctx.joyflags,
                            &ctx.tx_packet,
                            false,
                        )
                    } else {
                        no_effects()
                    },
                    None => no_effects(),
                },
                None => no_effects(),
            },
            Hook::SendAndReceive => {
                match match_ {
                    Some(m) => {
                        let round_state = m.lock_round_state();
                        match &mut round_state.round {
                            Some(round) => {
                                let tick: u32 = round.current_tick().wrapping_add(1);
                                round.queue_tx(tick, ctx.tx_packet.clone());
                            },
                            None => {},
                        }
                    },
                    None => {},
                }
                skip_call(ctx.thumb_pc)
            },
            Hook::CommMenuSendAndReceive => self.write_placeholders(),
            Hook::HandleInputPostCall => {
                match match_ {
                    Some(m) => {
                        let round_state = m.lock_round_state();
                        match &mut round_state.round {
                            Some(round) => {
                                if round.has_committed_state() {
                                    round.increment_current_tick();
                                }
                            },
                            None => {},
                        }
                    },
                    None => {},
                }
                no_effects()
            },
            Hook::SkipSioInit => skip_call(ctx.thumb_pc),
            _ => no_effects(),
        }
    }

    /// The trap that draws from the random source says what holds whatever
    /// is drawn; every other trap is pinned down. The shadow seeds its
    /// private stream with the stream of the other role.
    fn handle_shadow_trap(&self, hook: Hook, ctx: &TrapContext, state: &mut shadow::State) -> (effects:
        Vec<Effect>)
        ensures
            match hook {
                Hook::CommMenuInit => final(state)@ == old(state)@ && comm_menu_init_holds(
                    !old(state)@.is_offerer,
                    effects_view(effects@),
                ),
                _ => (final(state)@, effects_view(effects@)) == shadow_trap_spec(
                    hook,
                    ctx@,
                    old(state)@,
                ),
            },
    {
        match hook {
            Hook::CommMenuInit => {
                let takes_offerer_stream = !state.is_offerer();
                Self::comm_menu_init(state.lock_rng(), takes_offerer_stream)
            },
            Hook::RoundStart => {
                state.start_round();
                no_effects()
            },
            Hook::BattleIsP2 | Hook::LinkIsP2 => match &state.round_state().round {
                Some(round) => {
                    let index: u8 = round.remote_player_index();
                    one_effect(Effect::SetGpr { register: 0, value: index as i32 })
                },
                None => no_effects(),
            },
            Hook::MainReadJoyflags => {
                if !ctx.is_linking {
                    return no_effects();
                }
                let round_state = state.lock_round_state();
                let (err, effects) = match &mut round_state.round {
                    Some(round) => {
                        let tick: u32 = round.current_tick();
                        shadow_read_joyflags(round, tick, &ctx.tx_packet)
                    },
                    None => {
                        return no_effects();
                    },
                };
                if let Some(err) = err {
                    state.set_error(err);
                }
                effects
            },
            Hook::SendAndReceive => {
                let skip = skip_call(ctx.thumb_pc);
                let round_state = state.lock_round_state();
                let (err, effects) = match &mut round_state.round {
                    Some(round) => {
                        let tick: u32 = round.current_tick();
                        shadow_copy_input_data(round, tick)
                    },
                    None => {
                        return skip;
                    },
                };
                if let Some(err) = err {
                    state.set_error(err);
                }
                join_effects(skip, effects)
            },
            Hook::CommMenuSendAndReceive => self.write_placeholders(),
            Hook::SkipSioInit => skip_call(ctx.thumb_pc),
            _ => no_effects(),
        }
    }

    fn handle_fastforwarder_trap(
        &self,
        hook: Hook,
        ctx: &TrapContext,
        state: &mut fastforwarder::State,
    ) -> (effects: Vec<Effect>)
        ensures
            (final(state)@, effects_view(effects@)) == fastforwarder_trap_spec(
                hook,
                ctx@,
                old(state)@,
            ),
    {
        match hook {
            Hook::BattleIsP2 | Hook::LinkIsP2 => {
                let index: u8 = state.local_player_index();
                one_effect(Effect::SetGpr { register: 0, value: index as i32 })
            },
            Hook::MainReadJoyflags => {
                let tick: u32 = state.current_tick();
                fastforwarder_read_joyflags(state, tick)
            },
            Hook::SendAndReceive => {
                let tick: u32 = state.current_tick();
                let skip = skip_call(ctx.thumb_pc);
                let effects = fastforwarder_copy_input_data(state, tick);
                join_effects(skip, effects)
            },
            Hook::SkipSioInit => skip_call(ctx.thumb_pc),
            Hook::HandleInputPostCall => {
                state.increment_current_tick();
                no_effects()
            },
            _ => no_effects(),
        }
    }

    fn handle_replayer_trap(&self, hook: Hook, ctx: &TrapContext, state: &mut replayer::State) -> (effects:
        Vec<Effect>)
        ensures
            (final(state)@, effects_view(effects@)) == replayer_trap_spec(hook, ctx@, old(state)@),
    {
        match hook {
            Hook::BattleIsP2 | Hook::LinkIsP2 => {
                let index: u8 = state.local_player_index();
                one_effect(Effect::SetGpr { register: 0, value: index as i32 })
            },
            Hook::MainReadJoyflags => {
                let tick: u32 = state.current_tick();
                replayer_read_joyflags(state, tick)
            },
            Hook::SendAndReceive => {
                let tick: u32 = state.current_tick();
                let skip = skip_call(ctx.thumb_pc);
                let effects = replayer_copy_input_data(state, tick);
                join_effects(skip, effects)
            },
            Hook::SkipSioInit => skip_call(ctx.thumb_pc),
            Hook::HandleInputPostCall => {
                state.increment_current_tick();
                no_effects()
            },
            _ => no_effects(),
        }
    }

    fn placeholder_rx(&self) -> (packet: Vec<u8>)
        ensures
            packet@ == placeholder_rx_spec(),
    {
        let mut packet: Vec<u8> = Vec::new();
        packet.push(0x01);
        packet.push(0x00);
        packet.push(0x00);
        packet.push(0xff);
        packet.push(0x06);
        packet.push(0xff);
        packet.push(0xff);
        packet.push(0xff);
        let mut i: usize = 8;
        while i < 16
            invariant
                8 <= i <= 16,
                packet@ == placeholder_rx_spec().take(i as int),
            decreases 16 - i,
        {
            packet.push(0x00);
            i = i + 1;
            assert(packet@ =~= placeholder_rx_spec().take(i as int));
        }
        assert(placeholder_rx_spec().take(16) =~= placeholder_rx_spec());
        packet
    }

    /// A fastforward begins where the game reads the joypad.
    fn prepare_for_fastforward(&self) -> (effect: Effect)
        ensures
            effect@ == EffectView::SetThumbPc(self.offsets().rom.main_read_joyflags),
    {
        Effect::SetThumbPc(self.offsets.rom.main_read_joyflags)
    }

    /// This game shows no opponent's name.
    fn replace_opponent_name(&self, name: &str) -> (effects: Vec<Effect>)
        ensures
            effects_view(effects@) == Seq::<EffectView>::empty(),
    {
        no_effects()
    }
}

} // verus!
