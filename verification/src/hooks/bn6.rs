//! The trap catalogue of the sixth game of the series. This game counts
//! its own ticks, so every trap goes by the tick that the emulator shows.

use crate::battle::{Match, MatchView};
use crate::fastforwarder;
use crate::hooks::primary::{
    copy_input_data, copy_input_data_spec, draw_battle_settings, draw_seeds, is_p2, is_p2_spec,
    read_joyflags, read_joyflags_spec, round_of, round_outcome, round_outcome_spec,
    seeds_streams, sets_battle_settings,
};
use crate::hooks::{
    answer_is_p2_spec, common_trap, common_trap_spec, effects_view, fastforwarder_copy_input_data,
    fastforwarder_copy_input_data_spec, fastforwarder_read_joyflags,
    fastforwarder_read_joyflags_spec, join_effects, no_effects, one_effect, pc_after, push_effect,
    replayer_copy_input_data, replayer_copy_input_data_spec, replayer_read_joyflags,
    replayer_read_joyflags_spec, replayer_round_end, replayer_round_end_spec,
    shadow_after_trap, shadow_copy_input_data, shadow_copy_input_data_spec,
    shadow_read_joyflags, shadow_read_joyflags_spec, Effect, EffectView, Hook, Hooks, StateSlot,
    TrapContext, TrapContextView,
};
use crate::input::option_view;
use crate::replayer;
use crate::shadow;
use vstd::prelude::*;
use vstd::string::StrSliceExecFns;

verus! {

/// Where the traps of one version of the game lie in its program.
#[derive(Clone, Copy, Debug, PartialEq, Eq, Structural)]
pub struct RomOffsets {
    pub start_screen_jump_table_entry: u32,
    pub start_screen_sram_unmask_ret: u32,
    pub game_load_ret: u32,
    pub comm_menu_init_ret: u32,
    pub round_run_unpaused_step_cmp_retval: u32,
    pub round_end_entry: u32,
    pub round_start_ret: u32,
    pub battle_is_p2_tst: u32,
    pub link_is_p2_ret: u32,
    pub get_copy_data_input_state_ret: u32,
    pub comm_menu_handle_link_cable_input_entry: u32,
    pub comm_menu_init_battle_entry: u32,
    pub comm_menu_end_battle_entry: u32,
    pub comm_menu_in_battle_call_comm_menu_handle_link_cable_input: u32,
    pub main_read_joyflags: u32,
    pub copy_input_data_entry: u32,
    /// Where the opponent's name is kept; zero where the version shows none.
    pub opponent_name: u32,
}

/// The addresses that the catalogue of one version of the game is built on.
#[derive(Clone, Copy, Debug, PartialEq, Eq, Structural)]
pub struct Offsets {
    pub rom: RomOffsets,
}

/// The catalogue of one version of the game.
#[derive(Clone, Copy, Debug, PartialEq, Eq, Structural)]
pub struct BN6 {
    offsets: Offsets,
}

/// Length of a packet on the link.
pub const PACKET_LENGTH: usize = 0x10;

/// Most characters of an opponent's name that are shown.
pub const MAX_NAME_LENGTH: usize = 9;

/// The byte that ends a name in the game's memory.
pub const END_OF_NAME: u8 = 0xe6;

/// The traps of the player's own game, in the order of the catalogue.
pub open spec fn primary_table(rom: RomOffsets) -> Seq<(u32, Hook)> {
    seq![
        (rom.start_screen_jump_table_entry, Hook::SkipLogo),
        (rom.start_screen_sram_unmask_ret, Hook::ContinueFromTitleMenu),
        (rom.game_load_ret, Hook::OpenCommMenuFromOverworld),
        (rom.comm_menu_init_ret, Hook::CommMenuInit),
        (rom.round_run_unpaused_step_cmp_retval, Hook::RoundOutcome),
        (rom.round_end_entry, Hook::RoundEnd),
        (rom.round_start_ret, Hook::RoundStart),
        (rom.battle_is_p2_tst, Hook::BattleIsP2),
        (rom.link_is_p2_ret, Hook::LinkIsP2),
        (rom.get_copy_data_input_state_ret, Hook::CopyDataInputState),
        (rom.comm_menu_handle_link_cable_input_entry, Hook::UnhandledLinkCableInput),
        (rom.comm_menu_init_battle_entry, Hook::CommMenuInitBattle),
        (rom.comm_menu_end_battle_entry, Hook::CommMenuEndBattle),
        (
            rom.comm_menu_in_battle_call_comm_menu_handle_link_cable_input,
            Hook::SkipLinkCableInputCall,
        ),
        (rom.main_read_joyflags, Hook::MainReadJoyflags),
        (rom.copy_input_data_entry, Hook::CopyInputData),
    ]
}

/// The traps of the shadow, in the order of the catalogue.
pub open spec fn shadow_table(rom: RomOffsets) -> Seq<(u32, Hook)> {
    seq![
        (rom.start_screen_jump_table_entry, Hook::SkipLogo),
        (rom.start_screen_sram_unmask_ret, Hook::ContinueFromTitleMenu),
        (rom.game_load_ret, Hook::OpenCommMenuFromOverworld),
        (rom.comm_menu_init_ret, Hook::CommMenuInit),
        (rom.round_run_unpaused_step_cmp_retval, Hook::RoundOutcome),
        (rom.round_start_ret, Hook::RoundStart),
        (rom.round_end_entry, Hook::RoundEnd),
        (rom.battle_is_p2_tst, Hook::BattleIsP2),
        (rom.link_is_p2_ret, Hook::LinkIsP2),
        (rom.get_copy_data_input_state_ret, Hook::CopyDataInputState),
        (rom.comm_menu_handle_link_cable_input_entry, Hook::UnhandledLinkCableInput),
        (rom.comm_menu_init_battle_entry, Hook::CommMenuInitBattle),
        (
            rom.comm_menu_in_battle_call_comm_menu_handle_link_cable_input,
            Hook::SkipLinkCableInputCall,
        ),
        (rom.main_read_joyflags, Hook::MainReadJoyflags),
        (rom.copy_input_data_entry, Hook::CopyInputData),
    ]
}

/// The traps of the fastforwarder, in the order of the catalogue.
pub open spec fn fastforwarder_table(rom: RomOffsets) -> Seq<(u32, Hook)> {
    seq![
        (rom.battle_is_p2_tst, Hook::BattleIsP2),
        (rom.link_is_p2_ret, Hook::LinkIsP2),
        (
            rom.comm_menu_in_battle_call_comm_menu_handle_link_cable_input,
            Hook::SkipLinkCableInputCall,
        ),
        (rom.get_copy_data_input_state_ret, Hook::CopyDataInputState),
        (rom.main_read_joyflags, Hook::MainReadJoyflags),
        (rom.copy_input_data_entry, Hook::CopyInputData),
    ]
}

/// The traps of the replayer: those of the fastforwarder, and the end of
/// the round.
pub open spec fn replayer_table(rom: RomOffsets) -> Seq<(u32, Hook)> {
    fastforwarder_table(rom).push((rom.round_end_entry, Hook::RoundEnd))
}

/// The effect of the trap that skips the comm menu's call of its link
/// cable handler: the program counter moves past the call.
pub open spec fn skip_link_cable_input_call_spec(r15: i32) -> Seq<EffectView> {
    seq![EffectView::SetPc(pc_after(r15 as u32, 4))]
}

/// What a trap of the player's own game does, for every trap but the two
/// that draw from the random source.
pub open spec fn primary_trap_spec(hook: Hook, ctx: TrapContextView, match_: Option<MatchView>) -> (
    Option<MatchView>,
    Seq<EffectView>,
) {
    match hook {
        Hook::SkipLogo => (match_, seq![EffectView::SkipLogo]),
        Hook::ContinueFromTitleMenu => (match_, seq![EffectView::ContinueFromTitleMenu]),
        Hook::OpenCommMenuFromOverworld => (match_, seq![EffectView::OpenCommMenuFromOverworld]),
        Hook::RoundOutcome => (round_outcome_spec(match_, ctx.r0), Seq::empty()),
        Hook::RoundEnd => (
            match_,
            if match_ is Some {
                seq![EffectView::EndRound]
            } else {
                Seq::empty()
            },
        ),
        Hook::RoundStart => (
            match_,
            if match_ is Some {
                seq![EffectView::StartRound]
            } else {
                Seq::empty()
            },
        ),
        Hook::BattleIsP2 | Hook::LinkIsP2 => (match_, is_p2_spec(match_)),
        Hook::CopyDataInputState => (
            match_,
            seq![
                EffectView::SetGpr {
                    register: 0,
                    value: if match_ is Some {
                        ctx.r0
                    } else {
                        4
                    },
                },
            ],
        ),
        Hook::CommMenuEndBattle => (match_, seq![EffectView::EndMatch]),
        Hook::SkipLinkCableInputCall => (match_, skip_link_cable_input_call_spec(ctx.r15)),
        Hook::MainReadJoyflags => (
            match_,
            match round_of(match_) {
                Some(round) => read_joyflags_spec(
                    round,
                    ctx.current_tick,
                    ctx.joyflags,
                    ctx.tx_packet,
                    true,
                ),
                None => Seq::empty(),
            },
        ),
        Hook::CopyInputData => copy_input_data_spec(match_),
        _ => (match_, Seq::empty()),
    }
}

/// What holds of the trap at which the comm menu is set up, whatever is
/// drawn: the battle is started with the match type, then both streams are
/// seeded, the private one with the stream of `takes_offerer_stream`.
pub open spec fn comm_menu_init_holds(
    match_type: u16,
    takes_offerer_stream: bool,
    effects: Seq<EffectView>,
) -> bool {
    &&& effects.len() == 3
    &&& effects[0] == EffectView::StartBattleFromCommMenu { match_type: Some(match_type) }
    &&& seeds_streams(takes_offerer_stream, effects.subrange(1, 3))
}

/// What a trap of the shadow does, for every trap but the two that draw
/// from the random source. The shadow plays the other player: it answers
/// with the remote player's index and turns the round's outcome around.
pub open spec fn shadow_trap_spec(hook: Hook, ctx: TrapContextView, state: shadow::StateView) -> (
    shadow::StateView,
    Seq<EffectView>,
) {
    let round = state.round_state.round;
    match hook {
        Hook::SkipLogo => (state, seq![EffectView::SkipLogo]),
        Hook::ContinueFromTitleMenu => (state, seq![EffectView::ContinueFromTitleMenu]),
        Hook::OpenCommMenuFromOverworld => (state, seq![EffectView::OpenCommMenuFromOverworld]),
        Hook::RoundOutcome => (
            shadow::StateView {
                round_state: shadow::RoundStateView {
                    won_last_round: if ctx.r0 == 1 {
                        false
                    } else if ctx.r0 == 2 {
                        true
                    } else {
                        state.round_state.won_last_round
                    },
                    ..state.round_state
                },
                ..state
            },
            Seq::empty(),
        ),
        Hook::RoundStart => (
            shadow::StateView {
                round_state: shadow::RoundStateView {
                    round: Some(shadow::fresh_round(state.round_state.won_last_round)),
                    ..state.round_state
                },
                ..state
            },
            Seq::empty(),
        ),
        Hook::RoundEnd => (
            shadow::StateView {
                round_state: shadow::RoundStateView { round: None, ..state.round_state },
                ..state
            },
            seq![EffectView::SaveState(StateSlot::ShadowApplied)],
        ),
        Hook::BattleIsP2 | Hook::LinkIsP2 => (
            state,
            match round {
                Some(round) => answer_is_p2_spec(round.remote_player_index()),
                None => Seq::empty(),
            },
        ),
        Hook::SkipLinkCableInputCall => (state, skip_link_cable_input_call_spec(ctx.r15)),
        Hook::MainReadJoyflags => match round {
            Some(round) => {
                let (after, err, effects) = shadow_read_joyflags_spec(
                    round,
                    ctx.current_tick,
                    ctx.tx_packet,
                );
                (shadow_after_trap(state, after, err), effects)
            },
            None => (state, Seq::empty()),
        },
        Hook::CopyInputData => match round {
            Some(round) => {
                let (after, err, effects) = shadow_copy_input_data_spec(round, ctx.current_tick);
                (shadow_after_trap(state, after, err), effects)
            },
            None => (state, Seq::empty()),
        },
        _ => (state, Seq::empty()),
    }
}

/// What a trap of the fastforwarder does.
pub open spec fn fastforwarder_trap_spec(
    hook: Hook,
    ctx: TrapContextView,
    state: fastforwarder::StateView,
) -> (fastforwarder::StateView, Seq<EffectView>) {
    match hook {
        Hook::BattleIsP2 | Hook::LinkIsP2 => (state, answer_is_p2_spec(state.local_player_index())),
        Hook::SkipLinkCableInputCall => (state, skip_link_cable_input_call_spec(ctx.r15)),
        Hook::CopyDataInputState => (state, seq![EffectView::SetGpr { register: 0, value: 2 }]),
        Hook::MainReadJoyflags => fastforwarder_read_joyflags_spec(state, ctx.current_tick),
        Hook::CopyInputData => fastforwarder_copy_input_data_spec(state, ctx.current_tick),
        _ => (state, Seq::empty()),
    }
}

/// What a trap of the replayer does.
pub open spec fn replayer_trap_spec(hook: Hook, ctx: TrapContextView, state: replayer::StateView) -> (
    replayer::StateView,
    Seq<EffectView>,
) {
    match hook {
        Hook::BattleIsP2 | Hook::LinkIsP2 => (state, answer_is_p2_spec(state.local_player_index())),
        Hook::SkipLinkCableInputCall => (state, skip_link_cable_input_call_spec(ctx.r15)),
        Hook::CopyDataInputState => (state, seq![EffectView::SetGpr { register: 0, value: 2 }]),
        Hook::MainReadJoyflags => replayer_read_joyflags_spec(state, ctx.current_tick),
        Hook::CopyInputData => replayer_copy_input_data_spec(state, ctx.current_tick),
        Hook::RoundEnd => (replayer_round_end_spec(state, ctx.r0), Seq::empty()),
        _ => (state, Seq::empty()),
    }
}

/// The code of a character in the game's own alphabet: the blank, the
/// digits, the capital letters, the asterisk and the small letters, in this
/// order from zero; any other character counts as the blank.
pub open spec fn name_code_spec(c: char) -> u8 {
    let code = c as u32;
    if 0x30 <= code <= 0x39 {
        (code - 0x30 + 1) as u8
    } else if 0x41 <= code <= 0x5a {
        (code - 0x41 + 11) as u8
    } else if code == 0x2a {
        37
    } else if 0x61 <= code <= 0x7a {
        (code - 0x61 + 38) as u8
    } else {
        0
    }
}

/// A name as the game keeps it: the codes of its first characters, as many
/// as are shown, and the byte that ends a name.
pub open spec fn opponent_name_spec(name: Seq<char>) -> Seq<u8> {
    let shown = if name.len() > MAX_NAME_LENGTH {
        name.take(MAX_NAME_LENGTH as int)
    } else {
        name
    };
    shown.map_values(|c: char| name_code_spec(c)).push(END_OF_NAME)
}

/// How a name is shown as the opponent's: not at all where the version
/// keeps no name or the name is empty, else by writing it where the version
/// keeps the name.
pub open spec fn replace_opponent_name_spec(opponent_name: u32, name: Seq<char>) -> Seq<EffectView> {
    if opponent_name == 0 || name.len() == 0 {
        Seq::empty()
    } else {
        seq![EffectView::WriteRange { address: opponent_name, bytes: opponent_name_spec(name) }]
    }
}

/// The code of a character in the game's own alphabet.
pub fn name_code(c: char) -> (code: u8)
    ensures
        code == name_code_spec(c),
        code < 64,
{
    let point: u32 = c as u32;
    if 0x30 <= point && point <= 0x39 {
        (point - 0x30 + 1) as u8
    } else if 0x41 <= point && point <= 0x5a {
        (point - 0x41 + 11) as u8
    } else if point == 0x2a {
        37
    } else if 0x61 <= point && point <= 0x7a {
        (point - 0x61 + 38) as u8
    } else {
        0
    }
}

/// Writes a name as the game keeps it.
pub fn encode_opponent_name(name: &str) -> (bytes: Vec<u8>)
    ensures
        bytes@ == opponent_name_spec(name@),
{
    let length: usize = name.unicode_len();
    let shown: usize = if length > MAX_NAME_LENGTH {
        MAX_NAME_LENGTH
    } else {
        length
    };
    let mut bytes: Vec<u8> = Vec::new();
    let mut i: usize = 0;
    while i < shown
        invariant
            i <= shown,
            shown <= name@.len(),
            bytes@ == name@.take(i as int).map_values(|c: char| name_code_spec(c)),
        decreases shown - i,
    {
        let c = name.get_char(i);
        bytes.push(name_code(c));
        assert(name@.take(i as int + 1) =~= name@.take(i as int).push(name@[i as int]));
        assert(bytes@ =~= name@.take(i as int + 1).map_values(|c: char| name_code_spec(c)));
        i = i + 1;
    }
    assert(name@.len() <= MAX_NAME_LENGTH ==> name@.take(shown as int) =~= name@);
    bytes.push(END_OF_NAME);
    bytes
}

impl BN6 {
    /// The catalogue of the version of the game whose traps lie at
    /// `offsets`.
    pub fn new(offsets: Offsets) -> (hooks: BN6)
        ensures
            hooks.offsets() == offsets,
    {
        BN6 { offsets }
    }

    /// The addresses that the catalogue is built on.
    pub closed spec fn offsets(&self) -> Offsets {
        self.offsets
    }

    /// The tick that the game is at.
    pub fn current_tick(&self, ctx: &TrapContext) -> (tick: u32)
        ensures
            tick == ctx@.current_tick,
    {
        ctx.current_tick
    }

    /// The trap that skips the comm menu's call of its link cable handler.
    fn skip_link_cable_input_call(ctx: &TrapContext) -> (effects: Vec<Effect>)
        ensures
            effects_view(effects@) == skip_link_cable_input_call_spec(ctx@.r15),
    {
        let mut effects = no_effects();
        let r15: u32 = ctx.r15 as u32;
        push_effect(&mut effects, Effect::SetPc(r15.wrapping_add(4)));
        assert(effects_view(effects@) =~= skip_link_cable_input_call_spec(ctx@.r15));
        effects
    }

    /// The trap at which the comm menu is set up.
    fn comm_menu_init(
        rng: &mut rand_pcg::Mcg128Xsl64,
        match_type: u16,
        takes_offerer_stream: bool,
    ) -> (effects: Vec<Effect>)
        ensures
            comm_menu_init_holds(match_type, takes_offerer_stream, effects_view(effects@)),
    {
        let start = one_effect(Effect::StartBattleFromCommMenu { match_type: Some(match_type) });
        let seeds = draw_seeds(rng, takes_offerer_stream);
        let ghost seeded = effects_view(seeds@);
        let effects = join_effects(start, seeds);
        proof {
            assert(seeded.len() == 2);
            assert(effects_view(effects@).subrange(1, 3) =~= seeded);
        }
        effects
    }
}

impl Hooks for BN6 {
    /// This game has no traps of its own for reaching a battle: they are
    /// part of the catalogues of the primary and of the shadow.
    fn common_traps(&self) -> (traps: Vec<(u32, Hook)>)
        ensures
            traps@ == Seq::<(u32, Hook)>::empty(),
    {
        Vec::new()
    }

    fn primary_traps(&self) -> (traps: Vec<(u32, Hook)>)
        ensures
            traps@ == primary_table(self.offsets().rom),
    {
        let rom = self.offsets.rom;
        let mut traps: Vec<(u32, Hook)> = Vec::new();
        traps.push((rom.start_screen_jump_table_entry, Hook::SkipLogo));
        traps.push((rom.start_screen_sram_unmask_ret, Hook::ContinueFromTitleMenu));
        traps.push((rom.game_load_ret, Hook::OpenCommMenuFromOverworld));
        traps.push((rom.comm_menu_init_ret, Hook::CommMenuInit));
        traps.push((rom.round_run_unpaused_step_cmp_retval, Hook::RoundOutcome));
        traps.push((rom.round_end_entry, Hook::RoundEnd));
        traps.push((rom.round_start_ret, Hook::RoundStart));
        traps.push((rom.battle_is_p2_tst, Hook::BattleIsP2));
        traps.push((rom.link_is_p2_ret, Hook::LinkIsP2));
        traps.push((rom.get_copy_data_input_state_ret, Hook::CopyDataInputState));
        traps.push((rom.comm_menu_handle_link_cable_input_entry, Hook::UnhandledLinkCableInput));
        traps.push((rom.comm_menu_init_battle_entry, Hook::CommMenuInitBattle));
        traps.push((rom.comm_menu_end_battle_entry, Hook::CommMenuEndBattle));
        traps.push(
            (
                rom.comm_menu_in_battle_call_comm_menu_handle_link_cable_input,
                Hook::SkipLinkCableInputCall,
            ),
        );
        traps.push((rom.main_read_joyflags, Hook::MainReadJoyflags));
        traps.push((rom.copy_input_data_entry, Hook::CopyInputData));
        assert(traps@ =~= primary_table(rom));
        traps
    }

    fn shadow_traps(&self) -> (traps: Vec<(u32, Hook)>)
        ensures
            traps@ == shadow_table(self.offsets().rom),
    {
        let rom = self.offsets.rom;
        let mut traps: Vec<(u32, Hook)> = Vec::new();
        traps.push((rom.start_screen_jump_table_entry, Hook::SkipLogo));
        traps.push((rom.start_screen_sram_unmask_ret, Hook::ContinueFromTitleMenu));
        traps.push((rom.game_load_ret, Hook::OpenCommMenuFromOverworld));
        traps.push((rom.comm_menu_init_ret, Hook::CommMenuInit));
        traps.push((rom.round_run_unpaused_step_cmp_retval, Hook::RoundOutcome));
        traps.push((rom.round_start_ret, Hook::RoundStart));
        traps.push((rom.round_end_entry, Hook::RoundEnd));
        traps.push((rom.battle_is_p2_tst, Hook::BattleIsP2));
        traps.push((rom.link_is_p2_ret, Hook::LinkIsP2));
        traps.push((rom.get_copy_data_input_state_ret, Hook::CopyDataInputState));
        traps.push((rom.comm_menu_handle_link_cable_input_entry, Hook::UnhandledLinkCableInput));
        traps.push((rom.comm_menu_init_battle_entry, Hook::CommMenuInitBattle));
        traps.push(
            (
                rom.comm_menu_in_battle_call_comm_menu_handle_link_cable_input,
                Hook::SkipLinkCableInputCall,
            ),
        );
        traps.push((rom.main_read_joyflags, Hook::MainReadJoyflags));
        traps.push((rom.copy_input_data_entry, Hook::CopyInputData));
        assert(traps@ =~= shadow_table(rom));
        traps
    }

    fn fastforwarder_traps(&self) -> (traps: Vec<(u32, Hook)>)
        ensures
            traps@ == fastforwarder_table(self.offsets().rom),
    {
        let rom = self.offsets.rom;
        let mut traps: Vec<(u32, Hook)> = Vec::new();
        traps.push((rom.battle_is_p2_tst, Hook::BattleIsP2));
        traps.push((rom.link_is_p2_ret, Hook::LinkIsP2));
        traps.push(
            (
                rom.comm_menu_in_battle_call_comm_menu_handle_link_cable_input,
                Hook::SkipLinkCableInputCall,
            ),
        );
        traps.push((rom.get_copy_data_input_state_ret, Hook::CopyDataInputState));
        traps.push((rom.main_read_joyflags, Hook::MainReadJoyflags));
        traps.push((rom.copy_input_data_entry, Hook::CopyInputData));
        assert(traps@ =~= fastforwarder_table(rom));
        traps
    }

    fn replayer_traps(&self) -> (traps: Vec<(u32, Hook)>)
        ensures
            traps@ == replayer_table(self.offsets().rom),
    {
        let mut traps = self.fastforwarder_traps();
        traps.push((self.offsets.rom.round_end_entry, Hook::RoundEnd));
        traps
    }

    fn handle_common_trap(&self, hook: Hook) -> (effects: Vec<Effect>)
        ensures
            effects_view(effects@) == common_trap_spec(hook),
    {
        common_trap(hook)
    }

    /// The two traps that draw from the random source say what holds
    /// whatever is drawn; every other trap is pinned down.
    fn handle_primary_trap(&self, hook: Hook, ctx: &TrapContext, match_: &mut Option<Match>) -> (effects:
        Vec<Effect>)
        ensures
            match hook {
                Hook::CommMenuInit => option_view(*final(match_)) == option_view(*old(match_))
                    && match option_view(*old(match_)) {
                    Some(m) => comm_menu_init_holds(
                        m.match_type,
                        m.is_offerer,
                        effects_view(effects@),
                    ),
                    None => effects_view(effects@) == Seq::<EffectView>::empty(),
                },
                Hook::CommMenuInitBattle => option_view(*final(match_)) == option_view(
                    *old(match_),
                ) && match option_view(*old(match_)) {
                    Some(m) => sets_battle_settings(
                        (m.match_type & 0xff) as u8,
                        effects_view(effects@),
                    ),
                    None => effects_view(effects@) == Seq::<EffectView>::empty(),
                },
                _ => (option_view(*final(match_)), effects_view(effects@)) == primary_trap_spec(
                    hook,
                    ctx@,
                    option_view(*old(match_)),
                ),
            },
    {
        match hook {
            Hook::SkipLogo => one_effect(Effect::SkipLogo),
            Hook::ContinueFromTitleMenu => one_effect(Effect::ContinueFromTitleMenu),
            Hook::OpenCommMenuFromOverworld => one_effect(Effect::OpenCommMenuFromOverworld),
            Hook::CommMenuInit => match match_ {
                Some(m) => {
                    let match_type: u16 = m.match_type();
                    let is_offerer = m.is_offerer();
                    Self::comm_menu_init(m.lock_rng(), match_type, is_offerer)
                },
                None => no_effects(),
            },
            Hook::RoundOutcome => {
                round_outcome(match_, ctx.r0);
                no_effects()
            },
            Hook::RoundEnd => if match_.is_some() {
                one_effect(Effect::EndRound)
            } else {
                no_effects()
            },
            Hook::RoundStart => if match_.is_some() {
                one_effect(Effect::StartRound)
            } else {
                no_effects()
            },
            Hook::BattleIsP2 | Hook::LinkIsP2 => is_p2(match_),
            Hook::CopyDataInputState => {
                let r0: i32 = if match_.is_some() {
                    ctx.r0
                } else {
                    4
                };
                one_effect(Effect::SetGpr { register: 0, value: r0 })
            },
            Hook::CommMenuInitBattle => match match_ {
                Some(m) => {
                    let match_type: u8 = (m.match_type() & 0xff) as u8;
                    draw_battle_settings(m.lock_rng(), match_type)
                },
                None => no_effects(),
            },
            Hook::CommMenuEndBattle => one_effect(Effect::EndMatch),
            Hook::SkipLinkCableInputCall => Self::skip_link_cable_input_call(ctx),
            Hook::MainReadJoyflags => match match_ {
                Some(m) => match &m.round_state().round {
                    Some(round) => read_joyflags(
                        round,
                        ctx.current_tick,
                        ctx.joyflags,
                        &ctx.tx_packet,
                        true,
                    ),
                    None => no_effects(),
                },
                None => no_effects(),
            },
            Hook::CopyInputData => copy_input_data(match_),
            _ => no_effects(),
        }
    }

    /// The two traps that draw from the random source say what holds
    /// whatever is drawn; every other trap is pinned down. The shadow seeds
    /// its private stream with the stream of the other role.
    fn handle_shadow_trap(&self, hook: Hook, ctx: &TrapContext, state: &mut shadow::State) -> (effects:
        Vec<Effect>)
        ensures
            match hook {
                Hook::CommMenuInit => final(state)@ == old(state)@ && comm_menu_init_holds(
                    old(state)@.match_type,
                    !old(state)@.is_offerer,
                    effects_view(effects@),
                ),
                Hook::CommMenuInitBattle => final(state)@ == old(state)@ && sets_battle_settings(
                    (old(state)@.match_type & 0xff) as u8,
                    effects_view(effects@),
                ),
                _ => (final(state)@, effects_view(effects@)) == shadow_trap_spec(
                    hook,
                    ctx@,
                    old(state)@,
                ),
            },
    {
        match hook {
            Hook::SkipLogo => one_effect(Effect::SkipLogo),
            Hook::ContinueFromTitleMenu => one_effect(Effect::ContinueFromTitleMenu),
            Hook::OpenCommMenuFromOverworld => one_effect(Effect::OpenCommMenuFromOverworld),
            Hook::CommMenuInit => {
                let match_type: u16 = state.match_type();
                let takes_offerer_stream = !state.is_offerer();
                Self::comm_menu_init(state.lock_rng(), match_type, takes_offerer_stream)
            },
            Hook::RoundOutcome => {
                if ctx.r0 == 1 {
                    state.set_won_last_round(false);
                } else if ctx.r0 == 2 {
                    state.set_won_last_round(true);
                }
                no_effects()
            },
            Hook::RoundStart => {
                state.start_round();
                no_effects()
            },
            Hook::RoundEnd => {
                state.end_round();
                one_effect(Effect::SaveState(StateSlot::ShadowApplied))
            },
            Hook::BattleIsP2 | Hook::LinkIsP2 => match &state.round_state().round {
                Some(round) => {
                    let index: u8 = round.remote_player_index();
                    one_effect(Effect::SetGpr { register: 0, value: index as i32 })
                },
                None => no_effects(),
            },
            Hook::CommMenuInitBattle => {
                let match_type: u8 = (state.match_type() & 0xff) as u8;
                draw_battle_settings(state.lock_rng(), match_type)
            },
            Hook::SkipLinkCableInputCall => Self::skip_link_cable_input_call(ctx),
            Hook::MainReadJoyflags => {
                let round_state = state.lock_round_state();
                let (err, effects) = match &mut round_state.round {
                    Some(round) => shadow_read_joyflags(round, ctx.current_tick, &ctx.tx_packet),
                    None => {
                        return no_effects();
                    },
                };
                if let Some(err) = err {
                    state.set_error(err);
                }
                effects
            },
            Hook::CopyInputData => {
                let round_state = state.lock_round_state();
                let (err, effects) = match &mut round_state.round {
                    Some(round) => shadow_copy_input_data(round, ctx.current_tick),
                    None => {
                        return no_effects();
                    },
                };
                if let Some(err) = err {
                    state.set_error(err);
                }
                effects
            },
            _ => no_effects(),
        }
    }

    fn handle_fastforwarder_trap(
        &self,
        hook: Hook,
        ctx: &TrapContext,
        state: &mut fastforwarder::State,
    ) -> (effects: Vec<Effect>)
        ensures
            (final(state)@, effects_view(effects@)) == fastforwarder_trap_spec(
                hook,
                ctx@,
                old(state)@,
            ),
    {
        match hook {
            Hook::BattleIsP2 | Hook::LinkIsP2 => {
                let index: u8 = state.local_player_index();
                one_effect(Effect::SetGpr { register: 0, value: index as i32 })
            },
            Hook::SkipLinkCableInputCall => Self::skip_link_cable_input_call(ctx),
            Hook::CopyDataInputState => one_effect(Effect::SetGpr { register: 0, value: 2 }),
            Hook::MainReadJoyflags => fastforwarder_read_joyflags(state, ctx.current_tick),
            Hook::CopyInputData => fastforwarder_copy_input_data(state, ctx.current_tick),
            _ => no_effects(),
        }
    }

    fn handle_replayer_trap(&self, hook: Hook, ctx: &TrapContext, state: &mut replayer::State) -> (effects:
        Vec<Effect>)
        ensures
            (final(state)@, effects_view(effects@)) == replayer_trap_spec(hook, ctx@, old(state)@),
    {
        match hook {
            Hook::BattleIsP2 | Hook::LinkIsP2 => {
                let index: u8 = state.local_player_index();
                one_effect(Effect::SetGpr { register: 0, value: index as i32 })
            },
            Hook::SkipLinkCableInputCall => Self::skip_link_cable_input_call(ctx),
            Hook::CopyDataInputState => one_effect(Effect::SetGpr { register: 0, value: 2 }),
            Hook::MainReadJoyflags => replayer_read_joyflags(state, ctx.current_tick),
            Hook::CopyInputData => replayer_copy_input_data(state, ctx.current_tick),
            Hook::RoundEnd => {
                replayer_round_end(state, ctx.r0);
                no_effects()
            },
            _ => no_effects(),
        }
    }

    fn placeholder_rx(&self) -> (packet: Vec<u8>)
        ensures
            packet@ == Seq::new(PACKET_LENGTH as nat, |i: int| 0u8),
    {
        let mut packet: Vec<u8> = Vec::new();
        let mut i: usize = 0;
        while i < PACKET_LENGTH
            invariant
                i <= PACKET_LENGTH,
                packet@ == Seq::new(i as nat, |i: int| 0u8),
            decreases PACKET_LENGTH - i,
        {
            packet.push(0);
            i = i + 1;
            assert(packet@ =~= Seq::new(i as nat, |i: int| 0u8));
        }
        packet
    }

    /// A fastforward begins where the game reads the joypad.
    fn prepare_for_fastforward(&self) -> (effect: Effect)
        ensures
            effect@ == EffectView::SetPc(self.offsets().rom.main_read_joyflags),
    {
        Effect::SetPc(self.offsets.rom.main_read_joyflags)
    }

    fn replace_opponent_name(&self, name: &str) -> (effects: Vec<Effect>)
        ensures
            effects_view(effects@) == replace_opponent_name_spec(
                self.offsets().rom.opponent_name,
                name@,
            ),
    {
        if self.offsets.rom.opponent_name == 0 || name.unicode_len() == 0 {
            return no_effects();
        }
        let bytes = encode_opponent_name(name);
        one_effect(Effect::WriteRange { address: self.offsets.rom.opponent_name, bytes })
    }
}

} // verus!
