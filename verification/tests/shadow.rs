use rand_pcg::Mcg128Xsl64;
use tango_netplay::desync::{decimal, Desync, Phase};
use tango_netplay::hooks::bn6::{Offsets, RomOffsets, BN6};
use tango_netplay::hooks::{Effect, Hook, Hooks, StateSlot, TrapContext};
use tango_netplay::shadow::{Applied, FirstCommit, Output, RoundEnd, Shadow};

fn hooks() -> BN6 {
    BN6::new(Offsets {
        rom: RomOffsets {
            start_screen_jump_table_entry: 1,
            start_screen_sram_unmask_ret: 2,
            game_load_ret: 3,
            comm_menu_init_ret: 4,
            round_run_unpaused_step_cmp_retval: 5,
            round_end_entry: 6,
            round_start_ret: 7,
            battle_is_p2_tst: 8,
            link_is_p2_ret: 9,
            get_copy_data_input_state_ret: 10,
            comm_menu_handle_link_cable_input_entry: 11,
            comm_menu_init_battle_entry: 12,
            comm_menu_end_battle_entry: 13,
            comm_menu_in_battle_call_comm_menu_handle_link_cable_input: 14,
            main_read_joyflags: 15,
            copy_input_data_entry: 16,
            opponent_name: 0,
        },
    })
}

fn ctx(current_tick: u32, tx: u8) -> TrapContext {
    TrapContext {
        r0: 0,
        r15: 0x0800_0100,
        thumb_pc: 0,
        current_tick,
        is_linking: true,
        joyflags: 0,
        tx_packet: vec![tx; 16],
    }
}

fn shadow() -> Shadow {
    Shadow::new(0x0102, true, false, Mcg128Xsl64::new(1))
}

/// Carries out what a trap of the shadow asks for; says what went into
/// register 4 and which packets were written.
fn carry_out(shadow: &mut Shadow, effects: Vec<Effect>, state: u8) -> (Option<i32>, Vec<(u32, Vec<u8>)>) {
    let mut r4 = None;
    let mut written = vec![];
    for effect in effects {
        match effect {
            Effect::SetGpr { register: 4, value } => r4 = Some(value),
            Effect::SetRxPacket { player_index, packet } => written.push((player_index, packet)),
            Effect::SaveState(StateSlot::ShadowCommitted) => shadow
                .state()
                .lock_round_state()
                .round
                .as_mut()
                .unwrap()
                .set_committed_state(vec![state]),
            other => panic!("unexpected {:?}", other),
        }
    }
    (r4, written)
}

#[test]
fn shadow_advances_to_its_first_committed_state() {
    let hooks = hooks();
    let mut shadow = shadow();
    assert!(matches!(shadow.advance_until_first_committed_state(), FirstCommit::Continue));
    assert!(hooks.handle_shadow_trap(Hook::RoundStart, &ctx(0, 0), shadow.state()).is_empty());
    assert!(matches!(shadow.advance_until_first_committed_state(), FirstCommit::Continue));
    let effects = hooks.handle_shadow_trap(Hook::MainReadJoyflags, &ctx(100, 0x11), shadow.state());
    carry_out(&mut shadow, effects, 0xa0);
    match shadow.advance_until_first_committed_state() {
        FirstCommit::Committed(state) => assert_eq!(state, vec![0xa0]),
        other => panic!("found {:?}", other),
    }
    match shadow.advance_until_first_committed_state() {
        FirstCommit::Committed(state) => assert_eq!(state, vec![0xa0]),
        other => panic!("found {:?}", other),
    }
}

#[test]
fn shadow_applies_an_input() {
    let hooks = hooks();
    let mut shadow = shadow();
    hooks.handle_shadow_trap(Hook::RoundStart, &ctx(0, 0), shadow.state());
    let effects = hooks.handle_shadow_trap(Hook::MainReadJoyflags, &ctx(100, 0x11), shadow.state());
    carry_out(&mut shadow, effects, 0xa0);

    // The local side hands over its packet and the buttons for tick 100.
    shadow.apply_input(100, 0x0001, &[0x22; 16]).unwrap();

    // The emulator runs: the joypad is read, the packets are copied, and
    // at the next read of the joypad the state is committed.
    let effects = hooks.handle_shadow_trap(Hook::MainReadJoyflags, &ctx(100, 0x11), shadow.state());
    let (r4, written) = carry_out(&mut shadow, effects, 0);
    assert_eq!(r4, Some(0xfc01));
    assert!(written.is_empty());
    let effects = hooks.handle_shadow_trap(Hook::CopyInputData, &ctx(100, 0x11), shadow.state());
    let (_, written) = carry_out(&mut shadow, effects, 0);
    // The local player is the second player: its packet goes to slot 1,
    // the shadow's own packet to slot 0.
    assert_eq!(written, vec![(1, vec![0x22; 16]), (0, vec![0x11; 16])]);
    let effects = hooks.handle_shadow_trap(Hook::MainReadJoyflags, &ctx(101, 0x33), shadow.state());
    let (r4, _) = carry_out(&mut shadow, effects, 0xa1);
    assert_eq!(r4, None);

    match shadow.continue_apply_input() {
        Applied::Load { state, tx } => {
            assert_eq!(state, vec![0xa1]);
            assert_eq!(tx, Some(vec![0x11; 16]));
        }
        other => panic!("found {:?}", other),
    }
    assert!(matches!(shadow.continue_apply_input(), Applied::Continue));

    // The next input is for tick 101 and yields the packet of tick 101.
    shadow.apply_input(101, 0, &[0x23; 16]).unwrap();
    assert_eq!(
        shadow.apply_input(102, 0, &[0x24; 16]).unwrap_err(),
        Desync::NoShadowOutput
    );
}

#[test]
fn shadow_copy_passes_over_the_tick_after_the_pair() {
    let hooks = hooks();
    let mut shadow = shadow();
    hooks.handle_shadow_trap(Hook::RoundStart, &ctx(0, 0), shadow.state());
    let effects = hooks.handle_shadow_trap(Hook::MainReadJoyflags, &ctx(100, 0x11), shadow.state());
    carry_out(&mut shadow, effects, 0xa0);
    shadow.apply_input(100, 0, &[0x22; 16]).unwrap();
    let effects = hooks.handle_shadow_trap(Hook::MainReadJoyflags, &ctx(100, 0x11), shadow.state());
    carry_out(&mut shadow, effects, 0);
    assert!(hooks.handle_shadow_trap(Hook::CopyInputData, &ctx(101, 0), shadow.state()).is_empty());
    assert!(shadow.state().take_error().is_none());
    assert!(hooks.handle_shadow_trap(Hook::CopyInputData, &ctx(102, 0), shadow.state()).is_empty());
    assert_eq!(
        shadow.state().take_error(),
        Some(Desync::InputTick { phase: Phase::CopyInputData, input_tick: 100, in_battle_tick: 102 })
    );
}

#[test]
fn shadow_refuses_an_input_for_another_tick() {
    let hooks = hooks();
    let mut shadow = shadow();
    assert_eq!(shadow.apply_input(5, 0, &[]).unwrap_err(), Desync::NoShadowRound);
    hooks.handle_shadow_trap(Hook::RoundStart, &ctx(0, 0), shadow.state());
    assert_eq!(shadow.apply_input(5, 0, &[]).unwrap_err(), Desync::NoShadowOutput);
    shadow
        .state()
        .lock_round_state()
        .round
        .as_mut()
        .unwrap()
        .set_output(Output { tick: 7, tx: vec![1] });
    let err = shadow.apply_input(5, 0, &[]).unwrap_err();
    assert_eq!(err, Desync::ShadowOutputTick { output_tick: 7, in_battle_tick: 5 });
    assert_eq!(err.message(), "shadow apply input: output tick != in battle tick: 7 != 5");
    assert_eq!(shadow.apply_input(7, 0, &[]).unwrap_err(), Desync::NoShadowOutput);
}

#[test]
fn shadow_reports_what_its_traps_found() {
    let hooks = hooks();
    let mut shadow = shadow();
    hooks.handle_shadow_trap(Hook::RoundStart, &ctx(0, 0), shadow.state());
    let effects = hooks.handle_shadow_trap(Hook::MainReadJoyflags, &ctx(100, 0x11), shadow.state());
    carry_out(&mut shadow, effects, 0xa0);
    shadow.apply_input(100, 0, &[0; 16]).unwrap();
    let effects = hooks.handle_shadow_trap(Hook::MainReadJoyflags, &ctx(103, 0), shadow.state());
    assert!(effects.is_empty());
    match shadow.continue_apply_input() {
        Applied::Failed(err) => {
            assert_eq!(
                err,
                Desync::InputTick { phase: Phase::ReadJoyflags, input_tick: 100, in_battle_tick: 103 }
            );
            assert_eq!(err.message(), "read joyflags: input tick != in battle tick: 100 != 103");
        }
        other => panic!("found {:?}", other),
    }
}

#[test]
fn shadow_round_ends() {
    let hooks = hooks();
    let mut shadow = shadow();
    assert_eq!(shadow.advance_until_round_end(), RoundEnd::Ended);
    hooks.handle_shadow_trap(Hook::RoundStart, &ctx(0, 0), shadow.state());
    assert_eq!(shadow.advance_until_round_end(), RoundEnd::Continue);
    shadow.state().set_error(Desync::InputsExhausted);
    assert_eq!(shadow.advance_until_round_end(), RoundEnd::Failed(Desync::InputsExhausted));
    assert_eq!(shadow.advance_until_round_end(), RoundEnd::Continue);
    let effects = hooks.handle_shadow_trap(Hook::RoundEnd, &ctx(0, 0), shadow.state());
    assert!(matches!(effects[..], [Effect::SaveState(StateSlot::ShadowApplied)]));
    shadow.state().set_applied_state(vec![3]);
    assert_eq!(shadow.advance_until_round_end(), RoundEnd::Ended);
    assert_eq!(shadow.state().take_applied_state(), Some(vec![3]));
}

#[test]
fn shadow_plays_the_other_player() {
    let hooks = hooks();
    let mut shadow = shadow();
    assert!(hooks.handle_shadow_trap(Hook::BattleIsP2, &ctx(0, 0), shadow.state()).is_empty());
    hooks.handle_shadow_trap(Hook::RoundStart, &ctx(0, 0), shadow.state());
    // The local side lost the round before: it is the second player, and
    // the shadow is the first.
    let effects = hooks.handle_shadow_trap(Hook::BattleIsP2, &ctx(0, 0), shadow.state());
    assert!(matches!(effects[..], [Effect::SetGpr { register: 0, value: 0 }]));
    {
        let round_state = shadow.state().lock_round_state();
        let round = round_state.round.as_ref().unwrap();
        assert_eq!(round.local_player_index(), 1);
        assert_eq!(round.remote_player_index(), 0);
    }
    // The shadow's game says that it lost: the local side won.
    let mut lost = ctx(0, 0);
    lost.r0 = 2;
    hooks.handle_shadow_trap(Hook::RoundOutcome, &lost, shadow.state());
    assert!(shadow.state().lock_round_state().won_last_round);
    hooks.handle_shadow_trap(Hook::RoundStart, &ctx(0, 0), shadow.state());
    let effects = hooks.handle_shadow_trap(Hook::LinkIsP2, &ctx(0, 0), shadow.state());
    assert!(matches!(effects[..], [Effect::SetGpr { register: 0, value: 1 }]));
}

#[test]
fn round_accepts_input_once_told() {
    let mut shadow = shadow();
    shadow.state().start_round();
    let round_state = shadow.state().lock_round_state();
    let round = round_state.round.as_mut().unwrap();
    assert!(!round.is_accepting_input());
    round.start_accepting_input();
    assert!(round.is_accepting_input());
    assert!(round.peek_input().is_none());
    assert!(round.take_input().is_none());
    assert!(round.take_output().is_none());
}

#[test]
fn state_keeps_what_it_was_made_with() {
    let mut shadow = shadow();
    assert_eq!(shadow.state().match_type(), 0x0102);
    assert!(shadow.state().is_offerer());
    shadow.state().set_won_last_round(true);
    shadow.state().start_round();
    assert_eq!(
        shadow.state().lock_round_state().round.as_ref().unwrap().local_player_index(),
        0
    );
    shadow.state().end_round();
    assert!(shadow.state().lock_round_state().round.is_none());
}

#[test]
fn decimal_writes_numbers() {
    assert_eq!(decimal(0), "0");
    assert_eq!(decimal(9), "9");
    assert_eq!(decimal(10), "10");
    assert_eq!(decimal(4294967295), "4294967295");
    assert_eq!(decimal(1203), "1203");
}

#[test]
fn desync_messages() {
    assert_eq!(
        Desync::LocalRemoteTick {
            phase: Phase::CopyInputData,
            in_battle_tick: 1,
            local_tick: 2,
            remote_tick: 3
        }
        .message(),
        "copy input data: local tick != remote tick (in battle tick = 1): 2 != 3"
    );
    assert_eq!(Desync::NoShadowOutput.message(), "no output in shadow to take");
    assert_eq!(Desync::InputsExhausted.message(), "inputs exhausted");
    assert_eq!(Desync::LocalQueueFull.message(), "local input queue full");
    assert_eq!(Desync::NoShadowRound.message(), "no round in shadow");
}
