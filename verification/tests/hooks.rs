use rand_pcg::Mcg128Xsl64;
use std::collections::VecDeque;
use tango_netplay::battle::Match;
use tango_netplay::fastforwarder;
use tango_netplay::hooks::bn3;
use tango_netplay::hooks::bn3::BN3;
use tango_netplay::hooks::bn6;
use tango_netplay::hooks::bn6::{encode_opponent_name, name_code, BN6};
use tango_netplay::hooks::primary::{after_fastforward, seed_rng};
use tango_netplay::hooks::{family_of, skip_call, Effect, Family, Hook, Hooks, StateSlot, TrapContext};
use tango_netplay::input::{joypad_word, Input, Pair};
use tango_netplay::replayer;
use tango_netplay::replayer::BattleResult;
use tango_netplay::rng::{advance_rng, step_rng, MAX_SEED_STEPS};
use tango_netplay::shadow;

fn bn6_offsets() -> bn6::Offsets {
    bn6::Offsets {
        rom: bn6::RomOffsets {
            start_screen_jump_table_entry: 0x101,
            start_screen_sram_unmask_ret: 0x102,
            game_load_ret: 0x103,
            comm_menu_init_ret: 0x104,
            round_run_unpaused_step_cmp_retval: 0x105,
            round_end_entry: 0x106,
            round_start_ret: 0x107,
            battle_is_p2_tst: 0x108,
            link_is_p2_ret: 0x109,
            get_copy_data_input_state_ret: 0x10a,
            comm_menu_handle_link_cable_input_entry: 0x10b,
            comm_menu_init_battle_entry: 0x10c,
            comm_menu_end_battle_entry: 0x10d,
            comm_menu_in_battle_call_comm_menu_handle_link_cable_input: 0x10e,
            main_read_joyflags: 0x10f,
            copy_input_data_entry: 0x110,
            opponent_name: 0x0203_0000,
        },
    }
}

fn bn3_offsets() -> bn3::Offsets {
    bn3::Offsets {
        rom: bn3::RomOffsets {
            start_screen_jump_table_entry: 0x301,
            start_screen_sram_unmask_ret: 0x302,
            game_load_ret: 0x303,
            comm_menu_init_ret: 0x304,
            round_start_ret: 0x305,
            battle_is_p2_ret: 0x306,
            link_is_p2_ret: 0x307,
            main_read_joyflags: 0x308,
            handle_input_init_send_and_receive_call: 0x309,
            handle_input_update_send_and_receive_call: 0x30a,
            handle_input_deinit_send_and_receive_call: 0x30b,
            comm_menu_send_and_receive_call: 0x30c,
            handle_input_post_call: 0x30d,
        },
    }
}

fn ctx() -> TrapContext {
    TrapContext {
        r0: 2,
        r15: 0x0800_1000,
        thumb_pc: 0x0800_2000,
        current_tick: 40,
        is_linking: true,
        joyflags: 0x0001_0203,
        tx_packet: vec![0x5a; 16],
    }
}

fn steps_from(seed: u32, state: u32) -> bool {
    let mut current = seed;
    for _ in 0..=MAX_SEED_STEPS {
        if current == state {
            return true;
        }
        current = step_rng(current);
    }
    false
}

fn new_match(is_offerer: bool) -> Option<Match> {
    Some(Match::new(0x0201, is_offerer, Mcg128Xsl64::new(99)))
}

fn start_round(match_: &mut Option<Match>, won_last_round: bool) {
    let round_state = match_.as_mut().unwrap().lock_round_state();
    round_state.set_won_last_round(won_last_round);
    round_state.start_round(2, 60, vec![0; 16]);
}

#[test]
fn bn6_primary_catalogue() {
    let hooks = BN6::new(bn6_offsets());
    let traps = hooks.primary_traps();
    assert_eq!(traps.len(), 16);
    assert_eq!(traps[0], (0x101, Hook::SkipLogo));
    assert_eq!(traps[3], (0x104, Hook::CommMenuInit));
    assert_eq!(traps[4], (0x105, Hook::RoundOutcome));
    assert_eq!(traps[5], (0x106, Hook::RoundEnd));
    assert_eq!(traps[6], (0x107, Hook::RoundStart));
    assert_eq!(traps[13], (0x10e, Hook::SkipLinkCableInputCall));
    assert_eq!(traps[14], (0x10f, Hook::MainReadJoyflags));
    assert_eq!(traps[15], (0x110, Hook::CopyInputData));
    assert!(hooks.common_traps().is_empty());
}

#[test]
fn bn6_shadow_and_fastforwarder_catalogues() {
    let hooks = BN6::new(bn6_offsets());
    let traps = hooks.shadow_traps();
    assert_eq!(traps.len(), 15);
    assert_eq!(traps[5], (0x107, Hook::RoundStart));
    assert_eq!(traps[6], (0x106, Hook::RoundEnd));
    assert!(!traps.iter().any(|(_, hook)| *hook == Hook::CommMenuEndBattle));
    let traps = hooks.fastforwarder_traps();
    assert_eq!(
        traps,
        vec![
            (0x108, Hook::BattleIsP2),
            (0x109, Hook::LinkIsP2),
            (0x10e, Hook::SkipLinkCableInputCall),
            (0x10a, Hook::CopyDataInputState),
            (0x10f, Hook::MainReadJoyflags),
            (0x110, Hook::CopyInputData),
        ]
    );
    let mut replayer = traps.clone();
    replayer.push((0x106, Hook::RoundEnd));
    assert_eq!(hooks.replayer_traps(), replayer);
}

#[test]
fn bn3_catalogues() {
    let hooks = BN3::new(bn3_offsets());
    assert_eq!(
        hooks.common_traps(),
        vec![
            (0x301, Hook::SkipLogo),
            (0x302, Hook::ContinueFromTitleMenu),
            (0x303, Hook::OpenCommMenuFromOverworld),
        ]
    );
    let traps = hooks.primary_traps();
    assert_eq!(traps.len(), 13);
    assert_eq!(traps[4], (0x308, Hook::MainReadJoyflags));
    assert_eq!(traps[5], (0x309, Hook::SendAndReceive));
    assert_eq!(traps[7], (0x30b, Hook::SendAndReceive));
    assert_eq!(traps[10], (0x0803_e976, Hook::SkipSioInit));
    assert_eq!(traps[11], (0x0800_6440, Hook::Poststep));
    assert_eq!(traps[12], (0x0800_643a, Hook::Prestep));
    let traps = hooks.shadow_traps();
    assert_eq!(traps.len(), 10);
    assert_eq!(traps[9], (0x0803_e976, Hook::SkipSioInit));
    let traps = hooks.fastforwarder_traps();
    assert_eq!(traps.len(), 8);
    assert_eq!(traps[7], (0x30d, Hook::HandleInputPostCall));
    assert_eq!(hooks.replayer_traps(), traps);
}

#[test]
fn placeholders() {
    assert_eq!(BN6::new(bn6_offsets()).placeholder_rx(), vec![0; 16]);
    assert_eq!(
        BN3::new(bn3_offsets()).placeholder_rx(),
        vec![0x01, 0x00, 0x00, 0xff, 0x06, 0xff, 0xff, 0xff, 0, 0, 0, 0, 0, 0, 0, 0]
    );
}

#[test]
fn fastforward_begins_where_the_joypad_is_read() {
    assert!(matches!(BN6::new(bn6_offsets()).prepare_for_fastforward(), Effect::SetPc(0x10f)));
    assert!(matches!(BN3::new(bn3_offsets()).prepare_for_fastforward(), Effect::SetThumbPc(0x308)));
}

#[test]
fn joypad_word_sets_the_reserved_bits() {
    assert_eq!(joypad_word(0x0001), 0xfc01);
    assert_eq!(joypad_word(0), 0xfc00);
    assert_eq!(joypad_word(0x03ff), 0xffff);
}

#[test]
fn skip_call_moves_past_the_call() {
    let effects = skip_call(0x0803_e976);
    assert!(matches!(
        effects[..],
        [Effect::SetThumbPc(0x0803_e97a), Effect::SetGpr { register: 0, value: 3 }]
    ));
    assert!(matches!(skip_call(0xffff_fffe)[0], Effect::SetThumbPc(2)));
}

#[test]
fn seeding_picks_the_stream_of_the_role() {
    let effects = seed_rng(true, 11, 22, 33);
    assert!(matches!(effects[..], [Effect::SetRng1State(11), Effect::SetRng2State(33)]));
    let effects = seed_rng(false, 11, 22, 33);
    assert!(matches!(effects[..], [Effect::SetRng1State(22), Effect::SetRng2State(33)]));
}

#[test]
fn primary_and_shadow_seed_opposite_streams() {
    let hooks = BN6::new(bn6_offsets());
    let mut match_ = new_match(true);
    let primary = hooks.handle_primary_trap(Hook::CommMenuInit, &ctx(), &mut match_);
    let mut state = shadow::State::new(0x0201, true, Mcg128Xsl64::new(99), false);
    let shadow = hooks.handle_shadow_trap(Hook::CommMenuInit, &ctx(), &mut state);
    let mut rng = Mcg128Xsl64::new(99);
    let offerer = tango_netplay::rng::generate_rng1_state(&mut rng);
    let answerer = tango_netplay::rng::generate_rng1_state(&mut rng);
    let shared = tango_netplay::rng::generate_rng2_state(&mut rng);
    assert!(steps_from(0, offerer) && steps_from(0, answerer) && steps_from(0xa338_244f, shared));
    match &primary[..] {
        [Effect::StartBattleFromCommMenu { match_type: Some(0x0201) }, Effect::SetRng1State(rng1), Effect::SetRng2State(rng2)] =>
        {
            assert_eq!((*rng1, *rng2), (offerer, shared));
        }
        other => panic!("the primary did {:?}", other),
    }
    match &shadow[..] {
        [Effect::StartBattleFromCommMenu { match_type: Some(0x0201) }, Effect::SetRng1State(rng1), Effect::SetRng2State(rng2)] =>
        {
            assert_eq!((*rng1, *rng2), (answerer, shared));
        }
        other => panic!("the shadow did {:?}", other),
    }
    let mut none = None;
    assert!(hooks.handle_primary_trap(Hook::CommMenuInit, &ctx(), &mut none).is_empty());
}

#[test]
fn bn3_seeds_before_it_starts_the_battle() {
    let hooks = BN3::new(bn3_offsets());
    let mut match_ = new_match(false);
    let effects = hooks.handle_primary_trap(Hook::CommMenuInit, &ctx(), &mut match_);
    let mut rng = Mcg128Xsl64::new(99);
    tango_netplay::rng::generate_rng1_state(&mut rng);
    let answerer = tango_netplay::rng::generate_rng1_state(&mut rng);
    match &effects[..] {
        [Effect::SetRng1State(rng1), Effect::SetRng2State(_), Effect::StartBattleFromCommMenu { match_type: None }] => {
            assert_eq!(*rng1, answerer)
        }
        other => panic!("the primary did {:?}", other),
    }
}

#[test]
fn bn6_primary_cosmetic_traps() {
    let hooks = BN6::new(bn6_offsets());
    let mut match_ = None;
    assert!(matches!(
        hooks.handle_primary_trap(Hook::SkipLogo, &ctx(), &mut match_)[..],
        [Effect::SkipLogo]
    ));
    assert!(matches!(
        hooks.handle_primary_trap(Hook::ContinueFromTitleMenu, &ctx(), &mut match_)[..],
        [Effect::ContinueFromTitleMenu]
    ));
    assert!(matches!(
        hooks.handle_primary_trap(Hook::OpenCommMenuFromOverworld, &ctx(), &mut match_)[..],
        [Effect::OpenCommMenuFromOverworld]
    ));
    assert!(hooks.handle_primary_trap(Hook::UnhandledLinkCableInput, &ctx(), &mut match_).is_empty());
    assert!(matches!(
        hooks.handle_primary_trap(Hook::SkipLinkCableInputCall, &ctx(), &mut match_)[..],
        [Effect::SetPc(0x0800_1004)]
    ));
    assert!(matches!(
        hooks.handle_primary_trap(Hook::CommMenuEndBattle, &ctx(), &mut match_)[..],
        [Effect::EndMatch]
    ));
}

#[test]
fn bn6_primary_without_a_match() {
    let hooks = BN6::new(bn6_offsets());
    let mut match_ = None;
    assert!(matches!(
        hooks.handle_primary_trap(Hook::CopyDataInputState, &ctx(), &mut match_)[..],
        [Effect::SetGpr { register: 0, value: 4 }]
    ));
    for hook in [
        Hook::RoundStart,
        Hook::RoundEnd,
        Hook::RoundOutcome,
        Hook::BattleIsP2,
        Hook::LinkIsP2,
        Hook::MainReadJoyflags,
        Hook::CopyInputData,
        Hook::CommMenuInitBattle,
    ] {
        assert!(hooks.handle_primary_trap(hook, &ctx(), &mut match_).is_empty());
    }
}

#[test]
fn bn6_primary_round_traps() {
    let hooks = BN6::new(bn6_offsets());
    let mut match_ = new_match(true);
    assert!(matches!(
        hooks.handle_primary_trap(Hook::CopyDataInputState, &ctx(), &mut match_)[..],
        [Effect::SetGpr { register: 0, value: 2 }]
    ));
    assert!(matches!(
        hooks.handle_primary_trap(Hook::RoundStart, &ctx(), &mut match_)[..],
        [Effect::StartRound]
    ));
    assert!(hooks.handle_primary_trap(Hook::BattleIsP2, &ctx(), &mut match_).is_empty());
    assert!(hooks.handle_primary_trap(Hook::MainReadJoyflags, &ctx(), &mut match_).is_empty());
    start_round(&mut match_, false);
    assert!(matches!(
        hooks.handle_primary_trap(Hook::BattleIsP2, &ctx(), &mut match_)[..],
        [Effect::SetGpr { register: 0, value: 1 }]
    ));
    let mut won = ctx();
    won.r0 = 1;
    hooks.handle_primary_trap(Hook::RoundOutcome, &won, &mut match_);
    assert!(match_.as_ref().unwrap().round_state().won_last_round);
    let mut lost = ctx();
    lost.r0 = 2;
    hooks.handle_primary_trap(Hook::RoundOutcome, &lost, &mut match_);
    assert!(!match_.as_ref().unwrap().round_state().won_last_round);
    let mut other = ctx();
    other.r0 = 0;
    hooks.handle_primary_trap(Hook::RoundOutcome, &other, &mut match_);
    assert!(!match_.as_ref().unwrap().round_state().won_last_round);
    assert!(matches!(
        hooks.handle_primary_trap(Hook::RoundEnd, &ctx(), &mut match_)[..],
        [Effect::EndRound]
    ));
    match_.as_mut().unwrap().lock_round_state().end_round();
    assert!(match_.as_ref().unwrap().round_state().round.is_none());
}

#[test]
fn bn6_primary_reads_the_joypad() {
    let hooks = BN6::new(bn6_offsets());
    let mut match_ = new_match(true);
    start_round(&mut match_, true);
    let effects = hooks.handle_primary_trap(Hook::MainReadJoyflags, &ctx(), &mut match_);
    match &effects[..] {
        [Effect::CommitFirstState { current_tick: 40 }, Effect::FillInputDelay { current_tick: 40 }, Effect::AddLocalInputAndFastforward { current_tick: 40, joyflags: 0x0203, tx }] => {
            assert_eq!(tx, &vec![0x5a; 16])
        }
        other => panic!("the primary did {:?}", other),
    }
    match_
        .as_mut()
        .unwrap()
        .lock_round_state()
        .round
        .as_mut()
        .unwrap()
        .set_first_committed_state(40, vec![1], vec![2]);
    let effects = hooks.handle_primary_trap(Hook::MainReadJoyflags, &ctx(), &mut match_);
    assert!(matches!(
        effects[..],
        [Effect::AddLocalInputAndFastforward { current_tick: 40, joyflags: 0x0203, .. }]
    ));
}

#[test]
fn bn6_primary_copies_the_last_input() {
    let hooks = BN6::new(bn6_offsets());
    let mut match_ = new_match(true);
    start_round(&mut match_, true);
    assert!(hooks.handle_primary_trap(Hook::CopyInputData, &ctx(), &mut match_).is_empty());
    match_.as_mut().unwrap().lock_round_state().round.as_mut().unwrap().finish_fastforward(
        41,
        vec![],
        Pair {
            local: Input { local_tick: 40, remote_tick: 39, joyflags: 0, rx: vec![1; 16] },
            remote: Input { local_tick: 40, remote_tick: 39, joyflags: 0, rx: vec![2; 16] },
        },
    );
    let effects = hooks.handle_primary_trap(Hook::CopyInputData, &ctx(), &mut match_);
    match &effects[..] {
        [Effect::SetRxPacket { player_index: 0, packet: local }, Effect::SetRxPacket { player_index: 1, packet: remote }] => {
            assert_eq!((local, remote), (&vec![1; 16], &vec![2; 16]))
        }
        other => panic!("the primary did {:?}", other),
    }
    assert!(hooks.handle_primary_trap(Hook::CopyInputData, &ctx(), &mut match_).is_empty());
}

#[test]
fn bn6_battle_settings_are_drawn_for_the_match_type() {
    let hooks = BN6::new(bn6_offsets());
    let mut match_ = new_match(true);
    for _ in 0..50 {
        let effects = hooks.handle_primary_trap(Hook::CommMenuInitBattle, &ctx(), &mut match_);
        match effects[..] {
            [Effect::SetLinkBattleSettingsAndBackground(word)] => {
                assert!((word & 0xff) < 0x60);
                assert!((word >> 8) <= 0x13);
            }
            ref other => panic!("the primary did {:?}", other),
        }
    }
}

#[test]
fn bn3_primary_counts_its_own_ticks() {
    let hooks = BN3::new(bn3_offsets());
    let mut match_ = new_match(true);
    start_round(&mut match_, true);
    hooks.handle_primary_trap(Hook::HandleInputPostCall, &ctx(), &mut match_);
    let tick = |m: &Option<Match>| m.as_ref().unwrap().round_state().round.as_ref().unwrap().current_tick();
    assert_eq!(tick(&match_), 0);
    match_
        .as_mut()
        .unwrap()
        .lock_round_state()
        .round
        .as_mut()
        .unwrap()
        .set_first_committed_state(0, vec![], vec![]);
    hooks.handle_primary_trap(Hook::HandleInputPostCall, &ctx(), &mut match_);
    hooks.handle_primary_trap(Hook::HandleInputPostCall, &ctx(), &mut match_);
    assert_eq!(tick(&match_), 2);
    let effects = hooks.handle_primary_trap(Hook::MainReadJoyflags, &ctx(), &mut match_);
    assert!(matches!(
        effects[..],
        [Effect::AddLocalInputAndFastforward { current_tick: 2, joyflags: 0x0203, .. }]
    ));
    let mut unlinked = ctx();
    unlinked.is_linking = false;
    assert!(hooks.handle_primary_trap(Hook::MainReadJoyflags, &unlinked, &mut match_).is_empty());
    let effects = hooks.handle_primary_trap(Hook::SendAndReceive, &ctx(), &mut match_);
    assert!(matches!(
        effects[..],
        [Effect::SetThumbPc(0x0800_2004), Effect::SetGpr { register: 0, value: 3 }]
    ));
    let queued = match_
        .as_mut()
        .unwrap()
        .lock_round_state()
        .round
        .as_mut()
        .unwrap()
        .take_queued_tx()
        .unwrap();
    assert_eq!((queued.tick, queued.tx), (3, vec![0x5a; 16]));
    let effects = hooks.handle_primary_trap(Hook::CommMenuSendAndReceive, &ctx(), &mut match_);
    match &effects[..] {
        [Effect::SetRxPacket { player_index: 0, packet: a }, Effect::SetRxPacket { player_index: 1, packet: b }] => {
            assert_eq!(a, &hooks.placeholder_rx());
            assert_eq!(b, &hooks.placeholder_rx());
        }
        other => panic!("the primary did {:?}", other),
    }
    assert!(hooks.handle_primary_trap(Hook::Prestep, &ctx(), &mut match_).is_empty());
    assert!(hooks.handle_primary_trap(Hook::Poststep, &ctx(), &mut match_).is_empty());
    assert!(matches!(
        hooks.handle_primary_trap(Hook::SkipSioInit, &ctx(), &mut match_)[..],
        [Effect::SetThumbPc(0x0800_2004), Effect::SetGpr { register: 0, value: 3 }]
    ));
}

#[test]
fn bn3_fastforwarder_counts_its_own_ticks() {
    let hooks = BN3::new(bn3_offsets());
    let mut pairs = VecDeque::new();
    for tick in 7..9u32 {
        pairs.push_back(Pair {
            local: Input { local_tick: tick, remote_tick: 0, joyflags: 0x0010, rx: vec![1; 16] },
            remote: Input { local_tick: tick, remote_tick: 0, joyflags: 0x0020, rx: vec![2; 16] },
        });
    }
    let mut state = fastforwarder::State::new(1, pairs, 7, 8, 8);
    let effects = hooks.handle_fastforwarder_trap(Hook::MainReadJoyflags, &ctx(), &mut state);
    assert!(matches!(effects[..], [Effect::SetGpr { register: 4, value: 0xfc10 }]));
    let effects = hooks.handle_fastforwarder_trap(Hook::SendAndReceive, &ctx(), &mut state);
    assert_eq!(effects.len(), 4);
    assert!(matches!(effects[2], Effect::SetRxPacket { player_index: 1, .. }));
    assert!(matches!(effects[3], Effect::SetRxPacket { player_index: 0, .. }));
    assert!(hooks.handle_fastforwarder_trap(Hook::HandleInputPostCall, &ctx(), &mut state).is_empty());
    assert_eq!(state.current_tick(), 8);
    let effects = hooks.handle_fastforwarder_trap(Hook::MainReadJoyflags, &ctx(), &mut state);
    assert!(matches!(
        effects[..],
        [
            Effect::SaveState(StateSlot::FastforwardCommitted),
            Effect::SetGpr { register: 4, value: 0xfc10 },
            Effect::SaveState(StateSlot::FastforwardDirty)
        ]
    ));
    assert!(matches!(
        hooks.handle_fastforwarder_trap(Hook::BattleIsP2, &ctx(), &mut state)[..],
        [Effect::SetGpr { register: 0, value: 1 }]
    ));
}

#[test]
fn bn6_fastforwarder_small_traps() {
    let hooks = BN6::new(bn6_offsets());
    let mut state = fastforwarder::State::new(0, VecDeque::new(), 0, 0, 0);
    assert!(matches!(
        hooks.handle_fastforwarder_trap(Hook::CopyDataInputState, &ctx(), &mut state)[..],
        [Effect::SetGpr { register: 0, value: 2 }]
    ));
    assert!(matches!(
        hooks.handle_fastforwarder_trap(Hook::LinkIsP2, &ctx(), &mut state)[..],
        [Effect::SetGpr { register: 0, value: 0 }]
    ));
    assert!(matches!(
        hooks.handle_fastforwarder_trap(Hook::SkipLinkCableInputCall, &ctx(), &mut state)[..],
        [Effect::SetPc(0x0800_1004)]
    ));
    assert!(hooks.handle_fastforwarder_trap(Hook::CopyInputData, &ctx(), &mut state).is_empty());
    assert!(hooks.handle_fastforwarder_trap(Hook::SkipLogo, &ctx(), &mut state).is_empty());
}

#[test]
fn replayer_feeds_the_archived_inputs() {
    let hooks = BN6::new(bn6_offsets());
    let mut pairs = VecDeque::new();
    pairs.push_back(Pair {
        local: Input { local_tick: 40, remote_tick: 0, joyflags: 0x0002, rx: vec![1; 16] },
        remote: Input { local_tick: 40, remote_tick: 0, joyflags: 0x0004, rx: vec![2; 16] },
    });
    let mut state = replayer::State::new(1, pairs);
    assert_eq!(state.local_player_index(), 1);
    assert_eq!(state.remote_player_index(), 0);
    assert_eq!(state.inputs_pairs_left(), 1);
    let effects = hooks.handle_replayer_trap(Hook::MainReadJoyflags, &ctx(), &mut state);
    assert!(matches!(effects[..], [Effect::SetGpr { register: 4, value: 0xfc02 }]));
    let effects = hooks.handle_replayer_trap(Hook::CopyInputData, &ctx(), &mut state);
    assert!(matches!(
        effects[..],
        [Effect::SetRxPacket { player_index: 1, .. }, Effect::SetRxPacket { player_index: 0, .. }]
    ));
    assert_eq!(state.inputs_pairs_left(), 0);
    assert!(!state.is_done(false, false));
    assert!(hooks.handle_replayer_trap(Hook::MainReadJoyflags, &ctx(), &mut state).is_empty());
    assert!(state.is_done(false, false));
    assert!(!state.is_done(true, false));
    assert!(state.is_done(true, true));
    assert!(state.take_error().is_none());
    assert!(state.round_result().is_none());
    let mut won = ctx();
    won.r0 = 1;
    hooks.handle_replayer_trap(Hook::RoundEnd, &won, &mut state);
    assert_eq!(state.round_result(), Some(BattleResult::Win));
    assert!(state.is_done(true, false));
}

#[test]
fn opponent_names() {
    assert_eq!(name_code(' '), 0);
    assert_eq!(name_code('0'), 1);
    assert_eq!(name_code('9'), 10);
    assert_eq!(name_code('A'), 11);
    assert_eq!(name_code('Z'), 36);
    assert_eq!(name_code('*'), 37);
    assert_eq!(name_code('a'), 38);
    assert_eq!(name_code('z'), 63);
    assert_eq!(name_code('?'), 0);
    assert_eq!(name_code('é'), 0);
    assert_eq!(encode_opponent_name("Lan 1"), vec![22, 38, 51, 0, 2, 0xe6]);
    assert_eq!(
        encode_opponent_name("ABCDEFGHIJKL"),
        vec![11, 12, 13, 14, 15, 16, 17, 18, 19, 0xe6]
    );
    let hooks = BN6::new(bn6_offsets());
    match &hooks.replace_opponent_name("Mayl")[..] {
        [Effect::WriteRange { address: 0x0203_0000, bytes }] => {
            assert_eq!(bytes, &vec![23, 38, 62, 49, 0xe6])
        }
        other => panic!("the name was shown by {:?}", other),
    }
    assert!(hooks.replace_opponent_name("").is_empty());
    let mut offsets = bn6_offsets();
    offsets.rom.opponent_name = 0;
    assert!(BN6::new(offsets).replace_opponent_name("Mayl").is_empty());
    assert!(BN3::new(bn3_offsets()).replace_opponent_name("Mayl").is_empty());
}

#[test]
fn families_by_title() {
    assert_eq!(family_of("MEGAMAN6_FXX"), Some(Family::BN6));
    assert_eq!(family_of("MEGAMAN6_GXX"), Some(Family::BN6));
    assert_eq!(family_of("ROCKEXE6_RXX"), Some(Family::BN6));
    assert_eq!(family_of("ROCKEXE6_GXX"), Some(Family::BN6));
    assert_eq!(family_of("MEGA_EXE3_BLA3XE"), Some(Family::BN3));
    assert_eq!(family_of("MEGAMAN5"), None);
    assert_eq!(family_of(""), None);
}

#[test]
fn advance_matches_repeated_steps_for_seeds() {
    assert_eq!(advance_rng(0xa338_244f, 0), 0xa338_244f);
    assert!(steps_from(0, advance_rng(0, 0xffff)));
}

#[test]
fn a_failed_fastforward_aborts_the_match() {
    assert!(after_fastforward(true).is_empty());
    assert!(matches!(after_fastforward(false)[..], [Effect::AbortMatch]));
}

#[test]
fn shadow_and_other_side_write_the_same_slots() {
    // On side A the local player is the first player; its shadow plays the
    // second. Side B's own game is the second player's.
    let hooks = BN6::new(bn6_offsets());
    let mut state = shadow::State::new(0, true, Mcg128Xsl64::new(3), true);
    state.start_round();
    {
        let round = state.lock_round_state().round.as_mut().unwrap();
        round.set_committed_state(vec![]);
        round.set_input(Pair {
            local: shadow::LocalInput { tick: 40, rx: vec![0xa1; 16] },
            remote: shadow::RemoteInput { tick: 40, joyflags: 0x0008, rx: vec![0; 16] },
        });
    }
    let mut shown = ctx();
    shown.tx_packet = vec![0xb2; 16];
    let read = hooks.handle_shadow_trap(Hook::MainReadJoyflags, &shown, &mut state);
    let copied = hooks.handle_shadow_trap(Hook::CopyInputData, &shown, &mut state);

    let mut pairs = VecDeque::new();
    pairs.push_back(Pair {
        local: Input { local_tick: 40, remote_tick: 0, joyflags: 0x0008, rx: vec![0xb2; 16] },
        remote: Input { local_tick: 40, remote_tick: 0, joyflags: 0x0100, rx: vec![0xa1; 16] },
    });
    let mut other = fastforwarder::State::new(1, pairs, 40, 50, 50);
    let other_read = hooks.handle_fastforwarder_trap(Hook::MainReadJoyflags, &ctx(), &mut other);
    let other_copied = hooks.handle_fastforwarder_trap(Hook::CopyInputData, &ctx(), &mut other);

    assert!(matches!(read[..], [Effect::SetGpr { register: 4, value: 0xfc08 }]));
    assert!(matches!(other_read[..], [Effect::SetGpr { register: 4, value: 0xfc08 }]));
    let slots = |effects: &[Effect]| {
        let mut slots = [vec![], vec![]];
        for effect in effects {
            if let Effect::SetRxPacket { player_index, packet } = effect {
                slots[*player_index as usize] = packet.clone();
            }
        }
        slots
    };
    assert_eq!(slots(&copied), [vec![0xa1; 16], vec![0xb2; 16]]);
    assert_eq!(slots(&copied), slots(&other_copied));
}

#[test]
fn common_traps_reach_the_battle() {
    let hooks = BN3::new(bn3_offsets());
    let did: Vec<Vec<Effect>> = hooks
        .common_traps()
        .into_iter()
        .map(|(_, hook)| hooks.handle_common_trap(hook))
        .collect();
    assert!(matches!(did[0][..], [Effect::SkipLogo]));
    assert!(matches!(did[1][..], [Effect::ContinueFromTitleMenu]));
    assert!(matches!(did[2][..], [Effect::OpenCommMenuFromOverworld]));
    assert!(hooks.handle_common_trap(Hook::MainReadJoyflags).is_empty());
    assert!(matches!(
        BN6::new(bn6_offsets()).handle_common_trap(Hook::SkipLogo)[..],
        [Effect::SkipLogo]
    ));
}
