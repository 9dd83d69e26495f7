use std::collections::VecDeque;
use tango_netplay::battle::Round;
use tango_netplay::desync::{Desync, Phase};
use tango_netplay::fastforwarder::{Progress, State};
use tango_netplay::hooks::bn6::{Offsets, RomOffsets, BN6};
use tango_netplay::hooks::{Effect, Hook, Hooks, StateSlot, TrapContext};
use tango_netplay::input::{Input, Pair};

fn offsets() -> Offsets {
    Offsets {
        rom: RomOffsets {
            start_screen_jump_table_entry: 0x0800_0010,
            start_screen_sram_unmask_ret: 0x0800_0020,
            game_load_ret: 0x0800_0030,
            comm_menu_init_ret: 0x0800_0040,
            round_run_unpaused_step_cmp_retval: 0x0800_0050,
            round_end_entry: 0x0800_0060,
            round_start_ret: 0x0800_0070,
            battle_is_p2_tst: 0x0800_0080,
            link_is_p2_ret: 0x0800_0090,
            get_copy_data_input_state_ret: 0x0800_00a0,
            comm_menu_handle_link_cable_input_entry: 0x0800_00b0,
            comm_menu_init_battle_entry: 0x0800_00c0,
            comm_menu_end_battle_entry: 0x0800_00d0,
            comm_menu_in_battle_call_comm_menu_handle_link_cable_input: 0x0800_00e0,
            main_read_joyflags: 0x0800_00f0,
            copy_input_data_entry: 0x0800_0100,
            opponent_name: 0x0200_1000,
        },
    }
}

fn ctx(current_tick: u32) -> TrapContext {
    TrapContext {
        r0: 0,
        r15: 0,
        thumb_pc: 0,
        current_tick,
        is_linking: true,
        joyflags: 0,
        tx_packet: vec![0; 16],
    }
}

/// A game that is nothing but the packets it has been given: its state is
/// the tick it is at and a running sum over the slots of both players.
#[derive(Clone, Debug, PartialEq)]
struct Toy {
    tick: u32,
    sum: u64,
    slots: [Vec<u8>; 2],
    r4: i32,
}

impl Toy {
    fn new(tick: u32) -> Toy {
        Toy { tick, sum: 0, slots: [vec![], vec![]], r4: 0 }
    }

    fn save(&self) -> Vec<u8> {
        let mut bytes = self.tick.to_le_bytes().to_vec();
        bytes.extend_from_slice(&self.sum.to_le_bytes());
        bytes
    }

    fn load(bytes: &[u8]) -> Toy {
        let mut tick = [0u8; 4];
        tick.copy_from_slice(&bytes[..4]);
        let mut sum = [0u8; 8];
        sum.copy_from_slice(&bytes[4..12]);
        Toy {
            tick: u32::from_le_bytes(tick),
            sum: u64::from_le_bytes(sum),
            slots: [vec![], vec![]],
            r4: 0,
        }
    }

    fn end_tick(&mut self) {
        for slot in &self.slots {
            for byte in slot {
                self.sum = self.sum.wrapping_mul(1099511628211).wrapping_add(*byte as u64 + 1);
            }
        }
        self.sum = self.sum.wrapping_mul(31).wrapping_add(self.tick as u64);
        self.tick += 1;
    }

    fn apply(&mut self, effects: Vec<Effect>, state: &mut State) {
        for effect in effects {
            match effect {
                Effect::SetGpr { register: 4, value } => self.r4 = value,
                Effect::SetRxPacket { player_index, packet } => {
                    self.slots[player_index as usize] = packet
                }
                Effect::SaveState(StateSlot::FastforwardCommitted) => {
                    state.set_committed_state(self.save())
                }
                Effect::SaveState(StateSlot::FastforwardDirty) => state.set_dirty_state(self.save()),
                other => panic!("the toy has no use for {:?}", other),
            }
        }
    }
}

/// Runs a fastforward on the toy and says what the game was handed in
/// register 4 at each tick.
fn fastforward(hooks: &BN6, from: &[u8], mut state: State) -> (Progress, Vec<(u32, i32)>) {
    let mut toy = Toy::load(from);
    let mut handed = vec![];
    for _ in 0..1000 {
        let effects = hooks.handle_fastforwarder_trap(Hook::MainReadJoyflags, &ctx(toy.tick), &mut state);
        let injects = effects.iter().any(|e| matches!(e, Effect::SetGpr { register: 4, .. }));
        toy.apply(effects, &mut state);
        if injects {
            handed.push((toy.tick, toy.r4));
        }
        match state.poll() {
            Progress::Continue => {}
            done => return (done, handed),
        }
        let effects = hooks.handle_fastforwarder_trap(Hook::CopyInputData, &ctx(toy.tick), &mut state);
        toy.apply(effects, &mut state);
        toy.end_tick();
    }
    panic!("the fastforward does not end");
}

fn packet(player: u8, tick: u32) -> Vec<u8> {
    let mut packet = vec![player; 16];
    packet[1] = (tick & 0xff) as u8;
    packet
}

#[test]
fn lockstep_round_trip_with_delay_two() {
    let hooks = BN6::new(offsets());
    let placeholder = hooks.placeholder_rx();
    let mut a = Round::new(true, 2, 60, placeholder.clone());
    let mut b = Round::new(false, 2, 60, placeholder.clone());
    assert_eq!(a.local_player_index() + b.local_player_index(), 1);
    a.set_first_committed_state(100, Toy::new(100).save(), vec![]);
    b.set_first_committed_state(100, Toy::new(100).save(), vec![]);
    let from_a = a.fill_input_delay(100, &placeholder).unwrap();
    let from_b = b.fill_input_delay(100, &placeholder).unwrap();
    assert_eq!(from_a.iter().map(|i| i.local_tick).collect::<Vec<_>>(), vec![100, 101]);
    assert!(from_a.iter().all(|i| i.joyflags == 0 && i.rx == placeholder));
    for input in from_a {
        assert!(b.add_remote_input(input));
    }
    for input in from_b {
        assert!(a.add_remote_input(input));
    }
    let mut handed_to_a = vec![];
    let mut seen_by_b = vec![];
    for tick in 100..=102u32 {
        let pressed = if tick == 100 { 0x0001 } else { 0 };
        let sent_a = a.add_local_input(tick, pressed, packet(0, tick)).unwrap();
        let sent_b = b.add_local_input(tick, 0, packet(1, tick)).unwrap();
        assert_eq!(sent_a.local_tick, tick + 2);
        assert!(b.add_remote_input(sent_a));
        assert!(a.add_remote_input(sent_b));

        let plan = a.plan_fastforward().unwrap();
        assert_eq!(plan.confirmed.len(), 1);
        assert_eq!(plan.confirmed[0].local.local_tick, tick);
        assert_eq!(plan.confirmed[0].remote.local_tick, tick);
        let last = plan.last_input;
        assert_eq!(last.local.local_tick, tick);
        let commit_time = plan.state.commit_time();
        let (progress, handed) = fastforward(&hooks, &plan.committed_state, plan.state);
        handed_to_a.extend(handed);
        match progress {
            Progress::Finished { committed_state, .. } => {
                a.finish_fastforward(commit_time, committed_state, last)
            }
            other => panic!("fastforward ended with {:?}", other),
        }

        let plan = b.plan_fastforward().unwrap();
        seen_by_b.push((tick, plan.confirmed[0].remote.joyflags));
        let last = plan.confirmed.last().unwrap().duplicate();
        let commit_time = plan.state.commit_time();
        let (progress, _) = fastforward(&hooks, &plan.committed_state, plan.state);
        match progress {
            Progress::Finished { committed_state, .. } => {
                b.finish_fastforward(commit_time, committed_state, last)
            }
            other => panic!("fastforward ended with {:?}", other),
        }
    }
    assert_eq!(handed_to_a, vec![(100, 0xfc00), (101, 0xfc00), (102, 0xfc01)]);
    assert_eq!(seen_by_b, vec![(100, 0), (101, 0), (102, 0x0001)]);
}

#[test]
fn rollback_reaches_the_state_of_the_other_side() {
    let hooks = BN6::new(offsets());
    let placeholder = hooks.placeholder_rx();
    let joy_a = |tick: u32| (tick % 7) as u16;
    let joy_b = |tick: u32| if tick >= 199 { 5 } else { (tick % 5) as u16 };
    let tx_a = |tick: u32| packet(0, tick);
    let tx_b = |tick: u32| if tick >= 199 { packet(1, 199) } else { packet(1, tick) };

    // Side B gets everything at once and runs straight through.
    let mut b = Round::new(false, 0, 200, placeholder.clone());
    b.set_first_committed_state(100, Toy::new(100).save(), vec![]);
    let mut b_state = vec![];
    for tick in 100..=201u32 {
        b.add_local_input(tick, joy_b(tick), tx_b(tick)).unwrap();
        assert!(b.add_remote_input(Input {
            local_tick: tick,
            remote_tick: tick,
            joyflags: joy_a(tick),
            rx: tx_a(tick),
        }));
        let plan = b.plan_fastforward().unwrap();
        let last = plan.confirmed.last().unwrap().duplicate();
        let commit_time = plan.state.commit_time();
        match fastforward(&hooks, &plan.committed_state, plan.state).0 {
            Progress::Finished { committed_state, .. } => {
                b_state = committed_state.clone();
                b.finish_fastforward(commit_time, committed_state, last);
            }
            other => panic!("fastforward ended with {:?}", other),
        }
    }
    assert_eq!(Toy::load(&b_state).tick, 202);

    // Side A hears nothing of ticks 198 and 199 until it is at tick 201.
    let mut a = Round::new(true, 0, 200, placeholder.clone());
    a.set_first_committed_state(100, Toy::new(100).save(), vec![]);
    let mut dirty = vec![];
    for tick in 100..=201u32 {
        a.add_local_input(tick, joy_a(tick), tx_a(tick)).unwrap();
        let arrived: Vec<u32> = if tick < 198 {
            vec![tick]
        } else if tick == 201 {
            vec![198, 199]
        } else {
            vec![]
        };
        for t in arrived {
            assert!(a.add_remote_input(Input {
                local_tick: t,
                remote_tick: t,
                joyflags: joy_b(t),
                rx: tx_b(t),
            }));
        }
        let plan = a.plan_fastforward().unwrap();
        if tick == 200 {
            assert_eq!(plan.confirmed.len(), 0);
            assert_eq!(plan.state.inputs_pairs_left(), 3);
            assert_eq!(Toy::load(&plan.committed_state).tick, 198);
        }
        if tick == 201 {
            assert_eq!(plan.confirmed.len(), 2);
            assert_eq!(plan.state.inputs_pairs_left(), 4);
            assert_eq!(plan.state.commit_time(), 200);
            assert_eq!(plan.state.dirty_time(), 201);
        }
        let commit_time = plan.state.commit_time();
        let last = plan.last_input;
        assert_eq!(last.local.local_tick, tick);
        assert_eq!(last.remote.local_tick, tick);
        match fastforward(&hooks, &plan.committed_state, plan.state).0 {
            Progress::Finished { committed_state, dirty_state } => {
                dirty = dirty_state;
                a.finish_fastforward(commit_time, committed_state, last);
            }
            other => panic!("fastforward ended with {:?}", other),
        }
    }
    // The dirty state is saved when the joypad is read at tick 201; one
    // more copy of the packets brings the game to the end of that tick.
    let mut toy = Toy::load(&dirty);
    assert_eq!(toy.tick, 201);
    toy.slots = [tx_a(201), tx_b(201)];
    toy.end_tick();
    assert_eq!(toy.save(), b_state);
}

#[test]
fn a_pair_of_two_ticks_is_a_desync_with_both_ticks() {
    let hooks = BN6::new(offsets());
    let mut pairs = VecDeque::new();
    pairs.push_back(Pair {
        local: Input { local_tick: 150, remote_tick: 149, joyflags: 0, rx: vec![0; 16] },
        remote: Input { local_tick: 151, remote_tick: 149, joyflags: 0, rx: vec![0; 16] },
    });
    let mut state = State::new(0, pairs, 150, 151, 151);
    let effects = hooks.handle_fastforwarder_trap(Hook::MainReadJoyflags, &ctx(150), &mut state);
    assert!(effects.is_empty());
    let err = match state.poll() {
        Progress::Failed(err) => err,
        other => panic!("the fastforward went on with {:?}", other),
    };
    assert_eq!(
        err,
        Desync::LocalRemoteTick {
            phase: Phase::ReadJoyflags,
            in_battle_tick: 150,
            local_tick: 150,
            remote_tick: 151,
        }
    );
    let message = err.message();
    assert_eq!(
        message,
        "read joyflags: local tick != remote tick (in battle tick = 150): 150 != 151"
    );
}

#[test]
fn planning_finds_the_first_pair_of_two_ticks() {
    let mut round = Round::new(true, 0, 10, vec![0; 16]);
    round.set_first_committed_state(150, vec![1], vec![2]);
    round.set_current_tick(150);
    round.add_local_input(150, 0, vec![0; 16]).unwrap();
    assert!(round.add_remote_input(Input {
        local_tick: 151,
        remote_tick: 0,
        joyflags: 0,
        rx: vec![0; 16],
    }));
    let err = round.plan_fastforward().err().unwrap();
    assert_eq!(
        err,
        Desync::LocalRemoteTick {
            phase: Phase::ReadJoyflags,
            in_battle_tick: 150,
            local_tick: 150,
            remote_tick: 151,
        }
    );
    assert!(err.message().contains("150") && err.message().contains("151"));
    assert!(round.has_committed_state());
}

#[test]
fn planning_needs_a_committed_state_and_a_due_input() {
    let mut round = Round::new(true, 1, 10, vec![0; 16]);
    assert_eq!(round.plan_fastforward().err().unwrap(), Desync::InputsExhausted);
    round.set_first_committed_state(0, vec![], vec![]);
    round.add_local_input(0, 0, vec![]).unwrap();
    assert_eq!(round.plan_fastforward().err().unwrap(), Desync::InputsExhausted);
}

#[test]
fn the_local_queue_is_bounded() {
    let mut round = Round::new(true, 3, 4, vec![0; 16]);
    assert_eq!(round.input_delay(), 3);
    round.fill_input_delay(10, &vec![0; 16]).unwrap();
    round.add_local_input(10, 1, vec![0; 16]).unwrap();
    assert_eq!(round.add_local_input(11, 1, vec![0; 16]).err().unwrap(), Desync::LocalQueueFull);
    assert_eq!(round.fill_input_delay(10, &vec![0; 16]).err().unwrap(), Desync::LocalQueueFull);
    for tick in 0..4 {
        assert!(round.add_remote_input(Input {
            local_tick: tick,
            remote_tick: 0,
            joyflags: 0,
            rx: vec![],
        }));
    }
    assert!(!round.add_remote_input(Input {
        local_tick: 4,
        remote_tick: 0,
        joyflags: 0,
        rx: vec![],
    }));
}

#[test]
fn speculated_pairs_repeat_the_last_confirmed_remote_input() {
    let mut round = Round::new(false, 0, 10, vec![0xee; 16]);
    round.set_first_committed_state(7, vec![], vec![]);
    round.add_local_input(7, 1, vec![1; 16]).unwrap();
    round.add_local_input(8, 2, vec![2; 16]).unwrap();
    assert!(round.add_remote_input(Input {
        local_tick: 7,
        remote_tick: 6,
        joyflags: 0x30,
        rx: vec![9; 16],
    }));
    let mut plan = round.plan_fastforward().unwrap();
    assert_eq!(plan.state.local_player_index(), 1);
    assert_eq!(plan.state.remote_player_index(), 0);
    assert_eq!(plan.state.commit_time(), 8);
    assert_eq!(plan.state.dirty_time(), 8);
    let first = plan.state.pop_input_pair().unwrap();
    assert_eq!((first.local.joyflags, first.remote.joyflags), (1, 0x30));
    let second = plan.state.pop_input_pair().unwrap();
    assert_eq!(second.local.local_tick, 8);
    assert_eq!(second.remote.local_tick, 8);
    assert_eq!(second.remote.joyflags, 0x30);
    assert_eq!(second.remote.rx, vec![9; 16]);
    assert!(plan.state.pop_input_pair().is_none());
}

#[test]
fn an_exhausted_fastforward_fails() {
    let hooks = BN6::new(offsets());
    let mut state = State::new(1, VecDeque::new(), 10, 12, 12);
    let effects = hooks.handle_fastforwarder_trap(Hook::MainReadJoyflags, &ctx(10), &mut state);
    assert!(effects.is_empty());
    assert!(matches!(state.poll(), Progress::Failed(Desync::InputsExhausted)));
}
