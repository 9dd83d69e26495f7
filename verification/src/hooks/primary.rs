//! What the traps of the player's own game decide, for every game family.

use crate::battle::{match_with_round, Match, MatchView, Round, RoundStateView, RoundView};
use crate::hooks::{
    answer_is_p2_spec, effects_view, no_effects, push_effect, push_write_packets,
    write_packets_spec, Effect, EffectView,
};
use crate::input::option_view;
use crate::rng::{
    battle_settings_and_background_spec, battle_settings_count, generate_rng1_state,
    generate_rng2_state, random_battle_settings_and_background, rng_state_after,
    BATTLE_BACKGROUND_COUNT, MAX_SEED_STEPS, RNG1_INITIAL_STATE, RNG2_INITIAL_STATE,
};
use rand_pcg::Mcg128Xsl64;
use vstd::prelude::*;

verus! {

/// The effects that seed both random streams of a game. The private stream
/// is seeded with the state generated for the offerer or with the one
/// generated for the answerer; the shared stream is the same for everyone.
pub open spec fn seed_rng_spec(
    takes_offerer_stream: bool,
    offerer_rng1_state: u32,
    answerer_rng1_state: u32,
    rng2_state: u32,
) -> Seq<EffectView> {
    seq![
        EffectView::SetRng1State(
            if takes_offerer_stream {
                offerer_rng1_state
            } else {
                answerer_rng1_state
            },
        ),
        EffectView::SetRng2State(rng2_state),
    ]
}

/// Whether `effects` seed both streams with states that the generator
/// reaches from their initial states within the allowed number of steps.
pub open spec fn seeds_streams(takes_offerer_stream: bool, effects: Seq<EffectView>) -> bool {
    exists|offerer_steps: nat, answerer_steps: nat, shared_steps: nat|
        offerer_steps <= MAX_SEED_STEPS && answerer_steps <= MAX_SEED_STEPS && shared_steps
            <= MAX_SEED_STEPS && effects == #[trigger] seed_rng_spec(
            takes_offerer_stream,
            rng_state_after(RNG1_INITIAL_STATE, offerer_steps),
            rng_state_after(RNG1_INITIAL_STATE, answerer_steps),
            rng_state_after(RNG2_INITIAL_STATE, shared_steps),
        )
}

/// Whether `effects` set the link battle settings and background to a word
/// that can be drawn for the match type.
pub open spec fn sets_battle_settings(match_type: u8, effects: Seq<EffectView>) -> bool {
    exists|setting: u16, background_index: int|
        (battle_settings_count(match_type) > 0 ==> setting < battle_settings_count(match_type))
            && 0 <= background_index < BATTLE_BACKGROUND_COUNT && effects == seq![
            EffectView::SetLinkBattleSettingsAndBackground(
                #[trigger] battle_settings_and_background_spec(
                    match_type,
                    setting,
                    background_index,
                ),
            ),
        ]
}

/// Seeds both random streams of a game from the states generated for them.
pub fn seed_rng(
    takes_offerer_stream: bool,
    offerer_rng1_state: u32,
    answerer_rng1_state: u32,
    rng2_state: u32,
) -> (effects: Vec<Effect>)
    ensures
        effects_view(effects@) == seed_rng_spec(
            takes_offerer_stream,
            offerer_rng1_state,
            answerer_rng1_state,
            rng2_state,
        ),
{
    let mut effects = no_effects();
    push_effect(
        &mut effects,
        Effect::SetRng1State(
            if takes_offerer_stream {
                offerer_rng1_state
            } else {
                answerer_rng1_state
            },
        ),
    );
    push_effect(&mut effects, Effect::SetRng2State(rng2_state));
    assert(effects_view(effects@) =~= seed_rng_spec(
        takes_offerer_stream,
        offerer_rng1_state,
        answerer_rng1_state,
        rng2_state,
    ));
    effects
}

/// Generates the states of both private streams and of the shared stream
/// from the shared random source, in this order, and seeds a game with
/// them. Both sides generate both private states; each game takes one.
pub fn draw_seeds(rng: &mut Mcg128Xsl64, takes_offerer_stream: bool) -> (effects: Vec<Effect>)
    ensures
        seeds_streams(takes_offerer_stream, effects_view(effects@)),
{
    let offerer_rng1_state: u32 = generate_rng1_state(rng);
    let answerer_rng1_state: u32 = generate_rng1_state(rng);
    let rng2_state: u32 = generate_rng2_state(rng);
    let effects = seed_rng(
        takes_offerer_stream,
        offerer_rng1_state,
        answerer_rng1_state,
        rng2_state,
    );
    proof {
        let offerer_steps = choose|steps: nat|
            steps <= MAX_SEED_STEPS && offerer_rng1_state == #[trigger] rng_state_after(
                RNG1_INITIAL_STATE,
                steps,
            );
        let answerer_steps = choose|steps: nat|
            steps <= MAX_SEED_STEPS && answerer_rng1_state == #[trigger] rng_state_after(
                RNG1_INITIAL_STATE,
                steps,
            );
        let shared_steps = choose|steps: nat|
            steps <= MAX_SEED_STEPS && rng2_state == #[trigger] rng_state_after(
                RNG2_INITIAL_STATE,
                steps,
            );
        assert(effects_view(effects@) == seed_rng_spec(
            takes_offerer_stream,
            rng_state_after(RNG1_INITIAL_STATE, offerer_steps),
            rng_state_after(RNG1_INITIAL_STATE, answerer_steps),
            rng_state_after(RNG2_INITIAL_STATE, shared_steps),
        ));
    }
    effects
}

/// Draws the link battle settings and background for a match type from the
/// shared random source.
pub fn draw_battle_settings(rng: &mut Mcg128Xsl64, match_type: u8) -> (effects: Vec<Effect>)
    ensures
        sets_battle_settings(match_type, effects_view(effects@)),
{
    let word: u16 = random_battle_settings_and_background(rng, match_type);
    let mut effects = no_effects();
    push_effect(&mut effects, Effect::SetLinkBattleSettingsAndBackground(word));
    proof {
        let (setting, background_index) = choose|setting: u16, background_index: int|
            (battle_settings_count(match_type) > 0 ==> setting < battle_settings_count(match_type))
                && 0 <= background_index < BATTLE_BACKGROUND_COUNT && word
                == #[trigger] battle_settings_and_background_spec(
                match_type,
                setting,
                background_index,
            );
        assert(effects_view(effects@) =~= seq![
            EffectView::SetLinkBattleSettingsAndBackground(
                battle_settings_and_background_spec(match_type, setting, background_index),
            ),
        ]);
    }
    effects
}

/// The two sides of a match seed their private streams differently, and a
/// shadow, which takes the stream of the other role, seeds its private
/// stream as the other side's own game does.
pub proof fn lemma_shadow_takes_opposite_stream(
    is_offerer: bool,
    offerer_rng1_state: u32,
    answerer_rng1_state: u32,
    rng2_state: u32,
)
    ensures
        seed_rng_spec(!is_offerer, offerer_rng1_state, answerer_rng1_state, rng2_state)[0]
            == EffectView::SetRng1State(
            if is_offerer {
                answerer_rng1_state
            } else {
                offerer_rng1_state
            },
        ),
        seed_rng_spec(is_offerer, offerer_rng1_state, answerer_rng1_state, rng2_state)[1]
            == seed_rng_spec(!is_offerer, offerer_rng1_state, answerer_rng1_state, rng2_state)[1],
{
}

/// The round that a match is in, if there is a match and it is in a round.
pub open spec fn round_of(match_: Option<MatchView>) -> Option<RoundView> {
    match match_ {
        Some(m) => m.round_state.round,
        None => None,
    }
}

/// The match after the game told how the round stands: 1 in register 0
/// says that the player has won, 2 that the player has lost.
pub open spec fn round_outcome_spec(match_: Option<MatchView>, r0: i32) -> Option<MatchView> {
    match match_ {
        Some(m) => Some(
            MatchView {
                round_state: RoundStateView {
                    won_last_round: if r0 == 1 {
                        true
                    } else if r0 == 2 {
                        false
                    } else {
                        m.round_state.won_last_round
                    },
                    ..m.round_state
                },
                ..m
            },
        ),
        None => None,
    }
}

/// The answer to the question whether the player is the second player:
/// the local player's index, while a round is on.
pub open spec fn is_p2_spec(match_: Option<MatchView>) -> Seq<EffectView> {
    match round_of(match_) {
        Some(round) => answer_is_p2_spec(round.local_player_index()),
        None => Seq::empty(),
    }
}

/// What the copy-input trap does: the pair that the last fastforward left
/// is taken and both of its packets are written.
pub open spec fn copy_input_data_spec(match_: Option<MatchView>) -> (
    Option<MatchView>,
    Seq<EffectView>,
) {
    match round_of(match_) {
        Some(round) => (
            Some(match_with_round(match_->0, RoundView { last_input: None, ..round })),
            match round.last_input {
                Some(ip) => write_packets_spec(
                    round.local_player_index(),
                    ip.local.rx,
                    ip.remote.rx,
                ),
                None => Seq::empty(),
            },
        ),
        None => (match_, Seq::empty()),
    }
}

/// The buttons that the game is handed: the low sixteen bits of what the
/// player holds.
pub open spec fn joyflags_of(held: u32) -> u16 {
    (held & 0xffff) as u16
}

/// What the read-joyflags trap asks for at `current_tick` while a round is
/// on: the first commit where the round has none, with the window of delay
/// for games that fill it here; then the local input and the fastforward.
pub open spec fn read_joyflags_spec(
    round: RoundView,
    current_tick: u32,
    held: u32,
    tx: Seq<u8>,
    fills_delay: bool,
) -> Seq<EffectView> {
    let commit = if round.committed_state is Some {
        Seq::<EffectView>::empty()
    } else if fills_delay {
        seq![
            EffectView::CommitFirstState { current_tick },
            EffectView::FillInputDelay { current_tick },
        ]
    } else {
        seq![EffectView::CommitFirstState { current_tick }]
    };
    commit.push(
        EffectView::AddLocalInputAndFastforward { current_tick, joyflags: joyflags_of(held), tx },
    )
}

/// The trap at which the game tells how the round stands.
pub fn round_outcome(match_: &mut Option<Match>, r0: i32)
    ensures
        option_view(*final(match_)) == round_outcome_spec(option_view(*old(match_)), r0),
{
    match match_ {
        Some(m) => {
            let round_state = m.lock_round_state();
            if r0 == 1 {
                round_state.set_won_last_round(true);
            } else if r0 == 2 {
                round_state.set_won_last_round(false);
            }
        },
        None => {},
    }
}

/// The trap that asks whether the player is the second player.
pub fn is_p2(match_: &Option<Match>) -> (effects: Vec<Effect>)
    ensures
        effects_view(effects@) == is_p2_spec(option_view(*match_)),
{
    let mut effects = no_effects();
    if let Some(m) = match_ {
        if let Some(round) = &m.round_state().round {
            let index: u8 = round.local_player_index();
            push_effect(&mut effects, Effect::SetGpr { register: 0, value: index as i32 });
            assert(effects_view(effects@) =~= answer_is_p2_spec(index));
        }
    }
    effects
}

/// The trap at which the game copies the packets it received.
pub fn copy_input_data(match_: &mut Option<Match>) -> (effects: Vec<Effect>)
    ensures
        (option_view(*final(match_)), effects_view(effects@)) == copy_input_data_spec(
            option_view(*old(match_)),
        ),
{
    let mut effects = no_effects();
    match match_ {
        Some(m) => {
            let round_state = m.lock_round_state();
            match &mut round_state.round {
                Some(round) => {
                    let index: u8 = round.local_player_index();
                    if let Some(ip) = round.take_last_input() {
                        push_write_packets(&mut effects, index, &ip.local.rx, &ip.remote.rx);
                        assert(effects_view(effects@) =~= write_packets_spec(
                            index,
                            ip.local.rx@,
                            ip.remote.rx@,
                        ));
                    }
                },
                None => {},
            }
        },
        None => {},
    }
    effects
}

/// The read-joyflags trap while a round is on.
pub fn read_joyflags(
    round: &Round,
    current_tick: u32,
    held: u32,
    tx: &Vec<u8>,
    fills_delay: bool,
) -> (effects: Vec<Effect>)
    ensures
        effects_view(effects@) == read_joyflags_spec(round@, current_tick, held, tx@, fills_delay),
{
    let mut effects = no_effects();
    if !round.has_committed_state() {
        push_effect(&mut effects, Effect::CommitFirstState { current_tick });
        if fills_delay {
            push_effect(&mut effects, Effect::FillInputDelay { current_tick });
        }
    }
    let ghost commit = effects_view(effects@);
    let joyflags: u16 = (held & 0xffff) as u16;
    push_effect(
        &mut effects,
        Effect::AddLocalInputAndFastforward { current_tick, joyflags, tx: tx.clone() },
    );
    proof {
        assert(commit =~= if round@.committed_state is Some {
            Seq::<EffectView>::empty()
        } else if fills_delay {
            seq![
                EffectView::CommitFirstState { current_tick },
                EffectView::FillInputDelay { current_tick },
            ]
        } else {
            seq![EffectView::CommitFirstState { current_tick }]
        });
    }
    effects
}

/// What follows the local input and the fastforward: nothing where they
/// went well; where they failed, the match is aborted.
pub open spec fn after_fastforward_spec(succeeded: bool) -> Seq<EffectView> {
    if succeeded {
        Seq::empty()
    } else {
        seq![EffectView::AbortMatch]
    }
}

/// Decides what follows the local input and the fastforward.
pub fn after_fastforward(succeeded: bool) -> (effects: Vec<Effect>)
    ensures
        effects_view(effects@) == after_fastforward_spec(succeeded),
{
    let mut effects = no_effects();
    if !succeeded {
        push_effect(&mut effects, Effect::AbortMatch);
        assert(effects_view(effects@) =~= seq![EffectView::AbortMatch]);
    }
    effects
}

} // verus!
