//! The game's native random number generator and the way both of its
//! streams are seeded from the random source that two peers share.

use rand::Rng;
use rand_pcg::Mcg128Xsl64;
use vstd::prelude::*;

verus! {

/// State that the shared stream (`rng2`) starts from before it is advanced.
pub const RNG2_INITIAL_STATE: u32 = 0xa338_244f;

/// State that a private stream (`rng1`) starts from before it is advanced.
pub const RNG1_INITIAL_STATE: u32 = 0;

/// Largest number of steps by which a stream is advanced when it is seeded.
pub const MAX_SEED_STEPS: usize = 0xffff;

/// Number of entries in the table of battle backgrounds.
pub const BATTLE_BACKGROUND_COUNT: usize = 21;

/// One step of the game's generator: `(2s - (s >> 31) + 1) xor 0x873ca9e5`,
/// computed modulo 2^32.
pub open spec fn step_rng_spec(seed: u32) -> u32 {
    (((2 * seed - (seed >> 31) + 1) % 0x1_0000_0000) as u32) ^ 0x873c_a9e5u32
}

/// The state reached from `seed` after `steps` steps of the generator.
pub open spec fn rng_state_after(seed: u32, steps: nat) -> u32
    decreases steps,
{
    if steps == 0 {
        seed
    } else {
        step_rng_spec(rng_state_after(seed, (steps - 1) as nat))
    }
}

/// The battle backgrounds that a linked battle may be given, in table order.
pub open spec fn battle_backgrounds() -> Seq<u16> {
    seq![
        0x00u16, 0x01, 0x01, 0x03, 0x04, 0x05, 0x06, 0x07, 0x08, 0x09, 0x0a, 0x0b, 0x0c, 0x0d,
        0x0e, 0x0f, 0x10, 0x11, 0x11, 0x13, 0x13,
    ]
}

/// Number of battle settings that the match type `match_type` chooses from;
/// zero for a match type that has a single fixed setting.
pub open spec fn battle_settings_count(match_type: u8) -> u16 {
    if match_type == 0 || match_type == 2 {
        0x44
    } else if match_type == 1 {
        0x60
    } else {
        0
    }
}

/// The settings-and-background word for a match type, given the setting
/// drawn for it and the index drawn into the table of backgrounds.
pub open spec fn battle_settings_and_background_spec(
    match_type: u8,
    setting: u16,
    background_index: int,
) -> u16 {
    let lo: u16 = if match_type == 0 || match_type == 1 {
        setting
    } else if match_type == 2 {
        (setting + 0x60) as u16
    } else {
        0
    };
    (battle_backgrounds()[background_index] << 8) | lo
}

/// Advances the generator by one step.
pub fn step_rng(seed: u32) -> (next: u32)
    ensures
        next == step_rng_spec(seed),
{
    let doubled: u32 = seed.wrapping_mul(2);
    let top: u32 = seed >> 31;
    assert(top == 0 || top == 1) by (bit_vector)
        requires
            top == seed >> 31,
    ;
    let stepped: u32 = doubled.wrapping_sub(top).wrapping_add(1);
    assert(doubled == (2 * seed) % 0x1_0000_0000);
    stepped ^ 0x873c_a9e5u32
}

/// Advances the generator by `steps` steps, starting from `seed`.
pub fn advance_rng(seed: u32, steps: usize) -> (state: u32)
    ensures
        state == rng_state_after(seed, steps as nat),
{
    let mut state: u32 = seed;
    let mut done: usize = 0;
    while done < steps
        invariant
            done <= steps,
            state == rng_state_after(seed, done as nat),
        decreases steps - done,
    {
        state = step_rng(state);
        done = done + 1;
    }
    state
}

/// The background at `index` of the table of battle backgrounds.
pub fn battle_background(index: usize) -> (background: u16)
    requires
        index < BATTLE_BACKGROUND_COUNT,
    ensures
        background == battle_backgrounds()[index as int],
{
    let table: [u16; 21] = [
        0x00, 0x01, 0x01, 0x03, 0x04, 0x05, 0x06, 0x07, 0x08, 0x09, 0x0a, 0x0b, 0x0c, 0x0d, 0x0e,
        0x0f, 0x10, 0x11, 0x11, 0x13, 0x13,
    ];
    table[index]
}

/// Combines a drawn setting and a drawn background index into the word that
/// the game keeps its link battle settings and background in.
pub fn battle_settings_and_background(match_type: u8, setting: u16, background_index: usize) -> (word: u16)
    requires
        battle_settings_count(match_type) > 0 ==> setting < battle_settings_count(match_type),
        background_index < BATTLE_BACKGROUND_COUNT,
    ensures
        word == battle_settings_and_background_spec(match_type, setting, background_index as int),
{
    let lo: u16 = if match_type == 0 || match_type == 1 {
        setting
    } else if match_type == 2 {
        setting + 0x60
    } else {
        0
    };
    let hi: u16 = battle_background(background_index);
    (hi << 8) | lo
}

#[verifier::external_type_specification]
#[verifier::external_body]
pub struct ExMcg128Xsl64(rand_pcg::Mcg128Xsl64);

/// Draws from `rand::Rng::gen_range` on the inclusive range `low..=high`.
/// The draw depends on the generator's hidden state and on the width of
/// `usize`, so the contract claims only that it lies in the range asked for.
#[verifier::external_body]
fn draw_usize_inclusive(rng: &mut Mcg128Xsl64, low: usize, high: usize) -> (drawn: usize)
    requires
        low <= high,
    ensures
        low <= drawn <= high,
{
    rng.gen_range(low..=high)
}

/// Draws from `rand::Rng::gen_range` on the half-open range `low..high`.
/// The draw depends on the generator's hidden state, so the contract claims
/// only that it lies in the range asked for.
#[verifier::external_body]
fn draw_u16(rng: &mut Mcg128Xsl64, low: u16, high: u16) -> (drawn: u16)
    requires
        low < high,
    ensures
        low <= drawn < high,
{
    rng.gen_range(low..high)
}

/// Seeds a private stream: advances it from zero by a number of steps drawn
/// from the shared random source.
pub fn generate_rng1_state(rng: &mut Mcg128Xsl64) -> (state: u32)
    ensures
        exists|steps: nat|
            steps <= MAX_SEED_STEPS && state == #[trigger] rng_state_after(
                RNG1_INITIAL_STATE,
                steps,
            ),
{
    let steps: usize = draw_usize_inclusive(rng, 0, MAX_SEED_STEPS);
    advance_rng(RNG1_INITIAL_STATE, steps)
}

/// Seeds the shared stream: advances it from its fixed initial state by a
/// number of steps drawn from the shared random source.
pub fn generate_rng2_state(rng: &mut Mcg128Xsl64) -> (state: u32)
    ensures
        exists|steps: nat|
            steps <= MAX_SEED_STEPS && state == #[trigger] rng_state_after(
                RNG2_INITIAL_STATE,
                steps,
            ),
{
    let steps: usize = draw_usize_inclusive(rng, 0, MAX_SEED_STEPS);
    advance_rng(RNG2_INITIAL_STATE, steps)
}

/// Draws the link battle settings and background for a match type.
pub fn random_battle_settings_and_background(rng: &mut Mcg128Xsl64, match_type: u8) -> (word: u16)
    ensures
        exists|setting: u16, background_index: int|
            (battle_settings_count(match_type) > 0 ==> setting < battle_settings_count(match_type))
                && 0 <= background_index < BATTLE_BACKGROUND_COUNT
                && word == #[trigger] battle_settings_and_background_spec(
                match_type,
                setting,
                background_index,
            ),
{
    let setting: u16 = if match_type == 0 || match_type == 2 {
        draw_u16(rng, 0, 0x44)
    } else if match_type == 1 {
        draw_u16(rng, 0, 0x60)
    } else {
        0
    };
    let background_index: usize = draw_usize_inclusive(rng, 0, BATTLE_BACKGROUND_COUNT - 1);
    battle_settings_and_background(match_type, setting, background_index)
}

} // verus!
