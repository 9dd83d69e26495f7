//! Per-tick inputs and the pairs in which the two sides' inputs travel.

use vstd::prelude::*;

verus! {

/// Bits of the joypad register that are always set when joyflags are handed
/// to the game.
pub const JOYFLAGS_RESERVED: u16 = 0xfc00;

/// What one side contributed to one tick: when it was scheduled, what the
/// side had last seen of the other, the buttons held, and the raw packet
/// that the side's game put on the link.
#[derive(Debug)]
pub struct Input {
    pub local_tick: u32,
    pub remote_tick: u32,
    pub joyflags: u16,
    pub rx: Vec<u8>,
}

/// Mathematical model of an [`Input`].
pub struct InputView {
    pub local_tick: u32,
    pub remote_tick: u32,
    pub joyflags: u16,
    pub rx: Seq<u8>,
}

impl View for Input {
    type V = InputView;

    open spec fn view(&self) -> InputView {
        InputView {
            local_tick: self.local_tick,
            remote_tick: self.remote_tick,
            joyflags: self.joyflags,
            rx: self.rx@,
        }
    }
}

impl Clone for Input {
    fn clone(&self) -> (copy: Input)
        ensures
            copy@ == self@,
    {
        Input {
            local_tick: self.local_tick,
            remote_tick: self.remote_tick,
            joyflags: self.joyflags,
            rx: self.rx.clone(),
        }
    }
}

/// The two sides of one tick, named from the point of view of whoever holds
/// the pair.
#[derive(Debug)]
pub struct Pair<L, R> {
    pub local: L,
    pub remote: R,
}

impl<L: View, R: View> View for Pair<L, R> {
    type V = Pair<L::V, R::V>;

    open spec fn view(&self) -> Pair<L::V, R::V> {
        Pair { local: self.local@, remote: self.remote@ }
    }
}

/// The model of an optional value: the model of what it holds, if anything.
pub open spec fn option_view<T: View>(value: Option<T>) -> Option<T::V> {
    match value {
        Some(inner) => Some(inner@),
        None => None,
    }
}

/// The models of the items of a sequence, in order.
pub open spec fn seq_view<T: View>(items: Seq<T>) -> Seq<T::V> {
    items.map_values(|item: T| item@)
}

/// The tick that lies `by` ticks after `tick`; ticks wrap around at 2^32.
pub open spec fn tick_after(tick: u32, by: nat) -> u32 {
    ((tick + by) % 0x1_0000_0000) as u32
}

/// The same pair seen from the other side.
pub open spec fn swapped(pair: Pair<InputView, InputView>) -> Pair<InputView, InputView> {
    Pair { local: pair.remote, remote: pair.local }
}

/// The value the game reads from its joypad register for `joyflags`.
pub open spec fn joypad_word_spec(joyflags: u16) -> u16 {
    joyflags | JOYFLAGS_RESERVED
}

/// The value to hand to the game for `joyflags`: the reserved bits are set.
pub fn joypad_word(joyflags: u16) -> (word: u16)
    ensures
        word == joypad_word_spec(joyflags),
        word & JOYFLAGS_RESERVED == JOYFLAGS_RESERVED,
        word & 0x03ff == joyflags & 0x03ff,
{
    let word: u16 = joyflags | JOYFLAGS_RESERVED;
    assert(word & 0xfc00 == 0xfc00 && word & 0x03ff == joyflags & 0x03ff) by (bit_vector)
        requires
            word == joyflags | 0xfc00,
    ;
    word
}

impl Pair<Input, Input> {
    /// Swaps the two sides.
    pub fn into_swapped(self) -> (other: Pair<Input, Input>)
        ensures
            other@ == swapped(self@),
    {
        Pair { local: self.remote, remote: self.local }
    }

    /// Copies the pair.
    pub fn duplicate(&self) -> (copy: Pair<Input, Input>)
        ensures
            copy@ == self@,
    {
        Pair { local: self.local.clone(), remote: self.remote.clone() }
    }
}

/// Swapping a pair twice gives the pair back.
pub proof fn lemma_swapped_twice(pair: Pair<InputView, InputView>)
    ensures
        swapped(swapped(pair)) == pair,
{
}

} // verus!
