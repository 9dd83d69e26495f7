//! The fatal inconsistencies that end a match.

use vstd::prelude::*;
use vstd::string::StringExecFns;

verus! {

/// The trap at which an inconsistency was seen.
#[derive(Clone, Copy, Debug, PartialEq, Eq, Structural)]
pub enum Phase {
    /// The game was about to read the joypad.
    ReadJoyflags,
    /// The game was about to copy the received packets.
    CopyInputData,
}

/// An inconsistency between the ticks that inputs carry and the tick that
/// the game is at. None of them is ever recovered from.
#[derive(Clone, Copy, Debug, PartialEq, Eq, Structural)]
pub enum Desync {
    /// The two inputs of a pair were scheduled for different ticks.
    LocalRemoteTick { phase: Phase, in_battle_tick: u32, local_tick: u32, remote_tick: u32 },
    /// A pair was scheduled for another tick than the one the game is at.
    InputTick { phase: Phase, input_tick: u32, in_battle_tick: u32 },
    /// The shadow's last output belongs to another tick than the one asked for.
    ShadowOutputTick { output_tick: u32, in_battle_tick: u32 },
    /// The shadow was asked to apply an input before it had produced an output.
    NoShadowOutput,
    /// The shadow was asked to apply an input outside a round.
    NoShadowRound,
    /// The fastforwarder ran out of confirmed inputs before it was done.
    InputsExhausted,
    /// The local input queue cannot take another input.
    LocalQueueFull,
}

/// What a check of a pair's ticks against the game's tick finds.
pub open spec fn tick_check_spec(
    phase: Phase,
    local_tick: u32,
    remote_tick: u32,
    in_battle_tick: u32,
) -> Option<Desync> {
    if local_tick != remote_tick {
        Some(Desync::LocalRemoteTick { phase, in_battle_tick, local_tick, remote_tick })
    } else if local_tick != in_battle_tick {
        Some(Desync::InputTick { phase, input_tick: local_tick, in_battle_tick })
    } else {
        None
    }
}

/// Checks that both inputs of a pair were scheduled for the tick that the
/// game is at. The two inputs are compared with each other first.
pub fn check_ticks(phase: Phase, local_tick: u32, remote_tick: u32, in_battle_tick: u32) -> (found:
    Option<Desync>)
    ensures
        found == tick_check_spec(phase, local_tick, remote_tick, in_battle_tick),
        found is None <==> local_tick == remote_tick && local_tick == in_battle_tick,
{
    if local_tick != remote_tick {
        Some(Desync::LocalRemoteTick { phase, in_battle_tick, local_tick, remote_tick })
    } else if local_tick != in_battle_tick {
        Some(Desync::InputTick { phase, input_tick: local_tick, in_battle_tick })
    } else {
        None
    }
}

/// The digit that stands for a number below ten.
pub open spec fn digit_spec(digit: nat) -> Seq<char> {
    if digit == 0 {
        "0"@
    } else if digit == 1 {
        "1"@
    } else if digit == 2 {
        "2"@
    } else if digit == 3 {
        "3"@
    } else if digit == 4 {
        "4"@
    } else if digit == 5 {
        "5"@
    } else if digit == 6 {
        "6"@
    } else if digit == 7 {
        "7"@
    } else if digit == 8 {
        "8"@
    } else {
        "9"@
    }
}

/// A number written in decimal, without leading zeros.
pub open spec fn decimal_spec(number: nat) -> Seq<char>
    decreases number,
{
    if number < 10 {
        digit_spec(number)
    } else {
        decimal_spec(number / 10) + digit_spec(number % 10)
    }
}

/// What a desync says of itself.
pub open spec fn message_spec(desync: Desync) -> Seq<char> {
    match desync {
        Desync::LocalRemoteTick { phase, in_battle_tick, local_tick, remote_tick } => phase_spec(
            phase,
        ) + ": local tick != remote tick (in battle tick = "@ + decimal_spec(in_battle_tick as nat)
            + "): "@ + decimal_spec(local_tick as nat) + " != "@ + decimal_spec(remote_tick as nat),
        Desync::InputTick { phase, input_tick, in_battle_tick } => phase_spec(phase)
            + ": input tick != in battle tick: "@ + decimal_spec(input_tick as nat) + " != "@
            + decimal_spec(in_battle_tick as nat),
        Desync::ShadowOutputTick { output_tick, in_battle_tick } => {
            "shadow apply input: output tick != in battle tick: "@ + decimal_spec(
                output_tick as nat,
            ) + " != "@ + decimal_spec(in_battle_tick as nat)
        },
        Desync::NoShadowOutput => "no output in shadow to take"@,
        Desync::NoShadowRound => "no round in shadow"@,
        Desync::InputsExhausted => "inputs exhausted"@,
        Desync::LocalQueueFull => "local input queue full"@,
    }
}

/// The name of a trap in what a desync says of itself.
pub open spec fn phase_spec(phase: Phase) -> Seq<char> {
    match phase {
        Phase::ReadJoyflags => "read joyflags"@,
        Phase::CopyInputData => "copy input data"@,
    }
}

/// The digit that stands for a number below ten.
fn digit(value: u32) -> (text: &'static str)
    requires
        value < 10,
    ensures
        text@ == digit_spec(value as nat),
{
    let digit: u32 = value;
    if digit == 0 {
        "0"
    } else if digit == 1 {
        "1"
    } else if digit == 2 {
        "2"
    } else if digit == 3 {
        "3"
    } else if digit == 4 {
        "4"
    } else if digit == 5 {
        "5"
    } else if digit == 6 {
        "6"
    } else if digit == 7 {
        "7"
    } else if digit == 8 {
        "8"
    } else {
        "9"
    }
}

/// Writes a number in decimal.
pub fn decimal(number: u32) -> (text: String)
    ensures
        text@ == decimal_spec(number as nat),
    decreases number,
{
    if number < 10 {
        String::from_str(digit(number))
    } else {
        let mut text = decimal(number / 10);
        text.append(digit(number % 10));
        text
    }
}

impl Phase {
    /// The name of the trap.
    pub fn name(&self) -> (text: &'static str)
        ensures
            text@ == phase_spec(*self),
    {
        match self {
            Phase::ReadJoyflags => "read joyflags",
            Phase::CopyInputData => "copy input data",
        }
    }
}

impl Desync {
    /// What the desync says of itself, with every tick it knows of.
    pub fn message(&self) -> (text: String)
        ensures
            text@ == message_spec(*self),
    {
        match *self {
            Desync::LocalRemoteTick { phase, in_battle_tick, local_tick, remote_tick } => {
                let mut text = String::from_str(phase.name());
                text.append(": local tick != remote tick (in battle tick = ");
                text.append(decimal(in_battle_tick).as_str());
                text.append("): ");
                text.append(decimal(local_tick).as_str());
                text.append(" != ");
                text.append(decimal(remote_tick).as_str());
                text
            },
            Desync::InputTick { phase, input_tick, in_battle_tick } => {
                let mut text = String::from_str(phase.name());
                text.append(": input tick != in battle tick: ");
                text.append(decimal(input_tick).as_str());
                text.append(" != ");
                text.append(decimal(in_battle_tick).as_str());
                text
            },
            Desync::ShadowOutputTick { output_tick, in_battle_tick } => {
                let mut text = String::from_str(
                    "shadow apply input: output tick != in battle tick: ",
                );
                text.append(decimal(output_tick).as_str());
                text.append(" != ");
                text.append(decimal(in_battle_tick).as_str());
                text
            },
            Desync::NoShadowOutput => String::from_str("no output in shadow to take"),
            Desync::NoShadowRound => String::from_str("no round in shadow"),
            Desync::InputsExhausted => String::from_str("inputs exhausted"),
            Desync::LocalQueueFull => String::from_str("local input queue full"),
        }
    }
}

} // verus!
