//! Netplay core for two-player deterministic-lockstep matches between
//! emulator instances: the game's random number streams, the input and
//! replay formats, the shadow and fastforwarder state machines, the trap
//! catalogue of each supported game family, and the lobby rendezvous.

pub mod battle;
pub mod desync;
pub mod fastforwarder;
pub mod hooks;
pub mod input;
pub mod lobby;
pub mod replay;
pub mod replayer;
pub mod rng;
pub mod shadow;
