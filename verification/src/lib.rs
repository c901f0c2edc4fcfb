//! An Intel 8080 emulator core for the Space Invaders arcade board.
use vstd::prelude::*;

pub mod alu_laws;
pub mod cpu;
pub mod debugger;
pub mod display;
pub mod flow_laws;
pub mod gfx;
pub mod interconnect;
pub mod io_laws;
pub mod keypad;
pub mod laws;
pub mod memory;
pub mod model;
pub mod move_laws;
pub mod opcode;
pub mod text;

verus! {

} // verus!
