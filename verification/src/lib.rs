//! Core of a cycle-approximate emulator for an 8-bit handheld game console
//! built around a Sharp LR35902 CPU: registers, instruction decoder and
//! interpreter, system bus with its memory map, interrupt controller, timer,
//! picture-processing unit, joypad, cartridge mappers and the device loop
//! that advances them all in lockstep.

pub mod alu;
pub mod audio;
pub mod bitutils;
pub mod bitwise;
pub mod bus;
pub mod cartridge;
pub mod constants;
pub mod control;
pub mod device;
pub mod input;
pub mod instruction;
pub mod instruction_decoder;
pub mod internal_message;
pub mod interpreter;
pub mod interrupt;
pub mod mappers;
pub mod misc;
pub mod registers;
pub mod rendering;
pub mod timers;
pub mod transfer;
pub mod video;
