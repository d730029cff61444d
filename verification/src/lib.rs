//! Cycle-accurate core of an 8-bit handheld console: register file, cartridge
//! bank controllers, address bus, interrupt controller, timer, pixel unit,
//! audio unit and the instruction engine that advances them in lock-step.
//!
//! Every transition is stated as a function on a mathematical view of the
//! machine and the executable code is proved to compute exactly that function.
//! The core does no input or output and keeps no time of its own: a caller
//! drives it dot by dot, instruction by instruction or frame by frame.
pub mod cpu;
pub mod window;
