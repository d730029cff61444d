//! The parts of the window around the machine that are rules rather than
//! drawing: the table of instructions that the debugger shows, and the steps
//! of the menu.
pub mod instructions;
pub mod menu;
