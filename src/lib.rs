//! A CHIP-8 interpreter core: the memory and register model, the
//! fetch-decode-execute cycle and the monochrome framebuffer it draws on.
pub mod display;
pub mod emulator;
pub mod isa;
pub mod laws;
