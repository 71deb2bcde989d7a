//! A two-dimensional wave simulation engine: a dense grid container, a
//! ping-pong pressure/velocity state stepped by a fixed stencil, per-cell
//! materials, a two-slot buffer for handing frames between threads, and
//! the accumulation of captured samples into analysis windows.
//!
//! The engine is generic over the cell value types. The arithmetic of the
//! stencil is supplied by the caller as closures, so that every structural
//! decision (which neighbours are read, what the boundary value is, which
//! material overrides what, how generations alternate) is verified here.

pub mod double_buffer;
pub mod grid;
pub mod sample_windows;
pub mod simulation;

pub use double_buffer::{next_step, other_slot, DoubleBuffer, SlotError, Step, MAX_ATTEMPTS};
pub use grid::{Array2D, Cross};
pub use sample_windows::SampleWindows;
pub use simulation::{Material, World};
