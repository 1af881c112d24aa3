//! Core logic of an LED-ring toy: a debounced pushbutton that reverses the
//! direction in which a single lit LED travels around a ring of eight.
//!
//! All physical I/O (pin configuration, level reads, line writes, delays,
//! interrupt wiring) lives outside this crate; the types here model the
//! state that the firmware's decisions depend on, and every decision is
//! verified: the level-based debounce, the edge latch, the once-only
//! initialisation of the shared button state, the cyclic position-to-line
//! mapping, and the direction-stepping control loop.

pub mod buttons;
pub mod control;
pub mod led_wheel;
pub mod polling;
