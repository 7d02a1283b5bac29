//! Control logic for a push-button-driven indicator light.
//!
//! A reader loop classifies raw button edges into press events (short, long,
//! double) with debounce and a hold-time threshold (`classifier`); the events
//! travel through a bounded FIFO of capacity four (`queue`); a renderer loop
//! owns the LED behavior state machine — off, steady on, blinking, breathing
//! fade — and derives a brightness level in [0, 100] each cycle (`led`,
//! `renderer`). A separate interrupt-driven counter turns a fast timer wrap
//! into a slow output toggle (`divider`).
//!
//! The waiting itself — edge waits, timers, the race between "time elapses"
//! and "an event is available" — happens outside this crate; every decision
//! those waits feed is a verified transition here.

pub mod press;
pub mod led;
pub mod classifier;
pub mod queue;
pub mod renderer;
pub mod divider;
