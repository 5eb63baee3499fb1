//! Sensing core of an embedded contact detector: a wrap-aware sample
//! counter, a bounded circular sample store with two-phase debounced
//! contact detection, a bounded detection-event history, and a
//! critical-section-guarded status-LED state machine.

pub mod buffers;
pub mod counter;
pub mod critical;
pub mod status;
