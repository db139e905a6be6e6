//! Verified core of TRANSLATE, a mix-translation checking audio plugin:
//! the preset catalogue, the Quick Cycle shared state and its stepping
//! engine, the A/B workflow state, the impulse-response bank bookkeeping
//! and the WAV header checks that the bundled impulse responses go through.

pub mod preset;
pub mod quick_cycle;
pub mod processor;
pub mod workflow;
pub mod ir;
pub mod wav;
pub mod ui;
