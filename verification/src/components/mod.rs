//! Rules behind the device controls: which options each model offers and
//! which of them is active.

pub mod anc;
pub mod equalizer;
