//! A bounded classifier: validates a start value, branches on its magnitude,
//! runs a fixed counting phase and classifies the final count.
pub mod classifier;
pub mod diagnostic;
