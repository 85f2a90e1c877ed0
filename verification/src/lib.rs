//! Settlement reconciliation for confirmed transactions against a
//! Bitcoin-like node: resolve each input's source output, classify each
//! output as payment or change, and assemble a settlement record.

pub mod classify;
pub mod model;
pub mod reconcile;
