//! Per-node data used in style calculation.

pub mod damage;
pub mod element;
pub mod hints;
pub mod restyle;
pub mod snapshot;
pub mod styles;
