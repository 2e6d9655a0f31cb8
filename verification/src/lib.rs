//! A cell-based gas simulation core: gas mixtures held in fixed-point
//! arithmetic, their thermodynamics, combustion and pairwise exchange.
pub mod constants;
pub mod engine;
pub mod exchange;
pub mod fixed;
pub mod gas;
pub mod laws;
pub mod mimic;
pub mod reaction;
pub mod similarity;
pub mod store;
pub mod transfer;
