//! Register-level access to the DMA controller and the SD host controller of
//! SAM D microcontrollers.
//!
//! [`dmac`] holds the DMA controller: the descriptor record that the engine
//! fetches from memory, the typed register handles, and the two ways in which a
//! channel's registers are reached. [`sdhc0`] holds the SD host controller's
//! interrupt signal enable register with its bit fields. [`volatile`] states
//! what is taken on trust from the `vcell` crate.

pub mod dmac;
pub mod sdhc0;
pub mod volatile;
