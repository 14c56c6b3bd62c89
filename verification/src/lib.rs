//! Host-side control layer for the MCP2210 USB bridge chip.
//!
//! The chip exposes nine general-purpose I/O pins whose directions and values
//! are encoded as bits of 32-bit registers. The vendor's native entry points
//! (open by index, count devices, get/set direction, get/set value, get
//! configuration) return raw signed status codes and raw registers; this crate
//! holds the logic that sits around those calls: the pin-register codec, the
//! status-code taxonomy, and the functions that turn each call's raw outcome
//! into a structured result or plan the register to write back.
//!
//! The foreign calls themselves are performed by the embedding program, which
//! feeds their raw results to this crate; every operation here is a pure
//! function of those values.

pub mod codec;
pub mod errors;
pub mod library;
