//! Environmental risk assessment engine for mission planning.
//!
//! Three independent, pure calculators quantify physical hazards and
//! reduce each to a shared four-level risk classification:
//!
//! - [`radio`]: path loss and aggregate interference from radio emitters;
//! - [`diving`]: depth pressure, oxygen partial pressure, no-decompression
//!   time limits and air consumption;
//! - [`energy`]: per-source-type safety scoring and mission range estimates.
//!
//! The shared risk vocabulary and the threshold-band classifier live in
//! [`risk`]; the fixed-point base-10 logarithm that the radio analysis is
//! built on lives in [`decibel`].
//!
//! Every quantity is a fixed-point integer; each module documents the
//! scale of its fields (micrometres, microbar, centi-decibels, and so on).
//! The calculators hold no state, perform no I/O, and are deterministic:
//! a report is a function of its input record alone.

pub mod decibel;
pub mod diving;
pub mod energy;
pub mod radio;
pub mod risk;
