//! A cycle-accurate model of the video/memory/bus chipset family found in
//! several 1980s home computers.
//!
//! The crate covers the timing and state-tracking layer of an emulator:
//! the per-frame clock in [`clock`], the bank-paging tables in [`banks`],
//! the composable peripheral chain in [`bus`], the per-frame change
//! record in [`event_log`], and the chipset variants [`scld::Scld`] and
//! [`ula128::Ula128`] that tie them together, hot-swappable through
//! [`model::Machine`].  The CPU itself is an external collaborator: the
//! host steps it one instruction at a time against the chipset's memory
//! map and ports, and commits the consumed cycles back, while the
//! chipset decides paging, contention delays and frame boundaries and
//! records every visible video-state change with the exact cycle it
//! happened on.

pub mod banks;
pub mod bus;
pub mod clock;
pub mod cpu;
pub mod event_log;
pub mod model;
pub mod mouse;
pub mod scld;
pub mod ula;
pub mod ula128;
