//! The core of a terminal user interface runtime, verified with Verus.
//!
//! * [`grid`] is the mathematical model of one screen; [`buffer`] is the
//!   executable screen buffer that refines it, and [`store`] the stack of
//!   screens.
//! * [`paint`] turns a buffer into the writes that show it, in full or only
//!   where it changed; [`console`] does the same for a device that takes
//!   character records and a rectangle.
//! * [`router`], [`registry`], [`dispatch`] and [`handle`] hold the decisions
//!   of the dispatcher and of its handles. They act on plain values: the
//!   caller owns the device, the channels and the threads.
//! * [`laws`] states what holds across operations.

pub mod buffer;
pub mod cell;
pub mod console;
pub mod device;
pub mod dispatch;
pub mod error;
pub mod event;
pub mod grid;
pub mod handle;
pub mod laws;
pub mod message;
pub mod paint;
pub mod registry;
pub mod router;
pub mod store;
pub mod style;
pub mod text;
