//! Stick calibration for Nintendo Switch controllers.
//!
//! The crate holds the device protocol, the packing of 12-bit readings and
//! the calibration rules. It performs no I/O: every exchange with the device
//! is described as a sequence of steps that the caller carries out.
//!
//! - `codec`: two 12-bit values in three bytes, and stick data in an input
//!   report.
//! - `model`: stick samples, the running extent of a phase, calibration
//!   records.
//! - `frame`: the layout of output reports and the marks of replies.
//! - `info`: firmware version and hardware address as text.
//! - `flash`: the blocks that hold a calibration in the flash memory.
//! - `protocol`: the rules of a request, step by step, over plain values.
//! - `trace`: what holds of a request over all the replies it can meet.
//! - `controller`: the session and its requests in executable form.
//! - `wizard`: the steps of a calibration and what each event leads to.
//! - `remap`: the position that a reading stands for under a calibration.

pub mod codec;
pub mod controller;
pub mod flash;
pub mod frame;
pub mod info;
pub mod model;
pub mod protocol;
pub mod remap;
pub mod trace;
pub mod wizard;
