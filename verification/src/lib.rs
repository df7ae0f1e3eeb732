//! Decision logic of a GPU memory monitor.
//!
//! The monitor samples a device's memory totals and the memory that each
//! graphics process holds on it, at a fixed cadence, until it is cancelled.
//! Every call that touches the driver is made by the program around this
//! library; the library decides what each reply means and what to do next.
//!
//! - [`resolver`]: the driver's entry point, resolved once and remembered.
//! - [`status`]: what the status of a driver reply means.
//! - [`process`]: the driver's record of a process and its usage figure.
//! - [`enumeration`]: the count-then-fetch protocol that lists processes.
//! - [`sampler`]: one sample, the device's totals and its processes.
//! - [`report`]: the figures that a tick reports for the watched process.
//! - [`monitor`]: the loop that samples at every tick until cancelled.

pub mod enumeration;
pub mod monitor;
pub mod process;
pub mod report;
pub mod resolver;
pub mod sampler;
pub mod status;
