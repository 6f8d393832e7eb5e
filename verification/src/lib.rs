//! Instrumentation for a cart-and-pendulum rig: a monotonic clock built on a
//! wrapping cycle counter, quadrature position tracking, velocity estimation,
//! and the priority rules under which interrupt handlers and the background
//! loop share that state.

pub mod angle;
pub mod arbiter;
pub mod background;
pub mod encoder;
pub mod encoders;
pub mod fault;
pub mod globals;
pub mod init;
pub mod interrupts;
pub mod scheduler;
pub mod telemetry;
pub mod time;
pub mod timing;
pub mod utils;
pub mod velocity;
