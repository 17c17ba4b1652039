//! Core of a lightweight virtual-machine monitor: a token-bucket rate
//! limiter with a timer-fd wakeup protocol, a capability table for the
//! kernel virtualization interface, a guest-memory model, and the
//! VM / vCPU lifecycle engine over a pluggable hypervisor backend.

pub mod cap;
pub mod hypervisor;
pub mod memory;
pub mod rate_limiter;
pub mod vstate;
