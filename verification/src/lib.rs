//! Decision logic of a PWM control service for the Linux sysfs PWM class.
//!
//! The library performs no I/O. Every operation is a function of its
//! arguments and of the replies that the filesystem has given so far, and
//! says which access to make next or how the operation ended. Its caller
//! makes the access and asks again with one more reply.

pub mod codec;
pub mod decimal;
pub mod error;
pub mod model;
pub mod pwm;
pub mod resolve;
pub mod sysfs;
pub mod text;
pub mod theorems;

pub use crate::codec::{format_duration, parse_bool, parse_count, parse_duration, Polarity};
pub use crate::decimal::DecimalError;
pub use crate::error::{Access, Channel, Controller, IoFailure, PwmError};
pub use crate::resolve::Pwm;
pub use crate::sysfs::{Action, Reply, Step, MAX_ACCESSES};
