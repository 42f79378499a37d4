//! A leveled logging facade: a severity gate, a single replaceable
//! interception sink, a per-platform backend choice, and a hex-dump helper.
//!
//! The state lives in an explicit [`Logger`] context; emitting reports a
//! [`Delivery`] that tells the caller whether the backend has to write.

pub mod backend;
pub mod dispatch;
pub mod hex;
pub mod impls;
pub mod level;

pub use backend::{Backend, Channel};
pub use dispatch::{route, Delivery, Logger, Sink, TextView};
pub use hex::{format_hex, format_hex_with_colors, trace_hex, ColorHexView, ColorSpan, HexError};
pub use impls::{debug_impl, error_impl, info_impl, trace_impl, warn_impl};
pub use level::{Level, LevelFilter};
