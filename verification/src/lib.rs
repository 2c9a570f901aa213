//! Host-status line generator: metric computation, classification and
//! formatting for a status-bar renderer.

pub mod bar;
pub mod clock;
pub mod formatter;
pub mod gpu;
pub mod metrics;
pub mod network;
pub mod numfmt;
pub mod render;
pub mod volume;
