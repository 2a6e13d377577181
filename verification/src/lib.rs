//! Frame-acquisition and pixel-format normalization for a single-shot screen
//! capture tool, together with the logic that reconciles two independent
//! window enumerations into one indexed listing.
//!
//! The library is organised leaf-first:
//! - [`pixels`]: normalizing a captured frame into canonical interleaved RGB;
//! - [`codec`]: encoding a canonical image into a compressed container and back;
//! - [`targets`]: partitioning the capture engine's target list into
//!   stably-indexed display and window lists, and resolving an index;
//! - [`correlate`]: joining the platform window table with the engine's
//!   capturable-window indices;
//! - [`capture`]: the single-frame capture session state machine and the
//!   normalize-then-encode pipeline;
//! - [`text`]: verified text formatting helpers;
//! - [`vision`]: the request body and outcome rules for the remote
//!   vision-model analysis step;
//! - [`ocr`]: model-file selection and line aggregation for the OCR step.
//!
//! All I/O (the capture engine, the platform window APIs, files, the network)
//! lives outside this crate; the library computes from and to plain values.

pub mod capture;
pub mod codec;
pub mod correlate;
pub mod pixels;
pub mod ocr;
pub mod targets;
pub mod text;
pub mod vision;
