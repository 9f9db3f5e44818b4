//! Hardware-abstraction layer for EtherCAT pulse-train-output terminals.
//!
//! The crate is built around a cyclic process-data codec: fixed-width,
//! bit-packed status and control objects are decoded from and encoded into
//! little-endian byte windows once per bus cycle.  On top of the codec sits a
//! channel abstraction that exposes unit-normalized command and status
//! snapshots per logical port and enforces the counter-reset handshake.

pub mod bits;
pub mod el252x;
pub mod el2522;
pub mod pdo;
pub mod pulse_train_output;
