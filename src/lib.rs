//! PMBus telemetry model: decoding of the LINEAR11 and LINEAR16 encodings,
//! the table of measurement points of a twin power-supply pair, and the
//! per-cycle walk over that table.
pub mod decode;
pub mod catalog;
pub mod walker;
