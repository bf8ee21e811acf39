//! Verified core of the HWP/HWPX document tool chain: the round-trip IR
//! comparison, the batch round-trip diagnostics, paint-operation vocabulary,
//! chart-render planning and the integer side of the column height cursor.

pub mod text;
pub mod model;
pub mod roundtrip;
pub mod hwpx_roundtrip_batch;
pub mod paint_op;
pub mod ole_chart;
pub mod height_cursor;
