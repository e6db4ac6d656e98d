//! Control-panel core for a two-rail voltage regulator: the register protocol
//! spoken to the power IC, the cache of its readings, and the cursor that lets
//! a person browse and edit the setpoints.
//!
//! The library decides and the caller acts. Nothing here touches a bus, a
//! display or a host link: an operation on the bus is a `protocol::Transfer`
//! for the caller to perform, a thing to draw is a `panel::Draw`, and what
//! the bus answered comes back in as plain bytes. Quantities are whole
//! numbers of thousandths of their unit throughout.

pub mod codec;
pub mod linear11;
pub mod linear16;
pub mod protocol;
pub mod cache;
pub mod geometry;
pub mod navigation;
pub mod panel;
