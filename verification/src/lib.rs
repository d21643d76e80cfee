//! Clock Control Unit (CCU) support for Allwinner SoCs.
//!
//! The crate models the CCU register block of the D1-family chips: the byte
//! layout of its registers, the bitfield encodings of the gating/reset and
//! clock-source/divider registers, and the ordered read-modify-write
//! sequences that bring a peripheral's clock into and out of operation.

pub mod ccu;
pub mod time;
