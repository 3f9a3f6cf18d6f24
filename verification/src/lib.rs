//! A bridge that delivers arbitrarily long text through a host kernel's
//! byte sink, which accepts only small null-terminated buffers.
//!
//! The writer in [`printk`] carves a text into chunks of at most 63
//! payload bytes, stages each chunk with its terminator in a
//! fixed-capacity buffer, and hands the chunks over strictly in stream
//! order; [`chunks`] states and proves the partition laws. The shim in
//! [`fault`] renders a two-line diagnostic for an unrecoverable fault
//! through that writer before the host may abandon the process.

pub mod chunks;
pub mod decimal;
pub mod fault;
pub mod printk;
pub mod staging;
pub mod sum;
