//! A hardware-access layer for a memory-mapped, interrupt-driven embedded
//! device: typed volatile-address handles with compile-time read/write
//! capability gating, statically and dynamically sized aggregations of them,
//! bit-field register projections, a single-word atomic cell with a
//! guarded-acquire protocol, and an interrupt dispatch cell.

pub mod bg_charblock;
pub mod bios;
pub mod bits;
pub mod cell;
pub mod fixed_point;
pub mod irq;
pub mod mem;
pub mod palette;
pub mod terminal;
pub mod text_screenblock;
pub mod video;
pub mod vol;
pub mod volregion;
