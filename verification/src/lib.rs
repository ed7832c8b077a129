//! Firmware table and protocol binding layer for a minimal pre-kernel loader.
//!
//! The library interprets raw, fixed-layout binary records published by
//! platform firmware (a root system table, a boot-services dispatch table, a
//! text-output service, a graphics-mode service, and a physical memory map)
//! and exposes typed, verified bindings over them.  Field offsets follow the
//! firmware ABI and are pinned down in the contracts of the layout accessors.

pub mod boot_services;
pub mod bytes_le;
pub mod console;
pub mod graphics;
pub mod guid;
pub mod header;
pub mod memory_map;
pub mod status;
pub mod system_table;
pub mod wide_text;
